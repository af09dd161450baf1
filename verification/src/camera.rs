//! Discrete zoom levels of the isometric orbit camera.

use vstd::prelude::*;

verus! {

/// Number of discrete zoom steps: level 0 is the closest, level
/// `ZOOM_LEVELS - 1` the farthest.
pub const ZOOM_LEVELS: usize = 10;

/// The zoom level the camera starts at.
pub const DEFAULT_ZOOM_LEVEL: usize = 3;

/// The level reached from `level` after `notches` zoom notches: each positive
/// notch zooms in one level (toward 0, stopping there), each negative notch
/// zooms out one level (stopping at the farthest level).
pub open spec fn stepped_zoom(level: int, notches: int) -> int {
    if notches > 0 {
        if notches >= level {
            0
        } else {
            level - notches
        }
    } else if notches < 0 {
        if level - notches > ZOOM_LEVELS - 1 {
            ZOOM_LEVELS - 1
        } else {
            level - notches
        }
    } else {
        level
    }
}

/// Applies `notches` whole zoom notches (positive zooms in) to a zoom level.
pub fn step_zoom(level: usize, notches: i32) -> (next: usize)
    ensures
        next == stepped_zoom(level as int, notches as int),
        level < ZOOM_LEVELS ==> next < ZOOM_LEVELS,
        notches > 0 && notches < level ==> next == level - notches,
        notches > 0 && notches >= level ==> next == 0,
        notches < 0 && level - notches <= ZOOM_LEVELS - 1 ==> next == level - notches,
        notches < 0 && level - notches > ZOOM_LEVELS - 1 ==> next == ZOOM_LEVELS - 1,
        notches == 0 ==> next == level,
{
    if notches > 0 {
        let n = notches as usize;
        if n >= level {
            0
        } else {
            level - n
        }
    } else if notches < 0 {
        let n = (-(notches as i64)) as u64;
        if level >= ZOOM_LEVELS - 1 || n >= (ZOOM_LEVELS - 1 - level) as u64 {
            ZOOM_LEVELS - 1
        } else {
            level + n as usize
        }
    } else {
        level
    }
}

/// Zooming in always moves toward the closest level: from any level above 0,
/// `notches > 0` notches land exactly `notches` levels closer, or on level 0 if
/// there are not that many levels left. In particular one notch in from the
/// farthest level reaches the level just below it.
pub proof fn lemma_zoom_in_moves_closer(level: int, notches: int)
    requires
        0 < level < ZOOM_LEVELS,
        notches > 0,
    ensures
        stepped_zoom(level, notches) < level,
        notches < level ==> stepped_zoom(level, notches) == level - notches,
        notches >= level ==> stepped_zoom(level, notches) == 0,
        stepped_zoom(level, 1) == level - 1,
        stepped_zoom(ZOOM_LEVELS - 1, 1) == ZOOM_LEVELS - 2,
{
}

/// Zooming out always moves toward the farthest level: from any level below
/// it, `notches < 0` notches land exactly `-notches` levels farther, or on the
/// farthest level if there are not that many levels left.
pub proof fn lemma_zoom_out_moves_farther(level: int, notches: int)
    requires
        0 <= level < ZOOM_LEVELS - 1,
        notches < 0,
    ensures
        stepped_zoom(level, notches) > level,
        level - notches <= ZOOM_LEVELS - 1 ==> stepped_zoom(level, notches) == level - notches,
        level - notches > ZOOM_LEVELS - 1 ==> stepped_zoom(level, notches) == ZOOM_LEVELS - 1,
        stepped_zoom(level, -1) == level + 1,
        stepped_zoom(0, -1) == 1,
{
}

/// Zooming by `a` notches and then by `b` notches in the same direction lands
/// on the same level as zooming by `a + b` notches at once.
pub proof fn lemma_zoom_steps_add(level: int, a: int, b: int)
    requires
        0 <= level < ZOOM_LEVELS,
        (a >= 0 && b >= 0) || (a <= 0 && b <= 0),
    ensures
        stepped_zoom(stepped_zoom(level, a), b) == stepped_zoom(level, a + b),
{
}

/// Zooming in by some notches and back out by the same number returns to the
/// starting level, unless the closest level was reached on the way in.
pub proof fn lemma_zoom_in_out(level: int, n: int)
    requires
        0 <= level < ZOOM_LEVELS,
        0 <= n <= level,
    ensures
        stepped_zoom(stepped_zoom(level, n), -n) == level,
{
}

} // verus!
