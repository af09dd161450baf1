//! Device-agnostic input helpers.

use vstd::prelude::*;

verus! {

/// A digital axis from a pair of keys: +1 when only `pos` is held, -1 when
/// only `neg` is held, and 0 when neither or both are.
pub fn key_axis(neg: bool, pos: bool) -> (axis: i32)
    ensures
        axis == (if pos { 1i32 } else { 0i32 }) - (if neg { 1i32 } else { 0i32 }),
        -1 <= axis <= 1,
{
    let p: i32 = if pos { 1 } else { 0 };
    let n: i32 = if neg { 1 } else { 0 };
    p - n
}

/// What releasing the left button ends: a click at a point, or a finished
/// drag box between the press point and the release point.
#[derive(Debug, PartialEq, Eq)]
pub enum Gesture<P> {
    Click(P),
    Box(P, P),
}

/// Mouse click-versus-drag tracking (used for box selection), generic over
/// how a screen point is represented. A press becomes a drag once the pointer
/// has moved far enough from where it went down, and stays a drag until the
/// button is released.
pub struct PointerDrag<P> {
    down_at: Option<P>,
    dragging: bool,
}

impl<P> View for PointerDrag<P> {
    type V = (Option<P>, bool);

    /// `(where the button went down, whether the press has become a drag)`.
    closed spec fn view(&self) -> (Option<P>, bool) {
        (self.down_at, self.dragging)
    }
}

impl<P: Copy> PointerDrag<P> {
    /// No button held.
    pub fn new() -> (d: Self)
        ensures
            d@ == (None::<P>, false),
    {
        PointerDrag { down_at: None, dragging: false }
    }

    /// Where the button went down, if it is held.
    pub fn down_at(&self) -> (p: Option<P>)
        ensures
            p == self@.0,
    {
        self.down_at
    }

    /// The button was pressed this frame with the pointer at `cursor`.
    pub fn press(&mut self, cursor: Option<P>)
        ensures
            final(self)@ == (cursor, false),
    {
        self.down_at = cursor;
        self.dragging = false;
    }

    /// The button is held with the pointer at `cursor`; `moved_far` says
    /// whether the pointer is beyond the drag threshold from the press point.
    /// Returns the live drag box `(press point, pointer)` while dragging.
    pub fn hold(&mut self, cursor: Option<P>, moved_far: bool) -> (drag: Option<(P, P)>)
        ensures
            final(self)@.0 == old(self)@.0,
            final(self)@.1 == (old(self)@.1 || (old(self)@.0 is Some && cursor is Some && moved_far)),
            drag == (if old(self)@.0 is Some && cursor is Some && final(self)@.1 {
                Some((old(self)@.0.unwrap(), cursor.unwrap()))
            } else {
                None
            }),
    {
        match (self.down_at, cursor) {
            (Some(start), Some(now)) => {
                if moved_far {
                    self.dragging = true;
                }
                if self.dragging {
                    Some((start, now))
                } else {
                    None
                }
            },
            _ => None,
        }
    }

    /// The button was released with the pointer at `cursor` (or off-window).
    /// A press that never became a drag is a click where it was released; a
    /// drag yields its finished box. Either way the press is over.
    pub fn release(&mut self, cursor: Option<P>) -> (gesture: Option<Gesture<P>>)
        ensures
            final(self)@ == (None::<P>, false),
            gesture == (match old(self)@.0 {
                None => None,
                Some(start) => {
                    let end = match cursor {
                        Some(c) => c,
                        None => start,
                    };
                    if old(self)@.1 {
                        Some(Gesture::Box(start, end))
                    } else {
                        Some(Gesture::Click(end))
                    }
                },
            }),
    {
        let gesture = match self.down_at {
            None => None,
            Some(start) => {
                let end = match cursor {
                    Some(c) => c,
                    None => start,
                };
                if self.dragging {
                    Some(Gesture::Box(start, end))
                } else {
                    Some(Gesture::Click(end))
                }
            },
        };
        self.down_at = None;
        self.dragging = false;
        gesture
    }
}

/// One registered tap: `(tap now waiting for a partner, completed double-tap)`
/// from the tap that was waiting, the new tap, and whether the new tap pairs
/// with the waiting one.
pub open spec fn tap_step<T>(waiting: Option<T>, tap: T, pairs: bool) -> (Option<T>, Option<T>) {
    if waiting is Some && pairs {
        (None, Some(tap))
    } else {
        (Some(tap), None)
    }
}

/// Double-tap detection on the battlefield, generic over how a tap (its
/// position and time) is represented. A tap that pairs with the previous
/// unpaired tap (soon enough and close enough) designates; a designating tap
/// does not start a new pair.
pub struct TapTracker<T> {
    last_tap: Option<T>,
}

impl<T> View for TapTracker<T> {
    type V = Option<T>;

    /// The previous tap still waiting for a partner.
    closed spec fn view(&self) -> Option<T> {
        self.last_tap
    }
}

impl<T: Copy> TapTracker<T> {
    /// No tap waiting.
    pub fn new() -> (t: Self)
        ensures
            t@ is None,
    {
        TapTracker { last_tap: None }
    }

    /// The previous tap still waiting for a partner.
    pub fn last_tap(&self) -> (t: Option<T>)
        ensures
            t == self@,
    {
        self.last_tap
    }

    /// Registers a tap; `pairs_with_last` says whether it is soon enough after
    /// and close enough to the waiting tap. Returns the tap when it completes a
    /// double-tap.
    pub fn tap(&mut self, tap: T, pairs_with_last: bool) -> (double: Option<T>)
        ensures
            (final(self)@, double) == tap_step(old(self)@, tap, pairs_with_last),
            double is None ==> final(self)@ == Some(tap),
            double is Some ==> double == Some(tap) && final(self)@ is None,
            double is Some <==> (old(self)@ is Some && pairs_with_last),
    {
        if self.last_tap.is_some() && pairs_with_last {
            self.last_tap = None;
            return Some(tap);
        }
        self.last_tap = Some(tap);
        None
    }
}

/// A tap either completes a double-tap with the waiting tap, or becomes the
/// waiting tap itself; it is never dropped. A tap completes a double-tap exactly
/// when a tap was waiting and the new one pairs with it, and the double-tap is
/// reported at the new tap.
pub proof fn lemma_tap_kept_or_designates<T>(waiting: Option<T>, tap: T, pairs: bool)
    ensures
        tap_step(waiting, tap, pairs).1 is None ==> tap_step(waiting, tap, pairs).0 == Some(tap),
        tap_step(waiting, tap, pairs).1 is Some <==> (waiting is Some && pairs),
        tap_step(waiting, tap, pairs).1 is Some ==> tap_step(waiting, tap, pairs).1 == Some(tap)
            && tap_step(waiting, tap, pairs).0 is None,
{
}

/// Two taps that pair make a double-tap: after a tap that did not designate,
/// a second tap that pairs with it designates at the second tap, whatever was
/// waiting before the first.
pub proof fn lemma_double_tap_designates<T>(waiting: Option<T>, first: T, pairs_first: bool, second: T)
    requires
        tap_step(waiting, first, pairs_first).1 is None,
    ensures
        tap_step(tap_step(waiting, first, pairs_first).0, second, true).1 == Some(second),
{
}

/// The tap right after a double-tap never completes another double-tap: a
/// triple tap designates once, not twice.
pub proof fn lemma_triple_tap_designates_once<T>(waiting: Option<T>, first: T, second: T, pairs_first: bool, pairs_second: bool)
    requires
        tap_step(waiting, first, pairs_first).1 is Some,
    ensures
        tap_step(tap_step(waiting, first, pairs_first).0, second, pairs_second).1 is None,
{
}

} // verus!
