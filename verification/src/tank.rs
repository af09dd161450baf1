//! Tank sides and the pixel data of the scrolling track-band texture.

use vstd::prelude::*;

verus! {

/// Which side a tank fights for.
#[derive(Clone, Copy, Debug, PartialEq, Eq, Structural)]
pub enum Team {
    Player,
    Enemy,
}

/// Width and height, in pixels, of the repeating track-band texture.
pub const TREAD_SIZE: u32 = 8;

/// Byte `k` of the RGBA8 track texture, stored row by row: rows `y` with
/// `(y / 2) % 2 == 0` are the dark cleats `[34, 34, 38, 255]`, the others the
/// lighter band `[70, 70, 74, 255]`, giving stripes two pixels thick.
pub open spec fn tread_byte(k: int) -> u8 {
    let y = k / (4 * TREAD_SIZE as int);
    let channel = k % 4;
    let cleat = (y / 2) % 2 == 0;
    if channel == 3 {
        255u8
    } else if cleat {
        if channel == 2 { 38u8 } else { 34u8 }
    } else {
        if channel == 2 { 74u8 } else { 70u8 }
    }
}

/// The track texture is horizontal stripes two rows thick: every pixel is
/// opaque, all pixels of a row are the same, the two rows of a pair match, the
/// next pair differs, and the pattern starts with the dark cleat colour
/// `[34, 34, 38]`. Byte `k` belongs to row `k / 32`, column `(k / 4) % 8`,
/// channel `k % 4`.
pub proof fn lemma_tread_stripes(k: int)
    requires
        0 <= k < 4 * TREAD_SIZE * TREAD_SIZE,
    ensures
        k % 4 == 3 ==> tread_byte(k) == 255,
        tread_byte(k) == tread_byte(32 * (k / 32) + k % 4),
        (k / 32) % 2 == 0 && k + 32 < 256 ==> tread_byte(k + 32) == tread_byte(k),
        k % 4 != 3 && k + 64 < 256 ==> tread_byte(k + 64) != tread_byte(k),
        k < 32 ==> tread_byte(k) == (if k % 4 == 3 { 255u8 } else if k % 4 == 2 { 38u8 } else { 34u8 }),
{
    let y = k / 32;
    assert((32 * y + k % 4) / 32 == y && (32 * y + k % 4) % 4 == k % 4) by (nonlinear_arith)
        requires y == k / 32, 0 <= k;
    assert((k + 32) / 32 == y + 1 && (k + 32) % 4 == k % 4) by (nonlinear_arith)
        requires y == k / 32, 0 <= k;
    assert((k + 64) / 32 == y + 2 && (k + 64) % 4 == k % 4) by (nonlinear_arith)
        requires y == k / 32, 0 <= k;
    assert(((y + 1) / 2) % 2 == (y / 2) % 2 || y % 2 == 1) by (nonlinear_arith)
        requires y >= 0;
    assert(((y + 2) / 2) % 2 != (y / 2) % 2) by (nonlinear_arith)
        requires y >= 0;
}

/// The RGBA8 pixels of the small repeating stripe texture that reads as track
/// cleats on the band.
pub fn tread_pixels() -> (data: Vec<u8>)
    ensures
        data@.len() == 4 * TREAD_SIZE * TREAD_SIZE,
        forall|k: int| 0 <= k < data@.len() ==> #[trigger] data@[k] == tread_byte(k),
{
    let w = TREAD_SIZE;
    let h = TREAD_SIZE;
    let mut data: Vec<u8> = Vec::new();
    let mut y: u32 = 0;
    while y < h
        invariant
            w == TREAD_SIZE,
            h == TREAD_SIZE,
            y <= h,
            data@.len() == 4 * w * y,
            forall|k: int| 0 <= k < data@.len() ==> #[trigger] data@[k] == tread_byte(k),
        decreases h - y,
    {
        let mut x: u32 = 0;
        while x < w
            invariant
                w == TREAD_SIZE,
                h == TREAD_SIZE,
                y < h,
                x <= w,
                data@.len() == 4 * w * y + 4 * x,
                forall|k: int| 0 <= k < data@.len() ==> #[trigger] data@[k] == tread_byte(k),
            decreases w - x,
        {
            let cleat = (y / 2) % 2 == 0;
            let c: [u8; 4] = if cleat {
                [34, 34, 38, 255]
            } else {
                [70, 70, 74, 255]
            };
            let ghost start = data@.len() as int;
            data.push(c[0]);
            data.push(c[1]);
            data.push(c[2]);
            data.push(c[3]);
            proof {
                assert forall|k: int| 0 <= k < data@.len() implies #[trigger] data@[k] == tread_byte(k) by {
                    if k >= start {
                        assert(k / 32 == y as int) by (nonlinear_arith)
                            requires start == 32 * y + 4 * x, start <= k < start + 4, x < 8;
                        assert(k % 4 == k - start) by (nonlinear_arith)
                            requires start == 32 * y + 4 * x, start <= k < start + 4;
                    }
                }
            }
            x = x + 1;
        }
        proof {
            assert(4 * w * y + 4 * w == 4 * w * (y + 1)) by (nonlinear_arith);
        }
        y = y + 1;
    }
    data
}

} // verus!
