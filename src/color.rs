//! Integer HSV to RGB conversion on a 256-step hue circle.
//!
//! The conversion keeps the chroma and the secondary channel only: the usual
//! `value - chroma` offset is not added, so a colour below full saturation
//! comes out darker than in the textbook model, and zero saturation gives
//! black.

use vstd::prelude::*;

verus! {

/// Width of one of the six hue sectors: 256 / 6 rounded up.
pub const SECTOR_WIDTH: i32 = 43;

/// The chroma of a colour: `value * saturation / 255`, rounded.
pub open spec fn chroma(s: u8, v: u8) -> int {
    (v * s + 255) / 256
}

/// Intensity of the secondary channel: a triangular wave over hue, two sectors
/// long, scaled by the chroma.
pub open spec fn secondary(h: u8, c: int) -> int {
    let d = (h % 86) * 6 - 256;
    let dist = if d < 0 { -d } else { d };
    (c * (256 - dist)) / 256
}

/// The RGB triple for hue `h`, saturation `s` and value `v`.
pub open spec fn hsv_rgb(h: u8, s: u8, v: u8) -> (u8, u8, u8) {
    let c = chroma(s, v) as u8;
    let x = secondary(h, chroma(s, v)) as u8;
    if h < 43 {
        (c, x, 0)
    } else if h < 86 {
        (x, c, 0)
    } else if h < 129 {
        (0, c, x)
    } else if h < 172 {
        (0, x, c)
    } else if h < 215 {
        (x, 0, c)
    } else {
        (c, 0, x)
    }
}

/// Converts an HSV colour to RGB.
pub fn rgb_from_hsv(h: u8, s: u8, v: u8) -> (r: (u8, u8, u8))
    ensures
        r == hsv_rgb(h, s, v),
{
    assert(0 <= (v as int) * (s as int) <= 255 * 255) by (nonlinear_arith);
    let c: i32 = ((v as i32) * (s as i32) + 0xff) / 256;
    assert(c == chroma(s, v));
    assert(0 <= c <= 255);

    let side_len: i32 = SECTOR_WIDTH;
    let h = h as i32;

    let d: i32 = (h % (side_len * 2)) * 6 - 0x100;
    let dist: i32 = if d < 0 {
        -d
    } else {
        d
    };
    assert(0 <= dist <= 256);
    assert(0 <= c * (0x100 - dist) <= 255 * 256) by (nonlinear_arith)
        requires
            0 <= c <= 255,
            0 <= dist <= 256,
    ;
    let x: i32 = (c * (0x100 - dist)) / 256;
    assert(0 <= x <= 255);

    let c = c as u8;
    let x = x as u8;

    if h < side_len {
        (c, x, 0)
    } else if h < side_len * 2 {
        (x, c, 0)
    } else if h < side_len * 3 {
        (0, c, x)
    } else if h < side_len * 4 {
        (0, x, c)
    } else if h < side_len * 5 {
        (x, 0, c)
    } else {
        (c, 0, x)
    }
}

/// A colour of zero value is black, whatever its hue and saturation.
pub proof fn lemma_zero_value_is_black(h: u8, s: u8)
    ensures
        hsv_rgb(h, s, 0) == (0u8, 0u8, 0u8),
{
    assert(chroma(s, 0) == 0);
    assert(secondary(h, 0) == 0);
}

} // verus!
