//! One-wire LED protocol emulated over a 16-bit synchronous serial word.
//!
//! Each protocol bit becomes four serial sub-slots: `1110` for a one (long
//! high) and `1000` for a zero (short high). A nibble of protocol data fills
//! one 16-bit word, most significant bit in the most significant lane.

use vstd::prelude::*;
use crate::color::{hsv_rgb, rgb_from_hsv};

verus! {

/// Sub-slot pattern of a protocol one.
pub const ONE_PATTERN: u16 = 0b1110;

/// Sub-slot pattern of a protocol zero.
pub const ZERO_PATTERN: u16 = 0b1000;

/// Number of all-zero words sent to latch a frame.
pub const RESET_WORDS: usize = 4;

/// Hue step between neighbouring pixels of the animation.
pub const HUE_STEP: u8 = 8;

/// Hue advance of the animation from one frame to the next.
pub const FRAME_STEP: u8 = 10;

/// The four sub-slots that carry one protocol bit.
pub open spec fn bit_pattern(bit: bool) -> int {
    if bit {
        0b1110
    } else {
        0b1000
    }
}

/// Bit `k` of `n`.
pub open spec fn bit_of(n: u8, k: nat) -> bool {
    (n as int / vstd::arithmetic::power2::pow2(k) as int) % 2 == 1
}

/// The word that carries the low nibble of `n`: the patterns of bits 3, 2, 1
/// and 0 of `n`, concatenated from the most significant lane down.
pub open spec fn nibble_word(n: u8) -> int {
    bit_pattern(bit_of(n, 3)) * 0x1000 + bit_pattern(bit_of(n, 2)) * 0x100 + bit_pattern(
        bit_of(n, 1),
    ) * 0x10 + bit_pattern(bit_of(n, 0))
}

/// The six words of one pixel, in wire order: green, red, blue, each high
/// nibble before low nibble.
pub open spec fn pixel_words(r: u8, g: u8, b: u8) -> Seq<u16> {
    seq![
        nibble_word(g / 16) as u16,
        nibble_word(g) as u16,
        nibble_word(r / 16) as u16,
        nibble_word(r) as u16,
        nibble_word(b / 16) as u16,
        nibble_word(b) as u16,
    ]
}

/// The latch sequence: four all-zero words.
pub open spec fn reset_words() -> Seq<u16> {
    seq![0u16, 0u16, 0u16, 0u16]
}

/// Hue of pixel `j` in a frame whose first pixel has hue `offset`.
pub open spec fn pixel_hue(offset: u8, j: int) -> u8 {
    ((offset + j * 8) % 256) as u8
}

/// The words of the first `n` pixels of a frame at hue `offset`, each at full
/// saturation and value.
pub open spec fn strip_words(offset: u8, n: nat) -> Seq<u16>
    decreases n,
{
    if n == 0 {
        Seq::empty()
    } else {
        let (r, g, b) = hsv_rgb(pixel_hue(offset, n - 1), 255, 255);
        strip_words(offset, (n - 1) as nat) + pixel_words(r, g, b)
    }
}

/// A whole frame: the latch sequence, then `len` pixels.
pub open spec fn frame_words(offset: u8, len: nat) -> Seq<u16> {
    reset_words() + strip_words(offset, len)
}

/// Sub-slot pattern of one protocol bit.
pub fn bit_val(bit: bool) -> (r: u16)
    ensures
        r as int == bit_pattern(bit),
{
    if bit {
        ONE_PATTERN
    } else {
        ZERO_PATTERN
    }
}

proof fn lemma_bits_of_u8(n: u8)
    ensures
        bit_of(n, 0) == (n & 1 != 0),
        bit_of(n, 1) == (n & 2 != 0),
        bit_of(n, 2) == (n & 4 != 0),
        bit_of(n, 3) == (n & 8 != 0),
{
    vstd::arithmetic::power2::lemma2_to64();
    assert(n & 1 != 0 <==> n % 2 == 1) by (bit_vector);
    assert(n & 2 != 0 <==> (n / 2) % 2 == 1) by (bit_vector);
    assert(n & 4 != 0 <==> (n / 4) % 2 == 1) by (bit_vector);
    assert(n & 8 != 0 <==> (n / 8) % 2 == 1) by (bit_vector);
}

/// The word carrying the low nibble of `n`; the high nibble of `n` is ignored.
pub fn nibble_val(n: u8) -> (r: u16)
    ensures
        r as int == nibble_word(n),
{
    proof {
        lemma_bits_of_u8(n);
    }
    let l3 = bit_val(n & 8 != 0);
    let l2 = bit_val(n & 4 != 0);
    let l1 = bit_val(n & 2 != 0);
    let l0 = bit_val(n & 1 != 0);
    let data = (l3 << 12u16) | (l2 << 8u16) | (l1 << 4u16) | l0;
    assert(data == l3 * 0x1000 + l2 * 0x100 + l1 * 0x10 + l0) by (bit_vector)
        requires
            l3 < 16,
            l2 < 16,
            l1 < 16,
            l0 < 16,
            data == (l3 << 12u16) | (l2 << 8u16) | (l1 << 4u16) | l0,
    ;
    data
}

/// Each of the four 4-bit lanes of a nibble's word, lane 3 the most
/// significant, holds the pattern of the nibble's bit of the same rank, and
/// the word fits in 16 bits.
pub proof fn lemma_nibble_lanes(n: u8)
    ensures
        0 <= nibble_word(n) < 0x10000,
        nibble_word(n) / 0x1000 == bit_pattern(bit_of(n, 3)),
        (nibble_word(n) / 0x100) % 0x10 == bit_pattern(bit_of(n, 2)),
        (nibble_word(n) / 0x10) % 0x10 == bit_pattern(bit_of(n, 1)),
        nibble_word(n) % 0x10 == bit_pattern(bit_of(n, 0)),
{
    let p3 = bit_pattern(bit_of(n, 3));
    let p2 = bit_pattern(bit_of(n, 2));
    let p1 = bit_pattern(bit_of(n, 1));
    let p0 = bit_pattern(bit_of(n, 0));
    assert(p3 == 8 || p3 == 14);
    assert(p2 == 8 || p2 == 14);
    assert(p1 == 8 || p1 == 14);
    assert(p0 == 8 || p0 == 14);
}

/// Appends the six words of one pixel to `out`, in wire order.
pub fn tx_rgb(out: &mut Vec<u16>, r: u8, g: u8, b: u8)
    ensures
        final(out)@ == old(out)@ + pixel_words(r, g, b),
{
    let gh = g >> 4u8;
    let rh = r >> 4u8;
    let bh = b >> 4u8;
    assert(gh == g / 16 && rh == r / 16 && bh == b / 16) by (bit_vector)
        requires
            gh == g >> 4u8,
            rh == r >> 4u8,
            bh == b >> 4u8,
    ;
    out.push(nibble_val(gh));
    out.push(nibble_val(g));
    out.push(nibble_val(rh));
    out.push(nibble_val(r));
    out.push(nibble_val(bh));
    out.push(nibble_val(b));
    assert(out@ =~= old(out)@ + pixel_words(r, g, b));
}

/// Appends the latch sequence to `out`.
pub fn reset(out: &mut Vec<u16>)
    ensures
        final(out)@ == old(out)@ + reset_words(),
{
    let mut i: usize = 0;
    while i < RESET_WORDS
        invariant
            i <= RESET_WORDS,
            out@ == old(out)@ + Seq::new(i as nat, |k: int| 0u16),
        decreases RESET_WORDS - i,
    {
        out.push(0);
        i = i + 1;
        assert(out@ =~= old(out)@ + Seq::new(i as nat, |k: int| 0u16));
    }
    assert(Seq::new(4, |k: int| 0u16) =~= reset_words());
}

/// The words of one animation frame: the latch sequence, then `len` pixels
/// whose hues start at `offset` and step by 8 around the hue circle.
pub fn frame(offset: u8, len: usize) -> (words: Vec<u16>)
    ensures
        words@ == frame_words(offset, len as nat),
{
    let mut words: Vec<u16> = Vec::new();
    reset(&mut words);
    let mut hue: u8 = offset;
    let mut j: usize = 0;
    while j < len
        invariant
            j <= len,
            hue == pixel_hue(offset, j as int),
            words@ == reset_words() + strip_words(offset, j as nat),
        decreases len - j,
    {
        let (r, g, b) = rgb_from_hsv(hue, 255, 255);
        tx_rgb(&mut words, r, g, b);
        assert(strip_words(offset, (j + 1) as nat) == strip_words(offset, j as nat) + pixel_words(
            r,
            g,
            b,
        ));
        assert(words@ =~= reset_words() + strip_words(offset, (j + 1) as nat));
        hue = ((hue as u16 + HUE_STEP as u16) % 256) as u8;
        proof {
            vstd::arithmetic::div_mod::lemma_add_mod_noop(offset + j * 8, 8, 256);
        }
        j = j + 1;
    }
    words
}

/// Hue offset of the frame after one with offset `offset`.
pub fn next_offset(offset: u8) -> (r: u8)
    ensures
        r as int == (offset + 10) % 256,
{
    ((offset as u16 + FRAME_STEP as u16) % 256) as u8
}

} // verus!
