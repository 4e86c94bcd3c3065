//! Packed ARGB colours as the browser stores them, and their channels.

use vstd::prelude::*;

verus! {

/// The byte of `packed` that lies `shift` bits above its lowest bit, for a
/// shift that is a multiple of eight below 32: the packed value divided by
/// two to the shift, modulo 256 (Euclidean, so that a negative packed value
/// reads as its two's complement).
pub open spec fn channel(packed: int, shift: int) -> int {
    if shift == 24 {
        (packed / 0x100_0000) % 256
    } else if shift == 16 {
        (packed / 0x1_0000) % 256
    } else if shift == 8 {
        (packed / 0x100) % 256
    } else {
        packed % 256
    }
}

/// The channels of a packed ARGB colour, laid out as `[R, G, B, A]`.
pub open spec fn argb_channels(packed: int) -> Seq<u8> {
    seq![
        channel(packed, 16) as u8,
        channel(packed, 8) as u8,
        channel(packed, 0) as u8,
        channel(packed, 24) as u8,
    ]
}

/// Splits a packed ARGB colour (`A << 24 | R << 16 | G << 8 | B`) into its
/// channels, laid out as `[R, G, B, A]`. Bits above the low 32 are ignored.
pub fn decode_argb(packed: i64) -> (rgba: [u8; 4])
    ensures
        rgba@ == argb_channels(packed as int),
{
    let a: i64 = (packed >> 24) & 0xff;
    let r: i64 = (packed >> 16) & 0xff;
    let g: i64 = (packed >> 8) & 0xff;
    let b: i64 = packed & 0xff;
    assert(0 <= a < 256 && a == (packed as int / 0x100_0000) % 256) by (bit_vector)
        requires
            a == (packed >> 24) & 0xff,
    ;
    assert(0 <= r < 256 && r == (packed as int / 0x1_0000) % 256) by (bit_vector)
        requires
            r == (packed >> 16) & 0xff,
    ;
    assert(0 <= g < 256 && g == (packed as int / 0x100) % 256) by (bit_vector)
        requires
            g == (packed >> 8) & 0xff,
    ;
    assert(0 <= b < 256 && b == (packed as int) % 256) by (bit_vector)
        requires
            b == packed & 0xff,
    ;
    let rgba: [u8; 4] = [r as u8, g as u8, b as u8, a as u8];
    rgba
}

} // verus!
