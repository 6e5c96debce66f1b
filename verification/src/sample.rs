//! Audio samples as IEEE 754 single-precision bit patterns.

use vstd::prelude::*;

verus! {

/// Bit pattern of the sample `+0.0`.
pub const SILENCE: u32 = 0;

/// The sign bit of a single-precision number.
pub const SIGN_BIT: u32 = 0x8000_0000;

/// The eight exponent bits of a single-precision number.
pub const EXPONENT_MASK: u32 = 0x7f80_0000;

/// The twenty-three fraction bits of a single-precision number.
pub const FRACTION_MASK: u32 = 0x007f_ffff;

/// The sign bit is set (negative numbers, `-0.0`, and NaNs that carry a sign).
pub open spec fn sign_set(bits: u32) -> bool {
    bits & SIGN_BIT != 0
}

/// The pattern encodes a NaN: all exponent bits set and a non-zero fraction.
pub open spec fn is_nan(bits: u32) -> bool {
    bits & EXPONENT_MASK == EXPONENT_MASK && bits & FRACTION_MASK != 0
}

/// The pattern encodes a finite number: neither an infinity nor a NaN.
pub open spec fn is_finite(bits: u32) -> bool {
    bits & EXPONENT_MASK != EXPONENT_MASK
}

/// The pattern encodes a number that is zero or greater: no NaN, no sign.
pub open spec fn is_non_negative(bits: u32) -> bool {
    !is_nan(bits) && !sign_set(bits)
}

/// Every sample of the sequence is finite.
pub open spec fn all_finite(samples: Seq<u32>) -> bool {
    forall|i: int| 0 <= i < samples.len() ==> is_finite(#[trigger] samples[i])
}

/// The absolute value: the same pattern with the sign bit cleared.
pub open spec fn spec_magnitude(bits: u32) -> u32 {
    bits & !SIGN_BIT
}

/// The greater of the number and `+0.0`, where a NaN counts as missing:
/// NaNs and everything with a sign become `+0.0`, all else is kept.
pub open spec fn spec_clamp_non_negative(bits: u32) -> u32 {
    if is_nan(bits) || sign_set(bits) {
        SILENCE
    } else {
        bits
    }
}

/// The absolute value, where a NaN counts as missing: a NaN becomes
/// `+0.0`, all else loses its sign.
pub open spec fn spec_magnitude_or_zero(bits: u32) -> u32 {
    if is_nan(bits) {
        SILENCE
    } else {
        spec_magnitude(bits)
    }
}

/// Absolute value of a sample.
pub fn magnitude(bits: u32) -> (out: u32)
    ensures
        out == spec_magnitude(bits),
        !sign_set(out),
        is_nan(out) == is_nan(bits),
        is_finite(out) == is_finite(bits),
{
    let out: u32 = bits & !SIGN_BIT;
    assert((bits & !0x8000_0000u32) & 0x8000_0000u32 == 0) by (bit_vector);
    assert((bits & !0x8000_0000u32) & 0x7f80_0000u32 == bits & 0x7f80_0000u32) by (bit_vector);
    assert((bits & !0x8000_0000u32) & 0x007f_ffffu32 == bits & 0x007f_ffffu32) by (bit_vector);
    out
}

/// Tells whether the pattern is a NaN.
pub fn nan(bits: u32) -> (out: bool)
    ensures
        out == is_nan(bits),
{
    bits & EXPONENT_MASK == EXPONENT_MASK && bits & FRACTION_MASK != 0
}

/// Raises a sample to at least `+0.0`.
pub fn clamp_non_negative(bits: u32) -> (out: u32)
    ensures
        out == spec_clamp_non_negative(bits),
        is_non_negative(out),
        is_non_negative(bits) ==> out == bits,
{
    assert(0u32 & 0x8000_0000u32 == 0 && 0u32 & 0x007f_ffffu32 == 0) by (bit_vector);
    if nan(bits) || bits & SIGN_BIT != 0 {
        SILENCE
    } else {
        bits
    }
}

/// Absolute value of a sample that is a number, `+0.0` for a NaN.
pub fn magnitude_or_zero(bits: u32) -> (out: u32)
    ensures
        out == spec_magnitude_or_zero(bits),
        is_non_negative(out),
        is_non_negative(bits) ==> out == bits,
{
    assert(0u32 & 0x8000_0000u32 == 0 && 0u32 & 0x007f_ffffu32 == 0) by (bit_vector);
    assert(bits & 0x8000_0000u32 == 0 ==> bits & !0x8000_0000u32 == bits) by (bit_vector);
    if nan(bits) {
        SILENCE
    } else {
        magnitude(bits)
    }
}

/// One stereo frame of the host's interleaved audio.
#[derive(Clone, Copy, Debug)]
pub struct Frame {
    pub left: u32,
    pub right: u32,
}

/// The frame that carries one mono sample on both channels.
pub open spec fn spec_duplicate(sample: u32) -> Frame {
    Frame { left: sample, right: sample }
}

/// Mono-to-stereo duplication of one sample.
pub fn duplicate(sample: u32) -> (frame: Frame)
    ensures
        frame == spec_duplicate(sample),
{
    Frame { left: sample, right: sample }
}

} // verus!
