use vstd::prelude::*;

verus! {

/// A sample travels through the core as its raw IEEE 754 binary32 bit
/// pattern: a plain 32-bit word the verifier can reason about. The word
/// 0 is digital silence.
pub const SILENCE: u32 = 0;

/// The bits of an IEEE 754 binary32 value multiplied by one half, rounding
/// ties to even — the playback gain, expressed exactly on the sample word.
/// An exponent field of all ones (infinity or NaN) passes through unchanged;
/// a normal value with exponent at least two keeps its significand and loses
/// one from the exponent; the smallest normals and the subnormals halve
/// their 24-bit significand with round-to-nearest-even, which lands back in
/// the same encoding.
pub open spec fn half_word(w: u32) -> u32 {
    let sign = w & 0x8000_0000;
    let exp = (w >> 23) & 0xFF;
    if exp == 0xFF {
        w
    } else if exp >= 2 {
        sign | (((exp - 1) as u32) << 23) | (w & 0x007F_FFFF)
    } else {
        let t = w & 0x00FF_FFFF;
        sign | (((t >> 1) + ((t & 1) & ((t >> 1) & 1))) as u32)
    }
}

/// Multiply one sample word by the fixed playback gain of one half.
pub fn scale_half(w: u32) -> (r: u32)
    ensures
        r == half_word(w),
{
    let sign = w & 0x8000_0000;
    let exp = (w >> 23) & 0xFF;
    if exp == 0xFF {
        w
    } else if exp >= 2 {
        sign | ((exp - 1) << 23) | (w & 0x007F_FFFF)
    } else {
        let t = w & 0x00FF_FFFF;
        proof {
            assert(((w & 0x00FF_FFFF) >> 1) + (((w & 0x00FF_FFFF) & 1) & (((w & 0x00FF_FFFF) >> 1)
                & 1)) <= 0x00FF_FFFF) by (bit_vector);
        }
        sign | ((t >> 1) + ((t & 1) & ((t >> 1) & 1)))
    }
}

} // verus!
