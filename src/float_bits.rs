use vstd::prelude::*;

verus! {

/// The value of the 11-bit exponent field that marks infinities and NaNs.
pub const EXPONENT_ALL_ONES: u64 = 0x7ff;

/// The biased exponent field of a binary64 bit pattern.
pub open spec fn exponent_field(bits: u64) -> u64 {
    (bits >> 52u64) & 0x7ffu64
}

/// A binary64 value is finite exactly when its exponent field is not all ones.
pub open spec fn is_finite_bits(bits: u64) -> bool {
    exponent_field(bits) != EXPONENT_ALL_ONES
}

/// Whether the binary64 value with bit pattern `bits` is finite
/// (neither an infinity nor a NaN).
pub fn is_finite(bits: u64) -> (r: bool)
    ensures
        r == is_finite_bits(bits),
{
    (bits >> 52u64) & 0x7ffu64 != EXPONENT_ALL_ONES
}

/// Every bit of a binary64 pattern but the sign bit.
pub const MAGNITUDE_MASK: u64 = 0x7fff_ffff_ffff_ffff;

/// A binary64 value compares equal to zero exactly when it is `+0.0` or
/// `-0.0`, that is when every bit but the sign bit is clear.
pub open spec fn is_zero_bits(bits: u64) -> bool {
    bits & MAGNITUDE_MASK == 0
}

/// Whether the binary64 value with bit pattern `bits` compares equal to zero.
pub fn is_zero(bits: u64) -> (r: bool)
    ensures
        r == is_zero_bits(bits),
{
    bits & MAGNITUDE_MASK == 0
}

} // verus!
