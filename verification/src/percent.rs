//! Percentages are carried as the bit pattern of an IEEE-754 single-precision
//! number, so that the normalisation rules can be stated and checked exactly.

use vstd::prelude::*;

verus! {

/// Bit pattern of `+0.0`.
pub const PERCENT_ZERO: u32 = 0;

/// Bit pattern of `100.0`.
pub const PERCENT_HUNDRED: u32 = 0x42c8_0000;

/// The sign bit of a single-precision number.
pub const SIGN_BIT: u32 = 0x8000_0000;

/// Bit pattern of `+infinity`; magnitudes above it are NaNs.
pub const INFINITY_BITS: u32 = 0x7f80_0000;

/// The bits of a single-precision number without its sign.
pub open spec fn magnitude(bits: u32) -> int {
    bits as int % 0x8000_0000
}

/// The number is a NaN.
pub open spec fn is_nan(bits: u32) -> bool {
    magnitude(bits) > INFINITY_BITS
}

/// The number is strictly below zero (`-0.0` is not).
pub open spec fn is_below_zero(bits: u32) -> bool {
    &&& bits >= SIGN_BIT
    &&& !is_nan(bits)
    &&& magnitude(bits) != 0
}

/// The number is strictly above one hundred.
pub open spec fn is_above_hundred(bits: u32) -> bool {
    &&& bits < SIGN_BIT
    &&& !is_nan(bits)
    &&& bits > PERCENT_HUNDRED
}

/// The number lies in `0.0 ..= 100.0` (either zero counts).
pub open spec fn is_percent(bits: u32) -> bool {
    !is_nan(bits) && !is_below_zero(bits) && !is_above_hundred(bits)
}

/// `x.clamp(0.0, 100.0)` on the bit pattern of `x`: values below the range
/// become `0.0`, values above it become `100.0`, everything else (NaN included)
/// is kept.
pub open spec fn clamped(bits: u32) -> u32 {
    if is_below_zero(bits) {
        PERCENT_ZERO
    } else if is_above_hundred(bits) {
        PERCENT_HUNDRED
    } else {
        bits
    }
}

/// Clamps a percentage to `0.0 ..= 100.0`.
pub fn clamp_percent(bits: u32) -> (r: u32)
    ensures
        r == clamped(bits),
        !is_nan(bits) ==> is_percent(r),
        is_nan(bits) ==> r == bits,
{
    let mag = bits % SIGN_BIT;
    let nan = mag > INFINITY_BITS;
    if bits >= SIGN_BIT && !nan && mag != 0 {
        PERCENT_ZERO
    } else if bits < SIGN_BIT && !nan && bits > PERCENT_HUNDRED {
        PERCENT_HUNDRED
    } else {
        bits
    }
}

/// Bit pattern of the single-precision number equal to the whole number `n`,
/// for `n` in `0 ..= 127`: the exponent is that of the highest power of two
/// not above `n`, the fraction holds the rest of `n` below that power.
pub open spec fn whole_bits(n: int) -> int {
    if n == 0 {
        0
    } else if n < 2 {
        127 * 0x80_0000 + (n - 1) * 0x80_0000
    } else if n < 4 {
        128 * 0x80_0000 + (n - 2) * 0x40_0000
    } else if n < 8 {
        129 * 0x80_0000 + (n - 4) * 0x20_0000
    } else if n < 16 {
        130 * 0x80_0000 + (n - 8) * 0x10_0000
    } else if n < 32 {
        131 * 0x80_0000 + (n - 16) * 0x08_0000
    } else if n < 64 {
        132 * 0x80_0000 + (n - 32) * 0x04_0000
    } else {
        133 * 0x80_0000 + (n - 64) * 0x02_0000
    }
}

/// The bit pattern of the whole number `n` as a single-precision number.
pub fn whole_percent(n: u32) -> (r: u32)
    requires
        n <= 100,
    ensures
        r as int == whole_bits(n as int),
        is_percent(r),
{
    let r: u32 = if n == 0 {
        0
    } else if n < 2 {
        127 * 0x80_0000 + (n - 1) * 0x80_0000
    } else if n < 4 {
        128 * 0x80_0000 + (n - 2) * 0x40_0000
    } else if n < 8 {
        129 * 0x80_0000 + (n - 4) * 0x20_0000
    } else if n < 16 {
        130 * 0x80_0000 + (n - 8) * 0x10_0000
    } else if n < 32 {
        131 * 0x80_0000 + (n - 16) * 0x08_0000
    } else if n < 64 {
        132 * 0x80_0000 + (n - 32) * 0x04_0000
    } else {
        133 * 0x80_0000 + (n - 64) * 0x02_0000
    };
    r
}

} // verus!
