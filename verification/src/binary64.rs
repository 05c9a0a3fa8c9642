//! IEEE 754 binary64 values carried as bit patterns.
//!
//! A binary64 pattern is a sign bit followed by the 63-bit magnitude field
//! (exponent and fraction). For every value that is not NaN, the real-number
//! order of the values is the order of their signed magnitudes, with `+0`
//! and `-0` equal. NaN compares unequal and unordered with everything.

use vstd::prelude::*;

verus! {

/// Magnitude pattern of an infinity; larger magnitudes are NaN.
pub const INFINITY_MAGNITUDE: u64 = 0x7ff0_0000_0000_0000;

/// Pattern of `+0.0`.
pub const BITS_0: u64 = 0;

/// Binary64 pattern of `0.01`.
pub const BITS_0_01: u64 = 0x3f84_7ae1_47ae_147b;
/// Binary64 pattern of `0.05`.
pub const BITS_0_05: u64 = 0x3fa9_9999_9999_999a;
/// Binary64 pattern of `0.09`.
pub const BITS_0_09: u64 = 0x3fb7_0a3d_70a3_d70a;
/// Binary64 pattern of `0.1`.
pub const BITS_0_1: u64 = 0x3fb9_9999_9999_999a;
/// Binary64 pattern of `0.2`.
pub const BITS_0_2: u64 = 0x3fc9_9999_9999_999a;
/// Binary64 pattern of `0.25`.
pub const BITS_0_25: u64 = 0x3fd0_0000_0000_0000;
/// Binary64 pattern of `0.3`.
pub const BITS_0_3: u64 = 0x3fd3_3333_3333_3333;
/// Binary64 pattern of `0.5`.
pub const BITS_0_5: u64 = 0x3fe0_0000_0000_0000;
/// Binary64 pattern of `0.6`.
pub const BITS_0_6: u64 = 0x3fe3_3333_3333_3333;
/// Binary64 pattern of `0.8`.
pub const BITS_0_8: u64 = 0x3fe9_9999_9999_999a;
/// Binary64 pattern of `1.0`.
pub const BITS_1: u64 = 0x3ff0_0000_0000_0000;
/// Binary64 pattern of `1.05`.
pub const BITS_1_05: u64 = 0x3ff0_cccc_cccc_cccd;
/// Binary64 pattern of `1.2`.
pub const BITS_1_2: u64 = 0x3ff3_3333_3333_3333;
/// Binary64 pattern of `1.5`.
pub const BITS_1_5: u64 = 0x3ff8_0000_0000_0000;
/// Binary64 pattern of `1.75`.
pub const BITS_1_75: u64 = 0x3ffc_0000_0000_0000;
/// Binary64 pattern of `2.0`.
pub const BITS_2: u64 = 0x4000_0000_0000_0000;
/// Binary64 pattern of `2.5`.
pub const BITS_2_5: u64 = 0x4004_0000_0000_0000;
/// Binary64 pattern of `3.0`.
pub const BITS_3: u64 = 0x4008_0000_0000_0000;
/// Binary64 pattern of `4.0`.
pub const BITS_4: u64 = 0x4010_0000_0000_0000;
/// Binary64 pattern of `5.0`.
pub const BITS_5: u64 = 0x4014_0000_0000_0000;
/// Binary64 pattern of `6.0`.
pub const BITS_6: u64 = 0x4018_0000_0000_0000;
/// Binary64 pattern of `8.0`.
pub const BITS_8: u64 = 0x4020_0000_0000_0000;
/// Binary64 pattern of `10.0`.
pub const BITS_10: u64 = 0x4024_0000_0000_0000;
/// Binary64 pattern of `25.0`.
pub const BITS_25: u64 = 0x4039_0000_0000_0000;
/// Binary64 pattern of `35.0`.
pub const BITS_35: u64 = 0x4041_8000_0000_0000;
/// Binary64 pattern of `50.0`.
pub const BITS_50: u64 = 0x4049_0000_0000_0000;
/// Binary64 pattern of `200.0`.
pub const BITS_200: u64 = 0x4069_0000_0000_0000;
/// Binary64 pattern of `600.0`.
pub const BITS_600: u64 = 0x4082_c000_0000_0000;
/// Binary64 pattern of `1200.0`.
pub const BITS_1200: u64 = 0x4092_c000_0000_0000;

/// Whether the sign bit is set.
pub open spec fn sign_set(bits: u64) -> bool {
    bits >= 0x8000_0000_0000_0000
}

/// The 63 magnitude bits (exponent and fraction).
pub open spec fn magnitude(bits: u64) -> int {
    (bits % 0x8000_0000_0000_0000) as int
}

/// Whether the pattern encodes NaN.
pub open spec fn is_nan(bits: u64) -> bool {
    magnitude(bits) > INFINITY_MAGNITUDE
}

/// Whether the pattern encodes a finite value (neither infinite nor NaN).
pub open spec fn is_finite(bits: u64) -> bool {
    magnitude(bits) < INFINITY_MAGNITUDE
}

/// Position of a non-NaN value on the real line: order-preserving, with
/// both zeros at `0`.
pub open spec fn order_key(bits: u64) -> int {
    if sign_set(bits) {
        -magnitude(bits)
    } else {
        magnitude(bits)
    }
}

/// IEEE 754 `a < b`.
pub open spec fn lt(a: u64, b: u64) -> bool {
    !is_nan(a) && !is_nan(b) && order_key(a) < order_key(b)
}

/// IEEE 754 `a <= b`.
pub open spec fn le(a: u64, b: u64) -> bool {
    !is_nan(a) && !is_nan(b) && order_key(a) <= order_key(b)
}

/// Executable IEEE 754 `a < b` on patterns.
pub fn less_than(a: u64, b: u64) -> (r: bool)
    ensures
        r == lt(a, b),
{
    let ma = a % 0x8000_0000_0000_0000;
    let mb = b % 0x8000_0000_0000_0000;
    if ma > INFINITY_MAGNITUDE || mb > INFINITY_MAGNITUDE {
        return false;
    }
    let a_neg = a >= 0x8000_0000_0000_0000 && ma != 0;
    let b_neg = b >= 0x8000_0000_0000_0000 && mb != 0;
    if a_neg && b_neg {
        mb < ma
    } else if a_neg {
        true
    } else if b_neg {
        false
    } else {
        ma < mb
    }
}

/// Executable IEEE 754 `a <= b` on patterns.
pub fn less_or_equal(a: u64, b: u64) -> (r: bool)
    ensures
        r == le(a, b),
{
    let ma = a % 0x8000_0000_0000_0000;
    let mb = b % 0x8000_0000_0000_0000;
    if ma > INFINITY_MAGNITUDE || mb > INFINITY_MAGNITUDE {
        false
    } else if ma == 0 && mb == 0 {
        true
    } else {
        less_than(a, b) || a == b
    }
}

/// Executable finiteness test on a pattern.
pub fn finite(bits: u64) -> (r: bool)
    ensures
        r == is_finite(bits),
{
    bits % 0x8000_0000_0000_0000 < INFINITY_MAGNITUDE
}

/// Whether a value is finite and strictly positive.
pub open spec fn finite_positive(bits: u64) -> bool {
    is_finite(bits) && lt(BITS_0, bits)
}

/// The pattern of `2.0 * x` for a finite, non-negative `x`. Doubling is
/// exact except on overflow, which rounds to `+infinity`: a subnormal
/// fraction doubles in place (carrying into the lowest exponent when it
/// becomes normal), a normal exponent grows by one, and the largest
/// exponent overflows.
pub open spec fn double_non_negative(bits: u64) -> u64 {
    let exponent = bits / 0x10_0000_0000_0000;
    if exponent == 0 {
        (bits * 2) as u64
    } else if exponent < 0x7fe {
        (bits + 0x10_0000_0000_0000) as u64
    } else {
        INFINITY_MAGNITUDE
    }
}

/// Executable finite-and-strictly-positive test on a pattern.
pub fn positive(bits: u64) -> (r: bool)
    ensures
        r == finite_positive(bits),
{
    finite(bits) && less_than(BITS_0, bits)
}

/// Executable `2.0 * x` on the pattern of a finite, non-negative `x`.
pub fn double(bits: u64) -> (r: u64)
    requires
        is_finite(bits),
        !sign_set(bits),
    ensures
        r == double_non_negative(bits),
{
    let exponent = bits / 0x10_0000_0000_0000;
    if exponent == 0 {
        bits * 2
    } else if exponent < 0x7fe {
        bits + 0x10_0000_0000_0000
    } else {
        INFINITY_MAGNITUDE
    }
}

} // verus!
