//! IEEE 754 binary32 values carried as bit patterns.
//!
//! A binary32 pattern is a sign bit followed by the 31-bit magnitude field
//! (exponent and fraction). For every value that is not NaN, the real-number
//! order of the values is the order of their signed magnitudes, with `+0`
//! and `-0` equal. NaN compares unequal and unordered with everything.

use vstd::prelude::*;

verus! {

/// Pattern of `+1.0`.
pub const ONE_BITS: u32 = 0x3f80_0000;

/// Pattern of `+0.0`.
pub const ZERO_BITS: u32 = 0;

/// Magnitude pattern of an infinity; larger magnitudes are NaN.
pub const INFINITY_MAGNITUDE: u32 = 0x7f80_0000;

/// Whether the sign bit is set.
pub open spec fn sign_set(bits: u32) -> bool {
    bits >= 0x8000_0000
}

/// The 31 magnitude bits (exponent and fraction).
pub open spec fn magnitude(bits: u32) -> int {
    (bits % 0x8000_0000) as int
}

/// Whether the pattern encodes NaN.
pub open spec fn is_nan(bits: u32) -> bool {
    magnitude(bits) > INFINITY_MAGNITUDE
}

/// Whether the pattern encodes a finite value (neither infinite nor NaN).
pub open spec fn is_finite(bits: u32) -> bool {
    magnitude(bits) < INFINITY_MAGNITUDE
}

/// Position of a non-NaN value on the real line: order-preserving, with
/// both zeros at `0`.
pub open spec fn order_key(bits: u32) -> int {
    if sign_set(bits) {
        -magnitude(bits)
    } else {
        magnitude(bits)
    }
}

/// IEEE 754 `a < b`.
pub open spec fn lt(a: u32, b: u32) -> bool {
    !is_nan(a) && !is_nan(b) && order_key(a) < order_key(b)
}

/// IEEE 754 `a <= b`.
pub open spec fn le(a: u32, b: u32) -> bool {
    !is_nan(a) && !is_nan(b) && order_key(a) <= order_key(b)
}

/// IEEE 754 `a == b`.
pub open spec fn eq(a: u32, b: u32) -> bool {
    !is_nan(a) && !is_nan(b) && order_key(a) == order_key(b)
}

/// IEEE 754 `|a| >= |b|`.
pub open spec fn abs_ge(a: u32, b: u32) -> bool {
    !is_nan(a) && !is_nan(b) && magnitude(a) >= magnitude(b)
}

/// Executable IEEE 754 `a < b` on patterns.
pub fn less_than(a: u32, b: u32) -> (r: bool)
    ensures
        r == lt(a, b),
{
    let ma = a % 0x8000_0000;
    let mb = b % 0x8000_0000;
    if ma > INFINITY_MAGNITUDE || mb > INFINITY_MAGNITUDE {
        return false;
    }
    let a_neg = a >= 0x8000_0000 && ma != 0;
    let b_neg = b >= 0x8000_0000 && mb != 0;
    if a_neg && b_neg {
        mb < ma
    } else if a_neg {
        true
    } else if b_neg {
        false
    } else {
        ma < mb
    }
}

/// Executable IEEE 754 `a <= b` on patterns.
pub fn less_or_equal(a: u32, b: u32) -> (r: bool)
    ensures
        r == le(a, b),
{
    less_than(a, b) || equals(a, b)
}

/// Executable IEEE 754 `a == b` on patterns.
pub fn equals(a: u32, b: u32) -> (r: bool)
    ensures
        r == eq(a, b),
{
    let ma = a % 0x8000_0000;
    let mb = b % 0x8000_0000;
    if ma > INFINITY_MAGNITUDE || mb > INFINITY_MAGNITUDE {
        false
    } else if ma == 0 && mb == 0 {
        true
    } else {
        a == b
    }
}

/// Executable IEEE 754 `|a| >= |b|` on patterns.
pub fn abs_greater_or_equal(a: u32, b: u32) -> (r: bool)
    ensures
        r == abs_ge(a, b),
{
    let ma = a % 0x8000_0000;
    let mb = b % 0x8000_0000;
    ma <= INFINITY_MAGNITUDE && mb <= INFINITY_MAGNITUDE && ma >= mb
}

/// Executable finiteness test on a pattern.
pub fn finite(bits: u32) -> (r: bool)
    ensures
        r == is_finite(bits),
{
    bits % 0x8000_0000 < INFINITY_MAGNITUDE
}


/// `2` to the power `n`.
pub open spec fn power_of_two(n: nat) -> nat
    decreases n,
{
    if n == 0 {
        1
    } else {
        2 * power_of_two((n - 1) as nat)
    }
}

/// The position of the highest set bit of a positive `m` (`0` for `1`).
pub open spec fn top_bit(m: nat) -> nat
    decreases m,
{
    if m < 2 {
        0
    } else {
        1 + top_bit(m / 2)
    }
}

/// The binary64 pattern of the same value as a finite binary32 pattern
/// (`f32 as f64`, which is exact): the sign carries over; a normal
/// exponent is rebased from bias 127 to bias 1023 and the 23 fraction bits
/// move to the top of the 52; a subnormal value `m * 2^-149` becomes normal
/// with its highest set bit `p` as the leading one, exponent `p - 149`.
pub open spec fn widen(bits: u32) -> u64 {
    let sign = (bits / 0x8000_0000) as nat;
    let exponent = ((bits / 0x80_0000) % 256) as nat;
    let fraction = (bits % 0x80_0000) as nat;
    let magnitude: int = if exponent == 0 && fraction == 0 {
        0
    } else if exponent == 0 {
        let p = top_bit(fraction);
        (p + 874) * power_of_two(52) + (fraction - power_of_two(p)) * power_of_two(
            (52 - p) as nat,
        )
    } else {
        ((exponent + 896) * power_of_two(52) + fraction * power_of_two(29)) as int
    };
    (sign * power_of_two(63) + magnitude) as u64
}

proof fn lemma_top_bit_bounds(m: nat)
    requires
        m >= 1,
    ensures
        power_of_two(top_bit(m)) <= m < 2 * power_of_two(top_bit(m)),
    decreases m,
{
    if m >= 2 {
        lemma_top_bit_bounds(m / 2);
    }
}

proof fn lemma_power_of_two_add(a: nat, b: nat)
    ensures
        power_of_two(a) * power_of_two(b) == power_of_two(a + b),
    decreases a,
{
    if a == 0 {
        assert(power_of_two(0) == 1);
    } else {
        let a1 = (a - 1) as nat;
        lemma_power_of_two_add(a1, b);
        let x = power_of_two(a1);
        let y = power_of_two(b);
        assert(power_of_two(a) == 2 * x);
        assert(power_of_two(a1 + b + 1) == 2 * power_of_two(a1 + b));
        assert(a1 + b + 1 == a + b);
        assert((2 * x) * y == 2 * (x * y)) by (nonlinear_arith);
    }
}

proof fn lemma_power_of_two_monotone(a: nat, b: nat)
    requires
        a <= b,
    ensures
        power_of_two(a) <= power_of_two(b),
    decreases b,
{
    if a < b {
        lemma_power_of_two_monotone(a, (b - 1) as nat);
    }
}

proof fn lemma_power_of_two_constants()
    ensures
        power_of_two(29) == 0x2000_0000,
        power_of_two(52) == 0x10_0000_0000_0000,
        power_of_two(63) == 0x8000_0000_0000_0000,
{
    reveal_with_fuel(power_of_two, 64);
}

/// Executable `f32 as f64` on the pattern of a finite binary32 value.
pub fn widen_finite(bits: u32) -> (r: u64)
    requires
        is_finite(bits),
    ensures
        r == widen(bits),
{
    proof {
        lemma_power_of_two_constants();
    }
    let sign: u64 = (bits / 0x8000_0000) as u64;
    let exponent: u64 = ((bits / 0x80_0000) % 256) as u64;
    let fraction: u64 = (bits % 0x80_0000) as u64;
    assert(exponent < 255) by {
        assert(magnitude(bits) < INFINITY_MAGNITUDE);
    }
    let magnitude: u64 = if exponent == 0 && fraction == 0 {
        0
    } else if exponent == 0 {
        let mut p: u64 = 0;
        let mut rest: u64 = fraction;
        let mut lead: u64 = 1;
        while rest >= 2
            invariant
                1 <= rest <= fraction < 0x80_0000,
                p + top_bit(rest as nat) == top_bit(fraction as nat),
                lead == power_of_two(p as nat),
                rest * lead <= fraction,
                1 <= lead <= fraction,
                p <= 22,
            decreases rest,
        {
            proof {
                lemma_top_bit_bounds(rest as nat);
                lemma_top_bit_bounds(fraction as nat);
                assert(power_of_two((p + 1) as nat) == 2 * lead);
            }
            assert((rest / 2) * (2 * lead) <= rest * lead) by (nonlinear_arith)
                requires
                    rest >= 2,
                    lead >= 1,
            ;
            assert(2 * lead <= fraction) by (nonlinear_arith)
                requires
                    rest >= 2,
                    rest * lead <= fraction,
                    lead >= 1,
            ;
            assert(p + 1 <= 22) by {
                if p + 1 > 22 {
                    lemma_power_of_two_monotone(23, (p + 1) as nat);
                    assert(power_of_two((p + 1) as nat) == 2 * lead);
                    assert(power_of_two(23) == 0x80_0000) by {
                        reveal_with_fuel(power_of_two, 24);
                    }
                }
            }
            rest = rest / 2;
            p = p + 1;
            lead = lead * 2;
        }
        proof {
            lemma_top_bit_bounds(fraction as nat);
        }
        let mut scale: u64 = 1;
        let mut k: u64 = 0;
        while k < 52 - p
            invariant
                p <= 22,
                k <= 52 - p,
                scale == power_of_two(k as nat),
                scale <= power_of_two(52),
                power_of_two(52) == 0x10_0000_0000_0000,
            decreases 52 - p - k,
        {
            proof {
                assert(power_of_two((k + 1) as nat) == 2 * scale);
                lemma_power_of_two_monotone((k + 1) as nat, 52);
            }
            scale = scale * 2;
            k = k + 1;
        }
        proof {
            lemma_power_of_two_add(p as nat, (52 - p) as nat);
        }
        assert((fraction - lead) * scale < 0x10_0000_0000_0000) by (nonlinear_arith)
            requires
                fraction < 2 * lead,
                lead * scale == 0x10_0000_0000_0000,
                lead <= fraction,
        ;
        (p + 874) * 0x10_0000_0000_0000 + (fraction - lead) * scale
    } else {
        (exponent + 896) * 0x10_0000_0000_0000 + fraction * 0x2000_0000
    };
    sign * 0x8000_0000_0000_0000 + magnitude
}

} // verus!
