//! Building human-readable error texts.

use vstd::prelude::*;

verus! {

/// The lowercase hexadecimal digit for `n` in `0..16`.
pub open spec fn hex_digit(n: int) -> char {
    if n < 10 {
        (48 + n) as char
    } else {
        (87 + n) as char
    }
}

/// The last `count` lowercase hexadecimal digits of `value`, most
/// significant first (leading zeros included).
pub open spec fn hex_digits(value: nat, count: nat) -> Seq<char>
    decreases count,
{
    if count == 0 {
        Seq::empty()
    } else {
        hex_digits(value / 16, (count - 1) as nat).push(hex_digit((value % 16) as int))
    }
}

/// `0x` followed by `count` lowercase hexadecimal digits of `value`.
pub open spec fn hex_text(value: nat, count: nat) -> Seq<char> {
    "0x"@ + hex_digits(value, count)
}

/// The decimal digits of `n`, most significant first, without leading
/// zeros (`0` is the single digit `0`).
pub open spec fn decimal_digits(n: nat) -> Seq<char>
    decreases n,
{
    if n < 10 {
        seq![(48 + n) as char]
    } else {
        decimal_digits(n / 10).push((48 + n % 10) as char)
    }
}

/// The decimal text of an integer: a `-` before the digits of a negative
/// one.
pub open spec fn decimal_text(n: int) -> Seq<char> {
    if n < 0 {
        "-"@ + decimal_digits((-n) as nat)
    } else {
        decimal_digits(n as nat)
    }
}

/// Renders an integer with `format!("{}", ..)`: its decimal digits, with a
/// leading `-` when negative.
#[verifier::external_body]
pub(crate) fn decimal(n: i128) -> (r: String)
    ensures
        r@ == decimal_text(n as int),
{
    format!("{}", n)
}

/// Concatenates two texts: `a` then `b`.
pub(crate) fn join(a: &str, b: &str) -> (r: String)
    ensures
        r@ == a@ + b@,
{
    let head = a.to_owned();
    head.concat(b)
}

/// Renders a 64-bit pattern with `format!("{:#018x}", ..)`: `0x` and
/// sixteen zero-padded lowercase hexadecimal digits.
#[verifier::external_body]
pub(crate) fn hex_u64(bits: u64) -> (r: String)
    ensures
        r@ == hex_text(bits as nat, 16),
{
    format!("{:#018x}", bits)
}

/// Renders a 32-bit pattern with `format!("{:#010x}", ..)`: `0x` and eight
/// zero-padded lowercase hexadecimal digits.
#[verifier::external_body]
pub(crate) fn hex_u32(bits: u32) -> (r: String)
    ensures
        r@ == hex_text(bits as nat, 8),
{
    format!("{:#010x}", bits)
}

} // verus!
