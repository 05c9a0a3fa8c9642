//! Physical and raw units.
//!
//! [`Millimeters`] and [`LogicalPixelsPerMm`] hold IEEE 754 binary32 values
//! as bit patterns; their constructors reject non-finite values (and, for
//! the scale, non-positive ones), so every value of these types satisfies
//! its invariant. [`RawAxis`] is an unconverted device axis value.

use crate::binary32;
use vstd::prelude::*;
use vstd::std_specs::cmp::PartialEqSpecImpl;

verus! {

/// A binary32 value was NaN or infinite.
#[derive(Clone, Copy, Debug, PartialEq, Eq)]
pub struct NonFiniteError;

/// Why a binary32 value is not a valid millimeter-to-pixel scale.
#[derive(Clone, Copy, Debug, PartialEq, Eq)]
pub enum ScaleError {
    /// The value is NaN or infinite.
    NonFinite,
    /// The value is zero or negative.
    NonPositive,
}

/// A finite physical length in millimeters (binary32 bit pattern).
#[derive(Clone, Copy, Debug)]
pub struct Millimeters {
    bits: u32,
}

impl View for Millimeters {
    type V = u32;

    /// The binary32 pattern of the length.
    closed spec fn view(&self) -> u32 {
        self.bits
    }
}

impl Millimeters {
    /// Every length is finite.
    #[verifier::type_invariant]
    pub open spec fn wf(self) -> bool {
        binary32::is_finite(self@)
    }

    /// Builds a length from its binary32 pattern; NaN and infinities are
    /// rejected.
    pub fn try_new(bits: u32) -> (r: Result<Millimeters, NonFiniteError>)
        ensures
            r is Ok <==> binary32::is_finite(bits),
            r matches Ok(m) ==> m@ == bits,
    {
        if binary32::finite(bits) {
            Ok(Millimeters { bits })
        } else {
            Err(NonFiniteError)
        }
    }

    /// The binary32 pattern of the length, which is finite.
    pub fn to_bits(self) -> (b: u32)
        ensures
            b == self@,
            binary32::is_finite(b),
    {
        proof {
            use_type_invariant(&self);
        }
        self.bits
    }

    /// Whether the length is strictly greater than zero.
    pub fn is_positive(self) -> (r: bool)
        ensures
            r == binary32::lt(binary32::ZERO_BITS, self@),
    {
        binary32::less_than(binary32::ZERO_BITS, self.bits)
    }
}

impl PartialEq for Millimeters {
    fn eq(&self, other: &Self) -> (r: bool) {
        binary32::equals(self.bits, other.bits)
    }
}

impl PartialEqSpecImpl for Millimeters {
    open spec fn obeys_eq_spec() -> bool {
        true
    }

    open spec fn eq_spec(&self, other: &Self) -> bool {
        binary32::eq(self@, other@)
    }
}

/// A finite, strictly positive millimeter-to-logical-pixel scale
/// (binary32 bit pattern).
#[derive(Clone, Copy, Debug)]
pub struct LogicalPixelsPerMm {
    bits: u32,
}

impl View for LogicalPixelsPerMm {
    type V = u32;

    /// The binary32 pattern of the scale.
    closed spec fn view(&self) -> u32 {
        self.bits
    }
}

impl LogicalPixelsPerMm {
    /// Every scale is finite and strictly positive.
    #[verifier::type_invariant]
    pub open spec fn wf(self) -> bool {
        binary32::is_finite(self@) && binary32::lt(binary32::ZERO_BITS, self@)
    }

    /// Builds a scale from its binary32 pattern; non-finite and non-positive
    /// values are rejected.
    pub fn try_new(bits: u32) -> (r: Result<LogicalPixelsPerMm, ScaleError>)
        ensures
            !binary32::is_finite(bits) ==> r == Err::<LogicalPixelsPerMm, ScaleError>(
                ScaleError::NonFinite,
            ),
            binary32::is_finite(bits) && !binary32::lt(binary32::ZERO_BITS, bits) ==> r == Err::<
                LogicalPixelsPerMm,
                ScaleError,
            >(ScaleError::NonPositive),
            r is Ok <==> binary32::is_finite(bits) && binary32::lt(binary32::ZERO_BITS, bits),
            r matches Ok(s) ==> s@ == bits,
    {
        if !binary32::finite(bits) {
            Err(ScaleError::NonFinite)
        } else if !binary32::less_than(binary32::ZERO_BITS, bits) {
            Err(ScaleError::NonPositive)
        } else {
            Ok(LogicalPixelsPerMm { bits })
        }
    }

    /// The binary32 pattern of the scale, which is finite and strictly
    /// positive.
    pub fn to_bits(self) -> (b: u32)
        ensures
            b == self@,
            binary32::is_finite(b),
            binary32::lt(binary32::ZERO_BITS, b),
    {
        proof {
            use_type_invariant(&self);
        }
        self.bits
    }
}

impl PartialEq for LogicalPixelsPerMm {
    fn eq(&self, other: &Self) -> (r: bool) {
        binary32::equals(self.bits, other.bits)
    }
}

impl PartialEqSpecImpl for LogicalPixelsPerMm {
    open spec fn obeys_eq_spec() -> bool {
        true
    }

    open spec fn eq_spec(&self, other: &Self) -> bool {
        binary32::eq(self@, other@)
    }
}

/// An unconverted device axis value (absolute position or relative delta).
#[derive(Clone, Copy, Debug, PartialEq, Eq, Structural)]
pub struct RawAxis(i32);

impl View for RawAxis {
    type V = i32;

    /// The raw value.
    closed spec fn view(&self) -> i32 {
        self.0
    }
}

impl RawAxis {
    /// Wraps a raw axis value.
    pub fn new(value: i32) -> (r: RawAxis)
        ensures
            r@ == value,
    {
        RawAxis(value)
    }

    /// The raw value.
    pub fn as_i32(self) -> (v: i32)
        ensures
            v == self@,
    {
        self.0
    }
}

} // verus!
