//! Axis description and raw-to-millimeter conversion.
//!
//! Coordinate normalization uses the device-reported resolution (units per
//! millimeter). When a device reports none, the only allowed path is an
//! explicit resolution override; conversion returns
//! [`AxisConversionError::MissingResolution`] rather than guessing.
//!
//! Absolute **position** conversion maps the axis minimum to `0 mm`:
//! `(raw - min) / resolution`, with the subtraction done in `i64` so it
//! cannot overflow. Relative **delta** conversion has no origin:
//! `raw_delta / resolution`.
//!
//! The conversions return the exact quotient as an [`ExactMillimeters`]
//! (numerator in device counts, denominator the resolution); rounding it to
//! a binary32 length is left to the caller.

use crate::units::RawAxis;
use vstd::prelude::*;

verus! {

/// Description of a single device axis (range, filtering, resolution).
#[derive(Clone, Copy, Debug, PartialEq, Eq, Structural)]
pub struct AxisInfo {
    /// Minimum raw value the axis reports.
    pub min: i32,
    /// Maximum raw value the axis reports.
    pub max: i32,
    /// Value noise threshold.
    pub fuzz: i32,
    /// Dead zone around center.
    pub flat: i32,
    /// Physical resolution in units per millimeter; `None` (or `Some(0)`,
    /// the kernel's "unknown") when the device does not report one.
    pub resolution: Option<u32>,
}

impl AxisInfo {
    /// Creates an axis description.
    pub fn new(min: i32, max: i32, fuzz: i32, flat: i32, resolution: Option<u32>) -> (r: AxisInfo)
        ensures
            r == (AxisInfo { min, max, fuzz, flat, resolution }),
    {
        AxisInfo { min, max, fuzz, flat, resolution }
    }

    /// Structural validity: `min <= max` and non-negative `fuzz`/`flat`.
    pub open spec fn spec_is_valid(self) -> bool {
        self.min <= self.max && self.fuzz >= 0 && self.flat >= 0
    }

    /// Whether the axis description is structurally valid (`min <= max` and
    /// non-negative `fuzz`/`flat`, as the kernel reports unsigned values).
    pub fn is_valid(self) -> (r: bool)
        ensures
            r == self.spec_is_valid(),
    {
        self.min <= self.max && self.fuzz >= 0 && self.flat >= 0
    }
}

/// Failure modes of raw to millimeter conversion.
#[derive(Clone, Copy, Debug, PartialEq, Eq, Structural)]
pub enum AxisConversionError {
    /// The axis reports no resolution and no explicit override was supplied.
    MissingResolution,
    /// Rounding the exact value produced a non-finite length; reported by
    /// callers that round (the exact conversion itself never produces it).
    NonFinite,
}

/// An exact length in millimeters: `counts / counts_per_mm`.
#[derive(Clone, Copy, Debug, PartialEq, Eq, Structural)]
pub struct ExactMillimeters {
    /// Numerator in device counts.
    pub counts: i64,
    /// Denominator: device counts per millimeter (never zero in a value
    /// returned by a conversion).
    pub counts_per_mm: u32,
}

/// The usable resolution of an axis: a reported non-zero value.
pub open spec fn usable_resolution(resolution: Option<u32>) -> bool {
    resolution matches Some(r) && r > 0
}

/// Exact position conversion with an explicit resolution.
pub open spec fn spec_position_with_resolution(
    raw: RawAxis,
    info: AxisInfo,
    resolution: u32,
) -> ExactMillimeters {
    ExactMillimeters { counts: (raw@ - info.min) as i64, counts_per_mm: resolution }
}

/// Exact position conversion with the axis's own resolution.
pub open spec fn spec_position_to_mm(raw: RawAxis, info: AxisInfo) -> Result<
    ExactMillimeters,
    AxisConversionError,
> {
    if usable_resolution(info.resolution) {
        Ok(spec_position_with_resolution(raw, info, info.resolution->0))
    } else {
        Err(AxisConversionError::MissingResolution)
    }
}

/// Exact delta conversion.
pub open spec fn spec_delta_to_mm(raw_delta: RawAxis, resolution: Option<u32>) -> Result<
    ExactMillimeters,
    AxisConversionError,
> {
    if usable_resolution(resolution) {
        Ok(ExactMillimeters { counts: raw_delta@ as i64, counts_per_mm: resolution->0 })
    } else {
        Err(AxisConversionError::MissingResolution)
    }
}

/// Converts a raw **absolute position** to millimeters using the axis's
/// reported resolution; the axis minimum maps to `0 mm`.
///
/// Fails with [`AxisConversionError::MissingResolution`] when the axis
/// reports no (or a zero) resolution.
pub fn raw_axis_position_to_mm(raw: RawAxis, info: &AxisInfo) -> (r: Result<
    ExactMillimeters,
    AxisConversionError,
>)
    ensures
        r == spec_position_to_mm(raw, *info),
{
    match info.resolution {
        Some(resolution) if resolution > 0 => raw_axis_position_to_mm_with_resolution(
            raw,
            info,
            resolution,
        ),
        _ => Err(AxisConversionError::MissingResolution),
    }
}

/// Converts a raw **absolute position** to millimeters using an explicit,
/// non-zero resolution override. Origin semantics are those of
/// [`raw_axis_position_to_mm`]: only the resolution is replaced.
pub fn raw_axis_position_to_mm_with_resolution(raw: RawAxis, info: &AxisInfo, resolution: u32) -> (r:
    Result<ExactMillimeters, AxisConversionError>)
    requires
        resolution > 0,
    ensures
        r == Ok::<ExactMillimeters, AxisConversionError>(
            spec_position_with_resolution(raw, *info, resolution),
        ),
{
    let offset: i64 = raw.as_i32() as i64 - info.min as i64;
    Ok(ExactMillimeters { counts: offset, counts_per_mm: resolution })
}

/// Converts a raw **relative delta** to millimeters; deltas carry no axis
/// origin. A missing (or zero) resolution yields
/// [`AxisConversionError::MissingResolution`].
pub fn raw_axis_delta_to_mm(raw_delta: RawAxis, resolution: Option<u32>) -> (r: Result<
    ExactMillimeters,
    AxisConversionError,
>)
    ensures
        r == spec_delta_to_mm(raw_delta, resolution),
{
    match resolution {
        Some(res) if res > 0 => Ok(
            ExactMillimeters { counts: raw_delta.as_i32() as i64, counts_per_mm: res },
        ),
        _ => Err(AxisConversionError::MissingResolution),
    }
}

/// The axis minimum converts to exactly `0 mm`, whatever the resolution.
pub proof fn lemma_axis_min_is_origin(raw: RawAxis, info: AxisInfo, resolution: u32)
    requires
        raw@ == info.min,
    ensures
        spec_position_with_resolution(raw, info, resolution).counts == 0,
{
}

/// A resolution override keeps the origin semantics: overriding with the
/// axis's own reported resolution gives the same result as the reported
/// path.
pub proof fn lemma_override_keeps_origin(raw: RawAxis, info: AxisInfo)
    requires
        usable_resolution(info.resolution),
    ensures
        spec_position_to_mm(raw, info) == Ok::<ExactMillimeters, AxisConversionError>(
            spec_position_with_resolution(raw, info, info.resolution->0),
        ),
{
}

/// Deltas have no origin: the difference of two converted positions on the
/// same axis equals the converted difference of the raw values.
pub proof fn lemma_position_difference_is_delta(
    a: RawAxis,
    b: RawAxis,
    delta: RawAxis,
    info: AxisInfo,
)
    requires
        usable_resolution(info.resolution),
        delta@ == a@ - b@,
    ensures
        spec_position_to_mm(a, info)->Ok_0.counts - spec_position_to_mm(b, info)->Ok_0.counts
            == spec_delta_to_mm(delta, info.resolution)->Ok_0.counts,
        spec_position_to_mm(a, info)->Ok_0.counts_per_mm == spec_delta_to_mm(
            delta,
            info.resolution,
        )->Ok_0.counts_per_mm,
{
}

/// The position conversion never overflows: the offset of any raw value
/// from any axis minimum is represented exactly.
pub proof fn lemma_position_is_exact(raw: RawAxis, info: AxisInfo, resolution: u32)
    ensures
        spec_position_with_resolution(raw, info, resolution).counts == raw@ - info.min,
{
}

/// An axis description is reported invalid exactly when its range is
/// inverted or its fuzz or flat is negative; in particular a negative flat
/// or fuzz alone makes it invalid, and no other field (the resolution) matters:
/// `b`, differing from `a` at most there, is valid exactly when `a` is.
pub proof fn lemma_axis_validity(a: AxisInfo, b: AxisInfo)
    ensures
        !a.spec_is_valid() <==> (a.min > a.max || a.fuzz < 0 || a.flat < 0),
        a.flat < 0 ==> !a.spec_is_valid(),
        a.fuzz < 0 ==> !a.spec_is_valid(),
        b.min == a.min && b.max == a.max && b.fuzz == a.fuzz && b.flat == a.flat
            ==> b.spec_is_valid() == a.spec_is_valid(),
{
}

} // verus!
