use touchpad_core::axis::{
    raw_axis_delta_to_mm, raw_axis_position_to_mm, raw_axis_position_to_mm_with_resolution,
    AxisConversionError, AxisInfo, ExactMillimeters,
};
use touchpad_core::units::RawAxis;

fn axis_with(resolution: Option<u32>) -> AxisInfo {
    AxisInfo::new(0, 1000, 0, 0, resolution)
}

/// Rounds an exact length to binary32 the way the runtime does: an `f64`
/// quotient narrowed to `f32`.
fn to_f32(exact: ExactMillimeters) -> f32 {
    assert!(exact.counts_per_mm > 0);
    (exact.counts as f64 / f64::from(exact.counts_per_mm)) as f32
}

fn mm_of(result: Result<ExactMillimeters, AxisConversionError>) -> f32 {
    to_f32(result.unwrap())
}

#[test]
fn position_converts_with_reported_resolution() {
    let info = axis_with(Some(100));
    assert_eq!(mm_of(raw_axis_position_to_mm(RawAxis::new(150), &info)), 1.5);
    assert_eq!(mm_of(raw_axis_position_to_mm(RawAxis::new(-150), &info)), -1.5);
}

#[test]
fn position_maps_axis_min_to_zero_mm() {
    let info = AxisInfo::new(100, 500, 0, 0, Some(100));
    assert_eq!(mm_of(raw_axis_position_to_mm(RawAxis::new(100), &info)), 0.0);
    assert_eq!(mm_of(raw_axis_position_to_mm(RawAxis::new(300), &info)), 2.0);
    assert_eq!(mm_of(raw_axis_position_to_mm(RawAxis::new(500), &info)), 4.0);
    assert_eq!(
        mm_of(raw_axis_position_to_mm(RawAxis::new(300), &axis_with(Some(100)))),
        3.0
    );
}

#[test]
fn position_boundary_values_do_not_overflow() {
    let info = AxisInfo::new(i32::MIN, i32::MIN, 0, 0, Some(1));
    let hi = mm_of(raw_axis_position_to_mm(RawAxis::new(i32::MAX), &info));
    assert!(hi.is_finite());
    assert!(hi > 0.0);

    let info = AxisInfo::new(i32::MAX, i32::MAX, 0, 0, Some(1));
    let lo = mm_of(raw_axis_position_to_mm(RawAxis::new(i32::MIN), &info));
    assert!(lo.is_finite());
    assert!(lo < 0.0);

    assert_eq!(hi, 4_294_967_296.0);
    assert_eq!(lo, -4_294_967_296.0);

    let info = AxisInfo::new(42, 42, 0, 0, Some(10));
    assert_eq!(mm_of(raw_axis_position_to_mm(RawAxis::new(42), &info)), 0.0);
}

#[test]
fn profile_override_keeps_origin_semantics() {
    let info = AxisInfo::new(100, 500, 0, 0, None);
    let override_resolution = 50;
    assert_eq!(
        mm_of(raw_axis_position_to_mm_with_resolution(RawAxis::new(100), &info, override_resolution)),
        0.0
    );
    assert_eq!(
        mm_of(raw_axis_position_to_mm_with_resolution(RawAxis::new(300), &info, override_resolution)),
        4.0
    );
    assert_eq!(
        mm_of(raw_axis_position_to_mm_with_resolution(RawAxis::new(300), &info, 100)),
        2.0
    );
}

#[test]
fn missing_resolution_is_an_error() {
    let info = axis_with(None);
    assert_eq!(
        raw_axis_position_to_mm(RawAxis::new(150), &info),
        Err(AxisConversionError::MissingResolution)
    );
    assert_eq!(
        raw_axis_delta_to_mm(RawAxis::new(150), None),
        Err(AxisConversionError::MissingResolution)
    );
}

#[test]
fn delta_conversion_has_no_origin() {
    let resolution = Some(100);
    assert_eq!(mm_of(raw_axis_delta_to_mm(RawAxis::new(150), resolution)), 1.5);
    assert_eq!(mm_of(raw_axis_delta_to_mm(RawAxis::new(-150), resolution)), -1.5);
    let origin_at_100 = AxisInfo::new(100, 500, 0, 0, Some(100));
    let origin_at_0 = AxisInfo::new(0, 1000, 0, 0, Some(100));
    let delta = RawAxis::new(150);
    assert_eq!(
        raw_axis_delta_to_mm(delta, origin_at_100.resolution).unwrap(),
        raw_axis_delta_to_mm(delta, origin_at_0.resolution).unwrap()
    );
}

#[test]
fn explicit_override_is_the_other_allowed_path_for_position() {
    let info = axis_with(None);
    assert_eq!(
        mm_of(raw_axis_position_to_mm_with_resolution(RawAxis::new(100), &info, 50)),
        2.0
    );
}

#[test]
fn axis_info_range_validation() {
    assert!(axis_with(None).is_valid());
    assert!(!AxisInfo::new(100, 0, 0, 0, None).is_valid());
    assert!(!AxisInfo::new(0, 100, -1, 0, None).is_valid());
}

#[test]
fn zero_resolution_is_treated_as_missing() {
    let info = axis_with(Some(0));
    assert_eq!(
        raw_axis_position_to_mm(RawAxis::new(10), &info),
        Err(AxisConversionError::MissingResolution)
    );
    assert_eq!(
        raw_axis_delta_to_mm(RawAxis::new(10), Some(0)),
        Err(AxisConversionError::MissingResolution)
    );
}

#[test]
fn position_conversion_is_exact_before_rounding() {
    let info = AxisInfo::new(-7, 900, 0, 0, Some(3));
    assert_eq!(
        raw_axis_position_to_mm(RawAxis::new(3), &info),
        Ok(ExactMillimeters { counts: 10, counts_per_mm: 3 })
    );
    assert_eq!(
        raw_axis_delta_to_mm(RawAxis::new(-9), Some(4)),
        Ok(ExactMillimeters { counts: -9, counts_per_mm: 4 })
    );
}

#[test]
fn position_difference_converts_like_the_delta() {
    let info = AxisInfo::new(100, 500, 0, 0, Some(40));
    let a = raw_axis_position_to_mm(RawAxis::new(420), &info).unwrap();
    let b = raw_axis_position_to_mm(RawAxis::new(150), &info).unwrap();
    let d = raw_axis_delta_to_mm(RawAxis::new(270), info.resolution).unwrap();
    assert_eq!(a.counts - b.counts, d.counts);
    assert_eq!(a.counts_per_mm, d.counts_per_mm);
}
