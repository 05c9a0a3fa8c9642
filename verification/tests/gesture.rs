use touchpad_core::gesture::{GestureConfig, GestureConfigError};

fn bits(value: f64) -> u64 {
    value.to_bits()
}

fn build(values: [f64; 8]) -> Result<GestureConfig, GestureConfigError> {
    GestureConfig::new(
        bits(values[0]),
        bits(values[1]),
        bits(values[2]),
        bits(values[3]),
        bits(values[4]),
        bits(values[5]),
        bits(values[6]),
        bits(values[7]),
    )
}

fn cfg() -> GestureConfig {
    build([0.8, 0.15, 0.8, 4.0, 1.0, 2.0, 2.0, 3.0]).unwrap()
}

#[test]
fn valid_gesture_thresholds_are_kept() {
    let config = cfg();
    assert_eq!(f64::from_bits(config.pinch_commit_mm()), 0.8);
    assert_eq!(f64::from_bits(config.rotate_commit_radians()), 0.15);
    assert_eq!(f64::from_bits(config.page_swipe_dominance()), 4.0);
    assert_eq!(f64::from_bits(config.edge_zone_mm()), 3.0);
    assert_eq!(config.surface_size_mm(), None);
}

#[test]
fn first_non_positive_threshold_is_named() {
    assert_eq!(
        build([0.8, 0.15, -0.8, 4.0, 1.0, 2.0, 0.0, 3.0]),
        Err(GestureConfigError::NonPositiveOrNonFinite {
            name: "page_swipe_commit_mm",
            value: bits(-0.8),
        })
    );
    assert_eq!(
        build([0.8, 0.15, 0.8, 4.0, 1.0, 2.0, 2.0, f64::INFINITY]),
        Err(GestureConfigError::NonPositiveOrNonFinite {
            name: "edge_zone_mm",
            value: bits(f64::INFINITY),
        })
    );
}

#[test]
fn page_swipe_dominance_must_exceed_one() {
    assert_eq!(
        build([0.8, 0.15, 0.8, 1.0, 1.0, 2.0, 2.0, 3.0]),
        Err(GestureConfigError::InvalidOrdering(
            "page_swipe_dominance must be greater than 1"
        ))
    );
    assert!(build([0.8, 0.15, 0.8, 1.0000001, 1.0, 2.0, 2.0, 3.0]).is_ok());
}

#[test]
fn surface_must_exceed_both_edge_zones() {
    let config = cfg().with_surface_size_mm(bits(100.0), bits(80.0)).unwrap();
    assert_eq!(config.surface_size_mm(), Some((bits(100.0), bits(80.0))));
    assert_eq!(
        cfg().with_surface_size_mm(bits(6.0), bits(80.0)),
        Err(GestureConfigError::InvalidSurface)
    );
    assert!(cfg().with_surface_size_mm(bits(6.001), bits(6.001)).is_ok());
    assert_eq!(
        cfg().with_surface_size_mm(bits(f64::NAN), bits(80.0)),
        Err(GestureConfigError::InvalidSurface)
    );
    assert_eq!(
        cfg().with_surface_size_mm(bits(100.0), bits(f64::INFINITY)),
        Err(GestureConfigError::InvalidSurface)
    );
}

#[test]
fn doubling_the_edge_zone_follows_binary64_arithmetic() {
    let tiny = f64::from_bits(1);
    let config = build([0.8, 0.15, 0.8, 4.0, 1.0, 2.0, 2.0, tiny]).unwrap();
    assert_eq!(2.0 * tiny, f64::from_bits(2));
    assert_eq!(
        config.with_surface_size_mm(2, 100),
        Err(GestureConfigError::InvalidSurface)
    );
    assert!(config.with_surface_size_mm(3, 3).is_ok());
    let huge = build([0.8, 0.15, 0.8, 4.0, 1.0, 2.0, 2.0, f64::MAX]).unwrap();
    assert_eq!(
        huge.with_surface_size_mm(bits(f64::MAX), bits(f64::MAX)),
        Err(GestureConfigError::InvalidSurface)
    );
}
