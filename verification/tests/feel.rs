use touchpad_core::feel::{
    feel_parameter_specs, FeelConfig, FeelConfigError, FeelKey, FeelValue, FEEL_CONFIG_VERSION,
};

fn bits(value: f64) -> u64 {
    value.to_bits()
}

fn value_of(pattern: u64) -> f64 {
    f64::from_bits(pattern)
}

/// Edits a control the way a text front end does: the value text is read
/// as a real number where it is one.
fn set(config: &mut FeelConfig, key: &str, value: &str) -> Result<(), FeelConfigError> {
    let decimal = value.parse::<f64>().ok().map(f64::to_bits);
    config.set_key(key, value, decimal)
}

#[test]
fn defaults_validate_and_specs_are_stable() {
    FeelConfig::default().validate().unwrap();
    assert_eq!(feel_parameter_specs().len(), 16);
}

#[test]
fn unsafe_or_priority_breaking_edits_are_rejected_atomically() {
    let mut config = FeelConfig::default();
    let original = config.clone();
    assert!(set(&mut config, "pointer.tracking_speed", "20").is_err());
    assert_eq!(config, original);
    assert!(set(&mut config, "drag.commit_threshold_mm", "2.5").is_err());
    assert_eq!(config, original);
    assert!(set(&mut config, "scroll.axis_lock_release_ratio", "3").is_err());
    assert_eq!(config, original);
}

#[test]
fn default_values_are_the_shipped_tuning() {
    let config = FeelConfig::default();
    assert_eq!(config.version, FEEL_CONFIG_VERSION);
    assert_eq!(value_of(config.pointer.dead_zone_radius_mm), 0.09);
    assert_eq!(value_of(config.pointer.tracking_speed), 1.0);
    assert_eq!(value_of(config.pointer.max_gain), 2.0);
    assert_eq!(value_of(config.scroll.max_gain), 1.75);
    assert_eq!(value_of(config.scroll.axis_lock_engage_ratio), 2.5);
    assert_eq!(value_of(config.scroll.axis_lock_release_ratio), 1.5);
    assert_eq!(config.scroll.momentum_tau_ms, 325);
    assert_eq!(value_of(config.scroll.momentum_start_speed_mm_per_s), 35.0);
    assert_eq!(value_of(config.scroll.momentum_stop_speed_mm_per_s), 6.0);
    assert_eq!(value_of(config.gesture.pinch_commit_mm), 0.8);
    assert_eq!(value_of(config.gesture.multi_swipe_commit_mm), 2.0);
    assert_eq!(value_of(config.drag.commit_threshold_mm), 1.0);
    assert!(config.drag.drag_lock);
}

#[test]
fn accepted_edits_are_applied() {
    let mut config = FeelConfig::default();
    set(&mut config, "pointer.tracking_speed", "2.5").unwrap();
    assert_eq!(value_of(config.pointer.tracking_speed), 2.5);
    set(&mut config, "scroll.momentum_tau_ms", "400").unwrap();
    assert_eq!(config.scroll.momentum_tau_ms, 400);
    set(&mut config, "scroll.momentum_tau_ms", "+600").unwrap();
    assert_eq!(config.scroll.momentum_tau_ms, 600);
    set(&mut config, "drag.drag_lock", "false").unwrap();
    assert!(!config.drag.drag_lock);
    config.validate().unwrap();
}

#[test]
fn unknown_keys_and_unreadable_values_are_reported() {
    let mut config = FeelConfig::default();
    let original = config;
    assert_eq!(
        set(&mut config, "pointer.speed", "1"),
        Err(FeelConfigError::UnknownKey("pointer.speed".to_string()))
    );
    assert_eq!(
        set(&mut config, "pointer.min_gain", "fast"),
        Err(FeelConfigError::InvalidNumber("fast".to_string()))
    );
    assert_eq!(
        set(&mut config, "scroll.momentum_tau_ms", "4.5"),
        Err(FeelConfigError::InvalidValue {
            key: "scroll.momentum_tau_ms".to_string(),
            value: "4.5".to_string(),
        })
    );
    assert_eq!(
        set(&mut config, "drag.drag_lock", "yes"),
        Err(FeelConfigError::InvalidValue {
            key: "drag.drag_lock".to_string(),
            value: "yes".to_string(),
        })
    );
    assert_eq!(config, original);
}

#[test]
fn range_errors_name_the_control_and_its_bounds() {
    let mut config = FeelConfig::default();
    assert_eq!(
        set(&mut config, "pointer.tracking_speed", "20"),
        Err(FeelConfigError::Range {
            name: "pointer.tracking_speed",
            value: bits(20.0),
            min: bits(0.25),
            max: bits(4.0),
        })
    );
    assert!(matches!(
        set(&mut config, "gesture.pinch_commit_mm", "NaN"),
        Err(FeelConfigError::Range { name: "gesture.pinch_commit_mm", .. })
    ));
    assert_eq!(
        set(&mut config, "scroll.momentum_tau_ms", "10"),
        Err(FeelConfigError::IntegerRange {
            name: "scroll.momentum_tau_ms",
            value: 10,
            min: 50,
            max: 1200,
        })
    );
}

#[test]
fn ordering_rules_are_checked_after_the_ranges_they_follow() {
    let mut config = FeelConfig::default();
    config.pointer.min_gain = bits(1.5);
    config.pointer.max_gain = bits(1.0);
    assert_eq!(
        config.validate(),
        Err(FeelConfigError::OutOfOrder("pointer.max_gain must be >= pointer.min_gain"))
    );
    let mut config = FeelConfig::default();
    config.drag.commit_threshold_mm = bits(2.5);
    assert!(matches!(config.validate(), Err(FeelConfigError::OutOfOrder(_))));
    let mut config = FeelConfig::default();
    config.version = 2;
    config.pointer.tracking_speed = bits(20.0);
    assert_eq!(config.validate(), Err(FeelConfigError::UnsupportedVersion(2)));
}

#[test]
fn assign_of_a_value_of_another_kind_changes_nothing() {
    let mut config = FeelConfig::default();
    let original = config;
    assert_eq!(config.assign(FeelKey::DragLock, FeelValue::Integer(3)), Ok(()));
    assert_eq!(config, original);
    assert_eq!(
        config.assign(FeelKey::PointerMinGain, FeelValue::Number(bits(0.75))),
        Ok(())
    );
    assert_eq!(value_of(config.pointer.min_gain), 0.75);
}

#[test]
fn parameter_specs_list_every_key_with_its_range() {
    let specs = feel_parameter_specs();
    assert_eq!(specs[0].key, "pointer.dead_zone_radius_mm");
    assert_eq!(specs[0].min, Some(bits(0.01)));
    assert_eq!(specs[0].max, Some(bits(0.30)));
    assert_eq!(specs[15].key, "drag.drag_lock");
    assert_eq!(specs[15].min, None);
    for spec in &specs {
        assert!(FeelKey::from_name(spec.key).is_some());
    }
}
