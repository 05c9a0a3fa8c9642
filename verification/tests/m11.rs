use std::time::Duration;
use touchpad_core::fidelity::FidelityConfigError;
use touchpad_core::m10::M10Profile;
use touchpad_core::m11::{M11Profile, M11ProfileError, M11_FIDELITY_V1_NAME};

fn value_of(pattern: u64) -> f64 {
    f64::from_bits(pattern)
}

#[test]
fn m11_profile_constructs_and_exposes_every_parameter() {
    let profile = M11Profile::new().expect("documented constants must validate");
    assert_eq!(M11Profile::NAME, "m11-fidelity-v1");
    assert_eq!(M11_FIDELITY_V1_NAME, "m11-fidelity-v1");
    let fidelity = profile.fidelity_config();
    assert_eq!(value_of(fidelity.dead_zone_radius_mm()), 0.09);
    assert_eq!(fidelity.velocity_tau(), Duration::from_millis(20));
    assert_eq!(fidelity.long_gap(), Duration::from_millis(150));
    assert_eq!(value_of(fidelity.gain_x0_mm_per_s()), 50.0);
    assert_eq!(value_of(fidelity.gain_x1_mm_per_s()), 600.0);
    assert_eq!(value_of(fidelity.min_gain()), 1.0);
    assert_eq!(value_of(fidelity.max_gain()), 2.0);
    assert_eq!(value_of(fidelity.tracking_speed()), 1.0);
}

#[test]
fn profile_inherits_every_m10_value() {
    let m10 = M10Profile::new().unwrap();
    let m11 = M11Profile::new().unwrap();
    assert_eq!(m11.motion_threshold_mm(), m10.motion_threshold_mm());
    assert_eq!(m11.logical_pixels_per_mm(), m10.logical_pixels_per_mm());
    assert_eq!(m11.tap(), m10.tap());
    assert_eq!(m11.two_finger(), m10.two_finger());
    assert_eq!(m11.m10_profile(), &m10);
}

#[test]
fn m11_profile_name_matches_the_cli_contract() {
    assert_eq!(M11Profile::NAME, "m11-fidelity-v1");
}

#[test]
fn fidelity_error_variant_is_reachable() {
    let err = M11ProfileError::Fidelity(FidelityConfigError::DeadZoneRadius((-1.0f64).to_bits()));
    assert!(matches!(
        err,
        M11ProfileError::Fidelity(FidelityConfigError::DeadZoneRadius(v)) if value_of(v) == -1.0
    ));
    assert!(err
        .message()
        .contains("m11-fidelity-v1 fidelity configuration is invalid"));
    assert!(err
        .message()
        .contains("fidelity dead zone radius must be finite and strictly positive"));
}

#[test]
fn fidelity_messages_show_the_binary64_pattern() {
    let err = M11ProfileError::Fidelity(FidelityConfigError::GainX1(1.0f64.to_bits()));
    assert_eq!(
        err.message(),
        "m11-fidelity-v1 fidelity configuration is invalid: fidelity gain curve x1 must be finite and strictly greater than x0, got 0x3ff0000000000000"
    );
    assert_eq!(
        FidelityConfigError::ZeroLongGap.message(),
        "fidelity long gap must be strictly positive"
    );
}
