use std::time::Duration;
use touchpad_core::m10::M10Profile;
use touchpad_core::units::{LogicalPixelsPerMm, Millimeters};

fn mm_value(value: Millimeters) -> f32 {
    f32::from_bits(value.to_bits())
}

fn px_per_mm(value: LogicalPixelsPerMm) -> f32 {
    f32::from_bits(value.to_bits())
}

#[test]
fn m10_profile_constructs_and_exposes_every_parameter() {
    let profile = M10Profile::new().expect("documented constants must validate");
    assert_eq!(M10Profile::NAME, "m10-linear-v1");
    assert!(mm_value(profile.motion_threshold_mm()) > 0.0);
    assert!(px_per_mm(profile.logical_pixels_per_mm()) > 0.0);
    assert!(profile.tap().tap_enabled());
    assert!(profile.tap().tap_and_drag_enabled());
    assert!(profile.tap().drag_lock_enabled());
    assert!(!profile.tap().max_tap_duration().is_zero());
    assert!(mm_value(profile.tap().max_tap_movement_mm()) > 0.0);
    assert!(!profile.tap().max_tap_drag_gap().is_zero());
    assert!(profile.two_finger().scroll_enabled());
    assert!(profile.two_finger().natural());
    assert!(profile.two_finger().secondary_tap_enabled());
    assert!(profile.two_finger().two_finger_physical_click_enabled());
    assert!(px_per_mm(profile.two_finger().scroll_logical_pixels_per_mm()) > 0.0);
    assert!(mm_value(profile.two_finger().scroll_commit_threshold_mm()) > 0.0);
    assert!(!profile.two_finger().max_secondary_tap_duration().is_zero());
    assert!(mm_value(profile.two_finger().max_secondary_tap_movement_mm()) > 0.0);
}

#[test]
fn m10_profile_name_matches_the_cli_contract() {
    assert_eq!(M10Profile::NAME, "m10-linear-v1");
}

#[test]
fn m10_profile_uses_the_documented_constants() {
    let profile = M10Profile::new().unwrap();
    assert_eq!(mm_value(profile.motion_threshold_mm()), 1.0);
    assert_eq!(px_per_mm(profile.logical_pixels_per_mm()), 10.0);
    assert_eq!(profile.tap().max_tap_duration(), Duration::from_millis(180));
    assert_eq!(mm_value(profile.tap().max_tap_movement_mm()), 3.0);
    assert_eq!(profile.tap().max_tap_drag_gap(), Duration::from_millis(350));
    assert_eq!(px_per_mm(profile.two_finger().scroll_logical_pixels_per_mm()), 10.0);
    assert_eq!(mm_value(profile.two_finger().scroll_commit_threshold_mm()), 1.0);
    assert_eq!(
        profile.two_finger().max_secondary_tap_duration(),
        Duration::from_millis(300)
    );
    assert_eq!(mm_value(profile.two_finger().max_secondary_tap_movement_mm()), 3.0);
}
