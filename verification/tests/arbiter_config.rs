use std::time::Duration;
use touchpad_core::arbiter::{ArbiterConfig, ArbiterConfigError, Lifecycle, TapConfig, TapDragPhase, TwoFingerConfig};
use touchpad_core::contact::{Contact, ContactFrame, ContactState, PhysicalButtons};
use touchpad_core::frame::{Arbiter, FrameMotion};
use touchpad_core::m10::M10Profile;
use touchpad_core::m11::M11Profile;
use touchpad_core::output::{MouseButton, OutputEvent};
use touchpad_core::pointer::ContactOwner;
use touchpad_core::time::Monotonic;
use touchpad_core::units::{LogicalPixelsPerMm, Millimeters};

fn mm(x: f32) -> Millimeters {
    Millimeters::try_new(x.to_bits()).unwrap()
}

fn scale(x: f32) -> LogicalPixelsPerMm {
    LogicalPixelsPerMm::try_new(x.to_bits()).unwrap()
}

fn dur(ms: u64) -> Duration {
    Duration::from_millis(ms)
}

fn cfg() -> ArbiterConfig {
    ArbiterConfig::new(mm(1.0), scale(10.0)).unwrap()
}

fn tap_cfg() -> TapConfig {
    TapConfig::new(true, true, true, dur(500), mm(2.0), dur(400)).unwrap()
}

fn two_cfg() -> TwoFingerConfig {
    TwoFingerConfig::new(true, true, scale(10.0), mm(0.5), true, true, dur(500), mm(2.0)).unwrap()
}

#[test]
fn config_rejects_non_positive_threshold() {
    for bad in [0.0f32, -0.1, -1.0] {
        let err = ArbiterConfig::new(mm(bad), scale(10.0));
        assert_eq!(err, Err(ArbiterConfigError::NonPositiveThreshold(mm(bad))));
    }
    assert!(ArbiterConfig::new(mm(0.001), scale(10.0)).is_ok());
}

#[test]
fn arbiter_config_default_leaves_tapping_disabled_and_with_tap_enables() {
    let base = cfg();
    assert!(base.tap_config().is_none());
    assert!(!base.is_tap_enabled());
    let tap = tap_cfg();
    let with_tap = base.with_tap(tap.clone());
    assert_eq!(with_tap.tap_config(), Some(&tap));
    assert!(with_tap.is_tap_enabled());
    assert_eq!(with_tap.tap_config().unwrap().max_tap_duration(), dur(500));
    assert_eq!(with_tap.tap_config().unwrap().max_tap_movement_mm(), mm(2.0));
    assert_eq!(with_tap.tap_config().unwrap().max_tap_drag_gap(), dur(400));
    assert!(with_tap.tap_config().unwrap().tap_enabled());
    assert!(with_tap.tap_config().unwrap().tap_and_drag_enabled());
    assert!(with_tap.tap_config().unwrap().drag_lock_enabled());
}

#[test]
fn two_finger_config_disabled_by_default_and_with_two_finger_enables() {
    let base = cfg();
    assert!(base.two_finger_config().is_none());
    assert!(!base.is_two_finger_enabled());
    let two = two_cfg();
    let with_two = base.with_two_finger(two.clone());
    assert_eq!(with_two.two_finger_config(), Some(&two));
    assert!(with_two.is_two_finger_enabled());
    assert!(with_two.two_finger_config().unwrap().scroll_enabled());
    assert!(with_two.two_finger_config().unwrap().natural());
    assert_eq!(with_two.two_finger_config().unwrap().scroll_logical_pixels_per_mm(), scale(10.0));
    assert_eq!(with_two.two_finger_config().unwrap().scroll_commit_threshold_mm(), mm(0.5));
    assert!(with_two.two_finger_config().unwrap().secondary_tap_enabled());
    assert!(with_two.two_finger_config().unwrap().two_finger_physical_click_enabled());
    assert_eq!(with_two.two_finger_config().unwrap().max_secondary_tap_duration(), dur(500));
    assert_eq!(with_two.two_finger_config().unwrap().max_secondary_tap_movement_mm(), mm(2.0));
}

#[test]
fn profile_builds_a_validated_arbiter_config() {
    let profile = M10Profile::new().unwrap();
    let config = profile.arbiter_config();
    assert_eq!(config.motion_threshold_mm(), profile.motion_threshold_mm());
    assert_eq!(config.logical_pixels_per_mm(), profile.logical_pixels_per_mm());
    assert_eq!(config.tap_config(), Some(profile.tap()));
    assert_eq!(config.two_finger_config(), Some(profile.two_finger()));
    assert!(config.is_tap_enabled());
    assert!(config.is_two_finger_enabled());
}

#[test]
fn profile_builds_a_validated_arbiter_config_with_fidelity() {
    let profile = M11Profile::new().unwrap();
    let config = profile.arbiter_config();
    assert_eq!(config.motion_threshold_mm(), profile.motion_threshold_mm());
    assert_eq!(config.logical_pixels_per_mm(), profile.logical_pixels_per_mm());
    assert_eq!(config.tap_config(), Some(profile.tap()));
    assert_eq!(config.two_finger_config(), Some(profile.two_finger()));
    assert!(config.is_tap_enabled());
    assert!(config.is_two_finger_enabled());
    assert!(config.is_fidelity_enabled());
    assert_eq!(config.fidelity_config(), Some(profile.fidelity_config()));
}

#[test]
fn arbiter_runs_a_tap_with_its_own_configuration() {
    let mut a = Arbiter::new(cfg().with_tap(tap_cfg()));
    assert_eq!(a.lifecycle(), Lifecycle::Idle);
    let mut frame = ContactFrame::new(Monotonic::from_nanos(0), 0);
    let mut c = Contact::new(1, 0, ContactState::Began);
    c.x_mm = Some(mm(0.0));
    c.y_mm = Some(mm(0.0));
    frame.contacts.push(c.clone());
    let still = FrameMotion {
        crossed: false,
        tap_within_limits: true,
        owner: ContactOwner::Pointer,
        scroll_crossed: false,
        secondary_within_limits: false,
    };
    a.frame(&frame, still, Vec::new()).unwrap();
    assert_eq!(a.tap_drag_phase(), TapDragPhase::FirstTapCandidate);
    assert_eq!(a.tracking_id(), Some(1));
    let mut frame = ContactFrame::new(Monotonic::from_nanos(1), 1);
    c.state = ContactState::Ended;
    frame.contacts.push(c);
    let out = a.frame(&frame, still, Vec::new()).unwrap();
    assert_eq!(out.before_motion, vec![OutputEvent::ButtonDown(MouseButton::Left)]);
    assert!(a.is_synthetic_left_held() && a.is_left_held());
    assert!(a.needs_timer_tick());
    assert_eq!(a.last_input_sequence(), Some(1));
    assert_eq!(a.last_input_timestamp(), Some(Monotonic::from_nanos(1)));
    assert_eq!(a.tick(Monotonic::from_nanos(400_000_002)).unwrap(), vec![OutputEvent::ButtonUp(MouseButton::Left)]);
    assert!(!a.is_left_held());
    assert!(a.tick(Monotonic::from_nanos(0)).is_err());
    let mut press = ContactFrame::new(Monotonic::from_nanos(2), 2);
    press.physical_buttons = PhysicalButtons::new(false, true, false);
    a.frame(&press, still, Vec::new()).unwrap();
    assert!(a.is_right_held() && a.is_physical_right_held());
    assert!(!a.is_synthetic_right_held() && !a.is_latched_right_held() && !a.is_scroll_open());
    assert_eq!(a.release_all(), vec![OutputEvent::ButtonUp(MouseButton::Right)]);
    assert!(a.release_all().is_empty());
    assert_eq!(a.two_finger_phase(), touchpad_core::arbiter::TwoFingerPhase::Idle);
    assert!(a.config().is_tap_enabled());
}
