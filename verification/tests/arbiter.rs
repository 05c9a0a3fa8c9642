use std::time::Duration;
use touchpad_core::arbiter::{
    validate_transition, Lifecycle, TapConfig, TapConfigError, TransitionError, TwoFingerConfig,
    TwoFingerConfigError,
};
use touchpad_core::units::{LogicalPixelsPerMm, Millimeters};

fn mm(value: f32) -> Millimeters {
    Millimeters::try_new(value.to_bits()).unwrap()
}

fn scale(value: f32) -> LogicalPixelsPerMm {
    LogicalPixelsPerMm::try_new(value.to_bits()).unwrap()
}

fn dur(ms: u64) -> Duration {
    Duration::from_millis(ms)
}

fn as_mm(value: Millimeters) -> f32 {
    f32::from_bits(value.to_bits())
}

#[test]
fn config_rejects_non_finite_or_non_positive_scale() {
    for bad in [f32::NAN, f32::INFINITY, 0.0, -5.0] {
        assert!(LogicalPixelsPerMm::try_new(bad.to_bits()).is_err());
    }
}

#[test]
fn tap_config_rejects_zero_durations() {
    assert_eq!(
        TapConfig::new(true, false, false, Duration::ZERO, mm(1.0), dur(100)),
        Err(TapConfigError::ZeroDuration("max_tap_duration"))
    );
    assert_eq!(
        TapConfig::new(true, false, false, dur(100), mm(1.0), Duration::ZERO),
        Err(TapConfigError::ZeroDuration("max_tap_drag_gap"))
    );
}

#[test]
fn tap_config_rejects_non_positive_movement() {
    for bad in [0.0, -0.5] {
        assert_eq!(
            TapConfig::new(true, false, false, dur(100), mm(bad), dur(100)),
            Err(TapConfigError::NonPositiveMovement(mm(bad)))
        );
    }
    assert!(Millimeters::try_new(f32::NAN.to_bits()).is_err());
}

#[test]
fn tap_config_rejects_impossible_feature_combinations() {
    assert_eq!(
        TapConfig::new(false, true, false, dur(100), mm(1.0), dur(100)),
        Err(TapConfigError::TapAndDragRequiresTap)
    );
    assert_eq!(
        TapConfig::new(true, false, true, dur(100), mm(1.0), dur(100)),
        Err(TapConfigError::DragLockRequiresTapAndDrag)
    );
    assert!(TapConfig::new(false, false, false, dur(100), mm(1.0), dur(100)).is_ok());
}

#[test]
fn two_finger_config_rejects_invalid_values() {
    for bad in [0.0, -0.5] {
        assert_eq!(
            TwoFingerConfig::new(true, true, scale(10.0), mm(bad), true, true, dur(100), mm(1.0)),
            Err(TwoFingerConfigError::NonPositiveScrollThreshold(mm(bad)))
        );
    }
    assert_eq!(
        TwoFingerConfig::new(true, true, scale(10.0), mm(0.5), true, true, Duration::ZERO, mm(1.0)),
        Err(TwoFingerConfigError::ZeroDuration("max_secondary_tap_duration"))
    );
    assert_eq!(
        TwoFingerConfig::new(true, true, scale(10.0), mm(0.5), true, true, dur(100), mm(0.0)),
        Err(TwoFingerConfigError::NonPositiveMovement(mm(0.0)))
    );
    assert!(LogicalPixelsPerMm::try_new(f32::NAN.to_bits()).is_err());
    assert!(
        TwoFingerConfig::new(false, true, scale(10.0), mm(0.5), false, false, dur(100), mm(1.0))
            .is_ok()
    );
}

#[test]
fn transition_table_legal_and_illegal_pairs() {
    let legal: &[(Lifecycle, Lifecycle)] = &[
        (Lifecycle::Idle, Lifecycle::Candidate),
        (Lifecycle::Cancelled, Lifecycle::Candidate),
        (Lifecycle::Finished, Lifecycle::Candidate),
        (Lifecycle::Candidate, Lifecycle::Committed),
        (Lifecycle::Candidate, Lifecycle::Cancelled),
        (Lifecycle::Candidate, Lifecycle::Finished),
        (Lifecycle::Committed, Lifecycle::Cancelled),
        (Lifecycle::Committed, Lifecycle::Finished),
    ];
    let all = [
        Lifecycle::Idle,
        Lifecycle::Candidate,
        Lifecycle::Committed,
        Lifecycle::Cancelled,
        Lifecycle::Finished,
    ];
    for from in all {
        for to in all {
            let expected = legal.contains(&(from, to));
            assert_eq!(
                validate_transition(from, to).is_ok(),
                expected,
                "transition {from:?} -> {to:?}"
            );
            if !expected {
                let err = validate_transition(from, to).unwrap_err();
                assert_eq!(err.from(), from);
                assert_eq!(err.to(), to);
            }
        }
    }
}

#[test]
fn illegal_transition_reports_both_states() {
    assert_eq!(
        validate_transition(Lifecycle::Idle, Lifecycle::Committed),
        Err(TransitionError::Illegal {
            from: Lifecycle::Idle,
            to: Lifecycle::Committed
        })
    );
    assert!(validate_transition(Lifecycle::Cancelled, Lifecycle::Finished).is_err());
}

#[test]
fn tap_config_refinements_keep_the_other_limits() {
    let tap = TapConfig::new(true, true, true, dur(500), mm(2.0), dur(400)).unwrap();
    let unlocked = tap.clone().without_drag_lock();
    assert!(!unlocked.drag_lock_enabled());
    assert!(unlocked.tap_and_drag_enabled());
    assert_eq!(unlocked.max_tap_duration(), dur(500));
    assert_eq!(as_mm(unlocked.max_tap_movement_mm()), 2.0);
    let regapped = tap.clone().with_max_tap_drag_gap(dur(250)).unwrap();
    assert_eq!(regapped.max_tap_drag_gap(), dur(250));
    assert!(regapped.drag_lock_enabled());
    assert_eq!(
        tap.with_max_tap_drag_gap(Duration::ZERO),
        Err(TapConfigError::ZeroDuration("max_tap_drag_gap"))
    );
}

#[test]
fn millimeters_compare_like_binary32() {
    assert_eq!(mm(0.0), mm(-0.0));
    assert_ne!(mm(1.0), mm(-1.0));
    assert!(Millimeters::try_new(f32::INFINITY.to_bits()).is_err());
    assert!(mm(0.25).is_positive());
    assert!(!mm(-0.0).is_positive());
    assert_eq!(
        LogicalPixelsPerMm::try_new((-0.0f32).to_bits()),
        Err(touchpad_core::units::ScaleError::NonPositive)
    );
}

#[test]
fn configuration_error_messages_name_the_problem() {
    assert_eq!(
        TapConfigError::NonPositiveMovement(mm(-1.0)).message(),
        "maximum tap movement must be strictly positive, got 0xbf800000"
    );
    assert_eq!(
        TapConfigError::ZeroDuration("max_tap_duration").message(),
        "tap configuration requires a strictly positive max_tap_duration"
    );
    assert_eq!(
        TwoFingerConfigError::NonPositiveScrollThreshold(mm(0.0)).message(),
        "scroll commit threshold must be strictly positive, got 0x00000000"
    );
    assert_eq!(
        touchpad_core::m10::M10ProfileError::Tap(TapConfigError::TapAndDragRequiresTap).message(),
        "m10-linear-v1 tap configuration is invalid: tap-and-drag requires tap-to-click to be enabled"
    );
}
