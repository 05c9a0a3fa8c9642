use std::time::Duration;
use touchpad_core::arbiter::{Lifecycle, TapConfig, TapDragPhase, TwoFingerConfig, TwoFingerPhase};
use touchpad_core::binary32::widen_finite;
use touchpad_core::contact::{Contact, ContactFrame, ContactState};
use touchpad_core::diagnostic::{DiagnosticCode, DiagnosticLevel};
use touchpad_core::interaction::{
    admit_frame, button_step, cancel_on_regression, cancel_tap_policy, expire_follow_up, latch_secondary_press,
    yield_to_physical_press, end_two_finger, press_synthetic_left, release_all_buttons,
    release_synthetic_left, resolve_release, secondary_tap_qualifies, tap_qualifies,
    ArbiterError, ButtonSources, TapState, TwoEnd, TwoFingerState,
};
use touchpad_core::output::{MouseButton, OutputEvent};
use touchpad_core::time::Monotonic;
use touchpad_core::units::{LogicalPixelsPerMm, Millimeters};

fn mm(value: f32) -> Millimeters {
    Millimeters::try_new(value.to_bits()).unwrap()
}

fn at_ms(ms: u64) -> Monotonic {
    Monotonic::from_nanos(ms * 1_000_000)
}

fn tap_config(drag: bool, lock: bool) -> TapConfig {
    TapConfig::new(
        true,
        drag,
        lock,
        Duration::from_millis(180),
        mm(3.0),
        Duration::from_millis(350),
    )
    .unwrap()
}

fn two_config() -> TwoFingerConfig {
    TwoFingerConfig::new(
        true,
        true,
        LogicalPixelsPerMm::try_new(10.0f32.to_bits()).unwrap(),
        mm(1.0),
        true,
        true,
        Duration::from_millis(300),
        mm(3.0),
    )
    .unwrap()
}

const DOWN_L: OutputEvent = OutputEvent::ButtonDown(MouseButton::Left);
const UP_L: OutputEvent = OutputEvent::ButtonUp(MouseButton::Left);
const DOWN_R: OutputEvent = OutputEvent::ButtonDown(MouseButton::Right);
const UP_R: OutputEvent = OutputEvent::ButtonUp(MouseButton::Right);

#[test]
fn invalid_frames_are_rejected_with_their_error_codes_and_messages() {
    let mut frame = ContactFrame::new(at_ms(10), 7);
    frame.contacts.push(Contact::new(-1, 0, ContactState::Active));
    frame.contacts.push(Contact::new(2, 0, ContactState::Began));
    match admit_frame(Some(3), None, &frame) {
        Err(ArbiterError::InvalidFrame { sequence, codes, reason }) => {
            assert_eq!(sequence, 7);
            assert_eq!(
                codes,
                vec![DiagnosticCode::InvalidEventOrder, DiagnosticCode::DuplicateSlot]
            );
            assert_eq!(
                reason,
                "live contact on slot 0 has negative tracking id -1; duplicate slot 0 in frame 7"
            );
        }
        other => panic!("unexpected {other:?}"),
    }
}

#[test]
fn warning_only_frames_are_admitted() {
    let mut frame = ContactFrame::new(at_ms(10), 7);
    frame.contacts.push(Contact::new(1, 0, ContactState::Began));
    assert_eq!(admit_frame(Some(6), Some(at_ms(9)), &frame), Ok(()));
    assert_eq!(admit_frame(None, None, &frame), Ok(()));
}

#[test]
fn regressed_frames_are_rejected_sequence_first() {
    let frame = ContactFrame::new(at_ms(10), 7);
    assert_eq!(
        admit_frame(Some(7), Some(at_ms(20)), &frame),
        Err(ArbiterError::SequenceRegression { found: 7, previous: 7 })
    );
    assert_eq!(
        admit_frame(Some(6), Some(at_ms(20)), &frame),
        Err(ArbiterError::TimestampRegression { found: at_ms(10), previous: at_ms(20) })
    );
    assert_eq!(admit_frame(Some(6), Some(at_ms(10)), &frame), Ok(()));
}

#[test]
fn physical_presses_reach_the_wire_once() {
    let idle = ButtonSources::released();
    let (pressed, events) = button_step(idle, true, false, false, None);
    assert_eq!(events, vec![DOWN_L]);
    assert!(pressed.physical_left);
    let (held, events) = button_step(pressed, true, false, false, None);
    assert!(events.is_empty());
    let (released, events) = button_step(held, false, false, false, None);
    assert_eq!(events, vec![UP_L]);
    assert_eq!(released, ButtonSources::released());
}

#[test]
fn two_finger_press_is_latched_to_the_right_button() {
    let cfg = two_config();
    let (latched, events) = button_step(ButtonSources::released(), true, false, true, Some(&cfg));
    assert_eq!(events, vec![DOWN_R]);
    assert!(latched.latched_right && !latched.physical_left);
    let (after, events) = button_step(latched, false, false, false, Some(&cfg));
    assert_eq!(events, vec![UP_R]);
    assert_eq!(after, ButtonSources::released());
}

#[test]
fn left_release_handing_over_to_right_press_goes_first() {
    let (left, _) = button_step(ButtonSources::released(), true, false, false, None);
    let (_, events) = button_step(left, false, true, false, None);
    assert_eq!(events, vec![UP_L, DOWN_R]);
}

#[test]
fn synthetic_press_under_a_physical_press_stays_silent() {
    let (physical, _) = button_step(ButtonSources::released(), true, false, false, None);
    let (both, events) = press_synthetic_left(physical);
    assert!(events.is_empty());
    let (_, events) = release_synthetic_left(both);
    assert!(events.is_empty());
}

#[test]
fn release_all_releases_every_held_button_and_scroll() {
    let (left, _) = button_step(ButtonSources::released(), true, true, false, None);
    let (cleared, events) = release_all_buttons(left, true);
    assert_eq!(events, vec![UP_L, UP_R, OutputEvent::ScrollEnd]);
    assert_eq!(cleared, ButtonSources::released());
    let (_, events) = release_all_buttons(ButtonSources::released(), false);
    assert!(events.is_empty());
}

#[test]
fn tap_boundary_accepts_equality_and_rejects_more() {
    let cfg = tap_config(true, true);
    let three = 3.0f64.to_bits();
    assert!(tap_qualifies(Some(at_ms(0)), at_ms(180), three, &cfg, false, false));
    assert!(!tap_qualifies(
        Some(at_ms(0)),
        Monotonic::from_nanos(180_000_001),
        three,
        &cfg,
        false,
        false
    ));
    assert!(!tap_qualifies(
        Some(at_ms(0)),
        at_ms(10),
        f64::from_bits(three + 1).to_bits(),
        &cfg,
        false,
        false
    ));
    assert!(!tap_qualifies(Some(at_ms(0)), at_ms(10), 0, &cfg, true, false));
    assert!(!tap_qualifies(Some(at_ms(0)), at_ms(10), 0, &cfg, false, true));
    assert!(!tap_qualifies(None, at_ms(10), 0, &cfg, false, false));
    assert!(!tap_qualifies(Some(at_ms(20)), at_ms(10), 0, &cfg, false, false));
    assert!(!tap_qualifies(Some(at_ms(0)), at_ms(10), f64::NAN.to_bits(), &cfg, false, false));
}

#[test]
fn widening_matches_binary32_to_binary64_conversion() {
    for bits in [
        0u32,
        0x8000_0000,
        1,
        0x0000_0003,
        0x007f_ffff,
        0x0040_0000,
        0x8000_0001,
        0x0080_0000,
        3.0f32.to_bits(),
        (-1.5f32).to_bits(),
        f32::MAX.to_bits(),
        0.1f32.to_bits(),
    ] {
        assert_eq!(widen_finite(bits), (f32::from_bits(bits) as f64).to_bits(), "{bits:#x}");
    }
}

#[test]
fn secondary_tap_needs_the_feature_and_free_buttons() {
    let cfg = two_config();
    let idle = ButtonSources::released();
    assert!(secondary_tap_qualifies(Some(&cfg), false, Some(at_ms(0)), at_ms(300), 0, idle));
    assert!(!secondary_tap_qualifies(Some(&cfg), true, Some(at_ms(0)), at_ms(10), 0, idle));
    assert!(!secondary_tap_qualifies(None, false, Some(at_ms(0)), at_ms(10), 0, idle));
    let (held, _) = button_step(idle, false, true, false, None);
    assert!(!secondary_tap_qualifies(Some(&cfg), false, Some(at_ms(0)), at_ms(10), 0, held));
}

fn candidate(phase: TapDragPhase) -> TapState {
    TapState { phase, completed_at: None, drag_committed: false, candidate_began: Some(at_ms(0)) }
}

#[test]
fn first_tap_is_held_pending_when_a_drag_may_follow() {
    let cfg = tap_config(true, true);
    let (tap, buttons, events, notes) = resolve_release(
        candidate(TapDragPhase::FirstTapCandidate),
        ButtonSources::released(),
        true,
        true,
        Some(&cfg),
        at_ms(100),
        4,
        9,
    );
    assert_eq!(tap.phase, TapDragPhase::FollowUpWindow);
    assert_eq!(tap.completed_at, Some(at_ms(100)));
    assert_eq!(tap.candidate_began, None);
    assert!(buttons.synthetic_left);
    assert_eq!(events, vec![DOWN_L]);
    assert_eq!(notes.len(), 1);
    assert_eq!(notes[0].code, DiagnosticCode::TapFired);
    assert_eq!(notes[0].level, DiagnosticLevel::Info);
    assert_eq!(notes[0].message, "qualifying tap recognized (tracking id 4)");
    assert_eq!(notes[0].frame_sequence, Some(9));
}

#[test]
fn tap_only_mode_emits_a_click_pulse() {
    let cfg = tap_config(false, false);
    let (tap, buttons, events, _) = resolve_release(
        candidate(TapDragPhase::FirstTapCandidate),
        ButtonSources::released(),
        true,
        true,
        Some(&cfg),
        at_ms(100),
        4,
        9,
    );
    assert_eq!(tap.phase, TapDragPhase::Finished);
    assert!(!buttons.synthetic_left);
    assert_eq!(events, vec![DOWN_L, UP_L]);
}

#[test]
fn non_qualifying_first_tap_emits_nothing() {
    let cfg = tap_config(true, true);
    let (tap, _, events, notes) = resolve_release(
        candidate(TapDragPhase::FirstTapCandidate),
        ButtonSources::released(),
        true,
        false,
        Some(&cfg),
        at_ms(100),
        4,
        9,
    );
    assert_eq!(tap.phase, TapDragPhase::Finished);
    assert!(events.is_empty() && notes.is_empty());
}

#[test]
fn committed_drag_engages_and_a_tap_releases_the_lock() {
    let cfg = tap_config(true, true);
    let (held, _) = press_synthetic_left(ButtonSources::released());
    let mut contact = candidate(TapDragPhase::TapDragContact);
    contact.drag_committed = true;
    let (locked, buttons, events, notes) =
        resolve_release(contact, held, true, false, Some(&cfg), at_ms(100), 4, 9);
    assert_eq!(locked.phase, TapDragPhase::LockedWithoutContact);
    assert!(buttons.synthetic_left && events.is_empty());
    assert_eq!(notes[0].message, "sticky drag lock engaged (tracking id 4)");
    let (unlocked, buttons, events, notes) = resolve_release(
        candidate(TapDragPhase::LockedContact),
        buttons,
        true,
        true,
        Some(&cfg),
        at_ms(200),
        5,
        10,
    );
    assert_eq!(unlocked.phase, TapDragPhase::Idle);
    assert!(!buttons.synthetic_left);
    assert_eq!(events, vec![UP_L]);
    assert_eq!(notes[0].code, DiagnosticCode::DragUnlocked);
}

#[test]
fn second_tap_closes_the_click_and_presses_again() {
    let cfg = tap_config(true, true);
    let (held, _) = press_synthetic_left(ButtonSources::released());
    let (tap, buttons, events, _) = resolve_release(
        candidate(TapDragPhase::TapDragCandidate),
        held,
        true,
        true,
        Some(&cfg),
        at_ms(300),
        4,
        9,
    );
    assert_eq!(tap.phase, TapDragPhase::FollowUpWindow);
    assert!(buttons.synthetic_left);
    assert_eq!(events, vec![UP_L, DOWN_L]);
}

fn two(phase: TwoFingerPhase, scroll_open: bool) -> TwoFingerState {
    TwoFingerState { phase, scroll_open, tap_disqualified: false }
}

#[test]
fn qualifying_secondary_tap_emits_exactly_one_right_click() {
    let (state, buttons, events, notes) = end_two_finger(
        two(TwoFingerPhase::Candidate, false),
        ButtonSources::released(),
        TwoEnd::Release,
        true,
        12,
    );
    assert_eq!(state.phase, TwoFingerPhase::Finished);
    assert_eq!(buttons, ButtonSources::released());
    assert_eq!(events, vec![DOWN_R, UP_R]);
    assert_eq!(notes[0].code, DiagnosticCode::SecondaryTapFired);
}

#[test]
fn committed_scroll_ends_exactly_once() {
    let (state, _, events, notes) = end_two_finger(
        two(TwoFingerPhase::CommittedScroll, true),
        ButtonSources::released(),
        TwoEnd::Cancel("third finger"),
        false,
        12,
    );
    assert_eq!(state.phase, TwoFingerPhase::Cancelled);
    assert!(!state.scroll_open && state.tap_disqualified);
    assert_eq!(events, vec![OutputEvent::ScrollEnd]);
    assert_eq!(notes.len(), 2);
    assert_eq!(notes[1].message, "two-finger interaction cancelled: third finger");
    assert_eq!(notes[1].level, DiagnosticLevel::Warning);
    let (_, _, events, _) = end_two_finger(state, ButtonSources::released(), TwoEnd::Release, true, 13);
    assert!(events.is_empty());
}

#[test]
fn regression_cancels_policies_but_keeps_held_state_owed() {
    let mut tap = candidate(TapDragPhase::LockedContact);
    tap.completed_at = Some(at_ms(5));
    let (lifecycle, id, tap, pair) = cancel_on_regression(
        Lifecycle::Committed,
        Some(3),
        tap,
        two(TwoFingerPhase::CommittedScroll, true),
    );
    assert_eq!(lifecycle, Lifecycle::Cancelled);
    assert_eq!(id, None);
    assert_eq!(tap.phase, TapDragPhase::Cancelled);
    assert_eq!(tap.completed_at, None);
    assert_eq!(pair.phase, TwoFingerPhase::Cancelled);
    assert!(pair.scroll_open && pair.tap_disqualified);
    let idle = TapState { phase: TapDragPhase::Idle, completed_at: None, drag_committed: false, candidate_began: None };
    let (lifecycle, _, tap, _) =
        cancel_on_regression(Lifecycle::Idle, None, idle, two(TwoFingerPhase::Idle, false));
    assert_eq!(lifecycle, Lifecycle::Idle);
    assert_eq!(tap, idle);
}

#[test]
fn follow_up_window_expires_only_strictly_after_the_gap() {
    let cfg = tap_config(true, true);
    let (held, _) = press_synthetic_left(ButtonSources::released());
    let pending = TapState {
        phase: TapDragPhase::FollowUpWindow,
        completed_at: Some(at_ms(100)),
        drag_committed: false,
        candidate_began: None,
    };
    let (open, buttons, events) = expire_follow_up(pending, held, Some(&cfg), at_ms(450));
    assert_eq!(open, pending);
    assert!(buttons.synthetic_left && events.is_empty());
    let (expired, buttons, events) =
        expire_follow_up(pending, held, Some(&cfg), Monotonic::from_nanos(450_000_001));
    assert_eq!(expired.phase, TapDragPhase::Idle);
    assert_eq!(expired.completed_at, None);
    assert!(!buttons.synthetic_left);
    assert_eq!(events, vec![UP_L]);
    let (backwards, _, events) = expire_follow_up(pending, held, Some(&cfg), at_ms(50));
    assert_eq!(backwards.phase, TapDragPhase::Idle);
    assert_eq!(events, vec![UP_L]);
}

#[test]
fn physical_press_cancels_a_two_finger_scroll() {
    let (state, _, events, notes) = yield_to_physical_press(
        two(TwoFingerPhase::CommittedScroll, true),
        ButtonSources::released(),
        4,
    );
    assert_eq!(state.phase, TwoFingerPhase::Cancelled);
    assert_eq!(events, vec![OutputEvent::ScrollEnd]);
    assert_eq!(notes[1].message, "two-finger interaction cancelled: physical click");
    let (idle, _, events, _) =
        yield_to_physical_press(two(TwoFingerPhase::Idle, false), ButtonSources::released(), 4);
    assert!(idle.tap_disqualified && events.is_empty());
}

#[test]
fn latched_press_closes_an_open_scroll_and_holds() {
    let (state, events, notes) = latch_secondary_press(two(TwoFingerPhase::CommittedScroll, true), 4);
    assert_eq!(state.phase, TwoFingerPhase::PhysicalSecondaryClickHeld);
    assert!(!state.scroll_open && state.tap_disqualified);
    assert_eq!(events, vec![OutputEvent::ScrollEnd]);
    assert_eq!(notes.len(), 2);
    assert_eq!(notes[1].code, DiagnosticCode::SecondaryClickLatched);
    let (_, events, notes) = latch_secondary_press(two(TwoFingerPhase::Candidate, false), 4);
    assert!(events.is_empty());
    assert_eq!(notes.len(), 1);
}

#[test]
fn a_real_press_cancels_the_tap_policy() {
    let (held, _) = press_synthetic_left(ButtonSources::released());
    let pending = TapState {
        phase: TapDragPhase::FollowUpWindow,
        completed_at: Some(at_ms(1)),
        drag_committed: false,
        candidate_began: None,
    };
    let (tap, buttons, events) = cancel_tap_policy(pending, held);
    assert_eq!(tap.phase, TapDragPhase::Cancelled);
    assert_eq!(tap.completed_at, None);
    assert!(!buttons.synthetic_left);
    assert_eq!(events, vec![UP_L]);
    let finished = TapState { phase: TapDragPhase::Finished, ..pending };
    let (same, _, events) = cancel_tap_policy(finished, held);
    assert_eq!(same, finished);
    assert!(events.is_empty());
}
