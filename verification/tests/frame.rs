use std::time::Duration;
use touchpad_core::arbiter::{Lifecycle, LifecycleTransition, TapConfig, TapDragPhase, TwoFingerConfig, TwoFingerPhase};
use touchpad_core::contact::{Contact, ContactFrame, ContactState, PhysicalButtons};
use touchpad_core::diagnostic::DiagnosticCode;
use touchpad_core::frame::{frame_step, ArbiterState, FrameMotion};
use touchpad_core::interaction::{button_step, ArbiterError, ButtonSources};
use touchpad_core::output::{MouseButton, OutputEvent};
use touchpad_core::pointer::{
    contacts_step, ContactMotion, ContactOwner, DragButton, InteractionState, LiveContact, PointerMotion,
};
use touchpad_core::time::Monotonic;
use touchpad_core::two_finger::{two_finger_step, ScrollMotion, TwoFingerSample};
use touchpad_core::pointer::TrackingPair;
use touchpad_core::units::{LogicalPixelsPerMm, Millimeters};

fn mm(value: f32) -> Millimeters {
    Millimeters::try_new(value.to_bits()).unwrap()
}

fn at_ms(ms: u64) -> Monotonic {
    Monotonic::from_nanos(ms * 1_000_000)
}

fn tap_config() -> TapConfig {
    TapConfig::new(true, false, false, Duration::from_millis(180), mm(3.0), Duration::from_millis(350)).unwrap()
}

fn two_config() -> TwoFingerConfig {
    TwoFingerConfig::new(
        true,
        true,
        LogicalPixelsPerMm::try_new(10.0f32.to_bits()).unwrap(),
        mm(1.0),
        true,
        true,
        Duration::from_millis(300),
        mm(3.0),
    )
    .unwrap()
}

const DOWN_L: OutputEvent = OutputEvent::ButtonDown(MouseButton::Left);
const UP_L: OutputEvent = OutputEvent::ButtonUp(MouseButton::Left);
const DOWN_R: OutputEvent = OutputEvent::ButtonDown(MouseButton::Right);
const UP_R: OutputEvent = OutputEvent::ButtonUp(MouseButton::Right);

fn live(tracking_id: i32, began: bool, complete: bool) -> LiveContact {
    LiveContact { tracking_id, slot: 0, began, complete }
}

fn motion(first: LiveContact, ended: Option<bool>, crossed: bool) -> ContactMotion {
    ContactMotion {
        first,
        ended,
        crossed,
        tap_within_limits: true,
        discontinuity: false,
        owner: ContactOwner::Pointer,
    }
}

fn contact(tracking_id: i32, slot: u32, state: ContactState, x: f32, y: f32) -> Contact {
    let mut c = Contact::new(tracking_id, slot, state);
    c.x_mm = Some(mm(x));
    c.y_mm = Some(mm(y));
    c
}

fn plain_motion() -> FrameMotion {
    FrameMotion {
        crossed: false,
        tap_within_limits: false,
        owner: ContactOwner::Pointer,
        scroll_crossed: false,
        secondary_within_limits: false,
    }
}

#[test]
fn physical_buttons_none_presses_nothing() {
    let none = PhysicalButtons::none();
    assert!(!none.left && !none.right && !none.middle);
    assert!(none.is_empty());
}

#[test]
fn right_release_with_a_latched_press_keeps_the_right_wire_quiet() {
    let cfg = two_config();
    let held_right = ButtonSources { physical_right: true, physical_right_raw: true, ..ButtonSources::released() };
    let (after, events) = button_step(held_right, true, false, true, Some(&cfg));
    assert!(after.latched_right && !after.physical_right);
    assert!(events.is_empty());
    let (released, events) = button_step(after, false, false, false, Some(&cfg));
    assert!(!released.latched_right);
    assert_eq!(events, vec![UP_R]);
}

#[test]
fn one_finger_candidate_commits_once_past_the_threshold_and_finishes() {
    let st = InteractionState::fresh();
    let (began, moved) = contacts_step(st, 1, motion(live(4, true, true), None, false), None, at_ms(0), 1);
    assert_eq!(moved, PointerMotion::Still);
    assert_eq!(began.state.lifecycle, Lifecycle::Candidate);
    assert_eq!(began.state.tracking_id, Some(4));
    assert_eq!(began.transitions, vec![LifecycleTransition::Begin { tracking_id: 4 }]);
    assert_eq!(began.diagnostics[0].code, DiagnosticCode::InteractionBegun);
    assert_eq!(began.diagnostics[0].message, "one-finger pointer candidate began (tracking id 4)");

    let (still, moved) = contacts_step(began.state, 1, motion(live(4, false, true), None, false), None, at_ms(8), 2);
    assert_eq!(moved, PointerMotion::Still);
    assert_eq!(still.state.lifecycle, Lifecycle::Candidate);
    assert!(still.transitions.is_empty() && still.events.is_empty());

    let (committed, moved) = contacts_step(still.state, 1, motion(live(4, false, true), None, true), None, at_ms(16), 3);
    assert_eq!(moved, PointerMotion::Commit);
    assert_eq!(committed.state.lifecycle, Lifecycle::Committed);
    assert_eq!(committed.transitions, vec![LifecycleTransition::Commit { tracking_id: 4 }]);

    let (follows, moved) = contacts_step(committed.state, 1, motion(live(4, false, true), None, true), None, at_ms(24), 4);
    assert_eq!(moved, PointerMotion::Follow);
    assert!(follows.transitions.is_empty());

    let (done, moved) = contacts_step(follows.state, 0, motion(live(0, false, false), Some(true), false), None, at_ms(32), 5);
    assert_eq!(moved, PointerMotion::Follow);
    assert_eq!(done.state.lifecycle, Lifecycle::Finished);
    assert_eq!(done.state.tracking_id, None);
    assert_eq!(done.transitions, vec![LifecycleTransition::Finish { tracking_id: 4 }]);
    assert_eq!(done.diagnostics[0].message, "one-finger interaction finished (tracking id 4)");
}

#[test]
fn second_live_contact_cancels_the_one_finger_interaction() {
    let st = InteractionState::fresh();
    let (began, _) = contacts_step(st, 1, motion(live(1, true, true), None, false), None, at_ms(0), 1);
    let (committed, _) = contacts_step(began.state, 1, motion(live(1, false, true), None, true), None, at_ms(8), 2);
    let (cancelled, moved) = contacts_step(committed.state, 2, motion(live(1, false, true), None, true), None, at_ms(16), 3);
    assert_eq!(moved, PointerMotion::Still);
    assert_eq!(cancelled.state.lifecycle, Lifecycle::Cancelled);
    assert_eq!(cancelled.transitions, vec![LifecycleTransition::Cancel { tracking_id: 1 }]);
    assert_eq!(cancelled.diagnostics[0].message, "one-finger interaction cancelled: second live contact");
    assert!(cancelled.state.two.tap_disqualified);
}

#[test]
fn incomplete_new_contact_begins_nothing() {
    let (out, _) = contacts_step(InteractionState::fresh(), 1, motion(live(9, true, false), None, false), None, at_ms(0), 6);
    assert_eq!(out.state.lifecycle, Lifecycle::Idle);
    assert_eq!(out.diagnostics[0].code, DiagnosticCode::IncompleteNewContact);
    assert_eq!(
        out.diagnostics[0].message,
        "cannot begin a candidate for contact 9 on slot 0: missing required coordinates"
    );
}

#[test]
fn quick_tap_fires_a_click_pair_at_release() {
    let tap = tap_config();
    let (began, _) = contacts_step(InteractionState::fresh(), 1, motion(live(2, true, true), None, false), Some(&tap), at_ms(0), 1);
    assert_eq!(began.state.tap.phase, TapDragPhase::FirstTapCandidate);
    let (released, moved) = contacts_step(began.state, 0, motion(live(0, false, false), Some(true), false), Some(&tap), at_ms(50), 2);
    assert_eq!(moved, PointerMotion::Still);
    assert_eq!(released.events, vec![DOWN_L, UP_L]);
    assert_eq!(released.state.tap.phase, TapDragPhase::Finished);
    assert!(!released.state.buttons.synthetic_left);
}

#[test]
fn committed_pointer_is_no_tap() {
    let tap = tap_config();
    let (began, _) = contacts_step(InteractionState::fresh(), 1, motion(live(2, true, true), None, false), Some(&tap), at_ms(0), 1);
    let (committed, _) = contacts_step(began.state, 1, motion(live(2, false, true), None, true), Some(&tap), at_ms(10), 2);
    assert_eq!(committed.state.tap.phase, TapDragPhase::Idle);
    let (released, _) = contacts_step(committed.state, 0, motion(live(0, false, false), Some(true), false), Some(&tap), at_ms(20), 3);
    assert!(released.events.is_empty());
}

#[test]
fn continuous_gesture_takes_the_frame_from_the_pointer() {
    let (began, _) = contacts_step(InteractionState::fresh(), 1, motion(live(3, true, true), None, false), None, at_ms(0), 1);
    let gesture = ContactMotion { owner: ContactOwner::Gesture, ..motion(live(3, false, true), None, true) };
    let (owned, moved) = contacts_step(began.state, 3, gesture, None, at_ms(8), 2);
    assert_eq!(moved, PointerMotion::Still);
    assert_eq!(owned.state.lifecycle, Lifecycle::Cancelled);
    assert_eq!(owned.diagnostics[0].message, "one-finger interaction cancelled: continuous gesture ownership");
}

#[test]
fn three_finger_drag_presses_and_releases_its_synthetic_left() {
    let press = ContactMotion {
        owner: ContactOwner::ThreeFingerDrag { button: DragButton::Press, moves: true },
        ..motion(live(3, false, true), None, false)
    };
    let (pressed, moved) = contacts_step(InteractionState::fresh(), 3, press, None, at_ms(0), 1);
    assert_eq!(moved, PointerMotion::Drag);
    assert_eq!(pressed.events, vec![DOWN_L]);
    let release = ContactMotion {
        owner: ContactOwner::ThreeFingerDrag { button: DragButton::Release, moves: false },
        ..press
    };
    let (released, _) = contacts_step(pressed.state, 0, release, None, at_ms(8), 2);
    assert_eq!(released.events, vec![UP_L]);
}

fn sample(complete: u32, first: i32, second: i32) -> TwoFingerSample {
    TwoFingerSample {
        live_present: complete > 0,
        complete,
        incomplete: false,
        pair: TrackingPair { first, second },
        ended_pair: false,
        crossed: false,
        secondary_within_limits: false,
    }
}

#[test]
fn two_fingers_begin_a_candidate_then_commit_a_scroll() {
    let cfg = two_config();
    let (began, scroll) = two_finger_step(InteractionState::fresh(), sample(2, 8, 5), Some(&cfg), false, false, 1);
    assert_eq!(scroll, ScrollMotion::Still);
    assert_eq!(began.state.two.phase, TwoFingerPhase::Candidate);
    assert_eq!(began.state.two_pair, Some(TrackingPair { first: 5, second: 8 }));
    assert_eq!(began.diagnostics[0].message, "two-finger candidate began (tracking ids 5, 8)");
    let moved = TwoFingerSample { crossed: true, ..sample(2, 5, 8) };
    let (committed, scroll) = two_finger_step(began.state, moved, Some(&cfg), false, false, 2);
    assert_eq!(scroll, ScrollMotion::Commit);
    assert_eq!(committed.events, vec![OutputEvent::ScrollBegin]);
    assert!(committed.state.two.scroll_open);
    let (follows, scroll) = two_finger_step(committed.state, moved, Some(&cfg), false, false, 3);
    assert_eq!(scroll, ScrollMotion::Follow);
    assert!(follows.events.is_empty());
    let (ended, _) = two_finger_step(follows.state, TwoFingerSample { ended_pair: true, ..sample(0, 0, 0) }, Some(&cfg), false, false, 4);
    assert_eq!(ended.events, vec![OutputEvent::ScrollEnd]);
    assert_eq!(ended.state.two.phase, TwoFingerPhase::Finished);
}

#[test]
fn clean_two_finger_tap_fires_the_secondary_click() {
    let cfg = two_config();
    let (began, _) = two_finger_step(InteractionState::fresh(), sample(2, 1, 2), Some(&cfg), false, false, 1);
    let release = TwoFingerSample { ended_pair: true, secondary_within_limits: true, ..sample(0, 0, 0) };
    let (ended, _) = two_finger_step(began.state, release, Some(&cfg), false, false, 2);
    assert_eq!(ended.events, vec![DOWN_R, UP_R]);
    assert_eq!(ended.diagnostics[0].code, DiagnosticCode::SecondaryTapFired);
}

#[test]
fn third_contact_cancels_the_two_finger_interaction() {
    let cfg = two_config();
    let (began, _) = two_finger_step(InteractionState::fresh(), sample(2, 1, 2), Some(&cfg), false, false, 1);
    let (cancelled, _) = two_finger_step(began.state, sample(3, 1, 2), Some(&cfg), false, false, 2);
    assert_eq!(cancelled.state.two.phase, TwoFingerPhase::Cancelled);
    assert_eq!(cancelled.diagnostics[0].message, "two-finger interaction cancelled: third live contact");
}

#[test]
fn physical_left_press_goes_before_motion_and_release_after() {
    let mut state = ArbiterState::fresh();
    let mut frame = ContactFrame::new(at_ms(0), 1);
    frame.physical_buttons = PhysicalButtons::new(true, false, false);
    frame.contacts.push(contact(1, 0, ContactState::Began, 10.0, 10.0));
    let out = frame_step(&mut state, &frame, plain_motion(), Vec::new(), None, None).unwrap();
    assert_eq!(out.before_motion, vec![DOWN_L]);
    assert!(out.after_motion.is_empty());
    assert_eq!(out.transitions, vec![LifecycleTransition::Begin { tracking_id: 1 }]);
    assert_eq!(state.interaction.lifecycle, Lifecycle::Candidate);
    assert_eq!(state.last_sequence, Some(1));

    let mut frame = ContactFrame::new(at_ms(8), 2);
    frame.physical_buttons = PhysicalButtons::new(false, false, false);
    frame.contacts.push(contact(1, 0, ContactState::Active, 14.0, 10.0));
    let moving = FrameMotion { crossed: true, ..plain_motion() };
    let out = frame_step(&mut state, &frame, moving, Vec::new(), None, None).unwrap();
    assert!(out.before_motion.is_empty());
    assert_eq!(out.pointer, PointerMotion::Commit);
    assert_eq!(out.after_motion, vec![UP_L]);
    assert_eq!(state.interaction.lifecycle, Lifecycle::Committed);
}

#[test]
fn invalid_frame_leaves_the_state_alone() {
    let mut state = ArbiterState::fresh();
    let mut frame = ContactFrame::new(at_ms(0), 1);
    frame.contacts.push(contact(1, 0, ContactState::Began, 1.0, 1.0));
    frame_step(&mut state, &frame, plain_motion(), Vec::new(), None, None).unwrap();
    let before = state;
    let mut bad = ContactFrame::new(at_ms(8), 2);
    bad.contacts.push(Contact::new(-4, 0, ContactState::Active));
    match frame_step(&mut state, &bad, plain_motion(), Vec::new(), None, None) {
        Err(ArbiterError::InvalidFrame { sequence, codes, .. }) => {
            assert_eq!(sequence, 2);
            assert_eq!(codes, vec![DiagnosticCode::InvalidEventOrder]);
        }
        other => panic!("unexpected {:?}", other),
    }
    assert_eq!(state, before);
}

#[test]
fn regressed_frame_cancels_the_interaction_and_keeps_the_buttons() {
    let mut state = ArbiterState::fresh();
    let mut frame = ContactFrame::new(at_ms(10), 5);
    frame.physical_buttons = PhysicalButtons::new(true, false, false);
    frame.contacts.push(contact(1, 0, ContactState::Began, 1.0, 1.0));
    frame_step(&mut state, &frame, plain_motion(), Vec::new(), None, None).unwrap();
    let old = ContactFrame::new(at_ms(20), 5);
    assert_eq!(
        frame_step(&mut state, &old, plain_motion(), Vec::new(), None, None),
        Err(ArbiterError::SequenceRegression { found: 5, previous: 5 })
    );
    assert_eq!(state.interaction.lifecycle, Lifecycle::Cancelled);
    assert_eq!(state.interaction.tracking_id, None);
    assert!(state.interaction.buttons.physical_left);
    assert_eq!(state.last_sequence, Some(5));
}

#[test]
fn release_all_twice_releases_once() {
    let mut state = ArbiterState::fresh();
    let mut frame = ContactFrame::new(at_ms(0), 1);
    frame.physical_buttons = PhysicalButtons::new(true, true, false);
    frame_step(&mut state, &frame, plain_motion(), Vec::new(), None, None).unwrap();
    assert_eq!(state.release_all(), vec![UP_L, UP_R]);
    assert_eq!(state, ArbiterState::fresh());
    assert!(state.release_all().is_empty());
    assert_eq!(state, ArbiterState::fresh());
}

#[test]
fn discontinuity_cancels_and_the_left_edge_still_counts() {
    let mut state = ArbiterState::fresh();
    let mut frame = ContactFrame::new(at_ms(0), 1);
    frame.contacts.push(contact(1, 0, ContactState::Began, 1.0, 1.0));
    frame_step(&mut state, &frame, plain_motion(), Vec::new(), None, None).unwrap();
    let mut broken = ContactFrame::with_discontinuity(at_ms(8), 2);
    broken.physical_buttons = PhysicalButtons::new(true, false, false);
    broken.contacts.push(contact(1, 0, ContactState::Active, 1.0, 1.0));
    let out = frame_step(&mut state, &broken, plain_motion(), Vec::new(), None, None).unwrap();
    assert_eq!(out.before_motion, vec![DOWN_L]);
    assert_eq!(out.transitions, vec![LifecycleTransition::Cancel { tracking_id: 1 }]);
    assert_eq!(out.diagnostics[0].message, "one-finger interaction cancelled: discontinuity");
}

#[test]
fn handoff_releases_left_before_pressing_right() {
    let mut state = ArbiterState::fresh();
    let mut frame = ContactFrame::new(at_ms(0), 1);
    frame.physical_buttons = PhysicalButtons::new(true, false, false);
    frame_step(&mut state, &frame, plain_motion(), Vec::new(), None, None).unwrap();
    let mut swap = ContactFrame::new(at_ms(8), 2);
    swap.physical_buttons = PhysicalButtons::new(false, true, false);
    let out = frame_step(&mut state, &swap, plain_motion(), Vec::new(), None, None).unwrap();
    assert_eq!(out.before_motion, vec![UP_L, DOWN_R]);
    assert!(out.after_motion.is_empty());
}
