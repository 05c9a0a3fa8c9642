use touchpad_core::gesture_bindings::{
    all_gesture_targets, all_gesture_triggers, route_continuous_gesture, route_three_finger_tap,
    GestureMapConfig, GestureMapError, GestureRouteState, GestureTarget, GestureTrigger,
    GESTURE_MAP_VERSION,
};
use touchpad_core::output::{
    ContinuousGestureEvent, ContinuousGestureKind, ContinuousGesturePhase, DesktopAction,
    MouseButton, OutputEvent,
};

fn event(
    kind: ContinuousGestureKind,
    phase: ContinuousGesturePhase,
    x: f32,
    y: f32,
) -> ContinuousGestureEvent {
    ContinuousGestureEvent {
        kind,
        phase,
        translation_x_mm: x.to_bits(),
        translation_y_mm: y.to_bits(),
        scale: 1.0f32.to_bits(),
        rotation_radians: 0.0f32.to_bits(),
    }
}

#[test]
fn default_is_complete_and_maps_three_finger_tap_to_middle_click() {
    let config = GestureMapConfig::default();
    config.validate().unwrap();
    assert_eq!(config.bindings.len(), all_gesture_triggers().len());
    assert_eq!(
        config.target(GestureTrigger::ThreeFingerTap),
        GestureTarget::MiddleClick
    );
    assert_eq!(
        route_three_finger_tap(&config),
        vec![
            OutputEvent::ButtonDown(MouseButton::Middle),
            OutputEvent::ButtonUp(MouseButton::Middle),
        ]
    );
    assert_eq!(
        config.target(GestureTrigger::PinchIn),
        GestureTarget::Passthrough
    );
}

#[test]
fn middle_click_target_is_restricted_to_three_finger_tap_atomically() {
    let mut config = GestureMapConfig::default();
    let before = config.clone();
    assert!(matches!(
        config.set_target(GestureTrigger::PinchIn, GestureTarget::MiddleClick),
        Err(GestureMapError::MiddleClickOnlyThreeFingerTap(
            GestureTrigger::PinchIn
        ))
    ));
    assert_eq!(config, before);
}

#[test]
fn mapped_swipe_fires_once_and_suppresses_updates_and_end() {
    let mut config = GestureMapConfig::default();
    config
        .set_target(
            GestureTrigger::ThreeFingerSwipeUp,
            GestureTarget::OpenOverview,
        )
        .unwrap();
    let mut state = GestureRouteState::default();
    assert_eq!(
        route_continuous_gesture(
            &config,
            &mut state,
            event(
                ContinuousGestureKind::ThreeFingerSwipe,
                ContinuousGesturePhase::Begin,
                0.0,
                -2.0,
            ),
        ),
        Some(OutputEvent::DesktopAction(DesktopAction::OpenOverview))
    );
    assert_eq!(
        route_continuous_gesture(
            &config,
            &mut state,
            event(
                ContinuousGestureKind::ThreeFingerSwipe,
                ContinuousGesturePhase::Update,
                0.0,
                -4.0,
            ),
        ),
        None
    );
    assert_eq!(
        route_continuous_gesture(
            &config,
            &mut state,
            event(
                ContinuousGestureKind::ThreeFingerSwipe,
                ContinuousGesturePhase::End,
                0.0,
                0.0,
            ),
        ),
        None
    );
}

#[test]
fn macos_inspired_preset_has_expected_assignments() {
    let config = GestureMapConfig::macos_inspired();
    assert!(!config.three_finger_drag_enabled);
    assert_eq!(
        config.target(GestureTrigger::ThreeFingerSwipeUp),
        GestureTarget::OpenOverview
    );
    assert_eq!(
        config.target(GestureTrigger::ThumbThreeSpread),
        GestureTarget::ShowDesktop
    );
    assert_eq!(
        config.target(GestureTrigger::PinchIn),
        GestureTarget::Disabled
    );
    assert_eq!(
        config.target(GestureTrigger::ThreeFingerTap),
        GestureTarget::Disabled
    );
}

#[test]
fn names_parse_back_to_their_values() {
    for trigger in all_gesture_triggers() {
        assert_eq!(GestureTrigger::parse(trigger.name()), Some(trigger));
    }
    for target in all_gesture_targets() {
        assert_eq!(GestureTarget::parse(target.name()), Some(target));
    }
    assert_eq!(GestureTrigger::parse("pinch-in"), Some(GestureTrigger::PinchIn));
    assert_eq!(GestureTarget::parse("smart-zoom"), Some(GestureTarget::SmartZoom));
    assert_eq!(GestureTrigger::parse("pinch"), None);
    assert_eq!(GestureTarget::parse("Lookup"), None);
}

#[test]
fn desktop_actions_of_targets() {
    assert_eq!(GestureTarget::Passthrough.desktop_action(), None);
    assert_eq!(GestureTarget::Disabled.desktop_action(), None);
    assert_eq!(GestureTarget::MiddleClick.desktop_action(), None);
    assert_eq!(
        GestureTarget::PresentWindows.desktop_action(),
        Some(DesktopAction::PresentWindows)
    );
}

#[test]
fn validation_reports_version_missing_count_and_stray_middle_click() {
    let mut config = GestureMapConfig::default();
    config.version = 2;
    assert_eq!(config.validate(), Err(GestureMapError::UnsupportedVersion(2)));

    let mut config = GestureMapConfig::default();
    config.bindings.remove(&GestureTrigger::RotateClockwise.code());
    config.bindings.remove(&GestureTrigger::EdgeSwipeUp.code());
    assert_eq!(
        config.validate(),
        Err(GestureMapError::MissingTrigger(GestureTrigger::RotateClockwise))
    );

    let mut config = GestureMapConfig::default();
    config.bindings.insert(99, GestureTarget::Disabled);
    assert_eq!(
        config.validate(),
        Err(GestureMapError::UnexpectedBindingCount(24))
    );

    let mut config = GestureMapConfig::default();
    config
        .bindings
        .insert(GestureTrigger::EdgeSwipeDown.code(), GestureTarget::MiddleClick);
    config
        .bindings
        .insert(GestureTrigger::PinchOut.code(), GestureTarget::MiddleClick);
    assert_eq!(
        config.validate(),
        Err(GestureMapError::MiddleClickOnlyThreeFingerTap(GestureTrigger::PinchOut))
    );
    assert_eq!(GESTURE_MAP_VERSION, 1);
}

#[test]
fn accepted_set_target_reads_back() {
    let mut config = GestureMapConfig::macos_inspired();
    config
        .set_target(GestureTrigger::PinchOut, GestureTarget::SmartZoom)
        .unwrap();
    assert_eq!(config.target(GestureTrigger::PinchOut), GestureTarget::SmartZoom);
    assert_eq!(config.target(GestureTrigger::PinchIn), GestureTarget::Disabled);
    config
        .set_target(GestureTrigger::ThreeFingerTap, GestureTarget::MiddleClick)
        .unwrap();
    assert_eq!(
        route_three_finger_tap(&config),
        vec![
            OutputEvent::ButtonDown(MouseButton::Middle),
            OutputEvent::ButtonUp(MouseButton::Middle),
        ]
    );
}

#[test]
fn three_finger_tap_routes_by_target() {
    let mut config = GestureMapConfig::default();
    config
        .set_target(GestureTrigger::ThreeFingerTap, GestureTarget::Passthrough)
        .unwrap();
    assert_eq!(
        route_three_finger_tap(&config),
        vec![OutputEvent::DesktopAction(DesktopAction::Lookup)]
    );
    config
        .set_target(GestureTrigger::ThreeFingerTap, GestureTarget::Disabled)
        .unwrap();
    assert_eq!(route_three_finger_tap(&config), vec![]);
    config
        .set_target(GestureTrigger::ThreeFingerTap, GestureTarget::ShowDesktop)
        .unwrap();
    assert_eq!(
        route_three_finger_tap(&config),
        vec![OutputEvent::DesktopAction(DesktopAction::ShowDesktop)]
    );
}

#[test]
fn begin_direction_and_sign_select_the_trigger() {
    let mut config = GestureMapConfig::macos_inspired();
    config
        .set_target(GestureTrigger::PinchIn, GestureTarget::CloseOverview)
        .unwrap();
    config
        .set_target(GestureTrigger::RotateClockwise, GestureTarget::PageNext)
        .unwrap();
    let mut state = GestureRouteState::default();
    // Horizontal dominance on a tie picks the x axis: negative is left.
    let left = event(ContinuousGestureKind::ThreeFingerSwipe, ContinuousGesturePhase::Begin, -3.0, 3.0);
    assert_eq!(
        route_continuous_gesture(&config, &mut state, left),
        Some(OutputEvent::DesktopAction(DesktopAction::NextWorkspace))
    );
    state.reset();
    let mut pinch = event(ContinuousGestureKind::Pinch, ContinuousGesturePhase::Begin, 0.0, 0.0);
    pinch.scale = 0.5f32.to_bits();
    assert_eq!(
        route_continuous_gesture(&config, &mut state, pinch),
        Some(OutputEvent::DesktopAction(DesktopAction::CloseOverview))
    );
    state.reset();
    let mut rotate = event(ContinuousGestureKind::Rotate, ContinuousGesturePhase::Begin, 0.0, 0.0);
    rotate.rotation_radians = (-0.2f32).to_bits();
    assert_eq!(
        route_continuous_gesture(&config, &mut state, rotate),
        Some(OutputEvent::DesktopAction(DesktopAction::PageNext))
    );
    // A pinch with scale exactly 1 selects no trigger and passes through.
    state.reset();
    let flat = event(ContinuousGestureKind::Pinch, ContinuousGesturePhase::Begin, 0.0, 0.0);
    assert_eq!(
        route_continuous_gesture(&config, &mut state, flat),
        Some(OutputEvent::ContinuousGesture(flat))
    );
    // A NaN scale is neither below nor above one: passthrough as well.
    state.reset();
    let mut nan = flat;
    nan.scale = f32::NAN.to_bits();
    assert_eq!(
        route_continuous_gesture(&config, &mut state, nan),
        Some(OutputEvent::ContinuousGesture(nan))
    );
    // Disabled swipe down: swallowed, and its update too.
    state.reset();
    let down = event(ContinuousGestureKind::TwoFingerPageSwipe, ContinuousGesturePhase::Begin, 0.5, 1.0);
    assert_eq!(route_continuous_gesture(&config, &mut state, down), None);
    let update = event(ContinuousGestureKind::TwoFingerPageSwipe, ContinuousGesturePhase::Update, 0.5, 2.0);
    assert_eq!(route_continuous_gesture(&config, &mut state, update), None);
    // An update of a different kind is forwarded.
    let other = event(ContinuousGestureKind::EdgeSwipe, ContinuousGesturePhase::Update, 0.5, 2.0);
    assert_eq!(
        route_continuous_gesture(&config, &mut state, other),
        Some(OutputEvent::ContinuousGesture(other))
    );
}

#[test]
fn passthrough_gesture_is_forwarded_until_it_ends() {
    let config = GestureMapConfig::default();
    let mut state = GestureRouteState::default();
    let begin = event(ContinuousGestureKind::FourFingerSwipe, ContinuousGesturePhase::Begin, 1.0, 0.0);
    assert_eq!(
        route_continuous_gesture(&config, &mut state, begin),
        Some(OutputEvent::ContinuousGesture(begin))
    );
    let cancel = event(ContinuousGestureKind::FourFingerSwipe, ContinuousGesturePhase::Cancel, 1.0, 0.0);
    assert_eq!(
        route_continuous_gesture(&config, &mut state, cancel),
        Some(OutputEvent::ContinuousGesture(cancel))
    );
    assert_eq!(state, GestureRouteState::default());
}
