//! Desktop-neutral gesture-to-action routing.
//!
//! A [`GestureMapConfig`] binds every [`GestureTrigger`] to a
//! [`GestureTarget`]. Continuous gestures are routed at their `Begin`
//! event: passthrough gestures keep flowing, disabled ones are swallowed
//! until they end, and mapped ones fire their desktop action once and are
//! then swallowed until they end. Bindings are keyed by the trigger's
//! [`GestureTrigger::code`].

use crate::binary32;
use crate::output::{
    ContinuousGestureEvent, ContinuousGestureKind, ContinuousGesturePhase, DesktopAction,
    MouseButton, OutputEvent,
};
use std::collections::BTreeMap;
use vstd::prelude::*;

verus! {

broadcast use vstd::std_specs::btree::group_btree_axioms;

/// The supported gesture-map format version.
pub const GESTURE_MAP_VERSION: u32 = 1;

/// Number of gesture triggers.
pub const GESTURE_TRIGGER_COUNT: usize = 23;

/// Number of gesture targets.
pub const GESTURE_TARGET_COUNT: usize = 15;

/// A recognizable gesture that can be bound to a target.
#[derive(Clone, Copy, Debug, PartialEq, Eq, PartialOrd, Ord, Hash, Structural)]
pub enum GestureTrigger {
    PinchIn,
    PinchOut,
    RotateClockwise,
    RotateCounterClockwise,
    TwoFingerPageLeft,
    TwoFingerPageRight,
    TwoFingerPageUp,
    TwoFingerPageDown,
    ThreeFingerSwipeLeft,
    ThreeFingerSwipeRight,
    ThreeFingerSwipeUp,
    ThreeFingerSwipeDown,
    FourFingerSwipeLeft,
    FourFingerSwipeRight,
    FourFingerSwipeUp,
    FourFingerSwipeDown,
    EdgeSwipeLeft,
    EdgeSwipeRight,
    EdgeSwipeUp,
    EdgeSwipeDown,
    ThumbThreePinch,
    ThumbThreeSpread,
    ThreeFingerTap,
}

/// Every trigger, in declaration order (position `i` holds the trigger
/// whose code is `i`).
pub open spec fn spec_all_triggers() -> Seq<GestureTrigger> {
    seq![
        GestureTrigger::PinchIn,
        GestureTrigger::PinchOut,
        GestureTrigger::RotateClockwise,
        GestureTrigger::RotateCounterClockwise,
        GestureTrigger::TwoFingerPageLeft,
        GestureTrigger::TwoFingerPageRight,
        GestureTrigger::TwoFingerPageUp,
        GestureTrigger::TwoFingerPageDown,
        GestureTrigger::ThreeFingerSwipeLeft,
        GestureTrigger::ThreeFingerSwipeRight,
        GestureTrigger::ThreeFingerSwipeUp,
        GestureTrigger::ThreeFingerSwipeDown,
        GestureTrigger::FourFingerSwipeLeft,
        GestureTrigger::FourFingerSwipeRight,
        GestureTrigger::FourFingerSwipeUp,
        GestureTrigger::FourFingerSwipeDown,
        GestureTrigger::EdgeSwipeLeft,
        GestureTrigger::EdgeSwipeRight,
        GestureTrigger::EdgeSwipeUp,
        GestureTrigger::EdgeSwipeDown,
        GestureTrigger::ThumbThreePinch,
        GestureTrigger::ThumbThreeSpread,
        GestureTrigger::ThreeFingerTap,
    ]
}

/// Every target, in declaration order.
pub open spec fn spec_all_targets() -> Seq<GestureTarget> {
    seq![
        GestureTarget::Passthrough,
        GestureTarget::Disabled,
        GestureTarget::MiddleClick,
        GestureTarget::NextWorkspace,
        GestureTarget::PreviousWorkspace,
        GestureTarget::ShowDesktop,
        GestureTarget::OpenOverview,
        GestureTarget::CloseOverview,
        GestureTarget::PresentWindows,
        GestureTarget::ApplicationLauncher,
        GestureTarget::NotificationCenter,
        GestureTarget::PageNext,
        GestureTarget::PagePrevious,
        GestureTarget::SmartZoom,
        GestureTarget::Lookup,
    ]
}

/// Every trigger, in declaration order.
pub fn all_gesture_triggers() -> (r: [GestureTrigger; 23])
    ensures
        r@ == spec_all_triggers(),
{
    [
        GestureTrigger::PinchIn,
        GestureTrigger::PinchOut,
        GestureTrigger::RotateClockwise,
        GestureTrigger::RotateCounterClockwise,
        GestureTrigger::TwoFingerPageLeft,
        GestureTrigger::TwoFingerPageRight,
        GestureTrigger::TwoFingerPageUp,
        GestureTrigger::TwoFingerPageDown,
        GestureTrigger::ThreeFingerSwipeLeft,
        GestureTrigger::ThreeFingerSwipeRight,
        GestureTrigger::ThreeFingerSwipeUp,
        GestureTrigger::ThreeFingerSwipeDown,
        GestureTrigger::FourFingerSwipeLeft,
        GestureTrigger::FourFingerSwipeRight,
        GestureTrigger::FourFingerSwipeUp,
        GestureTrigger::FourFingerSwipeDown,
        GestureTrigger::EdgeSwipeLeft,
        GestureTrigger::EdgeSwipeRight,
        GestureTrigger::EdgeSwipeUp,
        GestureTrigger::EdgeSwipeDown,
        GestureTrigger::ThumbThreePinch,
        GestureTrigger::ThumbThreeSpread,
        GestureTrigger::ThreeFingerTap,
    ]
}

/// Every target, in declaration order.
pub fn all_gesture_targets() -> (r: [GestureTarget; 15])
    ensures
        r@ == spec_all_targets(),
{
    [
        GestureTarget::Passthrough,
        GestureTarget::Disabled,
        GestureTarget::MiddleClick,
        GestureTarget::NextWorkspace,
        GestureTarget::PreviousWorkspace,
        GestureTarget::ShowDesktop,
        GestureTarget::OpenOverview,
        GestureTarget::CloseOverview,
        GestureTarget::PresentWindows,
        GestureTarget::ApplicationLauncher,
        GestureTarget::NotificationCenter,
        GestureTarget::PageNext,
        GestureTarget::PagePrevious,
        GestureTarget::SmartZoom,
        GestureTarget::Lookup,
    ]
}

impl GestureTrigger {
    /// The stable kebab-case name.
    pub open spec fn spec_name(self) -> Seq<char> {
        match self {
            GestureTrigger::PinchIn => "pinch-in"@,
            GestureTrigger::PinchOut => "pinch-out"@,
            GestureTrigger::RotateClockwise => "rotate-clockwise"@,
            GestureTrigger::RotateCounterClockwise => "rotate-counter-clockwise"@,
            GestureTrigger::TwoFingerPageLeft => "two-finger-page-left"@,
            GestureTrigger::TwoFingerPageRight => "two-finger-page-right"@,
            GestureTrigger::TwoFingerPageUp => "two-finger-page-up"@,
            GestureTrigger::TwoFingerPageDown => "two-finger-page-down"@,
            GestureTrigger::ThreeFingerSwipeLeft => "three-finger-swipe-left"@,
            GestureTrigger::ThreeFingerSwipeRight => "three-finger-swipe-right"@,
            GestureTrigger::ThreeFingerSwipeUp => "three-finger-swipe-up"@,
            GestureTrigger::ThreeFingerSwipeDown => "three-finger-swipe-down"@,
            GestureTrigger::FourFingerSwipeLeft => "four-finger-swipe-left"@,
            GestureTrigger::FourFingerSwipeRight => "four-finger-swipe-right"@,
            GestureTrigger::FourFingerSwipeUp => "four-finger-swipe-up"@,
            GestureTrigger::FourFingerSwipeDown => "four-finger-swipe-down"@,
            GestureTrigger::EdgeSwipeLeft => "edge-swipe-left"@,
            GestureTrigger::EdgeSwipeRight => "edge-swipe-right"@,
            GestureTrigger::EdgeSwipeUp => "edge-swipe-up"@,
            GestureTrigger::EdgeSwipeDown => "edge-swipe-down"@,
            GestureTrigger::ThumbThreePinch => "thumb-three-pinch"@,
            GestureTrigger::ThumbThreeSpread => "thumb-three-spread"@,
            GestureTrigger::ThreeFingerTap => "three-finger-tap"@,
        }
    }

    /// The position of the trigger in declaration order; bindings are keyed
    /// by it.
    pub open spec fn spec_code(self) -> u32 {
        match self {
            GestureTrigger::PinchIn => 0,
            GestureTrigger::PinchOut => 1,
            GestureTrigger::RotateClockwise => 2,
            GestureTrigger::RotateCounterClockwise => 3,
            GestureTrigger::TwoFingerPageLeft => 4,
            GestureTrigger::TwoFingerPageRight => 5,
            GestureTrigger::TwoFingerPageUp => 6,
            GestureTrigger::TwoFingerPageDown => 7,
            GestureTrigger::ThreeFingerSwipeLeft => 8,
            GestureTrigger::ThreeFingerSwipeRight => 9,
            GestureTrigger::ThreeFingerSwipeUp => 10,
            GestureTrigger::ThreeFingerSwipeDown => 11,
            GestureTrigger::FourFingerSwipeLeft => 12,
            GestureTrigger::FourFingerSwipeRight => 13,
            GestureTrigger::FourFingerSwipeUp => 14,
            GestureTrigger::FourFingerSwipeDown => 15,
            GestureTrigger::EdgeSwipeLeft => 16,
            GestureTrigger::EdgeSwipeRight => 17,
            GestureTrigger::EdgeSwipeUp => 18,
            GestureTrigger::EdgeSwipeDown => 19,
            GestureTrigger::ThumbThreePinch => 20,
            GestureTrigger::ThumbThreeSpread => 21,
            GestureTrigger::ThreeFingerTap => 22,
        }
    }

    /// The stable kebab-case name.
    pub fn name(self) -> (r: &'static str)
        ensures
            r@ == self.spec_name(),
    {
        match self {
            GestureTrigger::PinchIn => "pinch-in",
            GestureTrigger::PinchOut => "pinch-out",
            GestureTrigger::RotateClockwise => "rotate-clockwise",
            GestureTrigger::RotateCounterClockwise => "rotate-counter-clockwise",
            GestureTrigger::TwoFingerPageLeft => "two-finger-page-left",
            GestureTrigger::TwoFingerPageRight => "two-finger-page-right",
            GestureTrigger::TwoFingerPageUp => "two-finger-page-up",
            GestureTrigger::TwoFingerPageDown => "two-finger-page-down",
            GestureTrigger::ThreeFingerSwipeLeft => "three-finger-swipe-left",
            GestureTrigger::ThreeFingerSwipeRight => "three-finger-swipe-right",
            GestureTrigger::ThreeFingerSwipeUp => "three-finger-swipe-up",
            GestureTrigger::ThreeFingerSwipeDown => "three-finger-swipe-down",
            GestureTrigger::FourFingerSwipeLeft => "four-finger-swipe-left",
            GestureTrigger::FourFingerSwipeRight => "four-finger-swipe-right",
            GestureTrigger::FourFingerSwipeUp => "four-finger-swipe-up",
            GestureTrigger::FourFingerSwipeDown => "four-finger-swipe-down",
            GestureTrigger::EdgeSwipeLeft => "edge-swipe-left",
            GestureTrigger::EdgeSwipeRight => "edge-swipe-right",
            GestureTrigger::EdgeSwipeUp => "edge-swipe-up",
            GestureTrigger::EdgeSwipeDown => "edge-swipe-down",
            GestureTrigger::ThumbThreePinch => "thumb-three-pinch",
            GestureTrigger::ThumbThreeSpread => "thumb-three-spread",
            GestureTrigger::ThreeFingerTap => "three-finger-tap",
        }
    }

    /// The position of the trigger in declaration order.
    pub fn code(self) -> (r: u32)
        ensures
            r == self.spec_code(),
    {
        match self {
            GestureTrigger::PinchIn => 0,
            GestureTrigger::PinchOut => 1,
            GestureTrigger::RotateClockwise => 2,
            GestureTrigger::RotateCounterClockwise => 3,
            GestureTrigger::TwoFingerPageLeft => 4,
            GestureTrigger::TwoFingerPageRight => 5,
            GestureTrigger::TwoFingerPageUp => 6,
            GestureTrigger::TwoFingerPageDown => 7,
            GestureTrigger::ThreeFingerSwipeLeft => 8,
            GestureTrigger::ThreeFingerSwipeRight => 9,
            GestureTrigger::ThreeFingerSwipeUp => 10,
            GestureTrigger::ThreeFingerSwipeDown => 11,
            GestureTrigger::FourFingerSwipeLeft => 12,
            GestureTrigger::FourFingerSwipeRight => 13,
            GestureTrigger::FourFingerSwipeUp => 14,
            GestureTrigger::FourFingerSwipeDown => 15,
            GestureTrigger::EdgeSwipeLeft => 16,
            GestureTrigger::EdgeSwipeRight => 17,
            GestureTrigger::EdgeSwipeUp => 18,
            GestureTrigger::EdgeSwipeDown => 19,
            GestureTrigger::ThumbThreePinch => 20,
            GestureTrigger::ThumbThreeSpread => 21,
            GestureTrigger::ThreeFingerTap => 22,
        }
    }
}

/// What a trigger can be bound to.
#[derive(Clone, Copy, Debug, PartialEq, Eq, Hash, Structural)]
pub enum GestureTarget {
    Passthrough,
    Disabled,
    MiddleClick,
    NextWorkspace,
    PreviousWorkspace,
    ShowDesktop,
    OpenOverview,
    CloseOverview,
    PresentWindows,
    ApplicationLauncher,
    NotificationCenter,
    PageNext,
    PagePrevious,
    SmartZoom,
    Lookup,
}

impl GestureTarget {
    /// The stable kebab-case name.
    pub open spec fn spec_name(self) -> Seq<char> {
        match self {
            GestureTarget::Passthrough => "passthrough"@,
            GestureTarget::Disabled => "disabled"@,
            GestureTarget::MiddleClick => "middle-click"@,
            GestureTarget::NextWorkspace => "next-workspace"@,
            GestureTarget::PreviousWorkspace => "previous-workspace"@,
            GestureTarget::ShowDesktop => "show-desktop"@,
            GestureTarget::OpenOverview => "open-overview"@,
            GestureTarget::CloseOverview => "close-overview"@,
            GestureTarget::PresentWindows => "present-windows"@,
            GestureTarget::ApplicationLauncher => "application-launcher"@,
            GestureTarget::NotificationCenter => "notification-center"@,
            GestureTarget::PageNext => "page-next"@,
            GestureTarget::PagePrevious => "page-previous"@,
            GestureTarget::SmartZoom => "smart-zoom"@,
            GestureTarget::Lookup => "lookup"@,
        }
    }

    /// The stable kebab-case name.
    pub fn name(self) -> (r: &'static str)
        ensures
            r@ == self.spec_name(),
    {
        match self {
            GestureTarget::Passthrough => "passthrough",
            GestureTarget::Disabled => "disabled",
            GestureTarget::MiddleClick => "middle-click",
            GestureTarget::NextWorkspace => "next-workspace",
            GestureTarget::PreviousWorkspace => "previous-workspace",
            GestureTarget::ShowDesktop => "show-desktop",
            GestureTarget::OpenOverview => "open-overview",
            GestureTarget::CloseOverview => "close-overview",
            GestureTarget::PresentWindows => "present-windows",
            GestureTarget::ApplicationLauncher => "application-launcher",
            GestureTarget::NotificationCenter => "notification-center",
            GestureTarget::PageNext => "page-next",
            GestureTarget::PagePrevious => "page-previous",
            GestureTarget::SmartZoom => "smart-zoom",
            GestureTarget::Lookup => "lookup",
        }
    }

    /// The desktop action a target fires; `None` for passthrough, disabled
    /// and middle-click.
    pub open spec fn spec_desktop_action(self) -> Option<DesktopAction> {
        match self {
            GestureTarget::Passthrough | GestureTarget::Disabled | GestureTarget::MiddleClick => None,
            GestureTarget::NextWorkspace => Some(DesktopAction::NextWorkspace),
            GestureTarget::PreviousWorkspace => Some(DesktopAction::PreviousWorkspace),
            GestureTarget::ShowDesktop => Some(DesktopAction::ShowDesktop),
            GestureTarget::OpenOverview => Some(DesktopAction::OpenOverview),
            GestureTarget::CloseOverview => Some(DesktopAction::CloseOverview),
            GestureTarget::PresentWindows => Some(DesktopAction::PresentWindows),
            GestureTarget::ApplicationLauncher => Some(DesktopAction::ApplicationLauncher),
            GestureTarget::NotificationCenter => Some(DesktopAction::NotificationCenter),
            GestureTarget::PageNext => Some(DesktopAction::PageNext),
            GestureTarget::PagePrevious => Some(DesktopAction::PagePrevious),
            GestureTarget::SmartZoom => Some(DesktopAction::SmartZoom),
            GestureTarget::Lookup => Some(DesktopAction::Lookup),
        }
    }

    /// The desktop action a target fires; `None` for passthrough, disabled
    /// and middle-click.
    pub fn desktop_action(self) -> (r: Option<DesktopAction>)
        ensures
            r == self.spec_desktop_action(),
    {
        match self {
            GestureTarget::Passthrough | GestureTarget::Disabled | GestureTarget::MiddleClick => None,
            GestureTarget::NextWorkspace => Some(DesktopAction::NextWorkspace),
            GestureTarget::PreviousWorkspace => Some(DesktopAction::PreviousWorkspace),
            GestureTarget::ShowDesktop => Some(DesktopAction::ShowDesktop),
            GestureTarget::OpenOverview => Some(DesktopAction::OpenOverview),
            GestureTarget::CloseOverview => Some(DesktopAction::CloseOverview),
            GestureTarget::PresentWindows => Some(DesktopAction::PresentWindows),
            GestureTarget::ApplicationLauncher => Some(DesktopAction::ApplicationLauncher),
            GestureTarget::NotificationCenter => Some(DesktopAction::NotificationCenter),
            GestureTarget::PageNext => Some(DesktopAction::PageNext),
            GestureTarget::PagePrevious => Some(DesktopAction::PagePrevious),
            GestureTarget::SmartZoom => Some(DesktopAction::SmartZoom),
            GestureTarget::Lookup => Some(DesktopAction::Lookup),
        }
    }
}


/// Calls `<str as PartialEq>::eq`, which compares the two strings' contents;
/// claims the answer is whether their character sequences are equal.
#[verifier::external_body]
pub(crate) fn str_equals(a: &str, b: &str) -> (r: bool)
    ensures
        r == (a@ == b@),
{
    a == b
}

/// Each trigger sits at its code's position in [`spec_all_triggers`].
pub proof fn lemma_trigger_position(t: GestureTrigger)
    ensures
        t.spec_code() < 23,
        spec_all_triggers()[t.spec_code() as int] == t,
{
}

/// Each position of [`spec_all_triggers`] holds the trigger with that code.
pub proof fn lemma_trigger_codes()
    ensures
        spec_all_triggers().len() == 23,
        forall|k: int| 0 <= k < 23 ==> (#[trigger] spec_all_triggers()[k]).spec_code() == k,
{
}

/// Each target sits somewhere in [`spec_all_targets`].
pub proof fn lemma_target_position(t: GestureTarget)
    ensures
        exists|k: int| 0 <= k < 15 && #[trigger] spec_all_targets()[k] == t,
{
    let all = spec_all_targets();
    let k: int = match t {
        GestureTarget::Passthrough => 0,
        GestureTarget::Disabled => 1,
        GestureTarget::MiddleClick => 2,
        GestureTarget::NextWorkspace => 3,
        GestureTarget::PreviousWorkspace => 4,
        GestureTarget::ShowDesktop => 5,
        GestureTarget::OpenOverview => 6,
        GestureTarget::CloseOverview => 7,
        GestureTarget::PresentWindows => 8,
        GestureTarget::ApplicationLauncher => 9,
        GestureTarget::NotificationCenter => 10,
        GestureTarget::PageNext => 11,
        GestureTarget::PagePrevious => 12,
        GestureTarget::SmartZoom => 13,
        GestureTarget::Lookup => 14,
    };
    assert(all[k] == t);
}

/// Distinct triggers have distinct names.
pub proof fn lemma_trigger_names_distinct(a: GestureTrigger, b: GestureTrigger)
    requires
        a.spec_name() == b.spec_name(),
    ensures
        a == b,
{
    let sa = a.spec_name();
    let sb = b.spec_name();
    reveal_strlit("pinch-in");
    reveal_strlit("pinch-out");
    reveal_strlit("rotate-clockwise");
    reveal_strlit("rotate-counter-clockwise");
    reveal_strlit("two-finger-page-left");
    reveal_strlit("two-finger-page-right");
    reveal_strlit("two-finger-page-up");
    reveal_strlit("two-finger-page-down");
    reveal_strlit("three-finger-swipe-left");
    reveal_strlit("three-finger-swipe-right");
    reveal_strlit("three-finger-swipe-up");
    reveal_strlit("three-finger-swipe-down");
    reveal_strlit("four-finger-swipe-left");
    reveal_strlit("four-finger-swipe-right");
    reveal_strlit("four-finger-swipe-up");
    reveal_strlit("four-finger-swipe-down");
    reveal_strlit("edge-swipe-left");
    reveal_strlit("edge-swipe-right");
    reveal_strlit("edge-swipe-up");
    reveal_strlit("edge-swipe-down");
    reveal_strlit("thumb-three-pinch");
    reveal_strlit("thumb-three-spread");
    reveal_strlit("three-finger-tap");
    assert(sa.len() == sb.len());
    assert(sa[sa.len() - 2] == sb[sb.len() - 2]);
}

/// Distinct targets have distinct names.
pub proof fn lemma_target_names_distinct(a: GestureTarget, b: GestureTarget)
    requires
        a.spec_name() == b.spec_name(),
    ensures
        a == b,
{
    let sa = a.spec_name();
    let sb = b.spec_name();
    reveal_strlit("passthrough");
    reveal_strlit("disabled");
    reveal_strlit("middle-click");
    reveal_strlit("next-workspace");
    reveal_strlit("previous-workspace");
    reveal_strlit("show-desktop");
    reveal_strlit("open-overview");
    reveal_strlit("close-overview");
    reveal_strlit("present-windows");
    reveal_strlit("application-launcher");
    reveal_strlit("notification-center");
    reveal_strlit("page-next");
    reveal_strlit("page-previous");
    reveal_strlit("smart-zoom");
    reveal_strlit("lookup");
    assert(sa.len() == sb.len());
    assert(sa[0] == sb[0]);
}

impl GestureTrigger {
    /// Looks a trigger up by its kebab-case name.
    pub fn parse(value: &str) -> (r: Option<GestureTrigger>)
        ensures
            forall|t: GestureTrigger| (r == Some(t)) <==> t.spec_name() == value@,
    {
        let all = all_gesture_triggers();
        let mut i: usize = 0;
        while i < 23
            invariant
                all@ == spec_all_triggers(),
                forall|j: int| 0 <= j < i ==> (#[trigger] all@[j]).spec_name() != value@,
            decreases 23 - i,
        {
            if str_equals(all[i].name(), value) {
                let found = all[i];
                proof {
                    assert forall|t: GestureTrigger|
                        (Some(found) == Some(t)) <==> t.spec_name() == value@ by {
                        if t.spec_name() == value@ {
                            lemma_trigger_names_distinct(t, found);
                        }
                    }
                }
                return Some(found);
            }
            i = i + 1;
        }
        proof {
            assert forall|t: GestureTrigger| t.spec_name() != value@ by {
                lemma_trigger_position(t);
                assert(all@[t.spec_code() as int] == t);
            }
        }
        None
    }
}

impl GestureTarget {
    /// Looks a target up by its kebab-case name.
    pub fn parse(value: &str) -> (r: Option<GestureTarget>)
        ensures
            forall|t: GestureTarget| (r == Some(t)) <==> t.spec_name() == value@,
    {
        let all = all_gesture_targets();
        let mut i: usize = 0;
        while i < 15
            invariant
                all@ == spec_all_targets(),
                forall|j: int| 0 <= j < i ==> (#[trigger] all@[j]).spec_name() != value@,
            decreases 15 - i,
        {
            if str_equals(all[i].name(), value) {
                let found = all[i];
                proof {
                    assert forall|t: GestureTarget|
                        (Some(found) == Some(t)) <==> t.spec_name() == value@ by {
                        if t.spec_name() == value@ {
                            lemma_target_names_distinct(t, found);
                        }
                    }
                }
                return Some(found);
            }
            i = i + 1;
        }
        proof {
            assert forall|t: GestureTarget| t.spec_name() != value@ by {
                lemma_target_position(t);
                let k = choose|k: int| 0 <= k < 15 && #[trigger] spec_all_targets()[k] == t;
                assert(all@[k] == t);
            }
        }
        None
    }
}


/// A complete gesture map: the format version, whether three-finger drag
/// may commit before three-finger swipes, and a target for every trigger
/// (keyed by [`GestureTrigger::code`]).
#[derive(Clone, Debug, PartialEq, Eq)]
pub struct GestureMapConfig {
    pub version: u32,
    /// Whether three-finger drag may commit before three-finger swipe.
    /// Disabling drag keeps three-finger tap recognition but lets swipe
    /// mappings become reachable.
    pub three_finger_drag_enabled: bool,
    pub bindings: BTreeMap<u32, GestureTarget>,
}

/// Why a gesture map is rejected.
#[derive(Clone, Copy, Debug, PartialEq, Eq, Structural)]
pub enum GestureMapError {
    UnsupportedVersion(u32),
    MissingTrigger(GestureTrigger),
    UnexpectedBindingCount(usize),
    MiddleClickOnlyThreeFingerTap(GestureTrigger),
}

/// The target bound to a trigger; an unbound trigger passes through.
pub open spec fn spec_target(bindings: Map<u32, GestureTarget>, trigger: GestureTrigger) -> GestureTarget {
    if bindings.contains_key(trigger.spec_code()) {
        bindings[trigger.spec_code()]
    } else {
        GestureTarget::Passthrough
    }
}

/// The first trigger, in declaration order from position `k`, that has no
/// binding.
pub open spec fn first_missing_from(bindings: Map<u32, GestureTarget>, k: int) -> Option<
    GestureTrigger,
>
    decreases 23 - k,
{
    if k < 0 || k >= 23 {
        None
    } else if !bindings.contains_key(k as u32) {
        Some(spec_all_triggers()[k])
    } else {
        first_missing_from(bindings, k + 1)
    }
}

/// The first trigger, in declaration order from position `k`, other than
/// three-finger tap that is bound to middle-click.
pub open spec fn first_middle_click_from(bindings: Map<u32, GestureTarget>, k: int) -> Option<
    GestureTrigger,
>
    decreases 23 - k,
{
    if k < 0 || k >= 23 {
        None
    } else if spec_all_triggers()[k] != GestureTrigger::ThreeFingerTap && bindings.contains_key(
        k as u32,
    ) && bindings[k as u32] == GestureTarget::MiddleClick {
        Some(spec_all_triggers()[k])
    } else {
        first_middle_click_from(bindings, k + 1)
    }
}

/// What [`GestureMapConfig::validate`] answers: the version first, then the
/// first unbound trigger, then the binding count, then the first
/// middle-click binding on a trigger other than three-finger tap.
pub open spec fn spec_validate(version: u32, bindings: Map<u32, GestureTarget>) -> Result<
    (),
    GestureMapError,
> {
    if version != GESTURE_MAP_VERSION {
        Err(GestureMapError::UnsupportedVersion(version))
    } else if first_missing_from(bindings, 0) is Some {
        Err(GestureMapError::MissingTrigger(first_missing_from(bindings, 0)->0))
    } else if bindings.len() != 23 {
        Err(GestureMapError::UnexpectedBindingCount(bindings.len() as usize))
    } else if first_middle_click_from(bindings, 0) is Some {
        Err(GestureMapError::MiddleClickOnlyThreeFingerTap(first_middle_click_from(bindings, 0)->0))
    } else {
        Ok(())
    }
}

/// The first `n` codes all bound to `target`.
pub open spec fn uniform_bindings(n: nat, target: GestureTarget) -> Map<u32, GestureTarget>
    decreases n,
{
    if n == 0 {
        Map::empty()
    } else {
        uniform_bindings((n - 1) as nat, target).insert((n - 1) as u32, target)
    }
}

/// The default bindings: every trigger passes through, except three-finger
/// tap, which is a middle click.
pub open spec fn spec_default_bindings() -> Map<u32, GestureTarget> {
    uniform_bindings(23, GestureTarget::Passthrough).insert(
        GestureTrigger::ThreeFingerTap.spec_code(),
        GestureTarget::MiddleClick,
    )
}

/// The macOS-inspired bindings: three-finger swipes switch workspaces and
/// open the overview or window spread, the thumb pinch and spread open the
/// launcher and show the desktop, and everything else is disabled.
pub open spec fn spec_macos_bindings() -> Map<u32, GestureTarget> {
    uniform_bindings(23, GestureTarget::Disabled).insert(
        GestureTrigger::ThreeFingerSwipeLeft.spec_code(),
        GestureTarget::NextWorkspace,
    ).insert(GestureTrigger::ThreeFingerSwipeRight.spec_code(), GestureTarget::PreviousWorkspace).insert(
        GestureTrigger::ThreeFingerSwipeUp.spec_code(),
        GestureTarget::OpenOverview,
    ).insert(GestureTrigger::ThreeFingerSwipeDown.spec_code(), GestureTarget::PresentWindows).insert(
        GestureTrigger::ThumbThreePinch.spec_code(),
        GestureTarget::ApplicationLauncher,
    ).insert(GestureTrigger::ThumbThreeSpread.spec_code(), GestureTarget::ShowDesktop)
}

/// `uniform_bindings(n, t)` binds exactly the codes below `n`, each to `t`.
pub proof fn lemma_uniform_bindings(n: nat, target: GestureTarget)
    requires
        n <= 23,
    ensures
        forall|k: u32| #[trigger]
            uniform_bindings(n, target).contains_key(k) <==> k < n,
        forall|k: u32| k < n ==> #[trigger] uniform_bindings(n, target)[k] == target,
        uniform_bindings(n, target).len() == n,
        uniform_bindings(n, target).dom().finite(),
    decreases n,
{
    if n > 0 {
        lemma_uniform_bindings((n - 1) as nat, target);
    }
}

/// No trigger from position `j` on is unbound exactly when every code from
/// `j` to the last is bound.
pub proof fn lemma_first_missing(bindings: Map<u32, GestureTarget>, j: int)
    requires
        0 <= j <= 23,
    ensures
        (first_missing_from(bindings, j) is None) <==> (forall|k: u32|
            j <= k < 23 ==> #[trigger] bindings.contains_key(k)),
        first_missing_from(bindings, j) matches Some(t) ==> j <= t.spec_code() < 23
            && !bindings.contains_key(t.spec_code()),
    decreases 23 - j,
{
    lemma_trigger_codes();
    if j < 23 {
        lemma_first_missing(bindings, j + 1);
        if !bindings.contains_key(j as u32) {
            assert(spec_all_triggers()[j].spec_code() == j);
        }
    }
}

/// No trigger from position `j` on is a stray middle click exactly when
/// every such binding is on three-finger tap.
pub proof fn lemma_first_middle_click(bindings: Map<u32, GestureTarget>, j: int)
    requires
        0 <= j <= 23,
    ensures
        (first_middle_click_from(bindings, j) is None) <==> (forall|k: u32|
            j <= k < 23 && #[trigger] bindings.contains_key(k) && bindings[k]
                == GestureTarget::MiddleClick ==> spec_all_triggers()[k as int]
                == GestureTrigger::ThreeFingerTap),
    decreases 23 - j,
{
    if j < 23 {
        lemma_first_middle_click(bindings, j + 1);
        if spec_all_triggers()[j] != GestureTrigger::ThreeFingerTap && bindings.contains_key(
            j as u32,
        ) && bindings[j as u32] == GestureTarget::MiddleClick {
            assert(bindings.contains_key(j as u32));
        }
    }
}

impl GestureMapConfig {
    /// Checks the version, that every trigger is bound exactly once, and
    /// that middle-click is bound to three-finger tap only.
    pub fn validate(&self) -> (r: Result<(), GestureMapError>)
        ensures
            r == spec_validate(self.version, self.bindings@),
    {
        if self.version != GESTURE_MAP_VERSION {
            return Err(GestureMapError::UnsupportedVersion(self.version));
        }
        let all = all_gesture_triggers();
        proof {
            lemma_trigger_codes();
        }
        let mut i: usize = 0;
        while i < 23
            invariant
                0 <= i <= 23,
                all@ == spec_all_triggers(),
                self.version == GESTURE_MAP_VERSION,
                first_missing_from(self.bindings@, 0) == first_missing_from(self.bindings@, i as int),
            decreases 23 - i,
        {
            let trigger = all[i];
            let code = trigger.code();
            assert(code == i);
            if !self.bindings.contains_key(&code) {
                assert(!self.bindings@.contains_key(i as u32));
                assert(first_missing_from(self.bindings@, i as int) == Some(trigger));
                return Err(GestureMapError::MissingTrigger(trigger));
            }
            i = i + 1;
        }
        if self.bindings.len() != 23 {
            return Err(GestureMapError::UnexpectedBindingCount(self.bindings.len()));
        }
        let mut i: usize = 0;
        while i < 23
            invariant
                0 <= i <= 23,
                all@ == spec_all_triggers(),
                self.version == GESTURE_MAP_VERSION,
                first_missing_from(self.bindings@, 0) is None,
                self.bindings@.len() == 23,
                first_middle_click_from(self.bindings@, 0) == first_middle_click_from(
                    self.bindings@,
                    i as int,
                ),
            decreases 23 - i,
        {
            let trigger = all[i];
            let code = trigger.code();
            assert(code == i);
            match self.bindings.get(&code) {
                Some(target) => {
                    if *target == GestureTarget::MiddleClick
                        && trigger != GestureTrigger::ThreeFingerTap {
                        assert(self.bindings@.contains_key(i as u32));
                        assert(first_middle_click_from(self.bindings@, i as int) == Some(trigger));
                        return Err(GestureMapError::MiddleClickOnlyThreeFingerTap(trigger));
                    }
                },
                None => {},
            }
            i = i + 1;
        }
        Ok(())
    }

    /// The target bound to `trigger`; an unbound trigger passes through.
    pub fn target(&self, trigger: GestureTrigger) -> (r: GestureTarget)
        ensures
            r == spec_target(self.bindings@, trigger),
    {
        match self.bindings.get(&trigger.code()) {
            Some(target) => *target,
            None => GestureTarget::Passthrough,
        }
    }

    /// Binds `trigger` to `target` atomically: when the resulting map does
    /// not validate, the previous binding is restored and the error returned.
    pub fn set_target(&mut self, trigger: GestureTrigger, target: GestureTarget) -> (r: Result<
        (),
        GestureMapError,
    >)
        ensures
            final(self).version == old(self).version,
            final(self).three_finger_drag_enabled == old(self).three_finger_drag_enabled,
            r == spec_validate(
                old(self).version,
                old(self).bindings@.insert(trigger.spec_code(), target),
            ),
            r is Ok ==> final(self).bindings@ == old(self).bindings@.insert(
                trigger.spec_code(),
                target,
            ),
            r is Err ==> final(self).bindings@ == old(self).bindings@,
    {
        let code = trigger.code();
        let previous = self.bindings.insert(code, target);
        match self.validate() {
            Ok(()) => Ok(()),
            Err(error) => {
                match previous {
                    Some(previous) => {
                        self.bindings.insert(code, previous);
                        assert(self.bindings@ =~= old(self).bindings@);
                    },
                    None => {
                        self.bindings.remove(&code);
                        assert(self.bindings@ =~= old(self).bindings@);
                    },
                }
                Err(error)
            },
        }
    }

    /// The macOS-inspired preset: three-finger drag off, three-finger swipes
    /// and thumb pinch/spread mapped, every other trigger disabled.
    pub fn macos_inspired() -> (c: GestureMapConfig)
        ensures
            c.version == GESTURE_MAP_VERSION,
            !c.three_finger_drag_enabled,
            c.bindings@ == spec_macos_bindings(),
    {
        let mut config = GestureMapConfig::default();
        config.three_finger_drag_enabled = false;
        let all = all_gesture_triggers();
        proof {
            lemma_trigger_codes();
            lemma_uniform_bindings(23, GestureTarget::Passthrough);
            lemma_uniform_bindings(23, GestureTarget::Disabled);
        }
        let mut i: usize = 0;
        while i < 23
            invariant
                0 <= i <= 23,
                all@ == spec_all_triggers(),
                config.version == GESTURE_MAP_VERSION,
                !config.three_finger_drag_enabled,
                forall|k: u32| #[trigger] config.bindings@.contains_key(k) <==> k < 23,
                forall|k: u32| k < i ==> #[trigger] config.bindings@[k] == GestureTarget::Disabled,
            decreases 23 - i,
        {
            let code = all[i].code();
            config.bindings.insert(code, GestureTarget::Disabled);
            i = i + 1;
        }
        assert(config.bindings@ =~= uniform_bindings(23, GestureTarget::Disabled));
        config.bindings.insert(GestureTrigger::ThreeFingerSwipeLeft.code(), GestureTarget::NextWorkspace);
        config.bindings.insert(
            GestureTrigger::ThreeFingerSwipeRight.code(),
            GestureTarget::PreviousWorkspace,
        );
        config.bindings.insert(GestureTrigger::ThreeFingerSwipeUp.code(), GestureTarget::OpenOverview);
        config.bindings.insert(GestureTrigger::ThreeFingerSwipeDown.code(), GestureTarget::PresentWindows);
        config.bindings.insert(GestureTrigger::ThumbThreePinch.code(), GestureTarget::ApplicationLauncher);
        config.bindings.insert(GestureTrigger::ThumbThreeSpread.code(), GestureTarget::ShowDesktop);
        config
    }
}

impl Default for GestureMapConfig {
    /// Every trigger passes through, except three-finger tap, which is a
    /// middle click; three-finger drag is enabled.
    fn default() -> (c: GestureMapConfig)
        ensures
            c.version == GESTURE_MAP_VERSION,
            c.three_finger_drag_enabled,
            c.bindings@ == spec_default_bindings(),
    {
        let mut bindings: BTreeMap<u32, GestureTarget> = BTreeMap::new();
        let all = all_gesture_triggers();
        proof {
            lemma_trigger_codes();
        }
        let mut i: usize = 0;
        while i < 23
            invariant
                0 <= i <= 23,
                all@ == spec_all_triggers(),
                bindings@ == uniform_bindings(i as nat, GestureTarget::Passthrough),
            decreases 23 - i,
        {
            let code = all[i].code();
            bindings.insert(code, GestureTarget::Passthrough);
            i = i + 1;
        }
        bindings.insert(GestureTrigger::ThreeFingerTap.code(), GestureTarget::MiddleClick);
        GestureMapConfig { version: GESTURE_MAP_VERSION, three_finger_drag_enabled: true, bindings }
    }
}


/// A map that validates binds every trigger, and binds nothing else.
pub proof fn lemma_valid_map_is_complete(version: u32, bindings: Map<u32, GestureTarget>)
    requires
        spec_validate(version, bindings) is Ok,
        bindings.dom().finite(),
    ensures
        version == GESTURE_MAP_VERSION,
        forall|t: GestureTrigger| #[trigger] bindings.contains_key(t.spec_code()),
        forall|k: u32| #[trigger] bindings.contains_key(k) <==> k < 23,
{
    lemma_first_missing(bindings, 0);
    assert forall|t: GestureTrigger| #[trigger] bindings.contains_key(t.spec_code()) by {
        lemma_trigger_position(t);
    }
    lemma_uniform_bindings(23, GestureTarget::Passthrough);
    let codes = uniform_bindings(23, GestureTarget::Passthrough).dom();
    assert(codes.subset_of(bindings.dom()));
    vstd::set_lib::lemma_len_subset(codes, bindings.dom());
    if exists|k: u32| #[trigger] bindings.contains_key(k) && k >= 23 {
        let k = choose|k: u32| #[trigger] bindings.contains_key(k) && k >= 23;
        assert(codes.insert(k).subset_of(bindings.dom()));
        vstd::set_lib::lemma_len_subset(codes.insert(k), bindings.dom());
        assert(!codes.contains(k));
    }
}

/// In a map that validates, only three-finger tap can be a middle click.
pub proof fn lemma_valid_map_middle_click_only_on_tap(
    version: u32,
    bindings: Map<u32, GestureTarget>,
    trigger: GestureTrigger,
)
    requires
        spec_validate(version, bindings) is Ok,
        spec_target(bindings, trigger) == GestureTarget::MiddleClick,
    ensures
        trigger == GestureTrigger::ThreeFingerTap,
{
    lemma_first_middle_click(bindings, 0);
    lemma_trigger_position(trigger);
    assert(bindings.contains_key(trigger.spec_code()));
}

/// The default map validates and binds three-finger tap to middle click.
pub proof fn lemma_default_map_is_valid()
    ensures
        spec_validate(GESTURE_MAP_VERSION, spec_default_bindings()) is Ok,
        spec_target(spec_default_bindings(), GestureTrigger::ThreeFingerTap)
            == GestureTarget::MiddleClick,
        forall|t: GestureTrigger|
            t != GestureTrigger::ThreeFingerTap ==> spec_target(spec_default_bindings(), t)
                == GestureTarget::Passthrough,
{
    let m = spec_default_bindings();
    lemma_uniform_bindings(23, GestureTarget::Passthrough);
    assert(m =~= uniform_bindings(23, GestureTarget::Passthrough).insert(22, GestureTarget::MiddleClick));
    assert(m.len() == 23);
    lemma_first_missing(m, 0);
    lemma_first_middle_click(m, 0);
    lemma_trigger_codes();
    assert forall|t: GestureTrigger|
        t != GestureTrigger::ThreeFingerTap implies spec_target(m, t)
            == GestureTarget::Passthrough by {
        lemma_trigger_position(t);
    }
}

/// The macOS-inspired map validates.
pub proof fn lemma_macos_map_is_valid()
    ensures
        spec_validate(GESTURE_MAP_VERSION, spec_macos_bindings()) is Ok,
{
    let m = spec_macos_bindings();
    lemma_uniform_bindings(23, GestureTarget::Disabled);
    assert(m.len() == 23);
    lemma_first_missing(m, 0);
    lemma_first_middle_click(m, 0);
}

/// A binding written by an accepted `set_target` is what `target` reads
/// back, and every other trigger keeps its target.
pub proof fn lemma_set_target_reads_back(
    bindings: Map<u32, GestureTarget>,
    trigger: GestureTrigger,
    target: GestureTarget,
    other: GestureTrigger,
)
    ensures
        spec_target(bindings.insert(trigger.spec_code(), target), trigger) == target,
        other != trigger ==> spec_target(bindings.insert(trigger.spec_code(), target), other)
            == spec_target(bindings, other),
{
    if other != trigger {
        lemma_trigger_position(other);
        lemma_trigger_position(trigger);
    }
}


/// How an active continuous gesture is routed until it ends.
#[derive(Clone, Copy, Debug, PartialEq, Eq, Structural)]
enum ActiveRoute {
    /// The gesture's events are forwarded.
    Passthrough(ContinuousGestureKind),
    /// The gesture's events are swallowed.
    Suppressed(ContinuousGestureKind),
}

/// Routing state of the gesture in progress, if any.
#[derive(Clone, Copy, Debug, PartialEq, Eq)]
pub struct GestureRouteState {
    active: Option<ActiveRoute>,
}

impl View for GestureRouteState {
    /// The kind of the routed gesture in progress and whether its events
    /// are swallowed.
    type V = Option<(ContinuousGestureKind, bool)>;

    closed spec fn view(&self) -> Option<(ContinuousGestureKind, bool)> {
        match self.active {
            None => None,
            Some(ActiveRoute::Passthrough(kind)) => Some((kind, false)),
            Some(ActiveRoute::Suppressed(kind)) => Some((kind, true)),
        }
    }
}

impl GestureRouteState {
    /// Forgets the gesture in progress.
    pub fn reset(&mut self)
        ensures
            final(self)@ is None,
    {
        self.active = None;
    }
}

impl Default for GestureRouteState {
    /// No gesture in progress.
    fn default() -> (s: GestureRouteState)
        ensures
            s@ is None,
    {
        GestureRouteState { active: None }
    }
}

/// The direction trigger of a translation: the dominant axis (`x` on a
/// tie) decides, its sign picks the side; no trigger for a zero
/// translation.
pub open spec fn spec_direction_trigger(
    x: u32,
    y: u32,
    left: GestureTrigger,
    right: GestureTrigger,
    up: GestureTrigger,
    down: GestureTrigger,
) -> Option<GestureTrigger> {
    if binary32::abs_ge(x, y) && !binary32::eq(x, binary32::ZERO_BITS) {
        if binary32::lt(x, binary32::ZERO_BITS) {
            Some(left)
        } else {
            Some(right)
        }
    } else if !binary32::eq(y, binary32::ZERO_BITS) {
        if binary32::lt(y, binary32::ZERO_BITS) {
            Some(up)
        } else {
            Some(down)
        }
    } else {
        None
    }
}

/// The trigger a gesture's `Begin` event selects, if any.
pub open spec fn spec_trigger_from_begin(event: ContinuousGestureEvent) -> Option<GestureTrigger> {
    let x = event.translation_x_mm;
    let y = event.translation_y_mm;
    match event.kind {
        ContinuousGestureKind::Pinch => {
            if binary32::lt(event.scale, binary32::ONE_BITS) {
                Some(GestureTrigger::PinchIn)
            } else if binary32::lt(binary32::ONE_BITS, event.scale) {
                Some(GestureTrigger::PinchOut)
            } else {
                None
            }
        },
        ContinuousGestureKind::Rotate => {
            if binary32::lt(event.rotation_radians, binary32::ZERO_BITS) {
                Some(GestureTrigger::RotateClockwise)
            } else if binary32::lt(binary32::ZERO_BITS, event.rotation_radians) {
                Some(GestureTrigger::RotateCounterClockwise)
            } else {
                None
            }
        },
        ContinuousGestureKind::TwoFingerPageSwipe => spec_direction_trigger(
            x,
            y,
            GestureTrigger::TwoFingerPageLeft,
            GestureTrigger::TwoFingerPageRight,
            GestureTrigger::TwoFingerPageUp,
            GestureTrigger::TwoFingerPageDown,
        ),
        ContinuousGestureKind::ThreeFingerSwipe => spec_direction_trigger(
            x,
            y,
            GestureTrigger::ThreeFingerSwipeLeft,
            GestureTrigger::ThreeFingerSwipeRight,
            GestureTrigger::ThreeFingerSwipeUp,
            GestureTrigger::ThreeFingerSwipeDown,
        ),
        ContinuousGestureKind::FourFingerSwipe => spec_direction_trigger(
            x,
            y,
            GestureTrigger::FourFingerSwipeLeft,
            GestureTrigger::FourFingerSwipeRight,
            GestureTrigger::FourFingerSwipeUp,
            GestureTrigger::FourFingerSwipeDown,
        ),
        ContinuousGestureKind::EdgeSwipe => spec_direction_trigger(
            x,
            y,
            GestureTrigger::EdgeSwipeLeft,
            GestureTrigger::EdgeSwipeRight,
            GestureTrigger::EdgeSwipeUp,
            GestureTrigger::EdgeSwipeDown,
        ),
        ContinuousGestureKind::ThumbThreePinch => Some(GestureTrigger::ThumbThreePinch),
        ContinuousGestureKind::ThumbThreeSpread => Some(GestureTrigger::ThumbThreeSpread),
    }
}

/// What a non-`Begin` event produces under the current route: nothing when
/// its gesture is being swallowed, the event itself otherwise.
pub open spec fn spec_follow(
    active: Option<(ContinuousGestureKind, bool)>,
    event: ContinuousGestureEvent,
) -> Option<OutputEvent> {
    if active == Some((event.kind, true)) {
        None
    } else {
        Some(OutputEvent::ContinuousGesture(event))
    }
}

/// Routing of one event: the route afterwards and the output.
pub open spec fn spec_route(
    bindings: Map<u32, GestureTarget>,
    active: Option<(ContinuousGestureKind, bool)>,
    event: ContinuousGestureEvent,
) -> (Option<(ContinuousGestureKind, bool)>, Option<OutputEvent>) {
    match event.phase {
        ContinuousGesturePhase::Begin => match spec_trigger_from_begin(event) {
            None => (Some((event.kind, false)), Some(OutputEvent::ContinuousGesture(event))),
            Some(trigger) => match spec_target(bindings, trigger) {
                GestureTarget::Passthrough => (
                    Some((event.kind, false)),
                    Some(OutputEvent::ContinuousGesture(event)),
                ),
                GestureTarget::Disabled => (Some((event.kind, true)), None),
                target => (
                    Some((event.kind, true)),
                    match target.spec_desktop_action() {
                        Some(action) => Some(OutputEvent::DesktopAction(action)),
                        None => None,
                    },
                ),
            },
        },
        ContinuousGesturePhase::Update => (active, spec_follow(active, event)),
        ContinuousGesturePhase::End | ContinuousGesturePhase::Cancel => (
            None,
            spec_follow(active, event),
        ),
    }
}

/// The events a three-finger tap produces under its bound target.
pub open spec fn spec_three_finger_tap_events(target: GestureTarget) -> Seq<OutputEvent> {
    match target {
        GestureTarget::Disabled => seq![],
        GestureTarget::MiddleClick => seq![
            OutputEvent::ButtonDown(MouseButton::Middle),
            OutputEvent::ButtonUp(MouseButton::Middle),
        ],
        GestureTarget::Passthrough => seq![OutputEvent::DesktopAction(DesktopAction::Lookup)],
        other => match other.spec_desktop_action() {
            Some(action) => seq![OutputEvent::DesktopAction(action)],
            None => seq![],
        },
    }
}

fn direction_trigger(
    x: u32,
    y: u32,
    left: GestureTrigger,
    right: GestureTrigger,
    up: GestureTrigger,
    down: GestureTrigger,
) -> (r: Option<GestureTrigger>)
    ensures
        r == spec_direction_trigger(x, y, left, right, up, down),
{
    if binary32::abs_greater_or_equal(x, y) && !binary32::equals(x, binary32::ZERO_BITS) {
        if binary32::less_than(x, binary32::ZERO_BITS) {
            Some(left)
        } else {
            Some(right)
        }
    } else if !binary32::equals(y, binary32::ZERO_BITS) {
        if binary32::less_than(y, binary32::ZERO_BITS) {
            Some(up)
        } else {
            Some(down)
        }
    } else {
        None
    }
}

fn trigger_from_begin(event: &ContinuousGestureEvent) -> (r: Option<GestureTrigger>)
    ensures
        r == spec_trigger_from_begin(*event),
{
    let x = event.translation_x_mm;
    let y = event.translation_y_mm;
    match event.kind {
        ContinuousGestureKind::Pinch => {
            if binary32::less_than(event.scale, binary32::ONE_BITS) {
                Some(GestureTrigger::PinchIn)
            } else if binary32::less_than(binary32::ONE_BITS, event.scale) {
                Some(GestureTrigger::PinchOut)
            } else {
                None
            }
        },
        ContinuousGestureKind::Rotate => {
            if binary32::less_than(event.rotation_radians, binary32::ZERO_BITS) {
                Some(GestureTrigger::RotateClockwise)
            } else if binary32::less_than(binary32::ZERO_BITS, event.rotation_radians) {
                Some(GestureTrigger::RotateCounterClockwise)
            } else {
                None
            }
        },
        ContinuousGestureKind::TwoFingerPageSwipe => direction_trigger(
            x,
            y,
            GestureTrigger::TwoFingerPageLeft,
            GestureTrigger::TwoFingerPageRight,
            GestureTrigger::TwoFingerPageUp,
            GestureTrigger::TwoFingerPageDown,
        ),
        ContinuousGestureKind::ThreeFingerSwipe => direction_trigger(
            x,
            y,
            GestureTrigger::ThreeFingerSwipeLeft,
            GestureTrigger::ThreeFingerSwipeRight,
            GestureTrigger::ThreeFingerSwipeUp,
            GestureTrigger::ThreeFingerSwipeDown,
        ),
        ContinuousGestureKind::FourFingerSwipe => direction_trigger(
            x,
            y,
            GestureTrigger::FourFingerSwipeLeft,
            GestureTrigger::FourFingerSwipeRight,
            GestureTrigger::FourFingerSwipeUp,
            GestureTrigger::FourFingerSwipeDown,
        ),
        ContinuousGestureKind::EdgeSwipe => direction_trigger(
            x,
            y,
            GestureTrigger::EdgeSwipeLeft,
            GestureTrigger::EdgeSwipeRight,
            GestureTrigger::EdgeSwipeUp,
            GestureTrigger::EdgeSwipeDown,
        ),
        ContinuousGestureKind::ThumbThreePinch => Some(GestureTrigger::ThumbThreePinch),
        ContinuousGestureKind::ThumbThreeSpread => Some(GestureTrigger::ThumbThreeSpread),
    }
}

fn follow(state: &GestureRouteState, event: ContinuousGestureEvent) -> (r: Option<OutputEvent>)
    ensures
        r == spec_follow(state@, event),
{
    match state.active {
        Some(ActiveRoute::Passthrough(kind)) if kind == event.kind => Some(
            OutputEvent::ContinuousGesture(event),
        ),
        Some(ActiveRoute::Suppressed(kind)) if kind == event.kind => None,
        _ => Some(OutputEvent::ContinuousGesture(event)),
    }
}

/// Routes one continuous gesture event. At `Begin` the gesture's trigger
/// and its bound target decide: passthrough forwards the gesture, disabled
/// swallows it, and any other target fires its desktop action once and
/// swallows the rest of the gesture. `Update` follows the route of the
/// gesture in progress; `End` and `Cancel` follow it and then forget it.
pub fn route_continuous_gesture(
    config: &GestureMapConfig,
    state: &mut GestureRouteState,
    event: ContinuousGestureEvent,
) -> (r: Option<OutputEvent>)
    ensures
        (final(state)@, r) == spec_route(config.bindings@, old(state)@, event),
{
    match event.phase {
        ContinuousGesturePhase::Begin => {
            match trigger_from_begin(&event) {
                None => {
                    state.active = Some(ActiveRoute::Passthrough(event.kind));
                    Some(OutputEvent::ContinuousGesture(event))
                },
                Some(trigger) => match config.target(trigger) {
                    GestureTarget::Passthrough => {
                        state.active = Some(ActiveRoute::Passthrough(event.kind));
                        Some(OutputEvent::ContinuousGesture(event))
                    },
                    GestureTarget::Disabled => {
                        state.active = Some(ActiveRoute::Suppressed(event.kind));
                        None
                    },
                    target => {
                        state.active = Some(ActiveRoute::Suppressed(event.kind));
                        match target.desktop_action() {
                            Some(action) => Some(OutputEvent::DesktopAction(action)),
                            None => None,
                        }
                    },
                },
            }
        },
        ContinuousGesturePhase::Update => follow(state, event),
        ContinuousGesturePhase::End | ContinuousGesturePhase::Cancel => {
            let result = follow(state, event);
            state.reset();
            result
        },
    }
}

/// The events a three-finger tap produces: a middle click pair, the lookup
/// action for passthrough, nothing when disabled, or the bound desktop
/// action.
pub fn route_three_finger_tap(config: &GestureMapConfig) -> (r: Vec<OutputEvent>)
    ensures
        r@ == spec_three_finger_tap_events(spec_target(config.bindings@, GestureTrigger::ThreeFingerTap)),
{
    match config.target(GestureTrigger::ThreeFingerTap) {
        GestureTarget::Disabled => Vec::new(),
        GestureTarget::MiddleClick => vec![
            OutputEvent::ButtonDown(MouseButton::Middle),
            OutputEvent::ButtonUp(MouseButton::Middle),
        ],
        GestureTarget::Passthrough => vec![OutputEvent::DesktopAction(DesktopAction::Lookup)],
        target => match target.desktop_action() {
            Some(action) => vec![OutputEvent::DesktopAction(action)],
            None => Vec::new(),
        },
    }
}

/// A gesture bound to a desktop action fires that action once, at its
/// `Begin`; its later `Update` and its `End` produce nothing, and routing
/// is idle afterwards.
pub proof fn lemma_mapped_gesture_fires_once(
    bindings: Map<u32, GestureTarget>,
    active: Option<(ContinuousGestureKind, bool)>,
    begin: ContinuousGestureEvent,
    update: ContinuousGestureEvent,
    end: ContinuousGestureEvent,
    action: DesktopAction,
)
    requires
        begin.phase == ContinuousGesturePhase::Begin,
        spec_trigger_from_begin(begin) matches Some(trigger) && spec_target(bindings, trigger).spec_desktop_action()
            == Some(action),
        update.phase == ContinuousGesturePhase::Update,
        update.kind == begin.kind,
        end.phase == ContinuousGesturePhase::End || end.phase == ContinuousGesturePhase::Cancel,
        end.kind == begin.kind,
    ensures
        spec_route(bindings, active, begin).1 == Some(OutputEvent::DesktopAction(action)),
        spec_route(bindings, spec_route(bindings, active, begin).0, update).1 is None,
        spec_route(
            bindings,
            spec_route(bindings, spec_route(bindings, active, begin).0, update).0,
            end,
        ) == (None::<(ContinuousGestureKind, bool)>, None::<OutputEvent>),
{
}

/// A gesture whose `Begin` is forwarded keeps being forwarded: its later
/// events of the same kind come out unchanged.
pub proof fn lemma_passthrough_gesture_is_forwarded(
    bindings: Map<u32, GestureTarget>,
    active: Option<(ContinuousGestureKind, bool)>,
    begin: ContinuousGestureEvent,
    later: ContinuousGestureEvent,
)
    requires
        begin.phase == ContinuousGesturePhase::Begin,
        spec_route(bindings, active, begin).1 == Some(OutputEvent::ContinuousGesture(begin)),
        later.phase != ContinuousGesturePhase::Begin,
        later.kind == begin.kind,
    ensures
        spec_route(bindings, spec_route(bindings, active, begin).0, later).1 == Some(
            OutputEvent::ContinuousGesture(later),
        ),
{
}

/// Whether the vertical magnitude of a translation exceeds the horizontal
/// one (neither component NaN).
pub open spec fn vertical_dominates(x: u32, y: u32) -> bool {
    !binary32::is_nan(x) && !binary32::is_nan(y) && binary32::magnitude(y) > binary32::magnitude(x)
}

/// Whether the horizontal magnitude of a translation is at least the
/// vertical one (neither component NaN).
pub open spec fn horizontal_dominates(x: u32, y: u32) -> bool {
    !binary32::is_nan(x) && !binary32::is_nan(y) && binary32::magnitude(x) >= binary32::magnitude(y)
}

/// Whether a swipe-family trigger for the given translation points the way
/// the translation does: down for a dominant positive `y`, up for a
/// dominant negative `y`, right for a dominant positive `x`, left for a
/// dominant negative `x`.
pub open spec fn points_along(
    t: Option<GestureTrigger>,
    x: u32,
    y: u32,
    left: GestureTrigger,
    right: GestureTrigger,
    up: GestureTrigger,
    down: GestureTrigger,
) -> bool {
    &&& vertical_dominates(x, y) && binary32::lt(binary32::ZERO_BITS, y) ==> t == Some(down)
    &&& vertical_dominates(x, y) && binary32::lt(y, binary32::ZERO_BITS) ==> t == Some(up)
    &&& horizontal_dominates(x, y) && binary32::lt(binary32::ZERO_BITS, x) ==> t == Some(right)
    &&& horizontal_dominates(x, y) && binary32::lt(x, binary32::ZERO_BITS) ==> t == Some(left)
}

/// A swipe's `Begin` selects the trigger of the direction it moves in: a
/// translation dominated by a positive vertical component selects the
/// family's Down trigger and one dominated by a negative vertical
/// component its Up trigger (so Up and Down are never selected for the same
/// sign); likewise Right and Left for a dominant horizontal component.
pub proof fn lemma_swipe_selects_its_direction(e: ContinuousGestureEvent)
    ensures
        e.kind == ContinuousGestureKind::TwoFingerPageSwipe ==> points_along(
            spec_trigger_from_begin(e),
            e.translation_x_mm,
            e.translation_y_mm,
            GestureTrigger::TwoFingerPageLeft,
            GestureTrigger::TwoFingerPageRight,
            GestureTrigger::TwoFingerPageUp,
            GestureTrigger::TwoFingerPageDown,
        ),
        e.kind == ContinuousGestureKind::ThreeFingerSwipe ==> points_along(
            spec_trigger_from_begin(e),
            e.translation_x_mm,
            e.translation_y_mm,
            GestureTrigger::ThreeFingerSwipeLeft,
            GestureTrigger::ThreeFingerSwipeRight,
            GestureTrigger::ThreeFingerSwipeUp,
            GestureTrigger::ThreeFingerSwipeDown,
        ),
        e.kind == ContinuousGestureKind::FourFingerSwipe ==> points_along(
            spec_trigger_from_begin(e),
            e.translation_x_mm,
            e.translation_y_mm,
            GestureTrigger::FourFingerSwipeLeft,
            GestureTrigger::FourFingerSwipeRight,
            GestureTrigger::FourFingerSwipeUp,
            GestureTrigger::FourFingerSwipeDown,
        ),
        e.kind == ContinuousGestureKind::EdgeSwipe ==> points_along(
            spec_trigger_from_begin(e),
            e.translation_x_mm,
            e.translation_y_mm,
            GestureTrigger::EdgeSwipeLeft,
            GestureTrigger::EdgeSwipeRight,
            GestureTrigger::EdgeSwipeUp,
            GestureTrigger::EdgeSwipeDown,
        ),
{
}

/// A target fires a desktop action exactly when it is none of passthrough,
/// disabled and middle-click, and the action it fires carries the target's
/// own name.
pub proof fn lemma_target_fires_action_of_its_name(t: GestureTarget)
    ensures
        (t.spec_desktop_action() is None) <==> (t == GestureTarget::Passthrough || t
            == GestureTarget::Disabled || t == GestureTarget::MiddleClick),
        t.spec_desktop_action() matches Some(a) ==> a.spec_name() == t.spec_name(),
{
}

/// Distinct targets never fire the same desktop action.
pub proof fn lemma_distinct_targets_fire_distinct_actions(t1: GestureTarget, t2: GestureTarget)
    ensures
        t1.spec_desktop_action() is Some && t1.spec_desktop_action() == t2.spec_desktop_action()
            ==> t1 == t2,
{
}

/// A three-finger tap bound to a target that fires a desktop action (other
/// than passthrough, which looks up) produces exactly that action, the one
/// carrying the target's name.
pub proof fn lemma_three_finger_tap_fires_bound_action(target: GestureTarget, action: DesktopAction)
    requires
        target != GestureTarget::Passthrough,
        target.spec_desktop_action() == Some(action),
    ensures
        spec_three_finger_tap_events(target) == seq![OutputEvent::DesktopAction(action)],
        action.spec_name() == target.spec_name(),
{
}

/// A pinch's `Begin` selects pinch-in when the scale shrinks below one,
/// pinch-out when it grows above one, and nothing at exactly one; a
/// rotation's selects clockwise for a negative angle and counter-clockwise
/// for a positive one; a swipe that has not moved selects nothing; a thumb
/// gesture selects its own trigger.
pub proof fn lemma_pinch_and_rotate_select_their_sense(e: ContinuousGestureEvent)
    ensures
        e.kind == ContinuousGestureKind::Pinch ==> {
            &&& binary32::lt(e.scale, binary32::ONE_BITS) ==> spec_trigger_from_begin(e) == Some(
                GestureTrigger::PinchIn,
            )
            &&& binary32::lt(binary32::ONE_BITS, e.scale) ==> spec_trigger_from_begin(e) == Some(
                GestureTrigger::PinchOut,
            )
            &&& binary32::eq(e.scale, binary32::ONE_BITS) ==> spec_trigger_from_begin(e) is None
        },
        e.kind == ContinuousGestureKind::Rotate ==> {
            &&& binary32::lt(e.rotation_radians, binary32::ZERO_BITS) ==> spec_trigger_from_begin(e)
                == Some(GestureTrigger::RotateClockwise)
            &&& binary32::lt(binary32::ZERO_BITS, e.rotation_radians) ==> spec_trigger_from_begin(e)
                == Some(GestureTrigger::RotateCounterClockwise)
        },
        (e.kind == ContinuousGestureKind::TwoFingerPageSwipe || e.kind
            == ContinuousGestureKind::ThreeFingerSwipe || e.kind == ContinuousGestureKind::FourFingerSwipe
            || e.kind == ContinuousGestureKind::EdgeSwipe) && binary32::eq(
            e.translation_x_mm,
            binary32::ZERO_BITS,
        ) && binary32::eq(e.translation_y_mm, binary32::ZERO_BITS) ==> spec_trigger_from_begin(e) is None,
        e.kind == ContinuousGestureKind::ThumbThreePinch ==> spec_trigger_from_begin(e) == Some(
            GestureTrigger::ThumbThreePinch,
        ),
        e.kind == ContinuousGestureKind::ThumbThreeSpread ==> spec_trigger_from_begin(e) == Some(
            GestureTrigger::ThumbThreeSpread,
        ),
{
}

} // verus!
