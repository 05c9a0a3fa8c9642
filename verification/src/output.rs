//! Semantic output events produced by the interaction core.
//!
//! Magnitudes of continuous gestures are binary32 values carried as bit
//! patterns (see [`crate::binary32`]).

use vstd::prelude::*;

verus! {

/// A pointer button.
#[derive(Clone, Copy, Debug, PartialEq, Eq, Hash, Structural)]
pub enum MouseButton {
    Left,
    Right,
    Middle,
}

/// A desktop-neutral action a gesture can be routed to.
#[derive(Clone, Copy, Debug, PartialEq, Eq, Hash, Structural)]
pub enum DesktopAction {
    NextWorkspace,
    PreviousWorkspace,
    ShowDesktop,
    OpenOverview,
    CloseOverview,
    PresentWindows,
    ApplicationLauncher,
    NotificationCenter,
    PageNext,
    PagePrevious,
    SmartZoom,
    Lookup,
}

/// The family of a recognized continuous gesture.
#[derive(Clone, Copy, Debug, PartialEq, Eq, Hash, Structural)]
pub enum ContinuousGestureKind {
    Pinch,
    Rotate,
    TwoFingerPageSwipe,
    ThreeFingerSwipe,
    FourFingerSwipe,
    EdgeSwipe,
    ThumbThreePinch,
    ThumbThreeSpread,
}

/// The lifecycle phase of a continuous gesture event.
#[derive(Clone, Copy, Debug, PartialEq, Eq, Hash, Structural)]
pub enum ContinuousGesturePhase {
    Begin,
    Update,
    End,
    Cancel,
}

/// One continuous gesture event. The four magnitudes are binary32 bit
/// patterns: translation in millimeters, scale factor (1 = unchanged), and
/// rotation in radians (positive = counter-clockwise).
#[derive(Clone, Copy, Debug, PartialEq, Eq, Hash, Structural)]
pub struct ContinuousGestureEvent {
    pub kind: ContinuousGestureKind,
    pub phase: ContinuousGesturePhase,
    pub translation_x_mm: u32,
    pub translation_y_mm: u32,
    pub scale: u32,
    pub rotation_radians: u32,
}

/// A semantic output event.
#[derive(Clone, Copy, Debug, PartialEq, Eq, Hash, Structural)]
pub enum OutputEvent {
    ButtonDown(MouseButton),
    ButtonUp(MouseButton),
    /// A committed two-finger scroll opened.
    ScrollBegin,
    /// An open two-finger scroll closed.
    ScrollEnd,
    ContinuousGesture(ContinuousGestureEvent),
    DesktopAction(DesktopAction),
}

impl DesktopAction {
    /// The stable kebab-case name of the action.
    pub open spec fn spec_name(self) -> Seq<char> {
        match self {
            DesktopAction::NextWorkspace => "next-workspace"@,
            DesktopAction::PreviousWorkspace => "previous-workspace"@,
            DesktopAction::ShowDesktop => "show-desktop"@,
            DesktopAction::OpenOverview => "open-overview"@,
            DesktopAction::CloseOverview => "close-overview"@,
            DesktopAction::PresentWindows => "present-windows"@,
            DesktopAction::ApplicationLauncher => "application-launcher"@,
            DesktopAction::NotificationCenter => "notification-center"@,
            DesktopAction::PageNext => "page-next"@,
            DesktopAction::PagePrevious => "page-previous"@,
            DesktopAction::SmartZoom => "smart-zoom"@,
            DesktopAction::Lookup => "lookup"@,
        }
    }
}

} // verus!
