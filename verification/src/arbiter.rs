//! Configuration and lifecycle vocabulary of the interaction arbiter.
//!
//! The arbiter owns the observable interaction lifecycle
//! (`Idle -> Candidate -> Committed`, ending `Cancelled` or `Finished`),
//! the tap/tap-and-drag/drag-lock policy ([`TapConfig`], [`TapDragPhase`])
//! and the two-finger scroll / secondary-tap / buttonpad secondary-click
//! policy ([`TwoFingerConfig`], [`TwoFingerPhase`]).
//!
//! Both configurations are validated at construction and carry their
//! validity as a type invariant: there is no way to build an invalid one.
//! Boundary policy: equality at a configured duration or distance is
//! accepted; strictly greater expires or cancels.

use crate::binary32;
use crate::diagnostic::Diagnostic;
use crate::output::OutputEvent;
use crate::text::{hex_text, hex_u32, join};
use crate::time_span::{duration_is_zero, std_duration_is_zero};
use crate::fidelity::FidelityConfig;
use crate::gesture::GestureConfig;
use crate::gesture_bindings::GestureMapConfig;
use crate::units::{LogicalPixelsPerMm, Millimeters};
use std::time::Duration;
use vstd::prelude::*;

verus! {

/// Lifecycle state of the arbiter's current interaction. `Idle` is the
/// resting state; the other four are the observable interaction states.
#[derive(Clone, Copy, Debug, PartialEq, Eq, Hash, Structural)]
pub enum Lifecycle {
    /// No interaction is active.
    Idle,
    /// A one-finger candidate below its motion threshold; emits nothing.
    Candidate,
    /// The interaction committed; relative movement is emitted.
    Committed,
    /// The last interaction was cancelled; no further output from it.
    Cancelled,
    /// The last interaction finished cleanly (its contact ended).
    Finished,
}

/// Observable tap/drag/drag-lock phase.
#[derive(Clone, Copy, Debug, PartialEq, Eq, Hash, Structural)]
pub enum TapDragPhase {
    /// No tap/drag/lock policy is active.
    Idle,
    /// A one-finger contact that may still end as a qualifying tap.
    FirstTapCandidate,
    /// A qualifying first tap released; its synthetic-left press is held
    /// while the follow-up window is open.
    FollowUpWindow,
    /// A follow-up contact is active while the first tap's press is held.
    TapDragCandidate,
    /// Pointer motion on the follow-up contact committed: a real
    /// tap-and-drag.
    TapDragContact,
    /// Sticky drag lock: synthetic left held with no live contact.
    LockedWithoutContact,
    /// A contact continuing a locked drag.
    LockedContact,
    /// The last tap/drag/lock interaction was cancelled.
    Cancelled,
    /// The last tap/drag/lock interaction finished cleanly.
    Finished,
}

/// Observable two-finger phase.
#[derive(Clone, Copy, Debug, PartialEq, Eq, Hash, Structural)]
pub enum TwoFingerPhase {
    /// No two-finger policy is active.
    Idle,
    /// Exactly two complete live contacts form a candidate; nothing leaks.
    Candidate,
    /// The scroll committed and produces relative scroll deltas.
    CommittedScroll,
    /// A buttonpad press with two fingers down is latched to the secondary
    /// button for the whole press.
    PhysicalSecondaryClickHeld,
    /// The last two-finger interaction was cancelled.
    Cancelled,
    /// The last two-finger interaction finished cleanly.
    Finished,
}

/// One observable lifecycle transition produced while processing a frame.
#[derive(Clone, Copy, Debug, PartialEq, Eq, Hash, Structural)]
pub enum LifecycleTransition {
    /// A new one-finger candidate began for `tracking_id`.
    Begin { tracking_id: i32 },
    /// The candidate committed for `tracking_id`.
    Commit { tracking_id: i32 },
    /// The active interaction for `tracking_id` was cancelled.
    Cancel { tracking_id: i32 },
    /// The active interaction for `tracking_id` finished cleanly.
    Finish { tracking_id: i32 },
}

/// The result of processing one frame: ordered events, lifecycle
/// transitions, the phases after the frame, and diagnostics.
#[derive(Clone, Debug, PartialEq)]
pub struct FrameDecision {
    /// Ordered semantic output events.
    pub events: Vec<OutputEvent>,
    /// The lifecycle transitions this frame produced.
    pub transitions: Vec<LifecycleTransition>,
    /// The lifecycle after this frame.
    pub lifecycle_after: Lifecycle,
    /// The tap/drag/drag-lock phase after this frame.
    pub tap_drag_phase_after: TapDragPhase,
    /// The two-finger phase after this frame.
    pub two_finger_phase_after: TwoFingerPhase,
    /// Diagnostics attached by the arbiter.
    pub diagnostics: Vec<Diagnostic>,
}

/// Error from [`validate_transition`].
#[derive(Clone, Copy, Debug, PartialEq, Eq, Structural)]
pub enum TransitionError {
    /// The lifecycle machine does not allow `from -> to` in one step.
    Illegal { from: Lifecycle, to: Lifecycle },
}

impl TransitionError {
    /// The lifecycle state the transition starts from.
    pub fn from(&self) -> (r: Lifecycle)
        ensures
            r == self->from,
    {
        match *self {
            TransitionError::Illegal { from, .. } => from,
        }
    }

    /// The lifecycle state the transition would have ended in.
    pub fn to(&self) -> (r: Lifecycle)
        ensures
            r == self->to,
    {
        match *self {
            TransitionError::Illegal { to, .. } => to,
        }
    }
}

/// The legal one-step lifecycle transitions:
///
/// ```text
/// Idle | Cancelled | Finished -> Candidate
/// Candidate -> Committed | Cancelled | Finished
/// Committed -> Cancelled | Finished
/// ```
pub open spec fn spec_legal_transition(from: Lifecycle, to: Lifecycle) -> bool {
    match (from, to) {
        (Lifecycle::Idle, Lifecycle::Candidate) => true,
        (Lifecycle::Cancelled, Lifecycle::Candidate) => true,
        (Lifecycle::Finished, Lifecycle::Candidate) => true,
        (Lifecycle::Candidate, Lifecycle::Committed) => true,
        (Lifecycle::Candidate, Lifecycle::Cancelled) => true,
        (Lifecycle::Candidate, Lifecycle::Finished) => true,
        (Lifecycle::Committed, Lifecycle::Cancelled) => true,
        (Lifecycle::Committed, Lifecycle::Finished) => true,
        _ => false,
    }
}

/// Checks one lifecycle transition: `Ok` for a legal pair, a structured
/// [`TransitionError::Illegal`] otherwise (never a panic).
pub fn validate_transition(from: Lifecycle, to: Lifecycle) -> (r: Result<(), TransitionError>)
    ensures
        r is Ok <==> spec_legal_transition(from, to),
        r is Err ==> r == Err::<(), TransitionError>(TransitionError::Illegal { from, to }),
{
    let legal = match (from, to) {
        (Lifecycle::Idle, Lifecycle::Candidate) => true,
        (Lifecycle::Cancelled, Lifecycle::Candidate) => true,
        (Lifecycle::Finished, Lifecycle::Candidate) => true,
        (Lifecycle::Candidate, Lifecycle::Committed) => true,
        (Lifecycle::Candidate, Lifecycle::Cancelled) => true,
        (Lifecycle::Candidate, Lifecycle::Finished) => true,
        (Lifecycle::Committed, Lifecycle::Cancelled) => true,
        (Lifecycle::Committed, Lifecycle::Finished) => true,
        _ => false,
    };
    if legal {
        Ok(())
    } else {
        Err(TransitionError::Illegal { from, to })
    }
}

/// The shape of the lifecycle machine: every legal step changes state and
/// never returns to `Idle`; only a candidate can commit; a new candidate
/// begins only from rest or after an interaction ended; and an ended
/// interaction (`Cancelled`, `Finished`) can only start a new candidate.
pub proof fn lemma_lifecycle_shape(from: Lifecycle, to: Lifecycle)
    ensures
        spec_legal_transition(from, to) ==> from != to && to != Lifecycle::Idle,
        spec_legal_transition(from, Lifecycle::Committed) <==> from == Lifecycle::Candidate,
        spec_legal_transition(from, Lifecycle::Candidate) <==> (from == Lifecycle::Idle || from
            == Lifecycle::Cancelled || from == Lifecycle::Finished),
        (from == Lifecycle::Cancelled || from == Lifecycle::Finished) ==> (spec_legal_transition(
            from,
            to,
        ) <==> to == Lifecycle::Candidate),
{
}

/// Error from [`TapConfig::new`] and [`TapConfig::with_max_tap_drag_gap`].
#[derive(Clone, Debug, PartialEq)]
pub enum TapConfigError {
    /// A duration must be strictly positive; `0` is rejected, never coerced.
    ZeroDuration(&'static str),
    /// The maximum tap movement must be strictly positive.
    NonPositiveMovement(Millimeters),
    /// Tap-and-drag is impossible without tap-to-click.
    TapAndDragRequiresTap,
    /// Sticky drag lock is impossible without tap-and-drag.
    DragLockRequiresTapAndDrag,
}

impl TapConfigError {
    /// The human-readable description; a length is shown as its binary32
    /// pattern.
    pub open spec fn spec_message(self) -> Seq<char> {
        match self {
            TapConfigError::ZeroDuration(name) => {
                "tap configuration requires a strictly positive "@ + name@
            },
            TapConfigError::NonPositiveMovement(m) => {
                "maximum tap movement must be strictly positive, got "@ + hex_text(m@ as nat, 8)
            },
            TapConfigError::TapAndDragRequiresTap => {
                "tap-and-drag requires tap-to-click to be enabled"@
            },
            TapConfigError::DragLockRequiresTapAndDrag => {
                "sticky drag lock requires tap-and-drag to be enabled"@
            },
        }
    }

    /// The human-readable description.
    pub fn message(&self) -> (r: String)
        ensures
            r@ == self.spec_message(),
    {
        match self {
            TapConfigError::ZeroDuration(name) => join(
                "tap configuration requires a strictly positive ",
                name,
            ),
            TapConfigError::NonPositiveMovement(m) => {
                let shown = hex_u32(m.to_bits());
                join("maximum tap movement must be strictly positive, got ", shown.as_str())
            },
            TapConfigError::TapAndDragRequiresTap => {
                "tap-and-drag requires tap-to-click to be enabled".to_owned()
            },
            TapConfigError::DragLockRequiresTapAndDrag => {
                "sticky drag lock requires tap-and-drag to be enabled".to_owned()
            },
        }
    }
}

/// The contents of a [`TapConfig`].
pub struct TapConfigView {
    pub tap_enabled: bool,
    pub tap_and_drag_enabled: bool,
    pub drag_lock_enabled: bool,
    pub max_tap_duration: Duration,
    /// Binary32 pattern of the maximum tap movement in millimeters.
    pub max_tap_movement_mm: u32,
    pub max_tap_drag_gap: Duration,
}

/// Whether tap configuration contents are valid: strictly positive
/// durations and movement, tap-and-drag only with tap, drag lock only with
/// tap-and-drag.
pub open spec fn tap_config_valid(v: TapConfigView) -> bool {
    &&& !std_duration_is_zero(v.max_tap_duration)
    &&& !std_duration_is_zero(v.max_tap_drag_gap)
    &&& binary32::lt(binary32::ZERO_BITS, v.max_tap_movement_mm)
    &&& v.tap_and_drag_enabled ==> v.tap_enabled
    &&& v.drag_lock_enabled ==> v.tap_and_drag_enabled
}

/// Tap-to-click, tap-and-drag, and sticky drag lock with their limits.
///
/// Equality at the configured duration/distance/gap is accepted; strictly
/// greater expires or cancels the tap or window.
#[derive(Debug, PartialEq)]
pub struct TapConfig {
    tap_enabled: bool,
    tap_and_drag_enabled: bool,
    drag_lock_enabled: bool,
    max_tap_duration: Duration,
    max_tap_movement_mm: Millimeters,
    max_tap_drag_gap: Duration,
}

impl View for TapConfig {
    type V = TapConfigView;

    closed spec fn view(&self) -> TapConfigView {
        TapConfigView {
            tap_enabled: self.tap_enabled,
            tap_and_drag_enabled: self.tap_and_drag_enabled,
            drag_lock_enabled: self.drag_lock_enabled,
            max_tap_duration: self.max_tap_duration,
            max_tap_movement_mm: self.max_tap_movement_mm@,
            max_tap_drag_gap: self.max_tap_drag_gap,
        }
    }
}

impl Clone for TapConfig {
    fn clone(&self) -> (r: TapConfig)
        ensures
            r@ == self@,
    {
        proof {
            use_type_invariant(self);
        }
        TapConfig {
            tap_enabled: self.tap_enabled,
            tap_and_drag_enabled: self.tap_and_drag_enabled,
            drag_lock_enabled: self.drag_lock_enabled,
            max_tap_duration: self.max_tap_duration,
            max_tap_movement_mm: self.max_tap_movement_mm,
            max_tap_drag_gap: self.max_tap_drag_gap,
        }
    }
}

impl TapConfig {
    /// Every tap configuration is valid.
    #[verifier::type_invariant]
    closed spec fn wf(self) -> bool {
        tap_config_valid(self@)
    }

    /// Creates a validated tap configuration. Checks, in order: a zero
    /// `max_tap_duration`, a zero `max_tap_drag_gap`, a non-positive
    /// movement, tap-and-drag without tap, drag lock without tap-and-drag.
    pub fn new(
        tap_enabled: bool,
        tap_and_drag_enabled: bool,
        drag_lock_enabled: bool,
        max_tap_duration: Duration,
        max_tap_movement_mm: Millimeters,
        max_tap_drag_gap: Duration,
    ) -> (r: Result<TapConfig, TapConfigError>)
        ensures
            std_duration_is_zero(max_tap_duration) ==> (r matches Err(
                TapConfigError::ZeroDuration(name),
            ) && name@ == "max_tap_duration"@),
            !std_duration_is_zero(max_tap_duration) && std_duration_is_zero(max_tap_drag_gap) ==> (
            r matches Err(TapConfigError::ZeroDuration(name)) && name@ == "max_tap_drag_gap"@),
            !std_duration_is_zero(max_tap_duration) && !std_duration_is_zero(max_tap_drag_gap)
                && !binary32::lt(binary32::ZERO_BITS, max_tap_movement_mm@) ==> (r matches Err(
                TapConfigError::NonPositiveMovement(m),
            ) && m@ == max_tap_movement_mm@),
            !std_duration_is_zero(max_tap_duration) && !std_duration_is_zero(max_tap_drag_gap)
                && binary32::lt(binary32::ZERO_BITS, max_tap_movement_mm@) && tap_and_drag_enabled
                && !tap_enabled ==> r matches Err(TapConfigError::TapAndDragRequiresTap),
            !std_duration_is_zero(max_tap_duration) && !std_duration_is_zero(max_tap_drag_gap)
                && binary32::lt(binary32::ZERO_BITS, max_tap_movement_mm@) && (tap_and_drag_enabled
                ==> tap_enabled) && drag_lock_enabled && !tap_and_drag_enabled ==> r matches Err(
                TapConfigError::DragLockRequiresTapAndDrag,
            ),
            r is Ok <==> tap_config_valid(
                TapConfigView {
                    tap_enabled,
                    tap_and_drag_enabled,
                    drag_lock_enabled,
                    max_tap_duration,
                    max_tap_movement_mm: max_tap_movement_mm@,
                    max_tap_drag_gap,
                },
            ),
            r matches Ok(c) ==> c@ == (TapConfigView {
                tap_enabled,
                tap_and_drag_enabled,
                drag_lock_enabled,
                max_tap_duration,
                max_tap_movement_mm: max_tap_movement_mm@,
                max_tap_drag_gap,
            }),
    {
        if duration_is_zero(&max_tap_duration) {
            return Err(TapConfigError::ZeroDuration("max_tap_duration"));
        }
        if duration_is_zero(&max_tap_drag_gap) {
            return Err(TapConfigError::ZeroDuration("max_tap_drag_gap"));
        }
        if !max_tap_movement_mm.is_positive() {
            return Err(TapConfigError::NonPositiveMovement(max_tap_movement_mm));
        }
        if tap_and_drag_enabled && !tap_enabled {
            return Err(TapConfigError::TapAndDragRequiresTap);
        }
        if drag_lock_enabled && !tap_and_drag_enabled {
            return Err(TapConfigError::DragLockRequiresTapAndDrag);
        }
        Ok(
            TapConfig {
                tap_enabled,
                tap_and_drag_enabled,
                drag_lock_enabled,
                max_tap_duration,
                max_tap_movement_mm,
                max_tap_drag_gap,
            },
        )
    }

    /// Whether tap-to-click is enabled.
    pub fn tap_enabled(&self) -> (r: bool)
        ensures
            r == self@.tap_enabled,
    {
        self.tap_enabled
    }

    /// Whether a qualifying tap opens the follow-up window for tap-and-drag;
    /// only ever with tap-to-click.
    pub fn tap_and_drag_enabled(&self) -> (r: bool)
        ensures
            r == self@.tap_and_drag_enabled,
            r ==> self@.tap_enabled,
    {
        proof {
            use_type_invariant(self);
        }
        self.tap_and_drag_enabled
    }

    /// Whether sticky drag lock keeps synthetic left held after a tap-drag;
    /// only ever with tap-and-drag.
    pub fn drag_lock_enabled(&self) -> (r: bool)
        ensures
            r == self@.drag_lock_enabled,
            r ==> self@.tap_and_drag_enabled,
    {
        proof {
            use_type_invariant(self);
        }
        self.drag_lock_enabled
    }

    /// The same validated policy with sticky drag lock disabled.
    pub fn without_drag_lock(self) -> (r: TapConfig)
        ensures
            r@ == (TapConfigView { drag_lock_enabled: false, ..self@ }),
    {
        proof {
            use_type_invariant(&self);
        }
        TapConfig { drag_lock_enabled: false, ..self }
    }

    /// The same policy with a different, strictly positive follow-up gap.
    pub fn with_max_tap_drag_gap(self, gap: Duration) -> (r: Result<TapConfig, TapConfigError>)
        ensures
            std_duration_is_zero(gap) ==> (r matches Err(TapConfigError::ZeroDuration(name))
                && name@ == "max_tap_drag_gap"@),
            !std_duration_is_zero(gap) ==> (r matches Ok(c) && c@ == (TapConfigView {
                max_tap_drag_gap: gap,
                ..self@
            })),
    {
        proof {
            use_type_invariant(&self);
        }
        if duration_is_zero(&gap) {
            return Err(TapConfigError::ZeroDuration("max_tap_drag_gap"));
        }
        Ok(TapConfig { max_tap_drag_gap: gap, ..self })
    }

    /// Maximum duration of a contact that may still be a tap (non-zero).
    pub fn max_tap_duration(&self) -> (r: Duration)
        ensures
            r == self@.max_tap_duration,
            !std_duration_is_zero(r),
    {
        proof {
            use_type_invariant(self);
        }
        self.max_tap_duration
    }

    /// Maximum displacement of a contact from its anchor that may still be a
    /// tap (strictly positive).
    pub fn max_tap_movement_mm(&self) -> (r: Millimeters)
        ensures
            r@ == self@.max_tap_movement_mm,
            binary32::lt(binary32::ZERO_BITS, r@),
    {
        proof {
            use_type_invariant(self);
        }
        self.max_tap_movement_mm
    }

    /// Maximum gap from a completed tap to the next touch that may begin
    /// tap-and-drag (non-zero).
    pub fn max_tap_drag_gap(&self) -> (r: Duration)
        ensures
            r == self@.max_tap_drag_gap,
            !std_duration_is_zero(r),
    {
        proof {
            use_type_invariant(self);
        }
        self.max_tap_drag_gap
    }
}

/// Error from [`TwoFingerConfig::new`].
#[derive(Clone, Debug, PartialEq)]
pub enum TwoFingerConfigError {
    /// The scroll commit threshold must be strictly positive.
    NonPositiveScrollThreshold(Millimeters),
    /// A duration must be strictly positive; `0` is rejected, never coerced.
    ZeroDuration(&'static str),
    /// The maximum secondary-tap movement must be strictly positive.
    NonPositiveMovement(Millimeters),
}

impl TwoFingerConfigError {
    /// The human-readable description; a length is shown as its binary32
    /// pattern.
    pub open spec fn spec_message(self) -> Seq<char> {
        match self {
            TwoFingerConfigError::NonPositiveScrollThreshold(m) => {
                "scroll commit threshold must be strictly positive, got "@ + hex_text(m@ as nat, 8)
            },
            TwoFingerConfigError::ZeroDuration(name) => {
                "two-finger configuration requires a strictly positive "@ + name@
            },
            TwoFingerConfigError::NonPositiveMovement(m) => {
                "maximum secondary-tap movement must be strictly positive, got "@ + hex_text(m@ as nat, 8)
            },
        }
    }

    /// The human-readable description.
    pub fn message(&self) -> (r: String)
        ensures
            r@ == self.spec_message(),
    {
        match self {
            TwoFingerConfigError::NonPositiveScrollThreshold(m) => {
                let shown = hex_u32(m.to_bits());
                join("scroll commit threshold must be strictly positive, got ", shown.as_str())
            },
            TwoFingerConfigError::ZeroDuration(name) => join(
                "two-finger configuration requires a strictly positive ",
                name,
            ),
            TwoFingerConfigError::NonPositiveMovement(m) => {
                let shown = hex_u32(m.to_bits());
                join(
                    "maximum secondary-tap movement must be strictly positive, got ",
                    shown.as_str(),
                )
            },
        }
    }
}

/// The contents of a [`TwoFingerConfig`].
pub struct TwoFingerConfigView {
    pub scroll_enabled: bool,
    pub natural: bool,
    /// Binary32 pattern of the scroll scale.
    pub scroll_logical_pixels_per_mm: u32,
    /// Binary32 pattern of the scroll commit threshold in millimeters.
    pub scroll_commit_threshold_mm: u32,
    pub secondary_tap_enabled: bool,
    pub two_finger_physical_click_enabled: bool,
    pub max_secondary_tap_duration: Duration,
    /// Binary32 pattern of the maximum secondary-tap movement.
    pub max_secondary_tap_movement_mm: u32,
}

/// Whether two-finger configuration contents are valid: strictly positive
/// threshold, duration and movement, and a finite strictly positive scale.
pub open spec fn two_finger_config_valid(v: TwoFingerConfigView) -> bool {
    &&& binary32::lt(binary32::ZERO_BITS, v.scroll_commit_threshold_mm)
    &&& !std_duration_is_zero(v.max_secondary_tap_duration)
    &&& binary32::lt(binary32::ZERO_BITS, v.max_secondary_tap_movement_mm)
    &&& binary32::is_finite(v.scroll_logical_pixels_per_mm)
    &&& binary32::lt(binary32::ZERO_BITS, v.scroll_logical_pixels_per_mm)
}

/// Two-finger pixel scroll with an explicit natural direction, secondary
/// tap, and buttonpad physical secondary click, with their limits. The three
/// capabilities are independent; every limit is validated regardless of
/// the enable flags.
#[derive(Debug, PartialEq)]
pub struct TwoFingerConfig {
    scroll_enabled: bool,
    natural: bool,
    scroll_logical_pixels_per_mm: LogicalPixelsPerMm,
    scroll_commit_threshold_mm: Millimeters,
    secondary_tap_enabled: bool,
    two_finger_physical_click_enabled: bool,
    max_secondary_tap_duration: Duration,
    max_secondary_tap_movement_mm: Millimeters,
}

impl View for TwoFingerConfig {
    type V = TwoFingerConfigView;

    closed spec fn view(&self) -> TwoFingerConfigView {
        TwoFingerConfigView {
            scroll_enabled: self.scroll_enabled,
            natural: self.natural,
            scroll_logical_pixels_per_mm: self.scroll_logical_pixels_per_mm@,
            scroll_commit_threshold_mm: self.scroll_commit_threshold_mm@,
            secondary_tap_enabled: self.secondary_tap_enabled,
            two_finger_physical_click_enabled: self.two_finger_physical_click_enabled,
            max_secondary_tap_duration: self.max_secondary_tap_duration,
            max_secondary_tap_movement_mm: self.max_secondary_tap_movement_mm@,
        }
    }
}

impl Clone for TwoFingerConfig {
    fn clone(&self) -> (r: TwoFingerConfig)
        ensures
            r@ == self@,
    {
        proof {
            use_type_invariant(self);
        }
        TwoFingerConfig {
            scroll_enabled: self.scroll_enabled,
            natural: self.natural,
            scroll_logical_pixels_per_mm: self.scroll_logical_pixels_per_mm,
            scroll_commit_threshold_mm: self.scroll_commit_threshold_mm,
            secondary_tap_enabled: self.secondary_tap_enabled,
            two_finger_physical_click_enabled: self.two_finger_physical_click_enabled,
            max_secondary_tap_duration: self.max_secondary_tap_duration,
            max_secondary_tap_movement_mm: self.max_secondary_tap_movement_mm,
        }
    }
}

impl TwoFingerConfig {
    /// Every two-finger configuration is valid.
    #[verifier::type_invariant]
    closed spec fn wf(self) -> bool {
        two_finger_config_valid(self@)
    }

    /// Creates a validated two-finger configuration. Checks, in order: a
    /// non-positive scroll threshold, a zero secondary-tap duration, a
    /// non-positive secondary-tap movement.
    pub fn new(
        scroll_enabled: bool,
        natural: bool,
        scroll_logical_pixels_per_mm: LogicalPixelsPerMm,
        scroll_commit_threshold_mm: Millimeters,
        secondary_tap_enabled: bool,
        two_finger_physical_click_enabled: bool,
        max_secondary_tap_duration: Duration,
        max_secondary_tap_movement_mm: Millimeters,
    ) -> (r: Result<TwoFingerConfig, TwoFingerConfigError>)
        ensures
            !binary32::lt(binary32::ZERO_BITS, scroll_commit_threshold_mm@) ==> (r matches Err(
                TwoFingerConfigError::NonPositiveScrollThreshold(m),
            ) && m@ == scroll_commit_threshold_mm@),
            binary32::lt(binary32::ZERO_BITS, scroll_commit_threshold_mm@) && std_duration_is_zero(
                max_secondary_tap_duration,
            ) ==> (r matches Err(TwoFingerConfigError::ZeroDuration(name)) && name@
                == "max_secondary_tap_duration"@),
            binary32::lt(binary32::ZERO_BITS, scroll_commit_threshold_mm@)
                && !std_duration_is_zero(max_secondary_tap_duration) && !binary32::lt(
                binary32::ZERO_BITS,
                max_secondary_tap_movement_mm@,
            ) ==> (r matches Err(TwoFingerConfigError::NonPositiveMovement(m)) && m@
                == max_secondary_tap_movement_mm@),
            r is Ok <==> (binary32::lt(binary32::ZERO_BITS, scroll_commit_threshold_mm@)
                && !std_duration_is_zero(max_secondary_tap_duration) && binary32::lt(
                binary32::ZERO_BITS,
                max_secondary_tap_movement_mm@,
            )),
            r matches Ok(c) ==> c@ == (TwoFingerConfigView {
                scroll_enabled,
                natural,
                scroll_logical_pixels_per_mm: scroll_logical_pixels_per_mm@,
                scroll_commit_threshold_mm: scroll_commit_threshold_mm@,
                secondary_tap_enabled,
                two_finger_physical_click_enabled,
                max_secondary_tap_duration,
                max_secondary_tap_movement_mm: max_secondary_tap_movement_mm@,
            }),
    {
        proof {
            use_type_invariant(&scroll_logical_pixels_per_mm);
        }
        if !scroll_commit_threshold_mm.is_positive() {
            return Err(TwoFingerConfigError::NonPositiveScrollThreshold(scroll_commit_threshold_mm));
        }
        if duration_is_zero(&max_secondary_tap_duration) {
            return Err(TwoFingerConfigError::ZeroDuration("max_secondary_tap_duration"));
        }
        if !max_secondary_tap_movement_mm.is_positive() {
            return Err(TwoFingerConfigError::NonPositiveMovement(max_secondary_tap_movement_mm));
        }
        Ok(
            TwoFingerConfig {
                scroll_enabled,
                natural,
                scroll_logical_pixels_per_mm,
                scroll_commit_threshold_mm,
                secondary_tap_enabled,
                two_finger_physical_click_enabled,
                max_secondary_tap_duration,
                max_secondary_tap_movement_mm,
            },
        )
    }

    /// Whether two-finger pixel scrolling is enabled.
    pub fn scroll_enabled(&self) -> (r: bool)
        ensures
            r == self@.scroll_enabled,
    {
        self.scroll_enabled
    }

    /// Whether the scroll direction is natural (`true`: the output delta
    /// has the sign of the centroid movement on each axis; `false`: each
    /// axis is negated).
    pub fn natural(&self) -> (r: bool)
        ensures
            r == self@.natural,
    {
        self.natural
    }

    /// The millimeter-to-logical-pixel scale for scroll deltas.
    pub fn scroll_logical_pixels_per_mm(&self) -> (r: LogicalPixelsPerMm)
        ensures
            r@ == self@.scroll_logical_pixels_per_mm,
    {
        self.scroll_logical_pixels_per_mm
    }

    /// The centroid displacement that commits the scroll (strictly
    /// positive; equality commits).
    pub fn scroll_commit_threshold_mm(&self) -> (r: Millimeters)
        ensures
            r@ == self@.scroll_commit_threshold_mm,
            binary32::lt(binary32::ZERO_BITS, r@),
    {
        proof {
            use_type_invariant(self);
        }
        self.scroll_commit_threshold_mm
    }

    /// Whether a qualifying two-finger tap maps to one secondary click pair.
    pub fn secondary_tap_enabled(&self) -> (r: bool)
        ensures
            r == self@.secondary_tap_enabled,
    {
        self.secondary_tap_enabled
    }

    /// Whether a buttonpad press with exactly two fingers down is latched to
    /// the secondary button for the whole press.
    pub fn two_finger_physical_click_enabled(&self) -> (r: bool)
        ensures
            r == self@.two_finger_physical_click_enabled,
    {
        self.two_finger_physical_click_enabled
    }

    /// Maximum duration of a two-finger interaction that may still be a
    /// secondary tap (non-zero).
    pub fn max_secondary_tap_duration(&self) -> (r: Duration)
        ensures
            r == self@.max_secondary_tap_duration,
            !std_duration_is_zero(r),
    {
        proof {
            use_type_invariant(self);
        }
        self.max_secondary_tap_duration
    }

    /// Maximum per-contact displacement that may still be a secondary tap
    /// (strictly positive).
    pub fn max_secondary_tap_movement_mm(&self) -> (r: Millimeters)
        ensures
            r@ == self@.max_secondary_tap_movement_mm,
            binary32::lt(binary32::ZERO_BITS, r@),
    {
        proof {
            use_type_invariant(self);
        }
        self.max_secondary_tap_movement_mm
    }
}

/// Why an arbiter configuration was refused.
#[derive(Clone, Debug, PartialEq)]
pub enum ArbiterConfigError {
    /// The motion threshold must be strictly positive.
    NonPositiveThreshold(Millimeters),
}

/// The arbiter's configuration: its motion threshold (strictly positive),
/// its linear pointer scale, and the optional tap, two-finger, pointer
/// fidelity, continuous gesture and gesture-binding configurations. Tapping
/// and the two-finger family are disabled until attached.
#[derive(Debug, PartialEq)]
pub struct ArbiterConfig {
    motion_threshold_mm: Millimeters,
    logical_pixels_per_mm: LogicalPixelsPerMm,
    tap: Option<TapConfig>,
    two_finger: Option<TwoFingerConfig>,
    fidelity: Option<FidelityConfig>,
    gesture: Option<GestureConfig>,
    gesture_bindings: Option<GestureMapConfig>,
}

impl ArbiterConfig {
    #[verifier::type_invariant]
    spec fn positive_threshold(self) -> bool {
        binary32::lt(binary32::ZERO_BITS, self.motion_threshold_mm@)
    }

    /// The motion threshold.
    pub closed spec fn spec_threshold(&self) -> Millimeters {
        self.motion_threshold_mm
    }

    /// The pointer scale.
    pub closed spec fn spec_scale(&self) -> LogicalPixelsPerMm {
        self.logical_pixels_per_mm
    }

    /// The tap configuration, if attached.
    pub closed spec fn spec_tap(&self) -> Option<TapConfig> {
        self.tap
    }

    /// The two-finger configuration, if attached.
    pub closed spec fn spec_two_finger(&self) -> Option<TwoFingerConfig> {
        self.two_finger
    }

    /// The pointer fidelity configuration, if attached.
    pub closed spec fn spec_fidelity(&self) -> Option<FidelityConfig> {
        self.fidelity
    }

    /// The continuous gesture configuration, if attached.
    pub closed spec fn spec_gesture(&self) -> Option<GestureConfig> {
        self.gesture
    }

    /// Whether gesture bindings are attached.
    pub closed spec fn spec_has_bindings(&self) -> bool {
        self.gesture_bindings is Some
    }

    /// A configuration with the given threshold and scale and nothing
    /// attached; refused when the threshold is not strictly positive.
    pub fn new(motion_threshold_mm: Millimeters, logical_pixels_per_mm: LogicalPixelsPerMm) -> (r: Result<
        ArbiterConfig,
        ArbiterConfigError,
    >)
        ensures
            binary32::lt(binary32::ZERO_BITS, motion_threshold_mm@) <==> r is Ok,
            r matches Err(e) ==> e == ArbiterConfigError::NonPositiveThreshold(motion_threshold_mm),
            r matches Ok(c) ==> {
                &&& c.spec_threshold() == motion_threshold_mm
                &&& c.spec_scale() == logical_pixels_per_mm
                &&& c.spec_tap() is None
                &&& c.spec_two_finger() is None
                &&& c.spec_fidelity() is None
                &&& c.spec_gesture() is None
                &&& !c.spec_has_bindings()
            },
    {
        if !motion_threshold_mm.is_positive() {
            return Err(ArbiterConfigError::NonPositiveThreshold(motion_threshold_mm));
        }
        Ok(
            ArbiterConfig {
                motion_threshold_mm,
                logical_pixels_per_mm,
                tap: None,
                two_finger: None,
                fidelity: None,
                gesture: None,
                gesture_bindings: None,
            },
        )
    }

    /// Attaches a tap configuration.
    pub fn with_tap(self, tap: TapConfig) -> (r: ArbiterConfig)
        ensures
            r.spec_tap() == Some(tap),
            r.spec_threshold() == self.spec_threshold(),
            r.spec_scale() == self.spec_scale(),
            r.spec_two_finger() == self.spec_two_finger(),
            r.spec_fidelity() == self.spec_fidelity(),
            r.spec_gesture() == self.spec_gesture(),
            r.spec_has_bindings() == self.spec_has_bindings(),
    {
        proof {
            use_type_invariant(&self);
        }
        ArbiterConfig { tap: Some(tap), ..self }
    }

    /// Attaches a two-finger configuration.
    pub fn with_two_finger(self, two_finger: TwoFingerConfig) -> (r: ArbiterConfig)
        ensures
            r.spec_two_finger() == Some(two_finger),
            r.spec_threshold() == self.spec_threshold(),
            r.spec_scale() == self.spec_scale(),
            r.spec_tap() == self.spec_tap(),
            r.spec_fidelity() == self.spec_fidelity(),
            r.spec_gesture() == self.spec_gesture(),
            r.spec_has_bindings() == self.spec_has_bindings(),
    {
        proof {
            use_type_invariant(&self);
        }
        ArbiterConfig { two_finger: Some(two_finger), ..self }
    }

    /// Attaches a pointer fidelity configuration.
    pub fn with_fidelity(self, fidelity: FidelityConfig) -> (r: ArbiterConfig)
        ensures
            r.spec_fidelity() == Some(fidelity),
            r.spec_threshold() == self.spec_threshold(),
            r.spec_scale() == self.spec_scale(),
            r.spec_tap() == self.spec_tap(),
            r.spec_two_finger() == self.spec_two_finger(),
            r.spec_gesture() == self.spec_gesture(),
            r.spec_has_bindings() == self.spec_has_bindings(),
    {
        proof {
            use_type_invariant(&self);
        }
        ArbiterConfig { fidelity: Some(fidelity), ..self }
    }

    /// Attaches a continuous gesture configuration.
    pub fn with_gesture(self, gesture: GestureConfig) -> (r: ArbiterConfig)
        ensures
            r.spec_gesture() == Some(gesture),
            r.spec_threshold() == self.spec_threshold(),
            r.spec_scale() == self.spec_scale(),
            r.spec_tap() == self.spec_tap(),
            r.spec_two_finger() == self.spec_two_finger(),
            r.spec_fidelity() == self.spec_fidelity(),
            r.spec_has_bindings() == self.spec_has_bindings(),
    {
        proof {
            use_type_invariant(&self);
        }
        ArbiterConfig { gesture: Some(gesture), ..self }
    }

    /// Attaches gesture bindings.
    pub fn with_gesture_bindings(self, bindings: GestureMapConfig) -> (r: ArbiterConfig)
        ensures
            r.spec_has_bindings(),
            r.spec_threshold() == self.spec_threshold(),
            r.spec_scale() == self.spec_scale(),
            r.spec_tap() == self.spec_tap(),
            r.spec_two_finger() == self.spec_two_finger(),
            r.spec_fidelity() == self.spec_fidelity(),
            r.spec_gesture() == self.spec_gesture(),
    {
        proof {
            use_type_invariant(&self);
        }
        ArbiterConfig { gesture_bindings: Some(bindings), ..self }
    }

    /// The motion threshold, strictly positive.
    pub fn motion_threshold_mm(&self) -> (r: Millimeters)
        ensures
            r == self.spec_threshold(),
            binary32::lt(binary32::ZERO_BITS, r@),
    {
        proof {
            use_type_invariant(self);
        }
        self.motion_threshold_mm
    }

    /// The pointer scale.
    pub fn logical_pixels_per_mm(&self) -> (r: LogicalPixelsPerMm)
        ensures
            r == self.spec_scale(),
    {
        self.logical_pixels_per_mm
    }

    /// The tap configuration, if attached.
    pub fn tap_config(&self) -> (r: Option<&TapConfig>)
        ensures
            r is Some == self.spec_tap() is Some,
            r matches Some(t) ==> *t == self.spec_tap().unwrap(),
    {
        match &self.tap {
            Some(t) => Some(t),
            None => None,
        }
    }

    /// Whether tapping is enabled: a tap configuration is attached and its
    /// tap flag is on.
    pub fn is_tap_enabled(&self) -> (r: bool)
        ensures
            r == (self.spec_tap() matches Some(t) && t@.tap_enabled),
    {
        match &self.tap {
            Some(t) => t.tap_enabled(),
            None => false,
        }
    }

    /// The two-finger configuration, if attached.
    pub fn two_finger_config(&self) -> (r: Option<&TwoFingerConfig>)
        ensures
            r is Some == self.spec_two_finger() is Some,
            r matches Some(t) ==> *t == self.spec_two_finger().unwrap(),
    {
        match &self.two_finger {
            Some(t) => Some(t),
            None => None,
        }
    }

    /// Whether a two-finger configuration is attached.
    pub fn is_two_finger_enabled(&self) -> (r: bool)
        ensures
            r == self.spec_two_finger() is Some,
    {
        self.two_finger.is_some()
    }

    /// The pointer fidelity configuration, if attached.
    pub fn fidelity_config(&self) -> (r: Option<&FidelityConfig>)
        ensures
            r is Some == self.spec_fidelity() is Some,
            r matches Some(t) ==> *t == self.spec_fidelity().unwrap(),
    {
        match &self.fidelity {
            Some(t) => Some(t),
            None => None,
        }
    }

    /// Whether a pointer fidelity configuration is attached.
    pub fn is_fidelity_enabled(&self) -> (r: bool)
        ensures
            r == self.spec_fidelity() is Some,
    {
        self.fidelity.is_some()
    }

    /// The continuous gesture configuration, if attached.
    pub fn gesture_config(&self) -> (r: Option<&GestureConfig>)
        ensures
            r is Some == self.spec_gesture() is Some,
            r matches Some(t) ==> *t == self.spec_gesture().unwrap(),
    {
        match &self.gesture {
            Some(t) => Some(t),
            None => None,
        }
    }

    /// Whether a continuous gesture configuration is attached.
    pub fn is_gesture_enabled(&self) -> (r: bool)
        ensures
            r == self.spec_gesture() is Some,
    {
        self.gesture.is_some()
    }

    /// The gesture bindings, if attached.
    pub fn gesture_bindings_config(&self) -> (r: Option<&GestureMapConfig>)
        ensures
            r is Some == self.spec_has_bindings(),
    {
        match &self.gesture_bindings {
            Some(t) => Some(t),
            None => None,
        }
    }

    /// Whether gesture bindings are attached.
    pub fn is_gesture_bindings_enabled(&self) -> (r: bool)
        ensures
            r == self.spec_has_bindings(),
    {
        self.gesture_bindings.is_some()
    }
}

impl Clone for ArbiterConfig {
    fn clone(&self) -> (r: ArbiterConfig)
        ensures
            r.spec_threshold() == self.spec_threshold(),
            r.spec_scale() == self.spec_scale(),
    {
        proof {
            use_type_invariant(self);
        }
        ArbiterConfig {
            motion_threshold_mm: self.motion_threshold_mm,
            logical_pixels_per_mm: self.logical_pixels_per_mm,
            tap: match &self.tap {
                Some(t) => Some(t.clone()),
                None => None,
            },
            two_finger: match &self.two_finger {
                Some(t) => Some(t.clone()),
                None => None,
            },
            fidelity: self.fidelity,
            gesture: self.gesture,
            gesture_bindings: match &self.gesture_bindings {
                Some(b) => Some(b.clone()),
                None => None,
            },
        }
    }
}

} // verus!
