//! Structured diagnostics attached to frames, descriptors, and conversion
//! failures. Diagnostics never panic and can be surfaced by any front end.

use vstd::prelude::*;

verus! {

/// Severity of a diagnostic.
#[derive(Clone, Copy, Debug, PartialEq, Eq, Hash, PartialOrd, Ord, Structural)]
pub enum DiagnosticLevel {
    /// Informational (e.g. recovered discontinuity).
    Info,
    /// Non-fatal anomaly (e.g. incomplete new contact).
    Warning,
    /// Violation of an invariant; the affected data must not be trusted.
    Error,
    /// The input stream cannot continue.
    Fatal,
}

/// Stable machine-readable code for a diagnostic.
#[derive(Clone, Copy, Debug, PartialEq, Eq, Hash, PartialOrd, Ord, Structural)]
#[non_exhaustive]
pub enum DiagnosticCode {
    /// An axis declares `min > max` (or an invalid fuzz/flat).
    InvalidAxisRange,
    /// An axis needed for millimeter conversion has no resolution and no
    /// override.
    MissingAxisResolution,
    /// A value is `NaN` or infinite where it must be finite.
    NonFiniteValue,
    /// A value is outside its documented range.
    OutOfRangeValue,
    /// A new contact was published before both coordinates were known.
    IncompleteNewContact,
    /// Monotonic time went backwards.
    TimeRegression,
    /// A contact references a slot outside the device's slot range.
    SlotOutOfRange,
    /// A frame contains two contacts on the same slot.
    DuplicateSlot,
    /// Events arrived in an order the input state machine does not accept.
    InvalidEventOrder,
    /// The device cannot be handled by the runtime.
    UnsupportedDevice,
    /// The input stream lost continuity and was recovered.
    DecodeRecovered,
    /// The input stream lost continuity and could not be recovered.
    DecodeDegraded,
    /// A slot's tracking id was replaced while the slot was active.
    TrackingIdReplaced,
    /// A new contact was published only once its coordinates were complete.
    DelayedNewContact,
    /// A one-finger pointer/tap-family interaction began as a candidate.
    InteractionBegun,
    /// A candidate crossed its motion threshold and committed.
    InteractionCommitted,
    /// An interaction was cancelled; no further output is produced from it.
    InteractionCancelled,
    /// An interaction finished cleanly because its contact ended.
    InteractionFinished,
    /// A qualifying one-finger tap emitted its click pair.
    TapFired,
    /// A tap-and-drag follow-up contact began the synthetic held-left drag.
    TapAndDragBegan,
    /// Sticky drag lock engaged.
    DragLocked,
    /// A qualifying tap released the drag lock.
    DragUnlocked,
    /// A two-finger candidate began.
    TwoFingerScrollBegan,
    /// A two-finger scroll candidate committed.
    TwoFingerScrollCommitted,
    /// A committed two-finger scroll ended.
    TwoFingerScrollEnded,
    /// A qualifying two-finger tap emitted its secondary click pair.
    SecondaryTapFired,
    /// A two-finger interaction was cancelled.
    TwoFingerCancelled,
    /// A physical two-finger buttonpad press was latched to the secondary
    /// button for its whole duration.
    SecondaryClickLatched,
}

/// A single structured diagnostic.
#[derive(Clone, Debug, PartialEq, Eq, Hash)]
pub struct Diagnostic {
    pub level: DiagnosticLevel,
    pub code: DiagnosticCode,
    pub message: String,
    /// Frame sequence this diagnostic refers to, when known.
    pub frame_sequence: Option<u64>,
}

impl Diagnostic {
    /// Creates a diagnostic not tied to a specific frame.
    pub fn new(level: DiagnosticLevel, code: DiagnosticCode, message: &str) -> (d: Diagnostic)
        ensures
            d.level == level,
            d.code == code,
            d.message@ == message@,
            d.frame_sequence == None::<u64>,
    {
        Diagnostic { level, code, message: message.to_owned(), frame_sequence: None }
    }

    /// Creates a diagnostic tied to a frame sequence.
    pub fn with_frame(
        level: DiagnosticLevel,
        code: DiagnosticCode,
        message: &str,
        frame_sequence: u64,
    ) -> (d: Diagnostic)
        ensures
            d.level == level,
            d.code == code,
            d.message@ == message@,
            d.frame_sequence == Some(frame_sequence),
    {
        Diagnostic { level, code, message: message.to_owned(), frame_sequence: Some(frame_sequence) }
    }
}

} // verus!
