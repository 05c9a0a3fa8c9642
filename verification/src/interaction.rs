//! Plain-valued decision steps of the interaction arbiter: frame admission,
//! the source-aware button multiplexer, the tap / drag / drag-lock release
//! resolution, and the end of a two-finger interaction.
//!
//! Each step takes the state it reads and returns the state it leaves and
//! the output it owes. The motion arithmetic that feeds these steps
//! (distances, pixel quantization) is floating point and is not part of
//! this library.

use crate::arbiter::{Lifecycle, TapConfig, TapDragPhase, TwoFingerConfig, TwoFingerPhase};
use crate::binary32;
use crate::contact::{frame_findings, ContactFrame, Finding};
use crate::diagnostic::{Diagnostic, DiagnosticCode, DiagnosticLevel};
use crate::output::{MouseButton, OutputEvent};
use crate::text::{decimal, decimal_text, join};
use crate::binary64;
use crate::time_span::{duration_as_nanos, std_duration_nanos};
use crate::contact::finding_of;
use std::time::Duration;
use crate::time::Monotonic;
use vstd::prelude::*;

verus! {

/// Why the arbiter rejected a frame.
#[derive(Clone, Debug, PartialEq)]
pub enum ArbiterError {
    /// Validation of the frame produced `Error` or `Fatal` diagnostics; the
    /// frame is rejected whole. `codes` lists their codes and `reason` joins
    /// their messages with `"; "`, both in validation order.
    InvalidFrame { sequence: u64, codes: Vec<DiagnosticCode>, reason: String },
    /// The frame's sequence is not greater than the previous accepted one.
    SequenceRegression { found: u64, previous: u64 },
    /// The frame's timestamp precedes the previous accepted one.
    TimestampRegression { found: Monotonic, previous: Monotonic },
    /// Motion arithmetic produced a non-finite result.
    NonFinite { sequence: u64 },
}

/// Whether a finding rejects a frame: level `Error` or `Fatal`.
pub open spec fn rejects(f: Finding) -> bool {
    f.0 == DiagnosticLevel::Error || f.0 == DiagnosticLevel::Fatal
}

/// The predicate selecting rejecting findings.
pub open spec fn rejecting() -> spec_fn(Finding) -> bool {
    |f: Finding| rejects(f)
}

/// The messages of `findings` joined with `"; "`.
pub open spec fn joined_messages(findings: Seq<Finding>) -> Seq<char>
    decreases findings.len(),
{
    if findings.len() == 0 {
        Seq::empty()
    } else if findings.len() == 1 {
        findings[0].2
    } else {
        joined_messages(findings.drop_last()) + "; "@ + findings.last().2
    }
}

/// The findings of `frame` that reject it, in validation order.
pub open spec fn rejecting_findings(frame: ContactFrame) -> Seq<Finding> {
    frame_findings(frame.contacts@, frame.sequence, frame.contacts@.len() as int).filter(
        rejecting(),
    )
}

/// The regression check of a valid frame against the last accepted one: a
/// sequence not above the previous one regresses; otherwise a timestamp
/// before the previous one regresses; otherwise the frame is admitted
/// (`None`).
pub open spec fn spec_regression(
    last_sequence: Option<u64>,
    last_timestamp: Option<Monotonic>,
    frame: ContactFrame,
) -> Option<ArbiterError> {
    if last_sequence matches Some(previous) && frame.sequence <= previous {
        Some(
            ArbiterError::SequenceRegression {
                found: frame.sequence,
                previous: last_sequence.unwrap(),
            },
        )
    } else if last_timestamp matches Some(previous) && frame.monotonic_timestamp@ < previous@ {
        Some(
            ArbiterError::TimestampRegression {
                found: frame.monotonic_timestamp,
                previous: last_timestamp.unwrap(),
            },
        )
    } else {
        None
    }
}

/// The admission gate of a frame: validation first, then the sequence and
/// timestamp regression checks against the last accepted frame.
pub fn admit_frame(
    last_sequence: Option<u64>,
    last_timestamp: Option<Monotonic>,
    frame: &ContactFrame,
) -> (r: Result<(), ArbiterError>)
    ensures
        rejecting_findings(*frame).len() > 0 ==> (r matches Err(
            ArbiterError::InvalidFrame { sequence, codes, reason },
        ) && sequence == frame.sequence && codes@ == rejecting_findings(*frame).map_values(
            |f: Finding| f.1,
        ) && reason@ == joined_messages(rejecting_findings(*frame))),
        rejecting_findings(*frame).len() == 0 ==> match spec_regression(
            last_sequence,
            last_timestamp,
            *frame,
        ) {
            Some(e) => r == Err::<(), ArbiterError>(e),
            None => r is Ok,
        },
{
    let diagnostics = frame.validate();
    let ghost all = diagnostics@.map_values(|d: Diagnostic| crate::contact::finding_of(d));
    let mut codes: Vec<DiagnosticCode> = Vec::new();
    let mut reason = String::new();
    let mut i: usize = 0;
    assert(all.take(0).filter(rejecting()) =~= Seq::<Finding>::empty()) by {
        reveal(Seq::filter);
    }
    while i < diagnostics.len()
        invariant
            all == diagnostics@.map_values(|d: Diagnostic| crate::contact::finding_of(d)),
            i <= diagnostics.len(),
            codes@ == all.take(i as int).filter(rejecting()).map_values(|f: Finding| f.1),
            reason@ == joined_messages(all.take(i as int).filter(rejecting())),
        decreases diagnostics.len() - i,
    {
        let d = &diagnostics[i];
        let ghost kept = all.take(i as int).filter(rejecting());
        proof {
            assert(all.take(i + 1) =~= all.take(i as int).push(all[i as int]));
            all.take(i as int).lemma_filter_push(all[i as int], rejecting());
        }
        if d.level == DiagnosticLevel::Error || d.level == DiagnosticLevel::Fatal {
            if codes.len() > 0 {
                reason = join(reason.as_str(), "; ");
            }
            reason = join(reason.as_str(), d.message.as_str());
            codes.push(d.code);
            proof {
                let now = kept.push(all[i as int]);
                assert(now.drop_last() =~= kept);
                assert(codes@ =~= now.map_values(|f: Finding| f.1));
                if kept.len() == 0 {
                    assert(reason@ =~= joined_messages(now));
                }
            }
        }
        i = i + 1;
    }
    assert(all.take(diagnostics.len() as int) =~= all);
    if codes.len() > 0 {
        return Err(ArbiterError::InvalidFrame { sequence: frame.sequence, codes, reason });
    }
    if let Some(previous) = last_sequence {
        if frame.sequence <= previous {
            return Err(ArbiterError::SequenceRegression { found: frame.sequence, previous });
        }
    }
    if let Some(previous) = last_timestamp {
        if frame.monotonic_timestamp.as_nanos() < previous.as_nanos() {
            return Err(
                ArbiterError::TimestampRegression { found: frame.monotonic_timestamp, previous },
            );
        }
    }
    Ok(())
}


/// The button sources behind the two wire buttons. The left wire is held
/// while the physical or the synthetic (tap) left source holds it; the
/// right wire while the physical right, the synthetic (secondary tap) right,
/// or a latched press (a physical left press diverted to the right button)
/// holds it. The raw fields are the physical buttons as last reported.
#[derive(Clone, Copy, Debug, PartialEq, Eq, Structural)]
pub struct ButtonSources {
    pub physical_left: bool,
    pub physical_left_raw: bool,
    pub synthetic_left: bool,
    pub physical_right: bool,
    pub physical_right_raw: bool,
    pub synthetic_right: bool,
    pub latched_right: bool,
}

impl ButtonSources {
    /// Consistency of the sources: the physical left source follows the
    /// raw button except while a latched press diverts it, a latched press
    /// holds the raw left button, and the physical right source is the raw
    /// right button.
    pub open spec fn wf(self) -> bool {
        &&& self.physical_left == (self.physical_left_raw && !self.latched_right)
        &&& self.latched_right ==> self.physical_left_raw
        &&& self.physical_right == self.physical_right_raw
    }

    /// Whether the left wire button is held.
    pub open spec fn wire_left(self) -> bool {
        self.physical_left || self.synthetic_left
    }

    /// Whether the right wire button is held.
    pub open spec fn wire_right(self) -> bool {
        self.physical_right || self.synthetic_right || self.latched_right
    }

    /// No source holds anything.
    pub fn released() -> (r: ButtonSources)
        ensures
            r == (ButtonSources {
                physical_left: false,
                physical_left_raw: false,
                synthetic_left: false,
                physical_right: false,
                physical_right_raw: false,
                synthetic_right: false,
                latched_right: false,
            }),
            r.wf(),
    {
        ButtonSources {
            physical_left: false,
            physical_left_raw: false,
            synthetic_left: false,
            physical_right: false,
            physical_right_raw: false,
            synthetic_right: false,
            latched_right: false,
        }
    }
}

/// Whether `events`, applied in order to wire buttons holding `left` and
/// `right`, press only released buttons, release only held ones, and leave
/// the buttons holding `left_after` and `right_after`. Events other than
/// left and right button events do not touch the wire buttons.
pub open spec fn replays(
    left: bool,
    right: bool,
    events: Seq<OutputEvent>,
    left_after: bool,
    right_after: bool,
) -> bool
    decreases events.len(),
{
    if events.len() == 0 {
        left == left_after && right == right_after
    } else {
        let rest = events.drop_first();
        match events[0] {
            OutputEvent::ButtonDown(MouseButton::Left) => !left && replays(
                true,
                right,
                rest,
                left_after,
                right_after,
            ),
            OutputEvent::ButtonUp(MouseButton::Left) => left && replays(
                false,
                right,
                rest,
                left_after,
                right_after,
            ),
            OutputEvent::ButtonDown(MouseButton::Right) => !right && replays(
                left,
                true,
                rest,
                left_after,
                right_after,
            ),
            OutputEvent::ButtonUp(MouseButton::Right) => right && replays(
                left,
                false,
                rest,
                left_after,
                right_after,
            ),
            _ => replays(left, right, rest, left_after, right_after),
        }
    }
}

/// `event` when `condition` holds, else nothing.
pub open spec fn event_if(condition: bool, event: OutputEvent) -> Seq<OutputEvent> {
    if condition {
        seq![event]
    } else {
        Seq::empty()
    }
}

/// The sources after a frame's physical button report: a left press edge
/// while `latch_allowed` (and no press is latched yet) is latched to the
/// right button for its whole press; a left release ends a latched press;
/// otherwise the physical sources follow the raw buttons.
pub open spec fn spec_physical_sources(
    s: ButtonSources,
    raw_left: bool,
    raw_right: bool,
    latch_allowed: bool,
) -> ButtonSources {
    let down = raw_left && !s.physical_left_raw;
    let up = !raw_left && s.physical_left_raw;
    let latch = down && !s.latched_right && latch_allowed;
    let (physical_left, latched_right) = if down {
        if latch {
            (false, true)
        } else {
            (raw_left, s.latched_right)
        }
    } else if up {
        if s.latched_right {
            (false, false)
        } else {
            (raw_left, false)
        }
    } else if !s.latched_right {
        (raw_left, false)
    } else {
        (s.physical_left, true)
    };
    ButtonSources {
        physical_left,
        physical_left_raw: raw_left,
        physical_right: raw_right,
        physical_right_raw: raw_right,
        latched_right,
        ..s
    }
}

/// The wire events of a frame's physical button report, in wire order: each
/// wire button moves exactly when the sources holding it before the frame
/// and after it differ. A left release that hands ownership over to a right
/// press goes first; otherwise the presses go before the releases.
pub open spec fn spec_physical_events(
    s: ButtonSources,
    raw_left: bool,
    raw_right: bool,
    latch_allowed: bool,
) -> Seq<OutputEvent> {
    let after = spec_physical_sources(s, raw_left, raw_right, latch_allowed);
    let left_down = !s.wire_left() && after.wire_left();
    let left_up = s.wire_left() && !after.wire_left();
    let right_down = !s.wire_right() && after.wire_right();
    let right_up = s.wire_right() && !after.wire_right();
    if left_up && right_down {
        seq![OutputEvent::ButtonUp(MouseButton::Left), OutputEvent::ButtonDown(MouseButton::Right)]
    } else {
        event_if(left_down, OutputEvent::ButtonDown(MouseButton::Left)) + event_if(
            right_down,
            OutputEvent::ButtonDown(MouseButton::Right),
        ) + event_if(left_up, OutputEvent::ButtonUp(MouseButton::Left)) + event_if(
            right_up,
            OutputEvent::ButtonUp(MouseButton::Right),
        )
    }
}

/// Whether a latched press may start: the buttonpad two-finger physical
/// click is enabled and exactly two complete live contacts are present.
pub open spec fn spec_latch_allowed(two_complete: bool, cfg: Option<&TwoFingerConfig>) -> bool {
    two_complete && (cfg matches Some(c) && c@.two_finger_physical_click_enabled)
}

/// Applies a frame's physical button report to the sources and returns the
/// wire events it owes. `two_complete` tells whether exactly two complete
/// live contacts are present; `cfg` is the two-finger configuration, if
/// any. The synthetic sources are left as they are.
pub fn button_step(
    s: ButtonSources,
    raw_left: bool,
    raw_right: bool,
    two_complete: bool,
    cfg: Option<&TwoFingerConfig>,
) -> (r: (ButtonSources, Vec<OutputEvent>))
    ensures
        r.0 == spec_physical_sources(s, raw_left, raw_right, spec_latch_allowed(two_complete, cfg)),
        r.1@ == spec_physical_events(s, raw_left, raw_right, spec_latch_allowed(two_complete, cfg)),
        s.wf() ==> r.0.wf(),
        replays(s.wire_left(), s.wire_right(), r.1@, r.0.wire_left(), r.0.wire_right()),
{
    let latch_allowed = two_complete && match cfg {
        Some(c) => c.two_finger_physical_click_enabled(),
        None => false,
    };
    let down = raw_left && !s.physical_left_raw;
    let up = !raw_left && s.physical_left_raw;
    let latch = down && !s.latched_right && latch_allowed;
    let mut next = s;
    if down {
        if latch {
            next.latched_right = true;
            next.physical_left = false;
        } else {
            next.physical_left = raw_left;
        }
    } else if up {
        if s.latched_right {
            next.latched_right = false;
            next.physical_left = false;
        } else {
            next.physical_left = raw_left;
        }
    } else if !s.latched_right {
        next.physical_left = raw_left;
    }
    next.physical_left_raw = raw_left;
    next.physical_right = raw_right;
    next.physical_right_raw = raw_right;
    let left_before = s.physical_left || s.synthetic_left;
    let left_after = next.physical_left || next.synthetic_left;
    let right_before = s.physical_right || s.synthetic_right || s.latched_right;
    let right_after = next.physical_right || next.synthetic_right || next.latched_right;
    let left_down = !left_before && left_after;
    let left_up = left_before && !left_after;
    let right_down = !right_before && right_after;
    let right_up = right_before && !right_after;
    let mut events: Vec<OutputEvent> = Vec::new();
    if left_up && right_down {
        events.push(OutputEvent::ButtonUp(MouseButton::Left));
        events.push(OutputEvent::ButtonDown(MouseButton::Right));
    } else {
        if left_down {
            events.push(OutputEvent::ButtonDown(MouseButton::Left));
        }
        if right_down {
            events.push(OutputEvent::ButtonDown(MouseButton::Right));
        }
        if left_up {
            events.push(OutputEvent::ButtonUp(MouseButton::Left));
        }
        if right_up {
            events.push(OutputEvent::ButtonUp(MouseButton::Right));
        }
    }
    proof {
        let spec_events = spec_physical_events(s, raw_left, raw_right, latch_allowed);
        assert(events@ =~= spec_events);
        reveal_with_fuel(replays, 5);
    }
    (next, events)
}

/// Presses the synthetic left source (a tap press). The wire sees a press
/// only when neither source held it.
pub fn press_synthetic_left(s: ButtonSources) -> (r: (ButtonSources, Vec<OutputEvent>))
    ensures
        r.0 == (ButtonSources { synthetic_left: true, ..s }),
        r.1@ == event_if(
            !s.synthetic_left && !s.physical_left,
            OutputEvent::ButtonDown(MouseButton::Left),
        ),
        s.wf() ==> r.0.wf(),
        replays(s.wire_left(), s.wire_right(), r.1@, r.0.wire_left(), r.0.wire_right()),
{
    let mut events: Vec<OutputEvent> = Vec::new();
    if !s.synthetic_left && !s.physical_left {
        events.push(OutputEvent::ButtonDown(MouseButton::Left));
    }
    proof {
        reveal_with_fuel(replays, 2);
    }
    (ButtonSources { synthetic_left: true, ..s }, events)
}

/// Releases the synthetic left source. The wire sees a release only when
/// the synthetic source held it and the physical one does not.
pub fn release_synthetic_left(s: ButtonSources) -> (r: (ButtonSources, Vec<OutputEvent>))
    ensures
        r.0 == (ButtonSources { synthetic_left: false, ..s }),
        r.1@ == event_if(
            s.synthetic_left && !s.physical_left,
            OutputEvent::ButtonUp(MouseButton::Left),
        ),
        s.wf() ==> r.0.wf(),
        replays(s.wire_left(), s.wire_right(), r.1@, r.0.wire_left(), r.0.wire_right()),
{
    let mut events: Vec<OutputEvent> = Vec::new();
    if s.synthetic_left && !s.physical_left {
        events.push(OutputEvent::ButtonUp(MouseButton::Left));
    }
    proof {
        reveal_with_fuel(replays, 2);
    }
    (ButtonSources { synthetic_left: false, ..s }, events)
}

/// Presses the synthetic right source (a secondary tap press). The wire
/// sees a press only when no right source held it.
pub fn press_synthetic_right(s: ButtonSources) -> (r: (ButtonSources, Vec<OutputEvent>))
    ensures
        r.0 == (ButtonSources { synthetic_right: true, ..s }),
        r.1@ == event_if(
            !s.synthetic_right && !s.physical_right && !s.latched_right,
            OutputEvent::ButtonDown(MouseButton::Right),
        ),
        s.wf() ==> r.0.wf(),
        replays(s.wire_left(), s.wire_right(), r.1@, r.0.wire_left(), r.0.wire_right()),
{
    let mut events: Vec<OutputEvent> = Vec::new();
    if !s.synthetic_right && !s.physical_right && !s.latched_right {
        events.push(OutputEvent::ButtonDown(MouseButton::Right));
    }
    proof {
        reveal_with_fuel(replays, 2);
    }
    (ButtonSources { synthetic_right: true, ..s }, events)
}

/// Releases the synthetic right source. The wire sees a release only when
/// the synthetic source held it and no other right source does.
pub fn release_synthetic_right(s: ButtonSources) -> (r: (ButtonSources, Vec<OutputEvent>))
    ensures
        r.0 == (ButtonSources { synthetic_right: false, ..s }),
        r.1@ == event_if(
            s.synthetic_right && !s.physical_right && !s.latched_right,
            OutputEvent::ButtonUp(MouseButton::Right),
        ),
        s.wf() ==> r.0.wf(),
        replays(s.wire_left(), s.wire_right(), r.1@, r.0.wire_left(), r.0.wire_right()),
{
    let mut events: Vec<OutputEvent> = Vec::new();
    if s.synthetic_right && !s.physical_right && !s.latched_right {
        events.push(OutputEvent::ButtonUp(MouseButton::Right));
    }
    proof {
        reveal_with_fuel(replays, 2);
    }
    (ButtonSources { synthetic_right: false, ..s }, events)
}

/// The unconditional escape path: releases every held wire button (left,
/// then right) and closes an open scroll, and leaves no source holding
/// anything.
pub fn release_all_buttons(s: ButtonSources, scroll_open: bool) -> (r: (
    ButtonSources,
    Vec<OutputEvent>,
))
    ensures
        r.0 == (ButtonSources {
            physical_left: false,
            physical_left_raw: false,
            synthetic_left: false,
            physical_right: false,
            physical_right_raw: false,
            synthetic_right: false,
            latched_right: false,
        }),
        r.1@ == event_if(s.wire_left(), OutputEvent::ButtonUp(MouseButton::Left)) + event_if(
            s.wire_right(),
            OutputEvent::ButtonUp(MouseButton::Right),
        ) + event_if(scroll_open, OutputEvent::ScrollEnd),
        replays(s.wire_left(), s.wire_right(), r.1@, false, false),
{
    let mut events: Vec<OutputEvent> = Vec::new();
    if s.physical_left || s.synthetic_left {
        events.push(OutputEvent::ButtonUp(MouseButton::Left));
    }
    if s.physical_right || s.synthetic_right || s.latched_right {
        events.push(OutputEvent::ButtonUp(MouseButton::Right));
    }
    if scroll_open {
        events.push(OutputEvent::ScrollEnd);
    }
    proof {
        assert(events@ =~= event_if(s.wire_left(), OutputEvent::ButtonUp(MouseButton::Left))
            + event_if(s.wire_right(), OutputEvent::ButtonUp(MouseButton::Right)) + event_if(
            scroll_open,
            OutputEvent::ScrollEnd,
        ));
        reveal_with_fuel(replays, 4);
    }
    (ButtonSources::released(), events)
}

/// Whether a contact that began at `began` and ended at `now` stayed within
/// a duration of `max_duration` and a movement of `max_movement_mm`
/// (binary32) from its anchor, `max_displacement_mm` (binary64) being the
/// farthest it moved. Equality is accepted; strictly greater fails; an
/// unknown start or a time that went backwards fails.
pub open spec fn within_tap_limits(
    began: Option<Monotonic>,
    now: Monotonic,
    max_displacement_mm: u64,
    max_duration: Duration,
    max_movement_mm: u32,
) -> bool {
    &&& began matches Some(b)
    &&& b@ <= now@
    &&& now@ - b@ <= std_duration_nanos(max_duration)
    &&& binary64::le(max_displacement_mm, binary32::widen(max_movement_mm))
}

fn within_limits(
    began: Option<Monotonic>,
    now: Monotonic,
    max_displacement_mm: u64,
    max_duration: Duration,
    max_movement_mm: u32,
) -> (r: bool)
    requires
        binary32::is_finite(max_movement_mm),
    ensures
        r == within_tap_limits(began, now, max_displacement_mm, max_duration, max_movement_mm),
{
    match began {
        None => false,
        Some(b) => {
            if now.as_nanos() < b.as_nanos() {
                return false;
            }
            let elapsed = now.as_nanos() - b.as_nanos();
            (elapsed as u128) <= duration_as_nanos(&max_duration) && binary64::less_or_equal(
                max_displacement_mm,
                binary32::widen_finite(max_movement_mm),
            )
        },
    }
}

/// Whether a one-finger tap candidate qualifies as a tap at its release:
/// within the configured duration and movement (equality accepted), no
/// physical left press held, and not disqualified (for instance by having
/// begun across a stream discontinuity).
pub fn tap_qualifies(
    began: Option<Monotonic>,
    now: Monotonic,
    max_displacement_mm: u64,
    cfg: &TapConfig,
    physical_left: bool,
    disqualified: bool,
) -> (r: bool)
    ensures
        r == (within_tap_limits(
            began,
            now,
            max_displacement_mm,
            cfg@.max_tap_duration,
            cfg@.max_tap_movement_mm,
        ) && !physical_left && !disqualified),
{
    let movement = cfg.max_tap_movement_mm().to_bits();
    within_limits(began, now, max_displacement_mm, cfg.max_tap_duration(), movement)
        && !physical_left && !disqualified
}

/// Whether a two-finger candidate qualifies as a secondary tap at its
/// release: the secondary tap is configured and enabled, the cluster is not
/// disqualified, it stayed within the configured duration and per-contact
/// movement (equality accepted), and no physical or latched button is held.
pub fn secondary_tap_qualifies(
    cfg: Option<&TwoFingerConfig>,
    disqualified: bool,
    began: Option<Monotonic>,
    now: Monotonic,
    max_displacement_mm: u64,
    buttons: ButtonSources,
) -> (r: bool)
    ensures
        r == (cfg matches Some(c) && c@.secondary_tap_enabled && !disqualified && within_tap_limits(
            began,
            now,
            max_displacement_mm,
            c@.max_secondary_tap_duration,
            c@.max_secondary_tap_movement_mm,
        ) && !buttons.physical_left && !buttons.physical_right && !buttons.latched_right),
{
    match cfg {
        None => false,
        Some(c) => {
            if !c.secondary_tap_enabled() || disqualified {
                return false;
            }
            let movement = c.max_secondary_tap_movement_mm().to_bits();
            within_limits(began, now, max_displacement_mm, c.max_secondary_tap_duration(), movement)
                && !buttons.physical_left && !buttons.physical_right && !buttons.latched_right
        },
    }
}

/// The plain-valued part of the tap / drag / drag-lock policy: the phase,
/// the release time of the last qualifying tap (which opens the follow-up
/// window), whether the current drag contact committed motion, and the
/// begin time of the current tap candidate.
#[derive(Clone, Copy, Debug, PartialEq, Eq, Structural)]
pub struct TapState {
    pub phase: TapDragPhase,
    pub completed_at: Option<Monotonic>,
    pub drag_committed: bool,
    pub candidate_began: Option<Monotonic>,
}

/// Message of a fired tap.
pub open spec fn tap_fired_text(tracking_id: i32) -> Seq<char> {
    "qualifying tap recognized (tracking id "@ + decimal_text(tracking_id as int) + ")"@
}

/// Message of an engaged drag lock.
pub open spec fn drag_locked_text(tracking_id: i32) -> Seq<char> {
    "sticky drag lock engaged (tracking id "@ + decimal_text(tracking_id as int) + ")"@
}

/// Message of a drag lock released by a tap.
pub open spec fn drag_unlocked_text(tracking_id: i32) -> Seq<char> {
    "sticky drag lock released by a qualifying tap (tracking id "@ + decimal_text(
        tracking_id as int,
    ) + ")"@
}

/// Release then press of the synthetic left source, with the events owed.
pub open spec fn synthetic_left_events(s: ButtonSources, press: bool) -> Seq<OutputEvent> {
    if press {
        event_if(!s.synthetic_left && !s.physical_left, OutputEvent::ButtonDown(MouseButton::Left))
    } else {
        event_if(s.synthetic_left && !s.physical_left, OutputEvent::ButtonUp(MouseButton::Left))
    }
}

/// The outcome of a release of the tap-family phases, each as the new tap
/// state, the new button sources, the wire events, and the informational
/// findings.
pub type ReleaseOutcome = (TapState, ButtonSources, Seq<OutputEvent>, Seq<Finding>);

/// A release ending a first-tap candidate: a qualifying tap fires, held
/// pending when tap-and-drag may follow, else as a down/up pulse.
pub open spec fn spec_release_first_tap(
    tap: TapState,
    buttons: ButtonSources,
    tap_ok: bool,
    drag_enabled: bool,
    now: Monotonic,
    tracking_id: i32,
) -> ReleaseOutcome {
    let cleared = TapState { candidate_began: None, ..tap };
    let pressed = ButtonSources { synthetic_left: true, ..buttons };
    let fired = seq![(DiagnosticLevel::Info, DiagnosticCode::TapFired, tap_fired_text(tracking_id))];
    if !tap_ok {
        (
            TapState { phase: TapDragPhase::Finished, completed_at: None, ..cleared },
            buttons,
            Seq::empty(),
            Seq::empty(),
        )
    } else if drag_enabled {
        (
            TapState { phase: TapDragPhase::FollowUpWindow, completed_at: Some(now), ..cleared },
            pressed,
            synthetic_left_events(buttons, true),
            fired,
        )
    } else {
        (
            TapState { phase: TapDragPhase::Finished, completed_at: None, ..cleared },
            ButtonSources { synthetic_left: false, ..buttons },
            synthetic_left_events(buttons, true) + synthetic_left_events(pressed, false),
            fired,
        )
    }
}

/// A release ending a tap-and-drag candidate: a qualifying second tap
/// closes the first click and presses again; otherwise the click closes.
pub open spec fn spec_release_drag_candidate(
    tap: TapState,
    buttons: ButtonSources,
    drag_ok: bool,
    now: Monotonic,
    tracking_id: i32,
) -> ReleaseOutcome {
    let cleared = TapState { candidate_began: None, drag_committed: false, ..tap };
    let released = ButtonSources { synthetic_left: false, ..buttons };
    if drag_ok {
        (
            TapState { phase: TapDragPhase::FollowUpWindow, completed_at: Some(now), ..cleared },
            ButtonSources { synthetic_left: true, ..buttons },
            synthetic_left_events(buttons, false) + synthetic_left_events(released, true),
            seq![(DiagnosticLevel::Info, DiagnosticCode::TapFired, tap_fired_text(tracking_id))],
        )
    } else {
        (
            TapState { phase: TapDragPhase::Finished, completed_at: None, ..cleared },
            released,
            synthetic_left_events(buttons, false),
            Seq::empty(),
        )
    }
}

/// A release ending a committed follow-up drag: sticky drag lock keeps the
/// press held; otherwise the drag releases.
pub open spec fn spec_release_drag_contact(
    tap: TapState,
    buttons: ButtonSources,
    lock_enabled: bool,
    tracking_id: i32,
) -> ReleaseOutcome {
    let cleared = TapState { candidate_began: None, drag_committed: false, ..tap };
    if tap.drag_committed && lock_enabled {
        (
            TapState { phase: TapDragPhase::LockedWithoutContact, ..cleared },
            buttons,
            Seq::empty(),
            seq![(DiagnosticLevel::Info, DiagnosticCode::DragLocked, drag_locked_text(tracking_id))],
        )
    } else {
        (
            TapState { phase: TapDragPhase::Finished, ..cleared },
            ButtonSources { synthetic_left: false, ..buttons },
            synthetic_left_events(buttons, false),
            Seq::empty(),
        )
    }
}

/// A release ending a contact on a locked drag: a committed continuation
/// stays locked; a qualifying tap releases the lock; anything else leaves
/// the lock held.
pub open spec fn spec_release_locked_contact(
    tap: TapState,
    buttons: ButtonSources,
    tap_ok: bool,
    tracking_id: i32,
) -> ReleaseOutcome {
    let cleared = TapState { candidate_began: None, drag_committed: false, ..tap };
    if !tap.drag_committed && tap_ok {
        (
            TapState { phase: TapDragPhase::Idle, ..cleared },
            ButtonSources { synthetic_left: false, ..buttons },
            synthetic_left_events(buttons, false),
            seq![
                (
                    DiagnosticLevel::Info,
                    DiagnosticCode::DragUnlocked,
                    drag_unlocked_text(tracking_id),
                ),
            ],
        )
    } else {
        (
            TapState { phase: TapDragPhase::LockedWithoutContact, ..cleared },
            buttons,
            Seq::empty(),
            Seq::empty(),
        )
    }
}

/// The outcome of a one-finger release for the tap family. `qualifies` is
/// [`tap_qualifies`] of the candidate; `ended_complete` tells whether the
/// ended contact carries both coordinates. A tap needs a complete ended
/// contact, a qualifying candidate, and tapping (or, for a second tap,
/// tap-and-drag) enabled.
pub open spec fn spec_resolve_release(
    tap: TapState,
    buttons: ButtonSources,
    ended_complete: bool,
    qualifies: bool,
    cfg: Option<TapConfig>,
    now: Monotonic,
    tracking_id: i32,
) -> ReleaseOutcome {
    let tap_enabled = cfg matches Some(c) && c@.tap_enabled;
    let drag_enabled = cfg matches Some(c) && c@.tap_and_drag_enabled;
    let lock_enabled = cfg matches Some(c) && c@.drag_lock_enabled;
    let tap_ok = ended_complete && tap_enabled && qualifies;
    let drag_ok = ended_complete && drag_enabled && qualifies;
    match tap.phase {
        TapDragPhase::FirstTapCandidate => spec_release_first_tap(
            tap,
            buttons,
            tap_ok,
            drag_enabled,
            now,
            tracking_id,
        ),
        TapDragPhase::TapDragCandidate => spec_release_drag_candidate(
            tap,
            buttons,
            drag_ok,
            now,
            tracking_id,
        ),
        TapDragPhase::TapDragContact => spec_release_drag_contact(
            tap,
            buttons,
            lock_enabled,
            tracking_id,
        ),
        TapDragPhase::LockedContact => spec_release_locked_contact(
            tap,
            buttons,
            tap_ok,
            tracking_id,
        ),
        _ => (tap, buttons, Seq::empty(), Seq::empty()),
    }
}

/// Whether an executable outcome is the stated one.
pub open spec fn outcome_is(
    r: (TapState, ButtonSources, Vec<OutputEvent>, Vec<Diagnostic>),
    spec: ReleaseOutcome,
    sequence: u64,
) -> bool {
    &&& r.0 == spec.0
    &&& r.1 == spec.1
    &&& r.2@ == spec.2
    &&& reports(r.3@, spec.3, sequence)
}

/// Whether an outcome's events replay on the wire from `buttons` to the
/// outcome's sources.
pub open spec fn outcome_replays(buttons: ButtonSources, spec: ReleaseOutcome) -> bool {
    replays(buttons.wire_left(), buttons.wire_right(), spec.2, spec.1.wire_left(), spec.1.wire_right())
}

/// Whether `diagnostics` are exactly `findings`, each tied to `sequence`.
pub open spec fn reports(diagnostics: Seq<Diagnostic>, findings: Seq<Finding>, sequence: u64) -> bool {
    &&& diagnostics.map_values(|d: Diagnostic| finding_of(d)) == findings
    &&& forall|i: int|
        0 <= i < diagnostics.len() ==> (#[trigger] diagnostics[i]).frame_sequence == Some(sequence)
}

pub(crate) fn note(level: DiagnosticLevel, code: DiagnosticCode, message: &str, sequence: u64) -> (r: Vec<
    Diagnostic,
>)
    ensures
        reports(r@, seq![(level, code, message@)], sequence),
{
    let mut r: Vec<Diagnostic> = Vec::new();
    r.push(Diagnostic::with_frame(level, code, message, sequence));
    assert(r@.map_values(|d: Diagnostic| finding_of(d)) =~= seq![(level, code, message@)]);
    r
}

pub(crate) fn id_note(code: DiagnosticCode, head: &str, tracking_id: i32, sequence: u64) -> (r: Vec<Diagnostic>)
    ensures
        reports(
            r@,
            seq![(DiagnosticLevel::Info, code, head@ + decimal_text(tracking_id as int) + ")"@)],
            sequence,
        ),
{
    let id_text = decimal(tracking_id as i128);
    let text = join(head, id_text.as_str());
    let text = join(text.as_str(), ")");
    note(DiagnosticLevel::Info, code, text.as_str(), sequence)
}

pub(crate) fn no_reports() -> (r: Vec<Diagnostic>)
    ensures
        reports(r@, Seq::empty(), 0) && r@.len() == 0,
{
    let r: Vec<Diagnostic> = Vec::new();
    assert(r@.map_values(|d: Diagnostic| finding_of(d)) =~= Seq::<Finding>::empty());
    r
}

fn release_first_tap(
    tap: TapState,
    buttons: ButtonSources,
    tap_ok: bool,
    drag_enabled: bool,
    now: Monotonic,
    tracking_id: i32,
    sequence: u64,
) -> (r: (TapState, ButtonSources, Vec<OutputEvent>, Vec<Diagnostic>))
    ensures
        outcome_is(r, spec_release_first_tap(tap, buttons, tap_ok, drag_enabled, now, tracking_id), sequence),
        outcome_replays(buttons, spec_release_first_tap(tap, buttons, tap_ok, drag_enabled, now, tracking_id)),
{
    let cleared = TapState { candidate_began: None, ..tap };
    if !tap_ok {
        let empty = no_reports();
        proof {
            assert(reports(empty@, Seq::empty(), sequence));
        }
        return (
            TapState { phase: TapDragPhase::Finished, completed_at: None, ..cleared },
            buttons,
            Vec::new(),
            empty,
        );
    }
    let (pressed, mut events) = press_synthetic_left(buttons);
    let notes = id_note(
        DiagnosticCode::TapFired,
        "qualifying tap recognized (tracking id ",
        tracking_id,
        sequence,
    );
    if drag_enabled {
        (
            TapState { phase: TapDragPhase::FollowUpWindow, completed_at: Some(now), ..cleared },
            pressed,
            events,
            notes,
        )
    } else {
        let (released, mut up) = release_synthetic_left(pressed);
        events.append(&mut up);
        proof {
            reveal_with_fuel(replays, 3);
        }
        (
            TapState { phase: TapDragPhase::Finished, completed_at: None, ..cleared },
            released,
            events,
            notes,
        )
    }
}

fn release_drag_candidate(
    tap: TapState,
    buttons: ButtonSources,
    drag_ok: bool,
    now: Monotonic,
    tracking_id: i32,
    sequence: u64,
) -> (r: (TapState, ButtonSources, Vec<OutputEvent>, Vec<Diagnostic>))
    ensures
        outcome_is(r, spec_release_drag_candidate(tap, buttons, drag_ok, now, tracking_id), sequence),
        outcome_replays(buttons, spec_release_drag_candidate(tap, buttons, drag_ok, now, tracking_id)),
{
    let cleared = TapState { candidate_began: None, drag_committed: false, ..tap };
    let (released, mut events) = release_synthetic_left(buttons);
    if drag_ok {
        let (pressed, mut down) = press_synthetic_left(released);
        events.append(&mut down);
        proof {
            reveal_with_fuel(replays, 3);
        }
        let notes = id_note(
            DiagnosticCode::TapFired,
            "qualifying tap recognized (tracking id ",
            tracking_id,
            sequence,
        );
        (
            TapState { phase: TapDragPhase::FollowUpWindow, completed_at: Some(now), ..cleared },
            pressed,
            events,
            notes,
        )
    } else {
        let empty = no_reports();
        proof {
            assert(reports(empty@, Seq::empty(), sequence));
        }
        (
            TapState { phase: TapDragPhase::Finished, completed_at: None, ..cleared },
            released,
            events,
            empty,
        )
    }
}

fn release_drag_contact(
    tap: TapState,
    buttons: ButtonSources,
    lock_enabled: bool,
    tracking_id: i32,
    sequence: u64,
) -> (r: (TapState, ButtonSources, Vec<OutputEvent>, Vec<Diagnostic>))
    ensures
        outcome_is(r, spec_release_drag_contact(tap, buttons, lock_enabled, tracking_id), sequence),
        outcome_replays(buttons, spec_release_drag_contact(tap, buttons, lock_enabled, tracking_id)),
{
    let cleared = TapState { candidate_began: None, drag_committed: false, ..tap };
    if tap.drag_committed && lock_enabled {
        let notes = id_note(
            DiagnosticCode::DragLocked,
            "sticky drag lock engaged (tracking id ",
            tracking_id,
            sequence,
        );
        proof {
            reveal_with_fuel(replays, 1);
        }
        (TapState { phase: TapDragPhase::LockedWithoutContact, ..cleared }, buttons, Vec::new(), notes)
    } else {
        let (released, events) = release_synthetic_left(buttons);
        let empty = no_reports();
        proof {
            assert(reports(empty@, Seq::empty(), sequence));
        }
        (TapState { phase: TapDragPhase::Finished, ..cleared }, released, events, empty)
    }
}

fn release_locked_contact(
    tap: TapState,
    buttons: ButtonSources,
    tap_ok: bool,
    tracking_id: i32,
    sequence: u64,
) -> (r: (TapState, ButtonSources, Vec<OutputEvent>, Vec<Diagnostic>))
    ensures
        outcome_is(r, spec_release_locked_contact(tap, buttons, tap_ok, tracking_id), sequence),
        outcome_replays(buttons, spec_release_locked_contact(tap, buttons, tap_ok, tracking_id)),
{
    let cleared = TapState { candidate_began: None, drag_committed: false, ..tap };
    if !tap.drag_committed && tap_ok {
        let (released, events) = release_synthetic_left(buttons);
        let notes = id_note(
            DiagnosticCode::DragUnlocked,
            "sticky drag lock released by a qualifying tap (tracking id ",
            tracking_id,
            sequence,
        );
        (TapState { phase: TapDragPhase::Idle, ..cleared }, released, events, notes)
    } else {
        let empty = no_reports();
        proof {
            assert(reports(empty@, Seq::empty(), sequence));
            reveal_with_fuel(replays, 1);
        }
        (TapState { phase: TapDragPhase::LockedWithoutContact, ..cleared }, buttons, Vec::new(), empty)
    }
}

/// Resolves the tap family when the one-finger contact of the interaction
/// is released at `now`: a first tap fires (held pending when tap-and-drag
/// may follow, else as a down/up pulse), a second tap re-presses, a
/// committed drag ends or engages the sticky lock, a tap on a locked drag
/// releases it. A plain pointer interaction resolves nothing. The events
/// replay on the wire from the old sources to the new ones.
pub fn resolve_release(
    tap: TapState,
    buttons: ButtonSources,
    ended_complete: bool,
    qualifies: bool,
    cfg: Option<&TapConfig>,
    now: Monotonic,
    tracking_id: i32,
    sequence: u64,
) -> (r: (TapState, ButtonSources, Vec<OutputEvent>, Vec<Diagnostic>))
    ensures
        outcome_is(
            r,
            spec_resolve_release(
                tap,
                buttons,
                ended_complete,
                qualifies,
                match cfg {
                    Some(c) => Some(*c),
                    None => None,
                },
                now,
                tracking_id,
            ),
            sequence,
        ),
        buttons.wf() ==> r.1.wf(),
        replays(buttons.wire_left(), buttons.wire_right(), r.2@, r.1.wire_left(), r.1.wire_right()),
{
    let tap_enabled = match cfg {
        Some(c) => c.tap_enabled(),
        None => false,
    };
    let drag_enabled = match cfg {
        Some(c) => c.tap_and_drag_enabled(),
        None => false,
    };
    let lock_enabled = match cfg {
        Some(c) => c.drag_lock_enabled(),
        None => false,
    };
    let tap_ok = ended_complete && tap_enabled && qualifies;
    let drag_ok = ended_complete && drag_enabled && qualifies;
    match tap.phase {
        TapDragPhase::FirstTapCandidate => release_first_tap(
            tap,
            buttons,
            tap_ok,
            drag_enabled,
            now,
            tracking_id,
            sequence,
        ),
        TapDragPhase::TapDragCandidate => release_drag_candidate(
            tap,
            buttons,
            drag_ok,
            now,
            tracking_id,
            sequence,
        ),
        TapDragPhase::TapDragContact => release_drag_contact(
            tap,
            buttons,
            lock_enabled,
            tracking_id,
            sequence,
        ),
        TapDragPhase::LockedContact => release_locked_contact(
            tap,
            buttons,
            tap_ok,
            tracking_id,
            sequence,
        ),
        _ => {
            let empty = no_reports();
            proof {
                assert(reports(empty@, Seq::empty(), sequence));
                reveal_with_fuel(replays, 1);
            }
            (tap, buttons, Vec::new(), empty)
        },
    }
}

/// The plain-valued part of the two-finger policy: the phase, whether the
/// wire carries an open scroll, and whether the contact cluster is
/// disqualified from a secondary tap.
#[derive(Clone, Copy, Debug, PartialEq, Eq, Structural)]
pub struct TwoFingerState {
    pub phase: TwoFingerPhase,
    pub scroll_open: bool,
    pub tap_disqualified: bool,
}

/// Why a two-finger interaction ends.
#[derive(Clone, Copy, Debug, PartialEq, Eq)]
pub enum TwoEnd {
    /// The interaction dropped below two fingers: a qualifying secondary
    /// tap may fire.
    Release,
    /// The interaction was cancelled for the given reason: no secondary
    /// tap.
    Cancel(&'static str),
}

/// Finding of a fired secondary tap.
pub open spec fn secondary_tap_finding() -> Finding {
    (
        DiagnosticLevel::Info,
        DiagnosticCode::SecondaryTapFired,
        "qualifying two-finger tap emitted its secondary (right) click pair"@,
    )
}

/// Finding of a closed scroll.
pub open spec fn scroll_ended_finding() -> Finding {
    (
        DiagnosticLevel::Info,
        DiagnosticCode::TwoFingerScrollEnded,
        "two-finger scroll ended: ScrollEnd emitted"@,
    )
}

/// Finding of a cancelled two-finger interaction.
pub open spec fn two_finger_cancelled_finding(reason: &'static str) -> Finding {
    (
        DiagnosticLevel::Warning,
        DiagnosticCode::TwoFingerCancelled,
        "two-finger interaction cancelled: "@ + reason@,
    )
}

/// The outcome of ending a two-finger interaction. A candidate released
/// with a qualifying secondary tap emits exactly `ButtonDown(Right)`,
/// `ButtonUp(Right)` (as far as no other right source holds the wire) and
/// finishes; a released candidate without one just finishes; a cancelled
/// candidate is cancelled and disqualifies the cluster. A committed scroll
/// emits `ScrollEnd` exactly once if it is open, then finishes on release
/// or is cancelled (disqualifying the cluster). Other phases are left as
/// they are.
pub open spec fn spec_end_two_finger(
    two: TwoFingerState,
    buttons: ButtonSources,
    end: TwoEnd,
    secondary_qualifies: bool,
) -> (TwoFingerState, ButtonSources, Seq<OutputEvent>, Seq<Finding>) {
    let closing = event_if(two.scroll_open, OutputEvent::ScrollEnd);
    let closed_note = if two.scroll_open {
        seq![scroll_ended_finding()]
    } else {
        Seq::empty()
    };
    match (two.phase, end) {
        (TwoFingerPhase::Candidate, TwoEnd::Release) => if secondary_qualifies {
            let pressed = ButtonSources { synthetic_right: true, ..buttons };
            (
                TwoFingerState { phase: TwoFingerPhase::Finished, ..two },
                ButtonSources { synthetic_right: false, ..buttons },
                event_if(
                    !buttons.synthetic_right && !buttons.physical_right && !buttons.latched_right,
                    OutputEvent::ButtonDown(MouseButton::Right),
                ) + event_if(
                    !pressed.physical_right && !pressed.latched_right,
                    OutputEvent::ButtonUp(MouseButton::Right),
                ),
                seq![secondary_tap_finding()],
            )
        } else {
            (
                TwoFingerState { phase: TwoFingerPhase::Finished, ..two },
                buttons,
                Seq::empty(),
                Seq::empty(),
            )
        },
        (TwoFingerPhase::Candidate, TwoEnd::Cancel(reason)) => (
            TwoFingerState { phase: TwoFingerPhase::Cancelled, tap_disqualified: true, ..two },
            buttons,
            Seq::empty(),
            seq![two_finger_cancelled_finding(reason)],
        ),
        (TwoFingerPhase::CommittedScroll, TwoEnd::Release) => (
            TwoFingerState { phase: TwoFingerPhase::Finished, scroll_open: false, ..two },
            buttons,
            closing,
            closed_note,
        ),
        (TwoFingerPhase::CommittedScroll, TwoEnd::Cancel(reason)) => (
            TwoFingerState {
                phase: TwoFingerPhase::Cancelled,
                scroll_open: false,
                tap_disqualified: true,
            },
            buttons,
            closing,
            closed_note.push(two_finger_cancelled_finding(reason)),
        ),
        _ => (two, buttons, Seq::empty(), Seq::empty()),
    }
}

/// Ends the active two-finger interaction (see [`spec_end_two_finger`]).
/// `secondary_qualifies` is [`secondary_tap_qualifies`] at the release
/// frame. The per-interaction geometry (pair, anchors, remainders) is the
/// caller's to clear.
pub fn end_two_finger(
    two: TwoFingerState,
    buttons: ButtonSources,
    end: TwoEnd,
    secondary_qualifies: bool,
    sequence: u64,
) -> (r: (TwoFingerState, ButtonSources, Vec<OutputEvent>, Vec<Diagnostic>))
    ensures
        ({
            let spec = spec_end_two_finger(two, buttons, end, secondary_qualifies);
            &&& r.0 == spec.0
            &&& r.1 == spec.1
            &&& r.2@ == spec.2
            &&& reports(r.3@, spec.3, sequence)
        }),
        buttons.wf() ==> r.1.wf(),
        replays(buttons.wire_left(), buttons.wire_right(), r.2@, r.1.wire_left(), r.1.wire_right()),
{
    let mut events: Vec<OutputEvent> = Vec::new();
    let mut notes: Vec<Diagnostic> = Vec::new();
    let mut next_two = two;
    let mut next_buttons = buttons;
    match two.phase {
        TwoFingerPhase::Candidate => {
            match end {
                TwoEnd::Release => {
                    if secondary_qualifies {
                        let (pressed, mut down) = press_synthetic_right(buttons);
                        let (released, mut up) = release_synthetic_right(pressed);
                        events.append(&mut down);
                        events.append(&mut up);
                        next_buttons = released;
                        notes = note(
                            DiagnosticLevel::Info,
                            DiagnosticCode::SecondaryTapFired,
                            "qualifying two-finger tap emitted its secondary (right) click pair",
                            sequence,
                        );
                        proof {
                            reveal_with_fuel(replays, 3);
                        }
                    }
                    next_two.phase = TwoFingerPhase::Finished;
                },
                TwoEnd::Cancel(reason) => {
                    next_two.phase = TwoFingerPhase::Cancelled;
                    next_two.tap_disqualified = true;
                    let text = join("two-finger interaction cancelled: ", reason);
                    notes = note(
                        DiagnosticLevel::Warning,
                        DiagnosticCode::TwoFingerCancelled,
                        text.as_str(),
                        sequence,
                    );
                },
            }
        },
        TwoFingerPhase::CommittedScroll => {
            if two.scroll_open {
                events.push(OutputEvent::ScrollEnd);
                next_two.scroll_open = false;
                notes = note(
                    DiagnosticLevel::Info,
                    DiagnosticCode::TwoFingerScrollEnded,
                    "two-finger scroll ended: ScrollEnd emitted",
                    sequence,
                );
            }
            match end {
                TwoEnd::Release => {
                    next_two.phase = TwoFingerPhase::Finished;
                },
                TwoEnd::Cancel(reason) => {
                    next_two.phase = TwoFingerPhase::Cancelled;
                    next_two.tap_disqualified = true;
                    let text = join("two-finger interaction cancelled: ", reason);
                    let mut more = note(
                        DiagnosticLevel::Warning,
                        DiagnosticCode::TwoFingerCancelled,
                        text.as_str(),
                        sequence,
                    );
                    let ghost before = notes@;
                    let ghost added = more@;
                    proof {
                        assert(added.map_values(|d: Diagnostic| finding_of(d)) =~= seq![
                            two_finger_cancelled_finding(reason),
                        ]);
                        assert(added.len() == 1);
                        assert(added.map_values(|d: Diagnostic| finding_of(d))[0] == finding_of(
                            added[0],
                        ));
                    }
                    notes.append(&mut more);
                    proof {
                        assert(notes@ =~= before + added);
                        assert(notes@.map_values(|d: Diagnostic| finding_of(d)) =~= before.map_values(
                            |d: Diagnostic| finding_of(d),
                        ).push(two_finger_cancelled_finding(reason)));
                    }
                },
            }
            proof {
                reveal_with_fuel(replays, 2);
            }
        },
        _ => {},
    }
    proof {
        let spec = spec_end_two_finger(two, buttons, end, secondary_qualifies);
        assert(events@ =~= spec.2);
        assert(notes@.map_values(|d: Diagnostic| finding_of(d)) =~= spec.3);
        reveal_with_fuel(replays, 3);
    }
    (next_two, next_buttons, events, notes)
}

/// The fail-closed cancellation owed to a regressed frame: the active
/// pointer interaction (if any) is cancelled; an active tap / drag /
/// drag-lock policy is cancelled with its timing cleared; an active
/// two-finger interaction is cancelled and disqualifies the cluster. Held
/// buttons and an open scroll are not touched, so the release stays owed to
/// the escape path; no events are emitted.
pub open spec fn spec_cancel_on_regression(
    lifecycle: Lifecycle,
    tracking_id: Option<i32>,
    tap: TapState,
    two: TwoFingerState,
) -> (Lifecycle, Option<i32>, TapState, TwoFingerState) {
    let (lifecycle_after, id_after) = if tracking_id is Some {
        (Lifecycle::Cancelled, None)
    } else {
        (lifecycle, tracking_id)
    };
    let tap_after = match tap.phase {
        TapDragPhase::Idle | TapDragPhase::Cancelled | TapDragPhase::Finished => tap,
        _ => TapState {
            phase: TapDragPhase::Cancelled,
            completed_at: None,
            drag_committed: false,
            candidate_began: None,
        },
    };
    let two_after = match two.phase {
        TwoFingerPhase::Candidate
        | TwoFingerPhase::CommittedScroll
        | TwoFingerPhase::PhysicalSecondaryClickHeld => TwoFingerState {
            phase: TwoFingerPhase::Cancelled,
            tap_disqualified: true,
            ..two
        },
        _ => two,
    };
    (lifecycle_after, id_after, tap_after, two_after)
}

/// Applies the fail-closed cancellation owed to a regressed frame (see
/// [`spec_cancel_on_regression`]).
pub fn cancel_on_regression(
    lifecycle: Lifecycle,
    tracking_id: Option<i32>,
    tap: TapState,
    two: TwoFingerState,
) -> (r: (Lifecycle, Option<i32>, TapState, TwoFingerState))
    ensures
        r == spec_cancel_on_regression(lifecycle, tracking_id, tap, two),
        r.3.scroll_open == two.scroll_open,
{
    let (lifecycle_after, id_after) = match tracking_id {
        Some(_) => (Lifecycle::Cancelled, None),
        None => (lifecycle, tracking_id),
    };
    let tap_after = match tap.phase {
        TapDragPhase::Idle | TapDragPhase::Cancelled | TapDragPhase::Finished => tap,
        _ => TapState {
            phase: TapDragPhase::Cancelled,
            completed_at: None,
            drag_committed: false,
            candidate_began: None,
        },
    };
    let two_after = match two.phase {
        TwoFingerPhase::Candidate
        | TwoFingerPhase::CommittedScroll
        | TwoFingerPhase::PhysicalSecondaryClickHeld => TwoFingerState {
            phase: TwoFingerPhase::Cancelled,
            tap_disqualified: true,
            ..two
        },
        _ => two,
    };
    (lifecycle_after, id_after, tap_after, two_after)
}

/// Whether the follow-up window of a tap completed at `completed` has
/// expired at `now`: strictly more than `gap` has elapsed (equality keeps
/// it open), or the clock went backwards (fail closed).
pub open spec fn window_expired(completed: Monotonic, now: Monotonic, gap: Duration) -> bool {
    now@ < completed@ || now@ - completed@ > std_duration_nanos(gap)
}

/// The follow-up window check at a frame boundary: an expired window
/// commits the pending click by releasing the synthetic press and returns
/// the policy to idle; anything else is left as it is.
pub open spec fn spec_expire_follow_up(
    tap: TapState,
    buttons: ButtonSources,
    cfg: Option<TapConfig>,
    now: Monotonic,
) -> (TapState, ButtonSources, Seq<OutputEvent>) {
    if tap.phase == TapDragPhase::FollowUpWindow && (cfg matches Some(c) && (tap.completed_at matches Some(
        done,
    ) && window_expired(done, now, c@.max_tap_drag_gap))) {
        (
            TapState { phase: TapDragPhase::Idle, completed_at: None, ..tap },
            ButtonSources { synthetic_left: false, ..buttons },
            synthetic_left_events(buttons, false),
        )
    } else {
        (tap, buttons, Seq::empty())
    }
}

/// Applies the follow-up window check at a frame boundary (see
/// [`spec_expire_follow_up`]).
pub fn expire_follow_up(
    tap: TapState,
    buttons: ButtonSources,
    cfg: Option<&TapConfig>,
    now: Monotonic,
) -> (r: (TapState, ButtonSources, Vec<OutputEvent>))
    ensures
        ({
            let spec = spec_expire_follow_up(
                tap,
                buttons,
                match cfg {
                    Some(c) => Some(*c),
                    None => None,
                },
                now,
            );
            &&& r.0 == spec.0
            &&& r.1 == spec.1
            &&& r.2@ == spec.2
        }),
        buttons.wf() ==> r.1.wf(),
        replays(buttons.wire_left(), buttons.wire_right(), r.2@, r.1.wire_left(), r.1.wire_right()),
{
    if tap.phase == TapDragPhase::FollowUpWindow {
        if let (Some(c), Some(done)) = (cfg, tap.completed_at) {
            let expired = now.as_nanos() < done.as_nanos() || ((now.as_nanos() - done.as_nanos())
                as u128) > duration_as_nanos(&c.max_tap_drag_gap());
            if expired {
                let (released, events) = release_synthetic_left(buttons);
                return (TapState { phase: TapDragPhase::Idle, completed_at: None, ..tap }, released, events);
            }
        }
    }
    proof {
        reveal_with_fuel(replays, 1);
    }
    (tap, buttons, Vec::new())
}

/// The two-finger side of a non-latched physical press (normal left or
/// physical right): an active candidate or committed scroll is cancelled
/// for the reason `"physical click"` (closing an open scroll first); in any
/// case the contact cluster is disqualified from a secondary tap.
pub open spec fn spec_yield_to_physical_press(two: TwoFingerState, buttons: ButtonSources) -> (
    TwoFingerState,
    ButtonSources,
    Seq<OutputEvent>,
    Seq<Finding>,
) {
    match two.phase {
        TwoFingerPhase::Candidate | TwoFingerPhase::CommittedScroll => spec_end_two_finger(
            two,
            buttons,
            TwoEnd::Cancel("physical click"),
            false,
        ),
        _ => (TwoFingerState { tap_disqualified: true, ..two }, buttons, Seq::empty(), Seq::empty()),
    }
}

/// Applies the two-finger side of a non-latched physical press (see
/// [`spec_yield_to_physical_press`]).
pub fn yield_to_physical_press(two: TwoFingerState, buttons: ButtonSources, sequence: u64) -> (r: (
    TwoFingerState,
    ButtonSources,
    Vec<OutputEvent>,
    Vec<Diagnostic>,
))
    ensures
        ({
            let spec = spec_yield_to_physical_press(two, buttons);
            &&& r.0 == spec.0
            &&& r.1 == spec.1
            &&& r.2@ == spec.2
            &&& reports(r.3@, spec.3, sequence)
        }),
{
    match two.phase {
        TwoFingerPhase::Candidate | TwoFingerPhase::CommittedScroll => end_two_finger(
            two,
            buttons,
            TwoEnd::Cancel("physical click"),
            false,
            sequence,
        ),
        _ => {
            let empty = no_reports();
            proof {
                assert(reports(empty@, Seq::empty(), sequence));
            }
            (TwoFingerState { tap_disqualified: true, ..two }, buttons, Vec::new(), empty)
        },
    }
}

/// Finding of a latched secondary press.
pub open spec fn latched_finding() -> Finding {
    (
        DiagnosticLevel::Info,
        DiagnosticCode::SecondaryClickLatched,
        "buttonpad two-finger physical click latched the press to the secondary (right) button"@,
    )
}

/// The two-finger side of a latched press: a committed scroll closes its
/// open scroll, the phase becomes the held physical secondary click, and
/// the contact cluster is disqualified from a secondary tap.
pub open spec fn spec_latch_secondary_press(two: TwoFingerState) -> (
    TwoFingerState,
    Seq<OutputEvent>,
    Seq<Finding>,
) {
    let closes = two.phase == TwoFingerPhase::CommittedScroll && two.scroll_open;
    (
        TwoFingerState {
            phase: TwoFingerPhase::PhysicalSecondaryClickHeld,
            scroll_open: two.scroll_open && !closes,
            tap_disqualified: true,
        },
        event_if(closes, OutputEvent::ScrollEnd),
        if closes {
            seq![scroll_ended_finding(), latched_finding()]
        } else {
            seq![latched_finding()]
        },
    )
}

/// Applies the two-finger side of a latched press (see
/// [`spec_latch_secondary_press`]).
pub fn latch_secondary_press(two: TwoFingerState, sequence: u64) -> (r: (
    TwoFingerState,
    Vec<OutputEvent>,
    Vec<Diagnostic>,
))
    ensures
        ({
            let spec = spec_latch_secondary_press(two);
            &&& r.0 == spec.0
            &&& r.1@ == spec.1
            &&& reports(r.2@, spec.2, sequence)
        }),
{
    let closes = two.phase == TwoFingerPhase::CommittedScroll && two.scroll_open;
    let mut events: Vec<OutputEvent> = Vec::new();
    let mut notes: Vec<Diagnostic> = Vec::new();
    if closes {
        events.push(OutputEvent::ScrollEnd);
        notes.push(
            Diagnostic::with_frame(
                DiagnosticLevel::Info,
                DiagnosticCode::TwoFingerScrollEnded,
                "two-finger scroll ended: ScrollEnd emitted",
                sequence,
            ),
        );
    }
    notes.push(
        Diagnostic::with_frame(
            DiagnosticLevel::Info,
            DiagnosticCode::SecondaryClickLatched,
            "buttonpad two-finger physical click latched the press to the secondary (right) button",
            sequence,
        ),
    );
    proof {
        let spec = spec_latch_secondary_press(two);
        assert(events@ =~= spec.1);
        assert(notes@.map_values(|d: Diagnostic| finding_of(d)) =~= spec.2);
    }
    (
        TwoFingerState {
            phase: TwoFingerPhase::PhysicalSecondaryClickHeld,
            scroll_open: two.scroll_open && !closes,
            tap_disqualified: true,
        },
        events,
        notes,
    )
}

/// Cancels an active tap / drag / drag-lock policy fail-open, as a real
/// button press or a stream discontinuity does: the synthetic press ends
/// (the wire sees a release unless the physical button holds it), timing
/// is cleared, and the phase becomes cancelled. Idle, cancelled and
/// finished policies are left as they are.
pub open spec fn spec_cancel_tap_policy(tap: TapState, buttons: ButtonSources) -> (
    TapState,
    ButtonSources,
    Seq<OutputEvent>,
) {
    match tap.phase {
        TapDragPhase::Idle | TapDragPhase::Cancelled | TapDragPhase::Finished => (
            tap,
            buttons,
            Seq::empty(),
        ),
        _ => (
            TapState {
                phase: TapDragPhase::Cancelled,
                completed_at: None,
                drag_committed: false,
                candidate_began: None,
            },
            ButtonSources { synthetic_left: false, ..buttons },
            synthetic_left_events(buttons, false),
        ),
    }
}

/// Applies [`spec_cancel_tap_policy`].
pub fn cancel_tap_policy(tap: TapState, buttons: ButtonSources) -> (r: (
    TapState,
    ButtonSources,
    Vec<OutputEvent>,
))
    ensures
        ({
            let spec = spec_cancel_tap_policy(tap, buttons);
            &&& r.0 == spec.0
            &&& r.1 == spec.1
            &&& r.2@ == spec.2
        }),
        buttons.wf() ==> r.1.wf(),
        replays(buttons.wire_left(), buttons.wire_right(), r.2@, r.1.wire_left(), r.1.wire_right()),
{
    match tap.phase {
        TapDragPhase::Idle | TapDragPhase::Cancelled | TapDragPhase::Finished => {
            proof {
                reveal_with_fuel(replays, 1);
            }
            (tap, buttons, Vec::new())
        },
        _ => {
            let (released, events) = release_synthetic_left(buttons);
            (
                TapState {
                    phase: TapDragPhase::Cancelled,
                    completed_at: None,
                    drag_committed: false,
                    candidate_began: None,
                },
                released,
                events,
            )
        },
    }
}

} // verus!
