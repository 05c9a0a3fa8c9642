//! The one-finger contact policy of the interaction arbiter, as a step from
//! the interaction state and what a frame's contacts show to the next state
//! and the output owed: begin a candidate (and the tap family), commit the
//! pointer once the motion threshold is crossed, cancel on a second contact
//! or on missing coordinates, resolve the release, finish.
//!
//! What the contacts show is handed in as plain values ([`ContactMotion`]):
//! distances against the motion threshold and the tap limits are floating
//! point, and the continuous gesture and three-finger drag recognizers that
//! may own a frame first are computed by the caller.

use crate::arbiter::{Lifecycle, LifecycleTransition, TapConfig, TapDragPhase};
use crate::contact::{finding_of, Finding};
use crate::diagnostic::{Diagnostic, DiagnosticCode, DiagnosticLevel};
use crate::interaction::{
    cancel_tap_policy, end_two_finger, id_note, no_reports, note, press_synthetic_left,
    release_synthetic_left, replays, reports, resolve_release, spec_cancel_tap_policy,
    spec_end_two_finger, spec_resolve_release, synthetic_left_events, ButtonSources,
    TapState, TwoEnd, TwoFingerState, drag_locked_text,
};
use crate::output::{MouseButton, OutputEvent};
use crate::text::{decimal, decimal_text, join};
use crate::time::Monotonic;
use vstd::prelude::*;

verus! {

/// The plain-valued state the arbiter carries between frames: the
/// one-finger interaction (its lifecycle and contact), whether that contact
/// began across a stream discontinuity, the tap family, the button sources,
/// and the two-finger interaction with the tracking ids of its pair
/// (ascending).
#[derive(Clone, Copy, Debug, PartialEq, Eq, Structural)]
pub struct InteractionState {
    pub lifecycle: Lifecycle,
    pub tracking_id: Option<i32>,
    pub tap_disqualified: bool,
    pub tap: TapState,
    pub buttons: ButtonSources,
    pub two: TwoFingerState,
    pub two_pair: Option<TrackingPair>,
}

/// Two tracking ids.
#[derive(Clone, Copy, Debug, PartialEq, Eq, Structural)]
pub struct TrackingPair {
    pub first: i32,
    pub second: i32,
}

impl InteractionState {
    /// The state before any frame: idle, nothing held.
    pub fn fresh() -> (r: InteractionState)
        ensures
            r.lifecycle == Lifecycle::Idle,
            r.tracking_id is None,
            !r.tap_disqualified,
            r.tap == (TapState {
                phase: TapDragPhase::Idle,
                completed_at: None,
                drag_committed: false,
                candidate_began: None,
            }),
            !r.buttons.wire_left() && !r.buttons.wire_right(),
            r.two == (TwoFingerState {
                phase: crate::arbiter::TwoFingerPhase::Idle,
                scroll_open: false,
                tap_disqualified: false,
            }),
            r.two_pair is None,
            r.inv(),
    {
        InteractionState {
            lifecycle: Lifecycle::Idle,
            tracking_id: None,
            tap_disqualified: false,
            tap: TapState {
                phase: TapDragPhase::Idle,
                completed_at: None,
                drag_committed: false,
                candidate_began: None,
            },
            buttons: ButtonSources::released(),
            two: TwoFingerState {
                phase: crate::arbiter::TwoFingerPhase::Idle,
                scroll_open: false,
                tap_disqualified: false,
            },
            two_pair: None,
        }
    }

    /// Whether a one-finger interaction (candidate or committed) is active.
    pub open spec fn active(self) -> bool {
        self.lifecycle == Lifecycle::Candidate || self.lifecycle == Lifecycle::Committed
    }

    /// The state's invariant: an interaction is active exactly when it has
    /// a contact, and the button sources are consistent.
    pub open spec fn inv(self) -> bool {
        &&& self.active() == (self.tracking_id is Some)
        &&& self.buttons.wf()
    }
}

/// The first live contact of a frame: its tracking id, its slot, whether it
/// began in this frame, and whether it carries both coordinates.
#[derive(Clone, Copy, Debug, PartialEq, Eq, Structural)]
pub struct LiveContact {
    pub tracking_id: i32,
    pub slot: u32,
    pub began: bool,
    pub complete: bool,
}

/// What a three-finger drag that owns the frame does to its synthetic left
/// press.
#[derive(Clone, Copy, Debug, PartialEq, Eq, Structural)]
pub enum DragButton {
    Keep,
    Press,
    Release,
}

/// Who reads a frame's contacts.
#[derive(Clone, Copy, Debug, PartialEq, Eq, Structural)]
pub enum ContactOwner {
    /// The one-finger pointer policy.
    Pointer,
    /// The pointer policy, after a three-finger drag interrupted by a
    /// button or a discontinuity was reset and its synthetic press released.
    PointerAfterDragReset,
    /// A committed continuous gesture owns the frame.
    Gesture,
    /// A three-finger drag owns the frame: `button` is what it does to its
    /// synthetic left press, `moves` whether it emits pointer motion.
    ThreeFingerDrag { button: DragButton, moves: bool },
}

/// What a frame's contacts show the one-finger policy. `first` is the first
/// live contact (read only when there is one); `ended` tells whether the
/// interaction's contact has an `Ended` record in the frame and, if so,
/// whether it carries both coordinates; `crossed` whether the interaction's
/// contact (the live one, or the ended one) lies at least the motion
/// threshold from its anchor; `tap_within_limits` whether the tap candidate
/// stayed within the tap duration and movement at its release.
#[derive(Clone, Copy, Debug, PartialEq, Eq, Structural)]
pub struct ContactMotion {
    pub first: LiveContact,
    pub ended: Option<bool>,
    pub crossed: bool,
    pub tap_within_limits: bool,
    pub discontinuity: bool,
    pub owner: ContactOwner,
}

/// The pointer motion a step owes, which the caller computes and emits
/// between the frame's presses and its releases.
#[derive(Clone, Copy, Debug, PartialEq, Eq, Structural)]
pub enum PointerMotion {
    /// No pointer motion.
    Still,
    /// The candidate commits: its accumulated displacement from the anchor.
    Commit,
    /// The committed interaction follows its contact (or its ended record).
    Follow,
    /// A three-finger drag's displacement.
    Drag,
}

/// A step's result: the state it leaves, the wire events, the lifecycle
/// transitions and the findings, in order.
pub type Step = (InteractionState, Seq<OutputEvent>, Seq<LifecycleTransition>, Seq<Finding>);

/// Nothing happens.
pub open spec fn still(st: InteractionState) -> Step {
    (st, Seq::empty(), Seq::empty(), Seq::empty())
}

/// `a`, then `b` from where `a` left.
pub open spec fn join_steps(a: Step, b: Step) -> Step {
    (b.0, a.1 + b.1, a.2 + b.2, a.3 + b.3)
}

/// The lifecycle a transition enters.
pub open spec fn target(t: LifecycleTransition) -> Lifecycle {
    match t {
        LifecycleTransition::Begin { .. } => Lifecycle::Candidate,
        LifecycleTransition::Commit { .. } => Lifecycle::Committed,
        LifecycleTransition::Cancel { .. } => Lifecycle::Cancelled,
        LifecycleTransition::Finish { .. } => Lifecycle::Finished,
    }
}

/// Whether `transitions`, taken in order from `from`, are each allowed by
/// the lifecycle table and end in `to`.
pub open spec fn chains(from: Lifecycle, transitions: Seq<LifecycleTransition>, to: Lifecycle) -> bool
    decreases transitions.len(),
{
    if transitions.len() == 0 {
        from == to
    } else {
        &&& crate::arbiter::spec_legal_transition(from, target(transitions[0]))
        &&& chains(target(transitions[0]), transitions.drop_first(), to)
    }
}

/// Lifecycle chains compose.
pub proof fn lemma_chains_append(
    a: Lifecycle,
    x: Seq<LifecycleTransition>,
    b: Lifecycle,
    y: Seq<LifecycleTransition>,
    c: Lifecycle,
)
    requires
        chains(a, x, b),
        chains(b, y, c),
    ensures
        chains(a, x + y, c),
    decreases x.len(),
{
    if x.len() > 0 {
        lemma_chains_append(target(x[0]), x.drop_first(), b, y, c);
        assert((x + y).drop_first() =~= x.drop_first() + y);
    } else {
        assert(x + y =~= y);
    }
}

/// Wire replays compose.
pub proof fn lemma_replays_append(
    l0: bool,
    r0: bool,
    x: Seq<OutputEvent>,
    l1: bool,
    r1: bool,
    y: Seq<OutputEvent>,
    l2: bool,
    r2: bool,
)
    requires
        replays(l0, r0, x, l1, r1),
        replays(l1, r1, y, l2, r2),
    ensures
        replays(l0, r0, x + y, l2, r2),
    decreases x.len(),
{
    if x.len() > 0 {
        assert((x + y).drop_first() =~= x.drop_first() + y);
        assert((x + y)[0] == x[0]);
        match x[0] {
            OutputEvent::ButtonDown(MouseButton::Left) => lemma_replays_append(
                true,
                r0,
                x.drop_first(),
                l1,
                r1,
                y,
                l2,
                r2,
            ),
            OutputEvent::ButtonUp(MouseButton::Left) => lemma_replays_append(
                false,
                r0,
                x.drop_first(),
                l1,
                r1,
                y,
                l2,
                r2,
            ),
            OutputEvent::ButtonDown(MouseButton::Right) => lemma_replays_append(
                l0,
                true,
                x.drop_first(),
                l1,
                r1,
                y,
                l2,
                r2,
            ),
            OutputEvent::ButtonUp(MouseButton::Right) => lemma_replays_append(
                l0,
                false,
                x.drop_first(),
                l1,
                r1,
                y,
                l2,
                r2,
            ),
            _ => lemma_replays_append(l0, r0, x.drop_first(), l1, r1, y, l2, r2),
        }
    } else {
        assert(x + y =~= y);
    }
}

/// Reports compose.
pub proof fn lemma_reports_append(
    a: Seq<Diagnostic>,
    fa: Seq<Finding>,
    b: Seq<Diagnostic>,
    fb: Seq<Finding>,
    sequence: u64,
)
    requires
        reports(a, fa, sequence),
        reports(b, fb, sequence),
    ensures
        reports(a + b, fa + fb, sequence),
{
    assert((a + b).map_values(|d: Diagnostic| finding_of(d)) =~= a.map_values(
        |d: Diagnostic| finding_of(d),
    ) + b.map_values(|d: Diagnostic| finding_of(d)));
    assert forall|i: int| 0 <= i < (a + b).len() implies (#[trigger] (a + b)[i]).frame_sequence
        == Some(sequence) by {
        if i < a.len() {
            assert((a + b)[i] == a[i]);
        } else {
            assert((a + b)[i] == b[i - a.len()]);
        }
    }
}

/// Whether a step keeps its promises from `start`: its events replay on the
/// wire from the buttons of `start` to those it leaves, and its transitions
/// chain from the lifecycle of `start` to the one it leaves, it keeps the
/// state's invariant, and it leaves the physical sources and the latch as
/// they were.
pub open spec fn keeps(start: InteractionState, s: Step) -> bool {
    &&& replays(
        start.buttons.wire_left(),
        start.buttons.wire_right(),
        s.1,
        s.0.buttons.wire_left(),
        s.0.buttons.wire_right(),
    )
    &&& chains(start.lifecycle, s.2, s.0.lifecycle)
    &&& start.inv() ==> s.0.inv()
    &&& same_physical(start.buttons, s.0.buttons)
}

/// Whether two button states agree on the physical sources and the latch.
pub open spec fn same_physical(a: ButtonSources, b: ButtonSources) -> bool {
    &&& a.physical_left == b.physical_left
    &&& a.physical_left_raw == b.physical_left_raw
    &&& a.physical_right == b.physical_right
    &&& a.physical_right_raw == b.physical_right_raw
    &&& a.latched_right == b.latched_right
}

/// A step's executable result.
#[derive(Clone, Debug, PartialEq)]
pub struct StepOut {
    pub state: InteractionState,
    pub events: Vec<OutputEvent>,
    pub transitions: Vec<LifecycleTransition>,
    pub diagnostics: Vec<Diagnostic>,
}

/// Whether an executable result is the stated step, its diagnostics tied
/// to `sequence`.
pub open spec fn realizes(o: StepOut, s: Step, sequence: u64) -> bool {
    &&& o.state == s.0
    &&& o.events@ == s.1
    &&& o.transitions@ == s.2
    &&& reports(o.diagnostics@, s.3, sequence)
}

pub(crate) fn nothing(st: InteractionState, sequence: u64) -> (r: StepOut)
    ensures
        realizes(r, still(st), sequence),
        keeps(st, still(st)),
{
    let empty = no_reports();
    proof {
        assert(reports(empty@, Seq::empty(), sequence));
        reveal_with_fuel(replays, 1);
        reveal_with_fuel(chains, 1);
    }
    StepOut { state: st, events: Vec::new(), transitions: Vec::new(), diagnostics: empty }
}

pub(crate) fn combine(
    a: StepOut,
    b: StepOut,
    Ghost(start): Ghost<InteractionState>,
    Ghost(sa): Ghost<Step>,
    Ghost(sb): Ghost<Step>,
    sequence: u64,
) -> (r: StepOut)
    requires
        realizes(a, sa, sequence),
        realizes(b, sb, sequence),
        keeps(start, sa),
        keeps(sa.0, sb),
    ensures
        realizes(r, join_steps(sa, sb), sequence),
        keeps(start, join_steps(sa, sb)),
{
    let ghost ad = a.diagnostics@;
    let ghost bd = b.diagnostics@;
    let StepOut { state: _, events: mut events, transitions: mut transitions, diagnostics: mut diagnostics } = a;
    let StepOut { state, events: mut more_events, transitions: mut more_transitions, diagnostics: mut more_diagnostics } = b;
    events.append(&mut more_events);
    transitions.append(&mut more_transitions);
    diagnostics.append(&mut more_diagnostics);
    proof {
        lemma_reports_append(ad, sa.3, bd, sb.3, sequence);
        lemma_replays_append(
            start.buttons.wire_left(),
            start.buttons.wire_right(),
            sa.1,
            sa.0.buttons.wire_left(),
            sa.0.buttons.wire_right(),
            sb.1,
            sb.0.buttons.wire_left(),
            sb.0.buttons.wire_right(),
        );
        lemma_chains_append(start.lifecycle, sa.2, sa.0.lifecycle, sb.2, sb.0.lifecycle);
        assert(diagnostics@ =~= ad + bd);
    }
    StepOut { state, events, transitions, diagnostics }
}


/// Message of a begun candidate.
pub open spec fn begun_text(tracking_id: i32) -> Seq<char> {
    "one-finger pointer candidate began (tracking id "@ + decimal_text(tracking_id as int) + ")"@
}

/// Message of a committed pointer.
pub open spec fn committed_text(tracking_id: i32) -> Seq<char> {
    "one-finger pointer committed (tracking id "@ + decimal_text(tracking_id as int) + ")"@
}

/// Message of a finished interaction.
pub open spec fn finished_text(tracking_id: i32) -> Seq<char> {
    "one-finger interaction finished (tracking id "@ + decimal_text(tracking_id as int) + ")"@
}

/// Message of a cancelled interaction.
pub open spec fn cancelled_text(reason: &'static str) -> Seq<char> {
    "one-finger interaction cancelled: "@ + reason@
}

/// Message of a new contact without both coordinates.
pub open spec fn incomplete_text(tracking_id: i32, slot: u32) -> Seq<char> {
    "cannot begin a candidate for contact "@ + decimal_text(tracking_id as int) + " on slot "@
        + decimal_text(slot as int) + ": missing required coordinates"@
}

/// Message of a tap-and-drag whose follow-up contact committed motion.
pub open spec fn drag_began_text(tracking_id: i32) -> Seq<char> {
    "tap-and-drag began: synthetic left press for tracking id "@ + decimal_text(tracking_id as int)
}

/// The active interaction is cancelled (with a finding when a reason is
/// given); nothing happens when none is active.
pub open spec fn spec_cancel_pointer(st: InteractionState, reason: Option<&'static str>) -> Step {
    match st.tracking_id {
        Some(ours) if st.active() => (
            InteractionState {
                lifecycle: Lifecycle::Cancelled,
                tracking_id: None,
                tap_disqualified: false,
                ..st
            },
            Seq::empty(),
            seq![LifecycleTransition::Cancel { tracking_id: ours }],
            match reason {
                Some(why) => seq![
                    (DiagnosticLevel::Warning, DiagnosticCode::InteractionCancelled, cancelled_text(why)),
                ],
                None => Seq::empty(),
            },
        ),
        _ => still(st),
    }
}

pub(crate) fn cancel_pointer(st: InteractionState, reason: Option<&'static str>, sequence: u64) -> (r: StepOut)
    ensures
        realizes(r, spec_cancel_pointer(st, reason), sequence),
        keeps(st, spec_cancel_pointer(st, reason)),
{
    match st.tracking_id {
        Some(ours) => {
            if st.lifecycle == Lifecycle::Candidate || st.lifecycle == Lifecycle::Committed {
                let mut transitions: Vec<LifecycleTransition> = Vec::new();
                transitions.push(LifecycleTransition::Cancel { tracking_id: ours });
                let diagnostics = match reason {
                    Some(why) => {
                        let text = join("one-finger interaction cancelled: ", why);
                        note(
                            DiagnosticLevel::Warning,
                            DiagnosticCode::InteractionCancelled,
                            text.as_str(),
                            sequence,
                        )
                    },
                    None => {
                        let empty = no_reports();
                        proof {
                            assert(reports(empty@, Seq::empty(), sequence));
                        }
                        empty
                    },
                };
                proof {
                    reveal_with_fuel(replays, 1);
                    reveal_with_fuel(chains, 2);
                }
                return StepOut {
                    state: InteractionState {
                        lifecycle: Lifecycle::Cancelled,
                        tracking_id: None,
                        tap_disqualified: false,
                        ..st
                    },
                    events: Vec::new(),
                    transitions,
                    diagnostics,
                };
            }
            nothing(st, sequence)
        },
        None => nothing(st, sequence),
    }
}

/// The interaction finishes: its contact ended.
pub open spec fn spec_finish_pointer(st: InteractionState, ours: i32) -> Step {
    (
        InteractionState {
            lifecycle: Lifecycle::Finished,
            tracking_id: None,
            tap_disqualified: false,
            ..st
        },
        Seq::empty(),
        seq![LifecycleTransition::Finish { tracking_id: ours }],
        seq![(DiagnosticLevel::Info, DiagnosticCode::InteractionFinished, finished_text(ours))],
    )
}

fn finish_pointer(st: InteractionState, ours: i32, sequence: u64) -> (r: StepOut)
    requires
        st.active(),
    ensures
        realizes(r, spec_finish_pointer(st, ours), sequence),
        keeps(st, spec_finish_pointer(st, ours)),
{
    let mut transitions: Vec<LifecycleTransition> = Vec::new();
    transitions.push(LifecycleTransition::Finish { tracking_id: ours });
    let diagnostics = id_note(
        DiagnosticCode::InteractionFinished,
        "one-finger interaction finished (tracking id ",
        ours,
        sequence,
    );
    proof {
        reveal_with_fuel(replays, 1);
        reveal_with_fuel(chains, 2);
    }
    StepOut {
        state: InteractionState {
            lifecycle: Lifecycle::Finished,
            tracking_id: None,
            tap_disqualified: false,
            ..st
        },
        events: Vec::new(),
        transitions,
        diagnostics,
    }
}

/// The tap family's reading of a new one-finger contact: a contact that is
/// disqualified begins none; an open follow-up window becomes a tap-and-drag
/// candidate (or closes without a press when tap-and-drag is off); a lock
/// held without a contact continues with this one; otherwise a first-tap
/// candidate begins when tapping is on and no physical left press is held.
pub open spec fn spec_begin_tap_family(
    tap: TapState,
    disqualified: bool,
    physical_left: bool,
    cfg: Option<TapConfig>,
    now: Monotonic,
) -> TapState {
    if disqualified {
        TapState {
            phase: TapDragPhase::Idle,
            completed_at: None,
            drag_committed: false,
            candidate_began: None,
        }
    } else {
        match tap.phase {
            TapDragPhase::FollowUpWindow => if cfg matches Some(c) && c@.tap_and_drag_enabled {
                TapState {
                    phase: TapDragPhase::TapDragCandidate,
                    completed_at: None,
                    drag_committed: false,
                    candidate_began: Some(now),
                }
            } else {
                TapState {
                    phase: TapDragPhase::Idle,
                    completed_at: None,
                    candidate_began: None,
                    ..tap
                }
            },
            TapDragPhase::LockedWithoutContact => TapState {
                phase: TapDragPhase::LockedContact,
                drag_committed: false,
                candidate_began: Some(now),
                ..tap
            },
            _ => if (cfg matches Some(c) && c@.tap_enabled) && !physical_left {
                TapState {
                    phase: TapDragPhase::FirstTapCandidate,
                    completed_at: None,
                    candidate_began: Some(now),
                    ..tap
                }
            } else {
                TapState { phase: TapDragPhase::Idle, candidate_began: None, ..tap }
            },
        }
    }
}

fn begin_tap_family(
    tap: TapState,
    disqualified: bool,
    physical_left: bool,
    cfg: Option<&TapConfig>,
    now: Monotonic,
) -> (r: TapState)
    ensures
        r == spec_begin_tap_family(
            tap,
            disqualified,
            physical_left,
            match cfg {
                Some(c) => Some(*c),
                None => None,
            },
            now,
        ),
{
    if disqualified {
        return TapState {
            phase: TapDragPhase::Idle,
            completed_at: None,
            drag_committed: false,
            candidate_began: None,
        };
    }
    let tap_enabled = match cfg {
        Some(c) => c.tap_enabled(),
        None => false,
    };
    let drag_enabled = match cfg {
        Some(c) => c.tap_and_drag_enabled(),
        None => false,
    };
    match tap.phase {
        TapDragPhase::FollowUpWindow => if drag_enabled {
            TapState {
                phase: TapDragPhase::TapDragCandidate,
                completed_at: None,
                drag_committed: false,
                candidate_began: Some(now),
            }
        } else {
            TapState { phase: TapDragPhase::Idle, completed_at: None, candidate_began: None, ..tap }
        },
        TapDragPhase::LockedWithoutContact => TapState {
            phase: TapDragPhase::LockedContact,
            drag_committed: false,
            candidate_began: Some(now),
            ..tap
        },
        _ => if tap_enabled && !physical_left {
            TapState {
                phase: TapDragPhase::FirstTapCandidate,
                completed_at: None,
                candidate_began: Some(now),
                ..tap
            }
        } else {
            TapState { phase: TapDragPhase::Idle, candidate_began: None, ..tap }
        },
    }
}

/// A candidate begins for a new complete contact, after the tap family has
/// read it; a contact beginning across a discontinuity is disqualified from
/// the tap family.
pub open spec fn spec_begin_pointer(
    st: InteractionState,
    c: LiveContact,
    discontinuity: bool,
    cfg: Option<TapConfig>,
    now: Monotonic,
) -> Step {
    let disqualified = st.tap_disqualified || discontinuity;
    (
        InteractionState {
            lifecycle: Lifecycle::Candidate,
            tracking_id: Some(c.tracking_id),
            tap_disqualified: disqualified,
            tap: spec_begin_tap_family(st.tap, disqualified, st.buttons.physical_left, cfg, now),
            ..st
        },
        Seq::empty(),
        seq![LifecycleTransition::Begin { tracking_id: c.tracking_id }],
        seq![(DiagnosticLevel::Info, DiagnosticCode::InteractionBegun, begun_text(c.tracking_id))],
    )
}

fn begin_pointer(
    st: InteractionState,
    c: LiveContact,
    discontinuity: bool,
    cfg: Option<&TapConfig>,
    now: Monotonic,
    sequence: u64,
) -> (r: StepOut)
    requires
        !st.active(),
    ensures
        realizes(
            r,
            spec_begin_pointer(
                st,
                c,
                discontinuity,
                match cfg {
                    Some(c) => Some(*c),
                    None => None,
                },
                now,
            ),
            sequence,
        ),
        keeps(
            st,
            spec_begin_pointer(
                st,
                c,
                discontinuity,
                match cfg {
                    Some(c) => Some(*c),
                    None => None,
                },
                now,
            ),
        ),
{
    let disqualified = st.tap_disqualified || discontinuity;
    let tap = begin_tap_family(st.tap, disqualified, st.buttons.physical_left, cfg, now);
    let mut transitions: Vec<LifecycleTransition> = Vec::new();
    transitions.push(LifecycleTransition::Begin { tracking_id: c.tracking_id });
    let diagnostics = id_note(
        DiagnosticCode::InteractionBegun,
        "one-finger pointer candidate began (tracking id ",
        c.tracking_id,
        sequence,
    );
    proof {
        reveal_with_fuel(replays, 1);
        reveal_with_fuel(chains, 2);
    }
    StepOut {
        state: InteractionState {
            lifecycle: Lifecycle::Candidate,
            tracking_id: Some(c.tracking_id),
            tap_disqualified: disqualified,
            tap,
            ..st
        },
        events: Vec::new(),
        transitions,
        diagnostics,
    }
}

/// The tap family on pointer commitment: a tap-and-drag candidate becomes a
/// committed drag; a first-tap candidate is no tap any more; a drag or
/// locked continuation contact marks its drag as committed.
pub open spec fn spec_commit_tap(tap: TapState) -> TapState {
    match tap.phase {
        TapDragPhase::TapDragCandidate => TapState {
            phase: TapDragPhase::TapDragContact,
            completed_at: None,
            drag_committed: true,
            candidate_began: None,
        },
        TapDragPhase::FirstTapCandidate => TapState {
            phase: TapDragPhase::Idle,
            completed_at: None,
            candidate_began: None,
            ..tap
        },
        TapDragPhase::TapDragContact | TapDragPhase::LockedContact => TapState {
            drag_committed: true,
            ..tap
        },
        _ => tap,
    }
}

/// The candidate commits: the tap family learns of it (a tap-and-drag
/// follow-up becomes a drag, with a finding), then the interaction enters
/// `Committed`.
pub open spec fn spec_commit_pointer(st: InteractionState, ours: i32) -> Step {
    let drag_began = st.tap.phase == TapDragPhase::TapDragCandidate;
    (
        InteractionState {
            lifecycle: Lifecycle::Committed,
            tap: spec_commit_tap(st.tap),
            ..st
        },
        Seq::empty(),
        seq![LifecycleTransition::Commit { tracking_id: ours }],
        if drag_began {
            seq![
                (DiagnosticLevel::Info, DiagnosticCode::TapAndDragBegan, drag_began_text(ours)),
                (DiagnosticLevel::Info, DiagnosticCode::InteractionCommitted, committed_text(ours)),
            ]
        } else {
            seq![(DiagnosticLevel::Info, DiagnosticCode::InteractionCommitted, committed_text(ours))]
        },
    )
}

fn commit_pointer(st: InteractionState, ours: i32, sequence: u64) -> (r: StepOut)
    requires
        st.lifecycle == Lifecycle::Candidate,
    ensures
        realizes(r, spec_commit_pointer(st, ours), sequence),
        keeps(st, spec_commit_pointer(st, ours)),
{
    let drag_began = st.tap.phase == TapDragPhase::TapDragCandidate;
    let tap = match st.tap.phase {
        TapDragPhase::TapDragCandidate => TapState {
            phase: TapDragPhase::TapDragContact,
            completed_at: None,
            drag_committed: true,
            candidate_began: None,
        },
        TapDragPhase::FirstTapCandidate => TapState {
            phase: TapDragPhase::Idle,
            completed_at: None,
            candidate_began: None,
            ..st.tap
        },
        TapDragPhase::TapDragContact | TapDragPhase::LockedContact => TapState {
            drag_committed: true,
            ..st.tap
        },
        _ => st.tap,
    };
    let mut diagnostics: Vec<Diagnostic> = Vec::new();
    if drag_began {
        let id_text = decimal(ours as i128);
        let text = join("tap-and-drag began: synthetic left press for tracking id ", id_text.as_str());
        diagnostics = note(
            DiagnosticLevel::Info,
            DiagnosticCode::TapAndDragBegan,
            text.as_str(),
            sequence,
        );
    }
    let ghost before = diagnostics@;
    let mut committed = id_note(
        DiagnosticCode::InteractionCommitted,
        "one-finger pointer committed (tracking id ",
        ours,
        sequence,
    );
    let ghost added = committed@;
    diagnostics.append(&mut committed);
    let mut transitions: Vec<LifecycleTransition> = Vec::new();
    transitions.push(LifecycleTransition::Commit { tracking_id: ours });
    proof {
        if drag_began {
            lemma_reports_append(
                before,
                seq![(DiagnosticLevel::Info, DiagnosticCode::TapAndDragBegan, drag_began_text(ours))],
                added,
                seq![(DiagnosticLevel::Info, DiagnosticCode::InteractionCommitted, committed_text(ours))],
                sequence,
            );
        } else {
            assert(before.len() == 0);
            assert(before.map_values(|d: Diagnostic| finding_of(d)) =~= Seq::<Finding>::empty());
            lemma_reports_append(
                before,
                Seq::empty(),
                added,
                seq![(DiagnosticLevel::Info, DiagnosticCode::InteractionCommitted, committed_text(ours))],
                sequence,
            );
        }
        assert(diagnostics@ =~= before + added);
        let began_f = (DiagnosticLevel::Info, DiagnosticCode::TapAndDragBegan, drag_began_text(ours));
        let committed_f = (
            DiagnosticLevel::Info,
            DiagnosticCode::InteractionCommitted,
            committed_text(ours),
        );
        assert(seq![began_f] + seq![committed_f] =~= seq![began_f, committed_f]);
        assert(Seq::<Finding>::empty() + seq![committed_f] =~= seq![committed_f]);
        reveal_with_fuel(replays, 1);
        reveal_with_fuel(chains, 2);
    }
    StepOut {
        state: InteractionState { lifecycle: Lifecycle::Committed, tap, ..st },
        events: Vec::new(),
        transitions,
        diagnostics,
    }
}

/// The tap family gives up a pending policy (see
/// [`crate::interaction::cancel_tap_policy`]).
pub open spec fn spec_tap_cancel(st: InteractionState) -> Step {
    let r = spec_cancel_tap_policy(st.tap, st.buttons);
    (InteractionState { tap: r.0, buttons: r.1, ..st }, r.2, Seq::empty(), Seq::empty())
}

pub(crate) fn tap_cancel(st: InteractionState, sequence: u64) -> (r: StepOut)
    ensures
        realizes(r, spec_tap_cancel(st), sequence),
        keeps(st, spec_tap_cancel(st)),
{
    let (tap, buttons, events) = cancel_tap_policy(st.tap, st.buttons);
    let empty = no_reports();
    proof {
        assert(reports(empty@, Seq::empty(), sequence));
        reveal_with_fuel(chains, 1);
    }
    StepOut {
        state: InteractionState { tap, buttons, ..st },
        events,
        transitions: Vec::new(),
        diagnostics: empty,
    }
}

/// The two-finger interaction is cancelled for `reason` (see
/// [`crate::interaction::end_two_finger`]) and forgets its pair.
pub open spec fn spec_two_cancel(st: InteractionState, reason: &'static str) -> Step {
    let r = spec_end_two_finger(st.two, st.buttons, TwoEnd::Cancel(reason), false);
    (InteractionState { two: r.0, buttons: r.1, two_pair: None, ..st }, r.2, Seq::empty(), r.3)
}

fn two_cancel(st: InteractionState, reason: &'static str, sequence: u64) -> (r: StepOut)
    ensures
        realizes(r, spec_two_cancel(st, reason), sequence),
        keeps(st, spec_two_cancel(st, reason)),
{
    let (two, buttons, events, diagnostics) = end_two_finger(
        st.two,
        st.buttons,
        TwoEnd::Cancel(reason),
        false,
        sequence,
    );
    proof {
        reveal_with_fuel(chains, 1);
    }
    StepOut {
        state: InteractionState { two, buttons, two_pair: None, ..st },
        events,
        transitions: Vec::new(),
        diagnostics,
    }
}

/// The synthetic left press is released.
pub open spec fn spec_release_left(st: InteractionState) -> Step {
    (
        InteractionState { buttons: ButtonSources { synthetic_left: false, ..st.buttons }, ..st },
        synthetic_left_events(st.buttons, false),
        Seq::empty(),
        Seq::empty(),
    )
}

/// The synthetic left press is pressed.
pub open spec fn spec_press_left(st: InteractionState) -> Step {
    (
        InteractionState { buttons: ButtonSources { synthetic_left: true, ..st.buttons }, ..st },
        synthetic_left_events(st.buttons, true),
        Seq::empty(),
        Seq::empty(),
    )
}

pub(crate) fn release_left(st: InteractionState, sequence: u64) -> (r: StepOut)
    ensures
        realizes(r, spec_release_left(st), sequence),
        keeps(st, spec_release_left(st)),
{
    let (buttons, events) = release_synthetic_left(st.buttons);
    let empty = no_reports();
    proof {
        assert(reports(empty@, Seq::empty(), sequence));
        reveal_with_fuel(chains, 1);
    }
    StepOut { state: InteractionState { buttons, ..st }, events, transitions: Vec::new(), diagnostics: empty }
}

pub(crate) fn press_left(st: InteractionState, sequence: u64) -> (r: StepOut)
    ensures
        realizes(r, spec_press_left(st), sequence),
        keeps(st, spec_press_left(st)),
{
    let (buttons, events) = press_synthetic_left(st.buttons);
    let empty = no_reports();
    proof {
        assert(reports(empty@, Seq::empty(), sequence));
        reveal_with_fuel(chains, 1);
    }
    StepOut { state: InteractionState { buttons, ..st }, events, transitions: Vec::new(), diagnostics: empty }
}


/// The tap family when the interaction's contact is replaced by a new
/// tracking id: a replacement is never a clean tap, so a first-tap candidate
/// finishes without a click and a tap-and-drag follow-up releases its press;
/// a committed drag engages the sticky lock when it is on (else it ends);
/// a locked continuation keeps the lock held.
pub open spec fn spec_replace_old(st: InteractionState, ours: i32, cfg: Option<TapConfig>) -> Step {
    let lock_enabled = cfg matches Some(c) && c@.drag_lock_enabled;
    let done = TapState {
        phase: TapDragPhase::Finished,
        completed_at: None,
        drag_committed: false,
        candidate_began: None,
    };
    match st.tap.phase {
        TapDragPhase::FirstTapCandidate => still(
            InteractionState {
                tap: TapState {
                    phase: TapDragPhase::Finished,
                    completed_at: None,
                    candidate_began: None,
                    ..st.tap
                },
                ..st
            },
        ),
        TapDragPhase::TapDragCandidate => {
            let r = spec_release_left(st);
            (InteractionState { tap: done, ..r.0 }, r.1, r.2, r.3)
        },
        TapDragPhase::TapDragContact => if st.tap.drag_committed && lock_enabled {
            (
                InteractionState {
                    tap: TapState { phase: TapDragPhase::LockedWithoutContact, ..done },
                    ..st
                },
                Seq::empty(),
                Seq::empty(),
                seq![(DiagnosticLevel::Info, DiagnosticCode::DragLocked, drag_locked_text(ours))],
            )
        } else {
            let r = spec_release_left(st);
            (InteractionState { tap: done, ..r.0 }, r.1, r.2, r.3)
        },
        TapDragPhase::LockedContact => still(
            InteractionState {
                tap: TapState {
                    phase: TapDragPhase::LockedWithoutContact,
                    drag_committed: false,
                    candidate_began: None,
                    ..st.tap
                },
                ..st
            },
        ),
        _ => still(st),
    }
}

fn replace_old(st: InteractionState, ours: i32, cfg: Option<&TapConfig>, sequence: u64) -> (r: StepOut)
    ensures
        realizes(
            r,
            spec_replace_old(
                st,
                ours,
                match cfg {
                    Some(c) => Some(*c),
                    None => None,
                },
            ),
            sequence,
        ),
        keeps(
            st,
            spec_replace_old(
                st,
                ours,
                match cfg {
                    Some(c) => Some(*c),
                    None => None,
                },
            ),
        ),
{
    let lock_enabled = match cfg {
        Some(c) => c.drag_lock_enabled(),
        None => false,
    };
    let done = TapState {
        phase: TapDragPhase::Finished,
        completed_at: None,
        drag_committed: false,
        candidate_began: None,
    };
    match st.tap.phase {
        TapDragPhase::FirstTapCandidate => nothing(
            InteractionState {
                tap: TapState {
                    phase: TapDragPhase::Finished,
                    completed_at: None,
                    candidate_began: None,
                    ..st.tap
                },
                ..st
            },
            sequence,
        ),
        TapDragPhase::TapDragCandidate => {
            let r = release_left(st, sequence);
            StepOut { state: InteractionState { tap: done, ..r.state }, ..r }
        },
        TapDragPhase::TapDragContact => {
            if st.tap.drag_committed && lock_enabled {
                let diagnostics = id_note(
                    DiagnosticCode::DragLocked,
                    "sticky drag lock engaged (tracking id ",
                    ours,
                    sequence,
                );
                proof {
                    reveal_with_fuel(replays, 1);
                    reveal_with_fuel(chains, 1);
                }
                StepOut {
                    state: InteractionState {
                        tap: TapState { phase: TapDragPhase::LockedWithoutContact, ..done },
                        ..st
                    },
                    events: Vec::new(),
                    transitions: Vec::new(),
                    diagnostics,
                }
            } else {
                let r = release_left(st, sequence);
                StepOut { state: InteractionState { tap: done, ..r.state }, ..r }
            }
        },
        TapDragPhase::LockedContact => nothing(
            InteractionState {
                tap: TapState {
                    phase: TapDragPhase::LockedWithoutContact,
                    drag_committed: false,
                    candidate_began: None,
                    ..st.tap
                },
                ..st
            },
            sequence,
        ),
        _ => nothing(st, sequence),
    }
}

/// The tap family resolves the release of the interaction's contact (see
/// [`crate::interaction::resolve_release`]). The candidate qualifies as a
/// tap when it stayed within the tap limits, no physical left press is
/// held, and it did not begin across a discontinuity.
pub open spec fn spec_release_pointer(
    st: InteractionState,
    ours: i32,
    ended_complete: bool,
    within_limits: bool,
    cfg: Option<TapConfig>,
    now: Monotonic,
) -> Step {
    let qualifies = within_limits && !st.buttons.physical_left && !st.tap_disqualified;
    let r = spec_resolve_release(st.tap, st.buttons, ended_complete, qualifies, cfg, now, ours);
    (InteractionState { tap: r.0, buttons: r.1, ..st }, r.2, Seq::empty(), r.3)
}

fn release_pointer(
    st: InteractionState,
    ours: i32,
    ended_complete: bool,
    within_limits: bool,
    cfg: Option<&TapConfig>,
    now: Monotonic,
    sequence: u64,
) -> (r: StepOut)
    ensures
        realizes(
            r,
            spec_release_pointer(
                st,
                ours,
                ended_complete,
                within_limits,
                match cfg {
                    Some(c) => Some(*c),
                    None => None,
                },
                now,
            ),
            sequence,
        ),
        keeps(
            st,
            spec_release_pointer(
                st,
                ours,
                ended_complete,
                within_limits,
                match cfg {
                    Some(c) => Some(*c),
                    None => None,
                },
                now,
            ),
        ),
{
    let qualifies = within_limits && !st.buttons.physical_left && !st.tap_disqualified;
    let (tap, buttons, events, diagnostics) = resolve_release(
        st.tap,
        st.buttons,
        ended_complete,
        qualifies,
        cfg,
        now,
        ours,
        sequence,
    );
    proof {
        reveal_with_fuel(chains, 1);
    }
    StepOut { state: InteractionState { tap, buttons, ..st }, events, transitions: Vec::new(), diagnostics }
}


/// A second live contact cancels the interaction and gives up the tap
/// family; an interaction that had committed the pointer also disqualifies
/// the continuing cluster from a secondary tap.
pub open spec fn spec_second_contact(st: InteractionState, ours: i32) -> Step {
    let a = spec_cancel_pointer(st, Some("second live contact"));
    let b = join_steps(a, spec_tap_cancel(a.0));
    let two = TwoFingerState {
        tap_disqualified: b.0.two.tap_disqualified || st.lifecycle == Lifecycle::Committed,
        ..b.0.two
    };
    (InteractionState { two, ..b.0 }, b.1, b.2, b.3)
}

/// The one-finger pointer policy on a frame with `live` live contacts.
pub open spec fn spec_pointer_policy(
    st: InteractionState,
    live: u32,
    m: ContactMotion,
    cfg: Option<TapConfig>,
    now: Monotonic,
) -> (Step, PointerMotion) {
    let c = m.first;
    let ended_complete = m.ended == Some(true);
    if live == 0 {
        match st.tracking_id {
            Some(ours) if st.active() => {
                let commits = st.lifecycle == Lifecycle::Candidate && ended_complete && m.crossed;
                let a = if commits {
                    spec_commit_pointer(st, ours)
                } else {
                    still(st)
                };
                let b = spec_release_pointer(a.0, ours, ended_complete, m.tap_within_limits, cfg, now);
                let f = spec_finish_pointer(b.0, ours);
                (
                    join_steps(join_steps(a, b), f),
                    if commits {
                        PointerMotion::Commit
                    } else if st.lifecycle == Lifecycle::Committed && ended_complete {
                        PointerMotion::Follow
                    } else {
                        PointerMotion::Still
                    },
                )
            },
            _ => (still(st), PointerMotion::Still),
        }
    } else if live == 1 {
        if !st.active() {
            if c.began {
                if c.complete {
                    (spec_begin_pointer(st, c, m.discontinuity, cfg, now), PointerMotion::Still)
                } else {
                    (
                        (
                            st,
                            Seq::empty(),
                            Seq::empty(),
                            seq![
                                (
                                    DiagnosticLevel::Warning,
                                    DiagnosticCode::IncompleteNewContact,
                                    incomplete_text(c.tracking_id, c.slot),
                                ),
                            ],
                        ),
                        PointerMotion::Still,
                    )
                }
            } else if st.tap.phase == TapDragPhase::LockedWithoutContact && !c.complete {
                (spec_tap_cancel(st), PointerMotion::Still)
            } else {
                (still(st), PointerMotion::Still)
            }
        } else {
            match st.tracking_id {
                Some(ours) => if c.tracking_id == ours {
                    if !c.complete {
                        let a = spec_cancel_pointer(st, Some("missing required coordinates"));
                        (join_steps(a, spec_tap_cancel(a.0)), PointerMotion::Still)
                    } else if st.lifecycle == Lifecycle::Candidate {
                        if m.crossed {
                            (spec_commit_pointer(st, ours), PointerMotion::Commit)
                        } else {
                            (still(st), PointerMotion::Still)
                        }
                    } else {
                        (still(st), PointerMotion::Follow)
                    }
                } else if c.began {
                    let a = spec_replace_old(st, ours, cfg);
                    let b = join_steps(a, spec_finish_pointer(a.0, ours));
                    let d = if c.complete {
                        spec_begin_pointer(b.0, c, m.discontinuity, cfg, now)
                    } else {
                        still(b.0)
                    };
                    (
                        join_steps(b, d),
                        if st.lifecycle == Lifecycle::Committed && ended_complete {
                            PointerMotion::Follow
                        } else {
                            PointerMotion::Still
                        },
                    )
                } else {
                    let a = spec_cancel_pointer(st, Some("unexpected tracking id replacement"));
                    (join_steps(a, spec_tap_cancel(a.0)), PointerMotion::Still)
                },
                None => (still(st), PointerMotion::Still),
            }
        }
    } else if st.active() {
        match st.tracking_id {
            Some(ours) => (spec_second_contact(st, ours), PointerMotion::Still),
            None => (still(st), PointerMotion::Still),
        }
    } else {
        (spec_tap_cancel(st), PointerMotion::Still)
    }
}

/// The step of a frame's contacts: a continuous gesture or a three-finger
/// drag that owns the frame first cancels the one-finger interaction, the
/// tap family and the two-finger interaction (a drag then applies its own
/// press or release); otherwise the one-finger pointer policy reads the
/// contacts, after an interrupted three-finger drag released its press.
pub open spec fn spec_contacts_step(
    st: InteractionState,
    live: u32,
    m: ContactMotion,
    cfg: Option<TapConfig>,
    now: Monotonic,
) -> (Step, PointerMotion) {
    match m.owner {
        ContactOwner::Pointer => spec_pointer_policy(st, live, m, cfg, now),
        ContactOwner::PointerAfterDragReset => {
            let a = spec_release_left(st);
            let b = spec_pointer_policy(a.0, live, m, cfg, now);
            (join_steps(a, b.0), b.1)
        },
        ContactOwner::Gesture => {
            let a = spec_cancel_pointer(st, Some("continuous gesture ownership"));
            let b = join_steps(a, spec_tap_cancel(a.0));
            (join_steps(b, spec_two_cancel(b.0, "continuous gesture ownership")), PointerMotion::Still)
        },
        ContactOwner::ThreeFingerDrag { button, moves } => {
            let a = spec_cancel_pointer(st, None);
            let b = join_steps(a, spec_tap_cancel(a.0));
            let c = join_steps(b, spec_two_cancel(b.0, "three-finger drag ownership"));
            let d = match button {
                DragButton::Keep => still(c.0),
                DragButton::Press => spec_press_left(c.0),
                DragButton::Release => spec_release_left(c.0),
            };
            (
                join_steps(c, d),
                if moves {
                    PointerMotion::Drag
                } else {
                    PointerMotion::Still
                },
            )
        },
    }
}

fn second_contact(st: InteractionState, ours: i32, sequence: u64) -> (r: StepOut)
    requires
        st.active(),
        st.tracking_id == Some(ours),
    ensures
        realizes(r, spec_second_contact(st, ours), sequence),
        keeps(st, spec_second_contact(st, ours)),
{
    let a = cancel_pointer(st, Some("second live contact"), sequence);
    let ghost sa = spec_cancel_pointer(st, Some("second live contact"));
    let b = tap_cancel(a.state, sequence);
    let j = combine(a, b, Ghost(st), Ghost(sa), Ghost(spec_tap_cancel(sa.0)), sequence);
    let mut state = j.state;
    state.two.tap_disqualified = j.state.two.tap_disqualified || st.lifecycle == Lifecycle::Committed;
    StepOut { state, ..j }
}

fn no_live_policy(
    st: InteractionState,
    m: ContactMotion,
    cfg: Option<&TapConfig>,
    now: Monotonic,
    sequence: u64,
) -> (r: (StepOut, PointerMotion))
    ensures
        ({
            let spec = spec_pointer_policy(
                st,
                0,
                m,
                match cfg {
                    Some(c) => Some(*c),
                    None => None,
                },
                now,
            );
            &&& realizes(r.0, spec.0, sequence)
            &&& r.1 == spec.1
            &&& keeps(st, spec.0)
        }),
        st.inv() ==> r.0.state.inv(),
        r.1 == PointerMotion::Commit ==> st.lifecycle == Lifecycle::Candidate && m.crossed,
        r.1 == PointerMotion::Follow ==> st.lifecycle == Lifecycle::Committed,
        r.1 != PointerMotion::Drag,
{
    let ghost scfg = match cfg {
        Some(c) => Some(*c),
        None => None,
    };
    let ended_complete = match m.ended {
        Some(complete) => complete,
        None => false,
    };
    let active = st.lifecycle == Lifecycle::Candidate || st.lifecycle == Lifecycle::Committed;
    match st.tracking_id {
        Some(ours) => {
            if !active {
                return (nothing(st, sequence), PointerMotion::Still);
            }
            let commits = st.lifecycle == Lifecycle::Candidate && ended_complete && m.crossed;
            let a = if commits {
                commit_pointer(st, ours, sequence)
            } else {
                nothing(st, sequence)
            };
            let ghost sa = if commits {
                spec_commit_pointer(st, ours)
            } else {
                still(st)
            };
            let b = release_pointer(a.state, ours, ended_complete, m.tap_within_limits, cfg, now, sequence);
            let ghost sb = spec_release_pointer(sa.0, ours, ended_complete, m.tap_within_limits, scfg, now);
            let ab = combine(a, b, Ghost(st), Ghost(sa), Ghost(sb), sequence);
            let f = finish_pointer(ab.state, ours, sequence);
            let ghost sf = spec_finish_pointer(sb.0, ours);
            let all = combine(ab, f, Ghost(st), Ghost(join_steps(sa, sb)), Ghost(sf), sequence);
            let motion = if commits {
                PointerMotion::Commit
            } else if st.lifecycle == Lifecycle::Committed && ended_complete {
                PointerMotion::Follow
            } else {
                PointerMotion::Still
            };
            (all, motion)
        },
        None => (nothing(st, sequence), PointerMotion::Still),
    }
}

#[verifier::rlimit(40)]
fn one_live_policy(
    st: InteractionState,
    m: ContactMotion,
    cfg: Option<&TapConfig>,
    now: Monotonic,
    sequence: u64,
) -> (r: (StepOut, PointerMotion))
    ensures
        ({
            let spec = spec_pointer_policy(
                st,
                1,
                m,
                match cfg {
                    Some(c) => Some(*c),
                    None => None,
                },
                now,
            );
            &&& realizes(r.0, spec.0, sequence)
            &&& r.1 == spec.1
            &&& keeps(st, spec.0)
        }),
        st.inv() ==> r.0.state.inv(),
        r.1 == PointerMotion::Commit ==> st.lifecycle == Lifecycle::Candidate && m.crossed,
        r.1 == PointerMotion::Follow ==> st.lifecycle == Lifecycle::Committed,
        r.1 != PointerMotion::Drag,
{
    let ghost scfg = match cfg {
        Some(c) => Some(*c),
        None => None,
    };
    let c = m.first;
    let ended_complete = match m.ended {
        Some(complete) => complete,
        None => false,
    };
    let active = st.lifecycle == Lifecycle::Candidate || st.lifecycle == Lifecycle::Committed;
    if !active {
        if c.began {
            if c.complete {
                (begin_pointer(st, c, m.discontinuity, cfg, now, sequence), PointerMotion::Still)
            } else {
                let id_text = decimal(c.tracking_id as i128);
                let slot_text = decimal(c.slot as i128);
                let text = join("cannot begin a candidate for contact ", id_text.as_str());
                let text = join(text.as_str(), " on slot ");
                let text = join(text.as_str(), slot_text.as_str());
                let text = join(text.as_str(), ": missing required coordinates");
                let diagnostics = note(
                    DiagnosticLevel::Warning,
                    DiagnosticCode::IncompleteNewContact,
                    text.as_str(),
                    sequence,
                );
                proof {
                    reveal_with_fuel(replays, 1);
                    reveal_with_fuel(chains, 1);
                }
                (
                    StepOut { state: st, events: Vec::new(), transitions: Vec::new(), diagnostics },
                    PointerMotion::Still,
                )
            }
        } else if st.tap.phase == TapDragPhase::LockedWithoutContact && !c.complete {
            (tap_cancel(st, sequence), PointerMotion::Still)
        } else {
            (nothing(st, sequence), PointerMotion::Still)
        }
    } else {
        match st.tracking_id {
            Some(ours) => {
                if c.tracking_id == ours {
                    if !c.complete {
                        let a = cancel_pointer(st, Some("missing required coordinates"), sequence);
                        let ghost sa = spec_cancel_pointer(st, Some("missing required coordinates"));
                        let b = tap_cancel(a.state, sequence);
                        (
                            combine(a, b, Ghost(st), Ghost(sa), Ghost(spec_tap_cancel(sa.0)), sequence),
                            PointerMotion::Still,
                        )
                    } else if st.lifecycle == Lifecycle::Candidate {
                        if m.crossed {
                            (commit_pointer(st, ours, sequence), PointerMotion::Commit)
                        } else {
                            (nothing(st, sequence), PointerMotion::Still)
                        }
                    } else {
                        (nothing(st, sequence), PointerMotion::Follow)
                    }
                } else if c.began {
                    let a = replace_old(st, ours, cfg, sequence);
                    let ghost sa = spec_replace_old(st, ours, scfg);
                    let f = finish_pointer(a.state, ours, sequence);
                    let ghost sf = spec_finish_pointer(sa.0, ours);
                    let b = combine(a, f, Ghost(st), Ghost(sa), Ghost(sf), sequence);
                    let ghost sb = join_steps(sa, sf);
                    let d = if c.complete {
                        begin_pointer(b.state, c, m.discontinuity, cfg, now, sequence)
                    } else {
                        nothing(b.state, sequence)
                    };
                    let ghost sd = if c.complete {
                        spec_begin_pointer(sb.0, c, m.discontinuity, scfg, now)
                    } else {
                        still(sb.0)
                    };
                    let motion = if st.lifecycle == Lifecycle::Committed && ended_complete {
                        PointerMotion::Follow
                    } else {
                        PointerMotion::Still
                    };
                    (combine(b, d, Ghost(st), Ghost(sb), Ghost(sd), sequence), motion)
                } else {
                    let a = cancel_pointer(st, Some("unexpected tracking id replacement"), sequence);
                    let ghost sa = spec_cancel_pointer(st, Some("unexpected tracking id replacement"));
                    let b = tap_cancel(a.state, sequence);
                    (
                        combine(a, b, Ghost(st), Ghost(sa), Ghost(spec_tap_cancel(sa.0)), sequence),
                        PointerMotion::Still,
                    )
                }
            },
            None => (nothing(st, sequence), PointerMotion::Still),
        }
    }
}

fn pointer_policy(
    st: InteractionState,
    live: u32,
    m: ContactMotion,
    cfg: Option<&TapConfig>,
    now: Monotonic,
    sequence: u64,
) -> (r: (StepOut, PointerMotion))
    ensures
        ({
            let spec = spec_pointer_policy(
                st,
                live,
                m,
                match cfg {
                    Some(c) => Some(*c),
                    None => None,
                },
                now,
            );
            &&& realizes(r.0, spec.0, sequence)
            &&& r.1 == spec.1
            &&& keeps(st, spec.0)
        }),
        st.inv() ==> r.0.state.inv(),
        r.1 == PointerMotion::Commit ==> st.lifecycle == Lifecycle::Candidate && m.crossed,
        r.1 == PointerMotion::Follow ==> st.lifecycle == Lifecycle::Committed,
        r.1 != PointerMotion::Drag,
{
    let active = st.lifecycle == Lifecycle::Candidate || st.lifecycle == Lifecycle::Committed;
    if live == 0 {
        no_live_policy(st, m, cfg, now, sequence)
    } else if live == 1 {
        one_live_policy(st, m, cfg, now, sequence)
    } else if active {
        match st.tracking_id {
            Some(ours) => (second_contact(st, ours, sequence), PointerMotion::Still),
            None => (nothing(st, sequence), PointerMotion::Still),
        }
    } else {
        (tap_cancel(st, sequence), PointerMotion::Still)
    }
}


/// Runs the contact policy of one frame: see [`spec_contacts_step`]. The
/// events replay on the wire from the old sources to the new ones, the
/// transitions follow the lifecycle table from the old lifecycle to the new
/// one, the state's invariant is kept, and pointer motion is owed only by a
/// candidate whose contact crossed the motion threshold (its commitment),
/// by a committed interaction, or by a three-finger drag.
#[verifier::rlimit(40)]
pub fn contacts_step(
    state: InteractionState,
    live: u32,
    motion: ContactMotion,
    tap: Option<&TapConfig>,
    now: Monotonic,
    sequence: u64,
) -> (r: (StepOut, PointerMotion))
    ensures
        ({
            let spec = spec_contacts_step(
                state,
                live,
                motion,
                match tap {
                    Some(c) => Some(*c),
                    None => None,
                },
                now,
            );
            &&& realizes(r.0, spec.0, sequence)
            &&& r.1 == spec.1
            &&& keeps(state, spec.0)
        }),
        replays(
            state.buttons.wire_left(),
            state.buttons.wire_right(),
            r.0.events@,
            r.0.state.buttons.wire_left(),
            r.0.state.buttons.wire_right(),
        ),
        chains(state.lifecycle, r.0.transitions@, r.0.state.lifecycle),
        state.inv() ==> r.0.state.inv(),
        r.1 == PointerMotion::Commit ==> state.lifecycle == Lifecycle::Candidate && motion.crossed,
        r.1 == PointerMotion::Follow ==> state.lifecycle == Lifecycle::Committed,
        r.1 == PointerMotion::Drag ==> motion.owner is ThreeFingerDrag,
{
    let ghost scfg = match tap {
        Some(c) => Some(*c),
        None => None,
    };
    match motion.owner {
        ContactOwner::Pointer => pointer_policy(state, live, motion, tap, now, sequence),
        ContactOwner::PointerAfterDragReset => {
            let a = release_left(state, sequence);
            let ghost sa = spec_release_left(state);
            let (b, moved) = pointer_policy(a.state, live, motion, tap, now, sequence);
            let ghost sb = spec_pointer_policy(sa.0, live, motion, scfg, now).0;
            (combine(a, b, Ghost(state), Ghost(sa), Ghost(sb), sequence), moved)
        },
        ContactOwner::Gesture => {
            let a = cancel_pointer(state, Some("continuous gesture ownership"), sequence);
            let ghost sa = spec_cancel_pointer(state, Some("continuous gesture ownership"));
            let t = tap_cancel(a.state, sequence);
            let b = combine(a, t, Ghost(state), Ghost(sa), Ghost(spec_tap_cancel(sa.0)), sequence);
            let ghost sb = join_steps(sa, spec_tap_cancel(sa.0));
            let w = two_cancel(b.state, "continuous gesture ownership", sequence);
            (
                combine(
                    b,
                    w,
                    Ghost(state),
                    Ghost(sb),
                    Ghost(spec_two_cancel(sb.0, "continuous gesture ownership")),
                    sequence,
                ),
                PointerMotion::Still,
            )
        },
        ContactOwner::ThreeFingerDrag { button, moves } => {
            let a = cancel_pointer(state, None, sequence);
            let ghost sa = spec_cancel_pointer(state, None);
            let t = tap_cancel(a.state, sequence);
            let b = combine(a, t, Ghost(state), Ghost(sa), Ghost(spec_tap_cancel(sa.0)), sequence);
            let ghost sb = join_steps(sa, spec_tap_cancel(sa.0));
            let w = two_cancel(b.state, "three-finger drag ownership", sequence);
            let ghost sw = spec_two_cancel(sb.0, "three-finger drag ownership");
            let c = combine(b, w, Ghost(state), Ghost(sb), Ghost(sw), sequence);
            let ghost sc = join_steps(sb, sw);
            let d = match button {
                DragButton::Keep => nothing(c.state, sequence),
                DragButton::Press => press_left(c.state, sequence),
                DragButton::Release => release_left(c.state, sequence),
            };
            let ghost sd = match button {
                DragButton::Keep => still(sc.0),
                DragButton::Press => spec_press_left(sc.0),
                DragButton::Release => spec_release_left(sc.0),
            };
            let moved = if moves {
                PointerMotion::Drag
            } else {
                PointerMotion::Still
            };
            (combine(c, d, Ghost(state), Ghost(sc), Ghost(sd), sequence), moved)
        },
    }
}

} // verus!
