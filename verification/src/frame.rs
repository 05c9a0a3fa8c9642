//! The interaction arbiter's frame step: admission, the physical buttons
//! (never suppressed by anything else in the frame), a discontinuity, the
//! tap follow-up deadline, the one-finger contacts, the two-finger pair,
//! and the ordering of the frame's output: presses before motion, releases
//! after it.
//!
//! What only floating point can tell (thresholds crossed, tap limits kept)
//! and what the recognizers that may own a frame decide is handed in as
//! plain values ([`FrameMotion`]); the pointer and scroll motion owed is
//! handed back as markers ([`PointerMotion`], [`ScrollMotion`]) for the
//! caller to compute and emit between the presses and the releases.

use crate::arbiter::{LifecycleTransition, TapConfig, TwoFingerConfig, TwoFingerPhase};
use crate::contact::{Contact, ContactFrame, ContactState, Finding};
use crate::diagnostic::{Diagnostic, DiagnosticCode, DiagnosticLevel};
use crate::interaction::{
    admit_frame, cancel_on_regression, joined_messages, rejecting_findings, spec_cancel_on_regression,
    spec_regression, ArbiterError, end_two_finger, expire_follow_up, latch_secondary_press, no_reports, note, replays, reports,
    spec_end_two_finger, spec_expire_follow_up, spec_latch_secondary_press, spec_physical_events,
    spec_physical_sources, ButtonSources, TwoEnd, TwoFingerState,
};
use crate::output::{MouseButton, OutputEvent};
use crate::pointer::{
    chains, keeps, realizes, still, join_steps, spec_cancel_pointer, spec_tap_cancel,
    ContactMotion, ContactOwner, InteractionState, LiveContact, PointerMotion, Step, StepOut,
    TrackingPair,
};
use crate::two_finger::{pair_began_text, physical_ownership, sorted, ScrollMotion, TwoFingerSample};
use crate::text::{decimal, join};
use crate::time::Monotonic;
use vstd::prelude::*;

verus! {

/// Whether a contact is live: it began in this frame or is active.
pub open spec fn is_live(c: Contact) -> bool {
    c.state == ContactState::Began || c.state == ContactState::Active
}

/// Live contacts.
pub open spec fn live_pred() -> spec_fn(Contact) -> bool {
    |c: Contact| is_live(c)
}

/// Live contacts with both coordinates.
pub open spec fn complete_pred() -> spec_fn(Contact) -> bool {
    |c: Contact| is_live(c) && c.spec_is_complete()
}

/// Live contacts missing a coordinate.
pub open spec fn incomplete_pred() -> spec_fn(Contact) -> bool {
    |c: Contact| is_live(c) && !c.spec_is_complete()
}

/// `Ended` records of `tracking_id`.
pub open spec fn ended_pred(tracking_id: i32) -> spec_fn(Contact) -> bool {
    |c: Contact| c.tracking_id == tracking_id && c.state == ContactState::Ended
}

/// `Ended` records with both coordinates of one of the pair's tracking ids.
pub open spec fn pair_ended_pred(pair: TrackingPair) -> spec_fn(Contact) -> bool {
    |c: Contact|
        (c.tracking_id == pair.first || c.tracking_id == pair.second) && c.state
            == ContactState::Ended && c.spec_is_complete()
}

/// How the one-finger policy sees a live contact.
pub open spec fn live_view(c: Contact) -> LiveContact {
    LiveContact {
        tracking_id: c.tracking_id,
        slot: c.slot,
        began: c.state == ContactState::Began,
        complete: c.spec_is_complete(),
    }
}

/// Stands for a first live contact when there is none; never read.
pub open spec fn no_contact() -> LiveContact {
    LiveContact { tracking_id: 0, slot: 0, began: false, complete: false }
}

/// What the frame step reads of a frame's contacts: the number of live
/// contacts (counted up to two), of complete live contacts (up to three),
/// whether a live contact misses a coordinate, the first live contact, and
/// the tracking ids of the first two complete live contacts.
#[derive(Clone, Copy, Debug, PartialEq, Eq, Structural)]
pub struct ContactSummary {
    pub live: u32,
    pub complete: u32,
    pub incomplete: bool,
    pub first: LiveContact,
    pub pair: TrackingPair,
}

/// The summary of `contacts`.
pub open spec fn spec_summary(contacts: Seq<Contact>) -> ContactSummary {
    let live = contacts.filter(live_pred());
    let complete = contacts.filter(complete_pred());
    ContactSummary {
        live: if live.len() >= 2 {
            2
        } else {
            live.len() as u32
        },
        complete: if complete.len() >= 3 {
            3
        } else {
            complete.len() as u32
        },
        incomplete: contacts.filter(incomplete_pred()).len() > 0,
        first: if live.len() > 0 {
            live_view(live[0])
        } else {
            no_contact()
        },
        pair: TrackingPair {
            first: if complete.len() > 0 {
                complete[0].tracking_id
            } else {
                0
            },
            second: if complete.len() > 1 {
                complete[1].tracking_id
            } else {
                0
            },
        },
    }
}

fn summarize(contacts: &Vec<Contact>) -> (r: ContactSummary)
    ensures
        r == spec_summary(contacts@),
{
    let ghost cs = contacts@;
    let mut live_n: usize = 0;
    let mut complete_n: usize = 0;
    let mut incomplete = false;
    let mut first = LiveContact { tracking_id: 0, slot: 0, began: false, complete: false };
    let mut pair_first: i32 = 0;
    let mut pair_second: i32 = 0;
    let mut i: usize = 0;
    assert(cs.take(0) =~= Seq::<Contact>::empty());
    assert(Seq::<Contact>::empty().filter(live_pred()) =~= Seq::<Contact>::empty()) by {
        reveal(Seq::filter);
    }
    assert(Seq::<Contact>::empty().filter(complete_pred()) =~= Seq::<Contact>::empty()) by {
        reveal(Seq::filter);
    }
    assert(Seq::<Contact>::empty().filter(incomplete_pred()) =~= Seq::<Contact>::empty()) by {
        reveal(Seq::filter);
    }
    while i < contacts.len()
        invariant
            cs == contacts@,
            i <= contacts.len(),
            live_n == cs.take(i as int).filter(live_pred()).len(),
            complete_n == cs.take(i as int).filter(complete_pred()).len(),
            incomplete == (cs.take(i as int).filter(incomplete_pred()).len() > 0),
            first == (if live_n > 0 {
                live_view(cs.take(i as int).filter(live_pred())[0])
            } else {
                no_contact()
            }),
            pair_first == (if complete_n > 0 {
                cs.take(i as int).filter(complete_pred())[0].tracking_id
            } else {
                0
            }),
            pair_second == (if complete_n > 1 {
                cs.take(i as int).filter(complete_pred())[1].tracking_id
            } else {
                0
            }),
        decreases contacts.len() - i,
    {
        let c = &contacts[i];
        let ghost before = cs.take(i as int);
        proof {
            assert(cs.take(i + 1) =~= before.push(cs[i as int]));
            before.lemma_filter_push(cs[i as int], live_pred());
            before.lemma_filter_push(cs[i as int], complete_pred());
            before.lemma_filter_push(cs[i as int], incomplete_pred());
        }
        let live = c.state == ContactState::Began || c.state == ContactState::Active;
        let complete = c.is_complete();
        if live {
            if live_n == 0 {
                first = LiveContact {
                    tracking_id: c.tracking_id,
                    slot: c.slot,
                    began: c.state == ContactState::Began,
                    complete,
                };
            }
            live_n = live_n + 1;
            if complete {
                if complete_n == 0 {
                    pair_first = c.tracking_id;
                } else if complete_n == 1 {
                    pair_second = c.tracking_id;
                }
                complete_n = complete_n + 1;
            } else {
                incomplete = true;
            }
        }
        i = i + 1;
    }
    assert(cs.take(contacts.len() as int) =~= cs);
    ContactSummary {
        live: if live_n >= 2 {
            2
        } else {
            live_n as u32
        },
        complete: if complete_n >= 3 {
            3
        } else {
            complete_n as u32
        },
        incomplete,
        first,
        pair: TrackingPair { first: pair_first, second: pair_second },
    }
}

/// Whether the frame has an `Ended` record of `tracking_id` and, for the
/// first one, whether it carries both coordinates.
pub open spec fn spec_ended_record(contacts: Seq<Contact>, tracking_id: Option<i32>) -> Option<bool> {
    match tracking_id {
        Some(id) => {
            let ended = contacts.filter(ended_pred(id));
            if ended.len() > 0 {
                Some(ended[0].spec_is_complete())
            } else {
                None
            }
        },
        None => None,
    }
}

fn ended_record(contacts: &Vec<Contact>, tracking_id: Option<i32>) -> (r: Option<bool>)
    ensures
        r == spec_ended_record(contacts@, tracking_id),
{
    let id = match tracking_id {
        Some(id) => id,
        None => return None,
    };
    let ghost cs = contacts@;
    let mut found: Option<bool> = None;
    let mut i: usize = 0;
    assert(cs.take(0) =~= Seq::<Contact>::empty());
    assert(Seq::<Contact>::empty().filter(ended_pred(id)) =~= Seq::<Contact>::empty()) by {
        reveal(Seq::filter);
    }
    while i < contacts.len()
        invariant
            cs == contacts@,
            i <= contacts.len(),
            found == (if cs.take(i as int).filter(ended_pred(id)).len() > 0 {
                Some(cs.take(i as int).filter(ended_pred(id))[0].spec_is_complete())
            } else {
                None::<bool>
            }),
        decreases contacts.len() - i,
    {
        let c = &contacts[i];
        proof {
            assert(cs.take(i + 1) =~= cs.take(i as int).push(cs[i as int]));
            cs.take(i as int).lemma_filter_push(cs[i as int], ended_pred(id));
        }
        if found.is_none() && c.tracking_id == id && c.state == ContactState::Ended {
            found = Some(c.is_complete());
        }
        i = i + 1;
    }
    assert(cs.take(contacts.len() as int) =~= cs);
    found
}

/// Whether the frame has an `Ended` record with both coordinates of one of
/// the pair's tracking ids (never, without a pair).
pub open spec fn spec_pair_ended(contacts: Seq<Contact>, pair: Option<TrackingPair>) -> bool {
    match pair {
        Some(p) => contacts.filter(pair_ended_pred(p)).len() > 0,
        None => false,
    }
}

fn pair_ended(contacts: &Vec<Contact>, pair: Option<TrackingPair>) -> (r: bool)
    ensures
        r == spec_pair_ended(contacts@, pair),
{
    let p = match pair {
        Some(p) => p,
        None => return false,
    };
    let ghost cs = contacts@;
    let mut found = false;
    let mut i: usize = 0;
    assert(cs.take(0) =~= Seq::<Contact>::empty());
    assert(Seq::<Contact>::empty().filter(pair_ended_pred(p)) =~= Seq::<Contact>::empty()) by {
        reveal(Seq::filter);
    }
    while i < contacts.len()
        invariant
            cs == contacts@,
            i <= contacts.len(),
            found == (cs.take(i as int).filter(pair_ended_pred(p)).len() > 0),
        decreases contacts.len() - i,
    {
        let c = &contacts[i];
        proof {
            assert(cs.take(i + 1) =~= cs.take(i as int).push(cs[i as int]));
            cs.take(i as int).lemma_filter_push(cs[i as int], pair_ended_pred(p));
        }
        if (c.tracking_id == p.first || c.tracking_id == p.second) && c.state == ContactState::Ended
            && c.is_complete() {
            found = true;
        }
        i = i + 1;
    }
    assert(cs.take(contacts.len() as int) =~= cs);
    found
}


/// A latched press cancels the two-finger interaction it interrupts (see
/// [`crate::interaction::latch_secondary_press`]), which forgets its pair.
pub open spec fn spec_latch_step(st: InteractionState) -> Step {
    let r = spec_latch_secondary_press(st.two);
    let pair = if st.two.phase == TwoFingerPhase::Candidate || st.two.phase
        == TwoFingerPhase::CommittedScroll {
        None
    } else {
        st.two_pair
    };
    (InteractionState { two: r.0, two_pair: pair, ..st }, r.1, Seq::empty(), r.2)
}

fn latch_step(st: InteractionState, sequence: u64) -> (r: StepOut)
    ensures
        realizes(r, spec_latch_step(st), sequence),
        keeps(st, spec_latch_step(st)),
{
    let pair = if st.two.phase == TwoFingerPhase::Candidate || st.two.phase
        == TwoFingerPhase::CommittedScroll {
        None
    } else {
        st.two_pair
    };
    let (two, events, diagnostics) = latch_secondary_press(st.two, sequence);
    proof {
        reveal_with_fuel(replays, 2);
        reveal_with_fuel(chains, 1);
    }
    StepOut { state: InteractionState { two, two_pair: pair, ..st }, events, transitions: Vec::new(), diagnostics }
}

/// A physical press competes with the two-finger interaction: an active one
/// is cancelled (`ScrollEnd` when a scroll is open); otherwise the cluster
/// is disqualified from a secondary tap.
pub open spec fn spec_yield_step(st: InteractionState) -> Step {
    if st.two.phase == TwoFingerPhase::Candidate || st.two.phase == TwoFingerPhase::CommittedScroll {
        let r = spec_end_two_finger(st.two, st.buttons, TwoEnd::Cancel("physical click"), false);
        (InteractionState { two: r.0, buttons: r.1, two_pair: None, ..st }, r.2, Seq::empty(), r.3)
    } else {
        still(InteractionState { two: TwoFingerState { tap_disqualified: true, ..st.two }, ..st })
    }
}

fn yield_step(st: InteractionState, sequence: u64) -> (r: StepOut)
    ensures
        realizes(r, spec_yield_step(st), sequence),
        keeps(st, spec_yield_step(st)),
{
    if st.two.phase == TwoFingerPhase::Candidate || st.two.phase == TwoFingerPhase::CommittedScroll {
        let (two, buttons, events, diagnostics) = end_two_finger(
            st.two,
            st.buttons,
            TwoEnd::Cancel("physical click"),
            false,
            sequence,
        );
        proof {
            reveal_with_fuel(chains, 1);
        }
        StepOut {
            state: InteractionState { two, buttons, two_pair: None, ..st },
            events,
            transitions: Vec::new(),
            diagnostics,
        }
    } else {
        let empty = no_reports();
        proof {
            assert(reports(empty@, Seq::empty(), sequence));
            reveal_with_fuel(replays, 1);
            reveal_with_fuel(chains, 1);
        }
        StepOut {
            state: InteractionState { two: TwoFingerState { tap_disqualified: true, ..st.two }, ..st },
            events: Vec::new(),
            transitions: Vec::new(),
            diagnostics: empty,
        }
    }
}

/// What the physical button edges of a frame do to the policies, once the
/// sources took them: a latched press cancels the two-finger interaction
/// and the tap family; a plain left press takes over a pending tap press
/// and competes with the two-finger interaction; the release of a latched
/// press finishes the latched click; a right press also takes over a
/// pending tap press and competes with the two-finger interaction.
pub open spec fn spec_press_reactions(
    st: InteractionState,
    before: ButtonSources,
    raw_left: bool,
    raw_right: bool,
    latch_allowed: bool,
) -> Step {
    let down = raw_left && !before.physical_left_raw;
    let up = !raw_left && before.physical_left_raw;
    let right_down = raw_right && !before.physical_right_raw;
    let latch = down && !before.latched_right && latch_allowed;
    let a = if down {
        if latch {
            let x = spec_latch_step(st);
            join_steps(x, spec_tap_cancel(x.0))
        } else {
            let x = spec_tap_cancel(st);
            join_steps(x, spec_yield_step(x.0))
        }
    } else if up && before.latched_right && st.two.phase == TwoFingerPhase::PhysicalSecondaryClickHeld {
        still(
            InteractionState {
                two: TwoFingerState { phase: TwoFingerPhase::Finished, ..st.two },
                ..st
            },
        )
    } else {
        still(st)
    };
    if right_down {
        let y = spec_tap_cancel(a.0);
        join_steps(a, join_steps(y, spec_yield_step(y.0)))
    } else {
        a
    }
}

fn press_reactions(
    st: InteractionState,
    before: ButtonSources,
    raw_left: bool,
    raw_right: bool,
    latch_allowed: bool,
    sequence: u64,
) -> (r: StepOut)
    ensures
        realizes(r, spec_press_reactions(st, before, raw_left, raw_right, latch_allowed), sequence),
        keeps(st, spec_press_reactions(st, before, raw_left, raw_right, latch_allowed)),
{
    let down = raw_left && !before.physical_left_raw;
    let up = !raw_left && before.physical_left_raw;
    let right_down = raw_right && !before.physical_right_raw;
    let latch = down && !before.latched_right && latch_allowed;
    let ghost sa: Step;
    let a = if down {
        if latch {
            let x = latch_step(st, sequence);
            let ghost sx = spec_latch_step(st);
            let t = crate::pointer::tap_cancel(x.state, sequence);
            proof {
                sa = join_steps(sx, spec_tap_cancel(sx.0));
            }
            crate::pointer::combine(x, t, Ghost(st), Ghost(sx), Ghost(spec_tap_cancel(sx.0)), sequence)
        } else {
            let x = crate::pointer::tap_cancel(st, sequence);
            let ghost sx = spec_tap_cancel(st);
            let y = yield_step(x.state, sequence);
            proof {
                sa = join_steps(sx, spec_yield_step(sx.0));
            }
            crate::pointer::combine(x, y, Ghost(st), Ghost(sx), Ghost(spec_yield_step(sx.0)), sequence)
        }
    } else if up && before.latched_right && st.two.phase == TwoFingerPhase::PhysicalSecondaryClickHeld {
        proof {
            sa = still(
                InteractionState {
                    two: TwoFingerState { phase: TwoFingerPhase::Finished, ..st.two },
                    ..st
                },
            );
        }
        crate::pointer::nothing(
            InteractionState {
                two: TwoFingerState { phase: TwoFingerPhase::Finished, ..st.two },
                ..st
            },
            sequence,
        )
    } else {
        proof {
            sa = still(st);
        }
        crate::pointer::nothing(st, sequence)
    };
    if right_down {
        let y = crate::pointer::tap_cancel(a.state, sequence);
        let ghost sy = spec_tap_cancel(sa.0);
        let z = yield_step(y.state, sequence);
        let ghost sz = spec_yield_step(sy.0);
        let yz = crate::pointer::combine(y, z, Ghost(sa.0), Ghost(sy), Ghost(sz), sequence);
        crate::pointer::combine(a, yz, Ghost(st), Ghost(sa), Ghost(join_steps(sy, sz)), sequence)
    } else {
        a
    }
}


/// A two-finger candidate begins on `pair`; it is disqualified from the
/// secondary tap when it begins across a discontinuity or while a physical
/// button is held.
pub open spec fn spec_two_begin(st: InteractionState, pair: TrackingPair, discontinuity: bool) -> Step {
    let ids = sorted(pair);
    (
        InteractionState {
            two: TwoFingerState {
                phase: TwoFingerPhase::Candidate,
                tap_disqualified: st.two.tap_disqualified || discontinuity || physical_ownership(
                    st.buttons,
                ),
                ..st.two
            },
            two_pair: Some(ids),
            ..st
        },
        Seq::empty(),
        Seq::empty(),
        seq![(DiagnosticLevel::Info, DiagnosticCode::TwoFingerScrollBegan, pair_began_text(ids))],
    )
}

fn two_begin(st: InteractionState, pair: TrackingPair, discontinuity: bool, sequence: u64) -> (r: StepOut)
    ensures
        realizes(r, spec_two_begin(st, pair, discontinuity), sequence),
        keeps(st, spec_two_begin(st, pair, discontinuity)),
{
    let ids = if pair.first <= pair.second {
        pair
    } else {
        TrackingPair { first: pair.second, second: pair.first }
    };
    let lo_text = decimal(ids.first as i128);
    let hi_text = decimal(ids.second as i128);
    let text = join("two-finger candidate began (tracking ids ", lo_text.as_str());
    let text = join(text.as_str(), ", ");
    let text = join(text.as_str(), hi_text.as_str());
    let text = join(text.as_str(), ")");
    let diagnostics = note(
        DiagnosticLevel::Info,
        DiagnosticCode::TwoFingerScrollBegan,
        text.as_str(),
        sequence,
    );
    proof {
        reveal_with_fuel(replays, 1);
        reveal_with_fuel(chains, 1);
    }
    let ownership = st.buttons.physical_left || st.buttons.physical_right || st.buttons.latched_right;
    StepOut {
        state: InteractionState {
            two: TwoFingerState {
                phase: TwoFingerPhase::Candidate,
                tap_disqualified: st.two.tap_disqualified || discontinuity || ownership,
                ..st.two
            },
            two_pair: Some(ids),
            ..st
        },
        events: Vec::new(),
        transitions: Vec::new(),
        diagnostics,
    }
}

/// A discontinuity breaks position continuity: the one-finger interaction
/// is cancelled, the tap family gives up, and an active two-finger
/// interaction is cancelled (a held latched press persists); with scrolling
/// on, no physical button held and two complete live contacts, a fresh
/// candidate re-anchors on them.
pub open spec fn spec_discontinuity_step(
    st: InteractionState,
    summary: ContactSummary,
    cfg: Option<TwoFingerConfig>,
) -> Step {
    let a = spec_cancel_pointer(st, Some("discontinuity"));
    let b = join_steps(a, spec_tap_cancel(a.0));
    let phase = b.0.two.phase;
    if phase == TwoFingerPhase::PhysicalSecondaryClickHeld {
        b
    } else {
        let c = if phase == TwoFingerPhase::Candidate || phase == TwoFingerPhase::CommittedScroll {
            join_steps(b, crate::two_finger::spec_two_end(b.0, TwoEnd::Cancel("discontinuity"), false))
        } else {
            b
        };
        if (cfg matches Some(x) && x@.scroll_enabled) && !physical_ownership(c.0.buttons)
            && summary.complete == 2 {
            join_steps(c, spec_two_begin(c.0, summary.pair, true))
        } else {
            c
        }
    }
}

fn discontinuity_step(
    st: InteractionState,
    summary: ContactSummary,
    cfg: Option<&TwoFingerConfig>,
    sequence: u64,
) -> (r: StepOut)
    ensures
        ({
            let spec = spec_discontinuity_step(
                st,
                summary,
                match cfg {
                    Some(c) => Some(*c),
                    None => None,
                },
            );
            realizes(r, spec, sequence) && keeps(st, spec)
        }),
{
    let a = crate::pointer::cancel_pointer(st, Some("discontinuity"), sequence);
    let ghost sa = spec_cancel_pointer(st, Some("discontinuity"));
    let t = crate::pointer::tap_cancel(a.state, sequence);
    let b = crate::pointer::combine(a, t, Ghost(st), Ghost(sa), Ghost(spec_tap_cancel(sa.0)), sequence);
    let ghost sb = join_steps(sa, spec_tap_cancel(sa.0));
    let phase = b.state.two.phase;
    if phase == TwoFingerPhase::PhysicalSecondaryClickHeld {
        return b;
    }
    let ghost sc = if phase == TwoFingerPhase::Candidate || phase == TwoFingerPhase::CommittedScroll {
        join_steps(sb, crate::two_finger::spec_two_end(sb.0, TwoEnd::Cancel("discontinuity"), false))
    } else {
        sb
    };
    let c = if phase == TwoFingerPhase::Candidate || phase == TwoFingerPhase::CommittedScroll {
        let e = crate::two_finger::two_end(b.state, TwoEnd::Cancel("discontinuity"), false, sequence);
        let ghost se = crate::two_finger::spec_two_end(sb.0, TwoEnd::Cancel("discontinuity"), false);
        crate::pointer::combine(b, e, Ghost(st), Ghost(sb), Ghost(se), sequence)
    } else {
        b
    };
    let scroll = match cfg {
        Some(x) => x.scroll_enabled(),
        None => false,
    };
    let ownership = c.state.buttons.physical_left || c.state.buttons.physical_right
        || c.state.buttons.latched_right;
    if scroll && !ownership && summary.complete == 2 {
        let n = two_begin(c.state, summary.pair, true, sequence);
        let ghost sn = spec_two_begin(sc.0, summary.pair, true);
        crate::pointer::combine(c, n, Ghost(st), Ghost(sc), Ghost(sn), sequence)
    } else {
        c
    }
}

/// The tap follow-up deadline is checked (see
/// [`crate::interaction::expire_follow_up`]).
pub open spec fn spec_expire_step(st: InteractionState, cfg: Option<TapConfig>, now: Monotonic) -> Step {
    let r = spec_expire_follow_up(st.tap, st.buttons, cfg, now);
    (InteractionState { tap: r.0, buttons: r.1, ..st }, r.2, Seq::empty(), Seq::empty())
}

fn expire_step(st: InteractionState, cfg: Option<&TapConfig>, now: Monotonic, sequence: u64) -> (r: StepOut)
    ensures
        ({
            let spec = spec_expire_step(
                st,
                match cfg {
                    Some(c) => Some(*c),
                    None => None,
                },
                now,
            );
            realizes(r, spec, sequence) && keeps(st, spec)
        }),
{
    let (tap, buttons, events) = expire_follow_up(st.tap, st.buttons, cfg, now);
    let empty = no_reports();
    proof {
        assert(reports(empty@, Seq::empty(), sequence));
        reveal_with_fuel(chains, 1);
    }
    StepOut { state: InteractionState { tap, buttons, ..st }, events, transitions: Vec::new(), diagnostics: empty }
}


/// What the caller computes for a frame: whether the interaction's contact
/// lies at least the motion threshold from its anchor, whether the tap
/// candidate stayed within the tap limits, who owns the contacts, whether
/// the two-finger centroid lies at least the scroll commit threshold from
/// its anchor, and whether the two-finger candidate stayed within the
/// secondary tap limits.
#[derive(Clone, Copy, Debug, PartialEq, Eq, Structural)]
pub struct FrameMotion {
    pub crossed: bool,
    pub tap_within_limits: bool,
    pub owner: ContactOwner,
    pub scroll_crossed: bool,
    pub secondary_within_limits: bool,
}

/// The policy part of a frame: the steps after the physical buttons, the
/// physical wire events, and the pointer and scroll motion owed.
pub type FramePolicy = (Step, Seq<OutputEvent>, PointerMotion, ScrollMotion);

/// Whether a left press of this frame is latched to the right button:
/// the buttonpad two-finger click is on and exactly two complete live
/// contacts are present.
pub open spec fn frame_latch_allowed(summary: ContactSummary, cfg: Option<TwoFingerConfig>) -> bool {
    summary.complete == 2 && (cfg matches Some(c) && c@.two_finger_physical_click_enabled)
}

/// The sources after the frame's physical buttons.
pub open spec fn spec_buttons_taken(
    st: InteractionState,
    frame: ContactFrame,
    cfg: Option<TwoFingerConfig>,
) -> InteractionState {
    InteractionState {
        buttons: spec_physical_sources(
            st.buttons,
            frame.physical_buttons.left,
            frame.physical_buttons.right,
            frame_latch_allowed(spec_summary(frame.contacts@), cfg),
        ),
        ..st
    }
}

/// The front of an admitted frame's policy, from the sources after its
/// physical buttons: what their edges do to the policies, a discontinuity,
/// and the tap follow-up deadline.
#[verifier::opaque]
pub open spec fn spec_frame_front(
    st: InteractionState,
    frame: ContactFrame,
    tap: Option<TapConfig>,
    two: Option<TwoFingerConfig>,
) -> Step {
    let summary = spec_summary(frame.contacts@);
    let s1 = spec_buttons_taken(st, frame, two);
    let r = spec_press_reactions(
        s1,
        st.buttons,
        frame.physical_buttons.left,
        frame.physical_buttons.right,
        frame_latch_allowed(summary, two),
    );
    let d = if frame.discontinuity {
        join_steps(r, spec_discontinuity_step(r.0, summary, two))
    } else {
        r
    };
    join_steps(d, spec_expire_step(d.0, tap, frame.monotonic_timestamp))
}

/// The back of an admitted frame's policy, from `front` (where the front
/// left the state): the contacts, then, unless a continuous gesture or a
/// three-finger drag owns the frame, the two-finger pair; with the pointer
/// and scroll motion owed. `before` is the state before the frame.
#[verifier::opaque]
pub open spec fn spec_frame_back(
    front: InteractionState,
    before: InteractionState,
    frame: ContactFrame,
    m: FrameMotion,
    tap: Option<TapConfig>,
    two: Option<TwoFingerConfig>,
) -> (Step, PointerMotion, ScrollMotion) {
    let summary = spec_summary(frame.contacts@);
    let cm = ContactMotion {
        first: summary.first,
        ended: spec_ended_record(frame.contacts@, front.tracking_id),
        crossed: m.crossed,
        tap_within_limits: m.tap_within_limits,
        discontinuity: frame.discontinuity,
        owner: m.owner,
    };
    let c = crate::pointer::spec_contacts_step(front, summary.live, cm, tap, frame.monotonic_timestamp);
    if m.owner is Pointer || m.owner is PointerAfterDragReset {
        let sample = TwoFingerSample {
            live_present: summary.live > 0,
            complete: summary.complete,
            incomplete: summary.incomplete,
            pair: summary.pair,
            ended_pair: spec_pair_ended(frame.contacts@, c.0.0.two_pair),
            crossed: m.scroll_crossed,
            secondary_within_limits: m.secondary_within_limits,
        };
        let latched_released = !frame.physical_buttons.left && before.buttons.physical_left_raw
            && before.buttons.latched_right;
        let t = crate::two_finger::spec_two_finger_step(
            c.0.0,
            sample,
            two,
            latched_released,
            frame.discontinuity,
        );
        (join_steps(c.0, t.0), c.1, t.1)
    } else {
        (c.0, c.1, ScrollMotion::Still)
    }
}

/// The policy of an admitted frame: the physical wire events of its
/// buttons, then the front and the back of the policy.
pub open spec fn spec_frame_policy(
    st: InteractionState,
    frame: ContactFrame,
    m: FrameMotion,
    tap: Option<TapConfig>,
    two: Option<TwoFingerConfig>,
) -> FramePolicy {
    let front = spec_frame_front(st, frame, tap, two);
    let back = spec_frame_back(front.0, st, frame, m, tap, two);
    (
        join_steps(front, back.0),
        spec_physical_events(
            st.buttons,
            frame.physical_buttons.left,
            frame.physical_buttons.right,
            frame_latch_allowed(spec_summary(frame.contacts@), two),
        ),
        back.1,
        back.2,
    )
}

fn frame_front(
    st: InteractionState,
    s1: InteractionState,
    frame: &ContactFrame,
    summary: ContactSummary,
    tap: Option<&TapConfig>,
    two: Option<&TwoFingerConfig>,
) -> (r: StepOut)
    requires
        summary == spec_summary(frame.contacts@),
        s1 == spec_buttons_taken(
            st,
            *frame,
            match two {
                Some(c) => Some(*c),
                None => None,
            },
        ),
    ensures
        ({
            let spec = spec_frame_front(
                st,
                *frame,
                match tap {
                    Some(c) => Some(*c),
                    None => None,
                },
                match two {
                    Some(c) => Some(*c),
                    None => None,
                },
            );
            realizes(r, spec, frame.sequence) && keeps(s1, spec)
        }),
{
    proof {
        reveal(spec_frame_front);
    }
    let ghost stap = match tap {
        Some(c) => Some(*c),
        None => None,
    };
    let ghost stwo = match two {
        Some(c) => Some(*c),
        None => None,
    };
    let sequence = frame.sequence;
    let raw_left = frame.physical_buttons.left;
    let raw_right = frame.physical_buttons.right;
    let latch_allowed = summary.complete == 2 && match two {
        Some(c) => c.two_finger_physical_click_enabled(),
        None => false,
    };
    let r = press_reactions(s1, st.buttons, raw_left, raw_right, latch_allowed, sequence);
    let ghost sr = spec_press_reactions(s1, st.buttons, raw_left, raw_right, latch_allowed);
    let ghost sd = if frame.discontinuity {
        join_steps(sr, spec_discontinuity_step(sr.0, summary, stwo))
    } else {
        sr
    };
    let d = if frame.discontinuity {
        let x = discontinuity_step(r.state, summary, two, sequence);
        crate::pointer::combine(
            r,
            x,
            Ghost(s1),
            Ghost(sr),
            Ghost(spec_discontinuity_step(sr.0, summary, stwo)),
            sequence,
        )
    } else {
        r
    };
    let x = expire_step(d.state, tap, frame.monotonic_timestamp, sequence);
    let ghost sx = spec_expire_step(sd.0, stap, frame.monotonic_timestamp);
    crate::pointer::combine(d, x, Ghost(s1), Ghost(sd), Ghost(sx), sequence)
}

fn frame_back(
    front: InteractionState,
    before: InteractionState,
    frame: &ContactFrame,
    summary: ContactSummary,
    m: FrameMotion,
    tap: Option<&TapConfig>,
    two: Option<&TwoFingerConfig>,
) -> (r: (StepOut, PointerMotion, ScrollMotion))
    requires
        summary == spec_summary(frame.contacts@),
    ensures
        ({
            let spec = spec_frame_back(
                front,
                before,
                *frame,
                m,
                match tap {
                    Some(c) => Some(*c),
                    None => None,
                },
                match two {
                    Some(c) => Some(*c),
                    None => None,
                },
            );
            &&& realizes(r.0, spec.0, frame.sequence)
            &&& keeps(front, spec.0)
            &&& r.1 == spec.1
            &&& r.2 == spec.2
        }),
{
    let ghost stap = match tap {
        Some(c) => Some(*c),
        None => None,
    };
    let ghost stwo = match two {
        Some(c) => Some(*c),
        None => None,
    };
    proof {
        reveal(spec_frame_back);
    }
    let sequence = frame.sequence;
    let now = frame.monotonic_timestamp;
    let ended = ended_record(&frame.contacts, front.tracking_id);
    let cm = ContactMotion {
        first: summary.first,
        ended,
        crossed: m.crossed,
        tap_within_limits: m.tap_within_limits,
        discontinuity: frame.discontinuity,
        owner: m.owner,
    };
    let (c, pointer) = crate::pointer::contacts_step(front, summary.live, cm, tap, now, sequence);
    let ghost sc = crate::pointer::spec_contacts_step(front, summary.live, cm, stap, now);
    let runs_two = match m.owner {
        ContactOwner::Pointer | ContactOwner::PointerAfterDragReset => true,
        _ => false,
    };
    if runs_two {
        let sample = TwoFingerSample {
            live_present: summary.live > 0,
            complete: summary.complete,
            incomplete: summary.incomplete,
            pair: summary.pair,
            ended_pair: pair_ended(&frame.contacts, c.state.two_pair),
            crossed: m.scroll_crossed,
            secondary_within_limits: m.secondary_within_limits,
        };
        let latched_released = !frame.physical_buttons.left && before.buttons.physical_left_raw
            && before.buttons.latched_right;
        let (t, scroll) = crate::two_finger::two_finger_step(
            c.state,
            sample,
            two,
            latched_released,
            frame.discontinuity,
            sequence,
        );
        let ghost st2 = crate::two_finger::spec_two_finger_step(
            sc.0.0,
            sample,
            stwo,
            latched_released,
            frame.discontinuity,
        );
        (crate::pointer::combine(c, t, Ghost(front), Ghost(sc.0), Ghost(st2.0), sequence), pointer, scroll)
    } else {
        (c, pointer, ScrollMotion::Still)
    }
}


/// Kinds of output events the frame ordering sorts by.
#[derive(Clone, Copy, Debug, PartialEq, Eq, Structural)]
pub enum EventKind {
    /// A button press.
    Down,
    /// A button release.
    Up,
    /// A button press or release.
    Button,
    /// Anything but a button event.
    NotButton,
    /// A left release.
    LeftUp,
    /// A release of another button than the left one.
    OtherUp,
    /// A left press.
    LeftDown,
    /// A right press.
    RightDown,
    /// The end of a scroll.
    ScrollEnd,
    /// Anything but a button event or the end of a scroll.
    Rest,
}

/// The events of kind `k`.
pub open spec fn kind(k: EventKind) -> spec_fn(OutputEvent) -> bool {
    |e: OutputEvent|
        match k {
            EventKind::Down => e is ButtonDown,
            EventKind::Up => e is ButtonUp,
            EventKind::Button => e is ButtonDown || e is ButtonUp,
            EventKind::NotButton => !(e is ButtonDown || e is ButtonUp),
            EventKind::LeftUp => e == OutputEvent::ButtonUp(MouseButton::Left),
            EventKind::OtherUp => e is ButtonUp && e != OutputEvent::ButtonUp(MouseButton::Left),
            EventKind::LeftDown => e == OutputEvent::ButtonDown(MouseButton::Left),
            EventKind::RightDown => e == OutputEvent::ButtonDown(MouseButton::Right),
            EventKind::ScrollEnd => e == OutputEvent::ScrollEnd,
            EventKind::Rest => !(e is ButtonDown || e is ButtonUp) && e != OutputEvent::ScrollEnd,
        }
}

fn of_kind(e: &OutputEvent, k: EventKind) -> (r: bool)
    ensures
        r == kind(k)(*e),
{
    let down = match e {
        OutputEvent::ButtonDown(_) => true,
        _ => false,
    };
    let up = match e {
        OutputEvent::ButtonUp(_) => true,
        _ => false,
    };
    let left_up = match e {
        OutputEvent::ButtonUp(MouseButton::Left) => true,
        _ => false,
    };
    let left_down = match e {
        OutputEvent::ButtonDown(MouseButton::Left) => true,
        _ => false,
    };
    let right_down = match e {
        OutputEvent::ButtonDown(MouseButton::Right) => true,
        _ => false,
    };
    let scroll_end = match e {
        OutputEvent::ScrollEnd => true,
        _ => false,
    };
    match k {
        EventKind::Down => down,
        EventKind::Up => up,
        EventKind::Button => down || up,
        EventKind::NotButton => !(down || up),
        EventKind::LeftUp => left_up,
        EventKind::OtherUp => up && !left_up,
        EventKind::LeftDown => left_down,
        EventKind::RightDown => right_down,
        EventKind::ScrollEnd => scroll_end,
        EventKind::Rest => !(down || up) && !scroll_end,
    }
}

fn pick(events: &Vec<OutputEvent>, k: EventKind) -> (r: Vec<OutputEvent>)
    ensures
        r@ == events@.filter(kind(k)),
{
    let ghost all = events@;
    let mut picked: Vec<OutputEvent> = Vec::new();
    let mut i: usize = 0;
    assert(all.take(0) =~= Seq::<OutputEvent>::empty());
    assert(Seq::<OutputEvent>::empty().filter(kind(k)) =~= Seq::<OutputEvent>::empty()) by {
        reveal(Seq::filter);
    }
    while i < events.len()
        invariant
            all == events@,
            i <= events.len(),
            picked@ == all.take(i as int).filter(kind(k)),
        decreases events.len() - i,
    {
        proof {
            assert(all.take(i + 1) =~= all.take(i as int).push(all[i as int]));
            all.take(i as int).lemma_filter_push(all[i as int], kind(k));
        }
        if of_kind(&events[i], k) {
            picked.push(events[i]);
        }
        i = i + 1;
    }
    assert(all.take(events.len() as int) =~= all);
    picked
}

/// How a frame's output is ordered. The wire events are the physical ones,
/// then those of the policy, sorted into presses and releases. A left
/// release goes first when it hands ownership over to a right press (and
/// is no same-frame tap pulse), or when a pending tap press is released and
/// pressed again; then the ends of scrolls the frame closes; then the
/// presses; then the motion; then the policy's other events and those of
/// the recognizer owning the frame; then the remaining releases. The
/// result is what goes before the motion and what goes after it.
pub open spec fn spec_order(
    phys: Seq<OutputEvent>,
    policy: Seq<OutputEvent>,
    owner_events: Seq<OutputEvent>,
    before: ButtonSources,
    after: ButtonSources,
) -> (Seq<OutputEvent>, Seq<OutputEvent>) {
    let buttons = phys + policy.filter(kind(EventKind::Button));
    let downs = buttons.filter(kind(EventKind::Down));
    let ups = buttons.filter(kind(EventKind::Up));
    let left_pulse = downs.filter(kind(EventKind::LeftDown)).len() > 0 && ups.filter(
        kind(EventKind::LeftUp),
    ).len() > 0;
    let repress = before.synthetic_left && after.synthetic_left && !after.physical_left
        && policy.filter(kind(EventKind::LeftUp)).len() > 0 && policy.filter(
        kind(EventKind::LeftDown),
    ).len() > 0;
    let early_first = (!left_pulse && downs.filter(kind(EventKind::RightDown)).len() > 0) || repress;
    let early = if early_first {
        ups.filter(kind(EventKind::LeftUp))
    } else {
        Seq::empty()
    };
    let late = if early_first {
        ups.filter(kind(EventKind::OtherUp))
    } else {
        ups
    };
    (
        early + policy.filter(kind(EventKind::ScrollEnd)) + downs,
        policy.filter(kind(EventKind::Rest)) + owner_events.filter(kind(EventKind::NotButton)) + late,
    )
}

/// Press precedes movement, and final movement precedes release: nothing
/// after the motion is a press, and the only releases before it are left
/// releases that hand ownership over or end a pending tap press.
pub proof fn lemma_order_keeps_motion_between(
    phys: Seq<OutputEvent>,
    policy: Seq<OutputEvent>,
    owner_events: Seq<OutputEvent>,
    before: ButtonSources,
    after: ButtonSources,
)
    ensures
        ({
            let (first, second) = spec_order(phys, policy, owner_events, before, after);
            &&& forall|i: int| 0 <= i < second.len() ==> !(#[trigger] second[i] is ButtonDown)
            &&& forall|i: int|
                0 <= i < first.len() && (#[trigger] first[i] is ButtonUp) ==> first[i]
                    == OutputEvent::ButtonUp(MouseButton::Left)
        }),
{
    let buttons = phys + policy.filter(kind(EventKind::Button));
    let downs = buttons.filter(kind(EventKind::Down));
    let ups = buttons.filter(kind(EventKind::Up));
    downs.filter_lemma(kind(EventKind::Down));
    buttons.filter_lemma(kind(EventKind::Down));
    buttons.filter_lemma(kind(EventKind::Up));
    ups.filter_lemma(kind(EventKind::LeftUp));
    ups.filter_lemma(kind(EventKind::OtherUp));
    policy.filter_lemma(kind(EventKind::ScrollEnd));
    policy.filter_lemma(kind(EventKind::Rest));
    owner_events.filter_lemma(kind(EventKind::NotButton));
    let left_pulse = downs.filter(kind(EventKind::LeftDown)).len() > 0 && ups.filter(
        kind(EventKind::LeftUp),
    ).len() > 0;
    let repress = before.synthetic_left && after.synthetic_left && !after.physical_left
        && policy.filter(kind(EventKind::LeftUp)).len() > 0 && policy.filter(
        kind(EventKind::LeftDown),
    ).len() > 0;
    let early_first = (!left_pulse && downs.filter(kind(EventKind::RightDown)).len() > 0) || repress;
    let early = if early_first {
        ups.filter(kind(EventKind::LeftUp))
    } else {
        Seq::empty()
    };
    let late = if early_first {
        ups.filter(kind(EventKind::OtherUp))
    } else {
        ups
    };
    let rest = policy.filter(kind(EventKind::Rest));
    let owned = owner_events.filter(kind(EventKind::NotButton));
    let scroll_ends = policy.filter(kind(EventKind::ScrollEnd));
    let (first, second) = spec_order(phys, policy, owner_events, before, after);
    assert(first == early + scroll_ends + downs);
    assert(second == rest + owned + late);
    assert forall|i: int| 0 <= i < late.len() implies kind(EventKind::Up)(#[trigger] late[i]) || kind(
        EventKind::OtherUp,
    )(late[i]) by {
        if early_first {
            assert(kind(EventKind::OtherUp)(late[i]));
        } else {
            assert(kind(EventKind::Up)(late[i]));
        }
    }
    assert forall|i: int| 0 <= i < early.len() implies kind(EventKind::LeftUp)(#[trigger] early[i]) by {
        if early_first {
            assert(kind(EventKind::LeftUp)(early[i]));
        }
    }
    assert forall|i: int| 0 <= i < second.len() implies !(#[trigger] second[i] is ButtonDown) by {
        if i < rest.len() {
            assert(second[i] == rest[i]);
            assert(kind(EventKind::Rest)(rest[i]));
        } else if i < rest.len() + owned.len() {
            assert(second[i] == owned[i - rest.len()]);
            assert(kind(EventKind::NotButton)(owned[i - rest.len()]));
        } else {
            assert(second[i] == late[i - rest.len() - owned.len()]);
        }
    }
    assert forall|i: int|
        0 <= i < first.len() && (#[trigger] first[i] is ButtonUp) implies first[i]
        == OutputEvent::ButtonUp(MouseButton::Left) by {
        if i < early.len() {
            assert(first[i] == early[i]);
        } else if i < early.len() + scroll_ends.len() {
            assert(first[i] == scroll_ends[i - early.len()]);
            assert(kind(EventKind::ScrollEnd)(scroll_ends[i - early.len()]));
        } else {
            assert(first[i] == downs[i - early.len() - scroll_ends.len()]);
            assert(kind(EventKind::Down)(downs[i - early.len() - scroll_ends.len()]));
        }
    }
}


/// The arbiter's state between frames: the interaction state, and the
/// sequence and timestamp of the last accepted frame.
#[derive(Clone, Copy, Debug, PartialEq, Eq, Structural)]
pub struct ArbiterState {
    pub interaction: InteractionState,
    pub last_sequence: Option<u64>,
    pub last_timestamp: Option<Monotonic>,
}

/// The state before any frame: idle, nothing held, no frame accepted yet.
pub open spec fn spec_fresh() -> ArbiterState {
    ArbiterState {
        interaction: InteractionState {
            lifecycle: crate::arbiter::Lifecycle::Idle,
            tracking_id: None,
            tap_disqualified: false,
            tap: crate::interaction::TapState {
                phase: crate::arbiter::TapDragPhase::Idle,
                completed_at: None,
                drag_committed: false,
                candidate_began: None,
            },
            buttons: ButtonSources {
                physical_left: false,
                physical_left_raw: false,
                synthetic_left: false,
                physical_right: false,
                physical_right_raw: false,
                synthetic_right: false,
                latched_right: false,
            },
            two: TwoFingerState {
                phase: TwoFingerPhase::Idle,
                scroll_open: false,
                tap_disqualified: false,
            },
            two_pair: None,
        },
        last_sequence: None,
        last_timestamp: None,
    }
}

/// What [`ArbiterState::release_all`] emits from `st`: a left release when
/// the left wire is held, a right release when the right wire is held, and
/// the end of an open scroll.
pub open spec fn spec_release_all_events(st: ArbiterState) -> Seq<OutputEvent> {
    crate::interaction::event_if(
        st.interaction.buttons.wire_left(),
        OutputEvent::ButtonUp(MouseButton::Left),
    ) + crate::interaction::event_if(
        st.interaction.buttons.wire_right(),
        OutputEvent::ButtonUp(MouseButton::Right),
    ) + crate::interaction::event_if(st.interaction.two.scroll_open, OutputEvent::ScrollEnd)
}

impl ArbiterState {
    /// The state before any frame.
    pub fn fresh() -> (r: ArbiterState)
        ensures
            r == spec_fresh(),
            r.interaction.inv(),
    {
        ArbiterState { interaction: InteractionState::fresh(), last_sequence: None, last_timestamp: None }
    }

    /// The unconditional escape path: releases every held wire button and
    /// closes an open scroll, whatever the state (also after rejected or
    /// regressed frames), and resets the arbiter to its fresh state, the
    /// last accepted frame included. The releases replay on the wire.
    pub fn release_all(&mut self) -> (r: Vec<OutputEvent>)
        ensures
            r@ == spec_release_all_events(*old(self)),
            *final(self) == spec_fresh(),
            replays(
                old(self).interaction.buttons.wire_left(),
                old(self).interaction.buttons.wire_right(),
                r@,
                false,
                false,
            ),
    {
        let (_, events) = crate::interaction::release_all_buttons(
            self.interaction.buttons,
            self.interaction.two.scroll_open,
        );
        *self = ArbiterState::fresh();
        events
    }
}

/// Releasing everything twice releases nothing the second time and leaves
/// the fresh state as it is.
pub proof fn lemma_release_all_idempotent()
    ensures
        spec_release_all_events(spec_fresh()) == Seq::<OutputEvent>::empty(),
{
    assert(spec_release_all_events(spec_fresh()) =~= Seq::<OutputEvent>::empty());
}

/// The output of an accepted frame: the events before the motion, the
/// pointer and scroll motion owed, the events after it, the lifecycle
/// transitions and the diagnostics.
#[derive(Clone, Debug, PartialEq)]
pub struct FrameOutput {
    pub before_motion: Vec<OutputEvent>,
    pub pointer: PointerMotion,
    pub scroll: ScrollMotion,
    pub after_motion: Vec<OutputEvent>,
    pub transitions: Vec<LifecycleTransition>,
    pub diagnostics: Vec<Diagnostic>,
}

/// The state after a regressed frame: the one-finger interaction is
/// cancelled and the tap family and the two-finger interaction are
/// cancelled fail-closed, while every held button and an open scroll stay
/// held for the escape path.
pub open spec fn spec_regressed(st: InteractionState) -> InteractionState {
    let r = spec_cancel_on_regression(st.lifecycle, st.tracking_id, st.tap, st.two);
    let two_active = st.two.phase == TwoFingerPhase::Candidate || st.two.phase
        == TwoFingerPhase::CommittedScroll || st.two.phase == TwoFingerPhase::PhysicalSecondaryClickHeld;
    InteractionState {
        lifecycle: r.0,
        tracking_id: r.1,
        tap: r.2,
        two: r.3,
        tap_disqualified: if st.tracking_id is Some {
            false
        } else {
            st.tap_disqualified
        },
        two_pair: if two_active {
            None
        } else {
            st.two_pair
        },
        ..st
    }
}

/// The frame's output, ordered: what goes before the motion and what goes
/// after it (see [`spec_order`]).
pub open spec fn spec_frame_order(
    st: InteractionState,
    frame: ContactFrame,
    m: FrameMotion,
    owner_events: Seq<OutputEvent>,
    tap: Option<TapConfig>,
    two: Option<TwoFingerConfig>,
) -> (Seq<OutputEvent>, Seq<OutputEvent>) {
    let policy = spec_frame_policy(st, frame, m, tap, two);
    spec_order(policy.1, policy.0.1, owner_events, st.buttons, policy.0.0.buttons)
}

/// What [`frame_step`] promises of a frame taking the arbiter from
/// `before` to `after` with result `r`.
pub open spec fn frame_result(
    before: ArbiterState,
    after: ArbiterState,
    frame: ContactFrame,
    motion: FrameMotion,
    owner_events: Seq<OutputEvent>,
    tap: Option<TapConfig>,
    two: Option<TwoFingerConfig>,
    r: Result<FrameOutput, ArbiterError>,
) -> bool {
    &&& (rejecting_findings(frame).len() > 0 ==> {
        &&& r matches Err(ArbiterError::InvalidFrame { sequence, codes, reason })
        &&& sequence == frame.sequence
        &&& codes@ == rejecting_findings(frame).map_values(|f: Finding| f.1)
        &&& reason@ == joined_messages(rejecting_findings(frame))
        &&& after == before
    })
    &&& (rejecting_findings(frame).len() == 0 && spec_regression(
        before.last_sequence,
        before.last_timestamp,
        frame,
    ) is Some ==> {
        &&& r == Err::<FrameOutput, ArbiterError>(
            spec_regression(before.last_sequence, before.last_timestamp, frame).unwrap(),
        )
        &&& after.interaction == spec_regressed(before.interaction)
        &&& after.last_sequence == before.last_sequence
        &&& after.last_timestamp == before.last_timestamp
    })
    &&& (rejecting_findings(frame).len() == 0 && spec_regression(
        before.last_sequence,
        before.last_timestamp,
        frame,
    ) is None ==> r is Ok)
    &&& (r matches Ok(out) ==> {
        let tap_cfg = tap;
        let two_cfg = two;
        let policy = spec_frame_policy(before.interaction, frame, motion, tap_cfg, two_cfg);
        let order = spec_frame_order(
            before.interaction,
            frame,
            motion,
            owner_events,
            tap_cfg,
            two_cfg,
        );
        &&& rejecting_findings(frame).len() == 0
        &&& spec_regression(before.last_sequence, before.last_timestamp, frame) is None
        &&& out.before_motion@ == order.0
        &&& out.after_motion@ == order.1
        &&& out.pointer == policy.2
        &&& out.scroll == policy.3
        &&& out.transitions@ == policy.0.2
        &&& reports(out.diagnostics@, policy.0.3, frame.sequence)
        &&& after.interaction == policy.0.0
        &&& after.last_sequence == Some(frame.sequence)
        &&& after.last_timestamp == Some(frame.monotonic_timestamp)
        &&& replays(
            before.interaction.buttons.wire_left(),
            before.interaction.buttons.wire_right(),
            policy.1 + policy.0.1,
            after.interaction.buttons.wire_left(),
            after.interaction.buttons.wire_right(),
        )
        &&& chains(before.interaction.lifecycle, out.transitions@, after.interaction.lifecycle)
        &&& crate::pointer::same_physical(
            after.interaction.buttons,
            spec_physical_sources(
                before.interaction.buttons,
                frame.physical_buttons.left,
                frame.physical_buttons.right,
                frame_latch_allowed(spec_summary(frame.contacts@), two_cfg),
            ),
        )
        &&& after.interaction.buttons.physical_left_raw == frame.physical_buttons.left
        &&& after.interaction.buttons.physical_right == frame.physical_buttons.right
        &&& forall|i: int|
            0 <= i < out.after_motion@.len() ==> !(#[trigger] out.after_motion@[i] is ButtonDown)
        &&& forall|i: int|
            0 <= i < out.before_motion@.len() && (#[trigger] out.before_motion@[i] is ButtonUp)
                ==> out.before_motion@[i] == OutputEvent::ButtonUp(MouseButton::Left)
    })
}

/// Processes one frame. A frame whose validation reports an error or fatal
/// finding is rejected whole and changes nothing. A frame whose sequence or
/// timestamp regresses is rejected, and the interactions are cancelled
/// fail-closed (buttons and an open scroll stay held). Otherwise the frame
/// goes through [`spec_frame_policy`]: `motion` is what floating point and
/// the recognizers owning the frame decide, and `owner_events` are the
/// events of a recognizer owning the frame. Its output is ordered by
/// [`spec_order`]: presses before the motion, releases after it. In the
/// order the steps emit them, the frame's button events replay on the wire
/// from the buttons held before the frame to those held after it, and its
/// lifecycle transitions follow the lifecycle table. Whatever the policy
/// does (a cancellation, added fingers, missing coordinates, a
/// discontinuity), the physical sources after the frame are those its
/// physical report gives: a physical press or release is never suppressed.
pub fn frame_step(
    state: &mut ArbiterState,
    frame: &ContactFrame,
    motion: FrameMotion,
    owner_events: Vec<OutputEvent>,
    tap: Option<&TapConfig>,
    two: Option<&TwoFingerConfig>,
) -> (r: Result<FrameOutput, ArbiterError>)
    requires
        old(state).interaction.inv(),
    ensures
        final(state).interaction.inv(),
        frame_result(
            *old(state),
            *final(state),
            *frame,
            motion,
            owner_events@,
            match tap {
                Some(c) => Some(*c),
                None => None,
            },
            match two {
                Some(c) => Some(*c),
                None => None,
            },
            r,
        ),
{
    let admitted = admit_frame(state.last_sequence, state.last_timestamp, frame);
    match admitted {
        Err(e) => {
            match e {
                ArbiterError::SequenceRegression { .. } | ArbiterError::TimestampRegression { .. } => {
                    state.interaction = regress(state.interaction);
                },
                _ => {},
            }
            return Err(e);
        },
        Ok(()) => {},
    }
    let (next, out) = accept(state.interaction, frame, motion, owner_events, tap, two);
    state.interaction = next;
    state.last_sequence = Some(frame.sequence);
    state.last_timestamp = Some(frame.monotonic_timestamp);
    Ok(out)
}

/// What [`tick_step`] promises of a tick at `timestamp` taking the arbiter
/// from `before` to `after` with result `r`.
pub open spec fn tick_result(
    before: ArbiterState,
    after: ArbiterState,
    timestamp: Monotonic,
    tap: Option<TapConfig>,
    r: Result<Vec<OutputEvent>, ArbiterError>,
) -> bool {
    if before.last_timestamp matches Some(previous) && timestamp@ < previous@ {
        &&& r == Err::<Vec<OutputEvent>, ArbiterError>(
            ArbiterError::TimestampRegression { found: timestamp, previous: before.last_timestamp.unwrap() },
        )
        &&& after == before
    } else {
        let step = spec_expire_step(before.interaction, tap, timestamp);
        &&& r matches Ok(events)
        &&& events@ == step.1
        &&& after.interaction == step.0
        &&& after.last_sequence == before.last_sequence
        &&& after.last_timestamp == before.last_timestamp
        &&& replays(
            before.interaction.buttons.wire_left(),
            before.interaction.buttons.wire_right(),
            events@,
            after.interaction.buttons.wire_left(),
            after.interaction.buttons.wire_right(),
        )
    }
}

/// Advances the time-driven policy to `timestamp` without a frame: a
/// timestamp before the last accepted frame's is rejected and changes
/// nothing; otherwise the tap follow-up deadline is checked (a pending tap
/// press is released once the window expired). The last accepted frame
/// stays as it was.
pub fn tick_step(state: &mut ArbiterState, timestamp: Monotonic, tap: Option<&TapConfig>) -> (r: Result<
    Vec<OutputEvent>,
    ArbiterError,
>)
    requires
        old(state).interaction.inv(),
    ensures
        final(state).interaction.inv(),
        tick_result(
            *old(state),
            *final(state),
            timestamp,
            match tap {
                Some(c) => Some(*c),
                None => None,
            },
            r,
        ),
{
    if let Some(previous) = state.last_timestamp {
        if timestamp.as_nanos() < previous.as_nanos() {
            return Err(ArbiterError::TimestampRegression { found: timestamp, previous });
        }
    }
    let out = expire_step(state.interaction, tap, timestamp, 0);
    state.interaction = out.state;
    Ok(out.events)
}

fn regress(st: InteractionState) -> (r: InteractionState)
    requires
        st.inv(),
    ensures
        r == spec_regressed(st),
        r.inv(),
{
    let (lifecycle, tracking_id, tap_after, two_after) = cancel_on_regression(
        st.lifecycle,
        st.tracking_id,
        st.tap,
        st.two,
    );
    let two_active = st.two.phase == TwoFingerPhase::Candidate || st.two.phase
        == TwoFingerPhase::CommittedScroll || st.two.phase == TwoFingerPhase::PhysicalSecondaryClickHeld;
    InteractionState {
        lifecycle,
        tracking_id,
        tap: tap_after,
        two: two_after,
        tap_disqualified: if st.tracking_id.is_some() {
            false
        } else {
            st.tap_disqualified
        },
        two_pair: if two_active {
            None
        } else {
            st.two_pair
        },
        ..st
    }
}

fn accept(
    st: InteractionState,
    frame: &ContactFrame,
    motion: FrameMotion,
    owner_events: Vec<OutputEvent>,
    tap: Option<&TapConfig>,
    two: Option<&TwoFingerConfig>,
) -> (r: (InteractionState, FrameOutput))
    requires
        st.inv(),
    ensures
        r.0.inv(),
        ({
            let tap_cfg = match tap {
                Some(c) => Some(*c),
                None => None,
            };
            let two_cfg = match two {
                Some(c) => Some(*c),
                None => None,
            };
            let policy = spec_frame_policy(st, *frame, motion, tap_cfg, two_cfg);
            let order = spec_frame_order(st, *frame, motion, owner_events@, tap_cfg, two_cfg);
            let out = r.1;
            &&& out.before_motion@ == order.0
            &&& out.after_motion@ == order.1
            &&& out.pointer == policy.2
            &&& out.scroll == policy.3
            &&& out.transitions@ == policy.0.2
            &&& reports(out.diagnostics@, policy.0.3, frame.sequence)
            &&& r.0 == policy.0.0
            &&& replays(
                st.buttons.wire_left(),
                st.buttons.wire_right(),
                policy.1 + policy.0.1,
                r.0.buttons.wire_left(),
                r.0.buttons.wire_right(),
            )
            &&& chains(st.lifecycle, out.transitions@, r.0.lifecycle)
            &&& crate::pointer::same_physical(
                r.0.buttons,
                spec_physical_sources(
                    st.buttons,
                    frame.physical_buttons.left,
                    frame.physical_buttons.right,
                    frame_latch_allowed(spec_summary(frame.contacts@), two_cfg),
                ),
            )
            &&& forall|i: int|
                0 <= i < out.after_motion@.len() ==> !(#[trigger] out.after_motion@[i] is ButtonDown)
            &&& forall|i: int|
                0 <= i < out.before_motion@.len() && (#[trigger] out.before_motion@[i] is ButtonUp)
                    ==> out.before_motion@[i] == OutputEvent::ButtonUp(MouseButton::Left)
        }),
{
    let ghost stap = match tap {
        Some(c) => Some(*c),
        None => None,
    };
    let ghost stwo = match two {
        Some(c) => Some(*c),
        None => None,
    };
    let summary = summarize(&frame.contacts);
    let (buttons, phys) = crate::interaction::button_step(
        st.buttons,
        frame.physical_buttons.left,
        frame.physical_buttons.right,
        summary.complete == 2,
        two,
    );
    let s1 = InteractionState { buttons, ..st };
    let front = frame_front(st, s1, frame, summary, tap, two);
    let ghost sf = spec_frame_front(st, *frame, stap, stwo);
    let (back, pointer, scroll) = frame_back(front.state, st, frame, summary, motion, tap, two);
    let ghost sb = spec_frame_back(sf.0, st, *frame, motion, stap, stwo);
    let all = crate::pointer::combine(front, back, Ghost(s1), Ghost(sf), Ghost(sb.0), frame.sequence);
    proof {
        crate::pointer::lemma_replays_append(
            st.buttons.wire_left(),
            st.buttons.wire_right(),
            phys@,
            s1.buttons.wire_left(),
            s1.buttons.wire_right(),
            all.events@,
            all.state.buttons.wire_left(),
            all.state.buttons.wire_right(),
        );
        lemma_order_keeps_motion_between(phys@, all.events@, owner_events@, st.buttons, all.state.buttons);
        assert(s1.inv());
    }
    let (before_motion, after_motion) = order(&phys, &all.events, &owner_events, st.buttons, all.state.buttons);
    let StepOut { state: next, events: _, transitions, diagnostics } = all;
    (next, FrameOutput { before_motion, pointer, scroll, after_motion, transitions, diagnostics })
}

fn order(
    phys: &Vec<OutputEvent>,
    policy: &Vec<OutputEvent>,
    owner_events: &Vec<OutputEvent>,
    before: ButtonSources,
    after: ButtonSources,
) -> (r: (Vec<OutputEvent>, Vec<OutputEvent>))
    ensures
        r.0@ == spec_order(phys@, policy@, owner_events@, before, after).0,
        r.1@ == spec_order(phys@, policy@, owner_events@, before, after).1,
{
    let mut buttons = phys.clone();
    let mut policy_buttons = pick(policy, EventKind::Button);
    let ghost phys_view = phys@;
    proof {
        assert(buttons@ == phys@);
    }
    buttons.append(&mut policy_buttons);
    let downs = pick(&buttons, EventKind::Down);
    let ups = pick(&buttons, EventKind::Up);
    let left_pulse = pick(&downs, EventKind::LeftDown).len() > 0 && pick(&ups, EventKind::LeftUp).len() > 0;
    let repress = before.synthetic_left && after.synthetic_left && !after.physical_left && pick(
        policy,
        EventKind::LeftUp,
    ).len() > 0 && pick(policy, EventKind::LeftDown).len() > 0;
    let early_first = (!left_pulse && pick(&downs, EventKind::RightDown).len() > 0) || repress;
    let mut first = if early_first {
        pick(&ups, EventKind::LeftUp)
    } else {
        Vec::new()
    };
    let mut scroll_ends = pick(policy, EventKind::ScrollEnd);
    let mut downs_moved = downs;
    first.append(&mut scroll_ends);
    first.append(&mut downs_moved);
    let mut second = pick(policy, EventKind::Rest);
    let mut owned = pick(owner_events, EventKind::NotButton);
    let mut late = if early_first {
        pick(&ups, EventKind::OtherUp)
    } else {
        ups
    };
    second.append(&mut owned);
    second.append(&mut late);
    proof {
        let spec = spec_order(phys@, policy@, owner_events@, before, after);
        assert(first@ =~= spec.0);
        assert(second@ =~= spec.1);
    }
    (first, second)
}

/// No left button event.
pub open spec fn left_quiet(events: Seq<OutputEvent>) -> bool {
    forall|i: int|
        0 <= i < events.len() ==> events[i] != OutputEvent::ButtonDown(MouseButton::Left)
            && events[i] != OutputEvent::ButtonUp(MouseButton::Left)
}

/// Whether a state is one the arbiter reaches without a tap, a two-finger,
/// a continuous gesture or a three-finger drag configuration: no synthetic
/// left press, no latched press, and no pending tap policy.
pub open spec fn plain_pointer_state(st: InteractionState) -> bool {
    &&& st.inv()
    &&& !st.buttons.synthetic_left
    &&& !st.buttons.latched_right
    &&& (st.tap.phase == crate::arbiter::TapDragPhase::Idle || st.tap.phase
        == crate::arbiter::TapDragPhase::Cancelled || st.tap.phase
        == crate::arbiter::TapDragPhase::Finished)
}

/// Whether a tap phase holds no pending policy.
pub open spec fn quiet_phase(p: crate::arbiter::TapDragPhase) -> bool {
    p == crate::arbiter::TapDragPhase::Idle || p == crate::arbiter::TapDragPhase::Cancelled || p
        == crate::arbiter::TapDragPhase::Finished
}

/// Whether `b` follows `a` without a left event, the same buttons and a
/// quiet tap phase.
pub open spec fn left_kept(a: InteractionState, s: Step) -> bool {
    &&& left_quiet(s.1)
    &&& s.0.buttons == a.buttons
    &&& quiet_phase(s.0.tap.phase)
}

proof fn lemma_left_kept_join(a: InteractionState, x: Step, y: Step)
    requires
        left_kept(a, x),
        left_kept(x.0, y),
    ensures
        left_kept(a, join_steps(x, y)),
{
    let j = join_steps(x, y);
    assert forall|i: int| 0 <= i < j.1.len() implies j.1[i] != OutputEvent::ButtonDown(
        MouseButton::Left,
    ) && j.1[i] != OutputEvent::ButtonUp(MouseButton::Left) by {
        if i < x.1.len() {
            assert(j.1[i] == x.1[i]);
        } else {
            assert(j.1[i] == y.1[i - x.1.len()]);
        }
    }
}

proof fn lemma_still_kept(st: InteractionState)
    requires
        quiet_phase(st.tap.phase),
    ensures
        left_kept(st, still(st)),
{
}

proof fn lemma_tap_cancel_kept(st: InteractionState)
    requires
        quiet_phase(st.tap.phase),
    ensures
        spec_tap_cancel(st) == still(st),
        left_kept(st, spec_tap_cancel(st)),
{
}

proof fn lemma_two_end_kept(st: InteractionState, reason: &'static str)
    requires
        quiet_phase(st.tap.phase),
    ensures
        left_kept(st, crate::two_finger::spec_two_end(st, TwoEnd::Cancel(reason), false)),
        left_kept(st, crate::pointer::spec_two_cancel(st, reason)),
        left_kept(st, spec_yield_step(st)),
{
}

proof fn lemma_press_reactions_kept(s1: InteractionState, before: ButtonSources, raw_left: bool, raw_right: bool)
    requires
        quiet_phase(s1.tap.phase),
    ensures
        left_kept(s1, spec_press_reactions(s1, before, raw_left, raw_right, false)),
{
    let down = raw_left && !before.physical_left_raw;
    let up = !raw_left && before.physical_left_raw;
    let a = if down {
        let x = spec_tap_cancel(s1);
        lemma_tap_cancel_kept(s1);
        lemma_two_end_kept(x.0, "physical click");
        lemma_left_kept_join(s1, x, spec_yield_step(x.0));
        join_steps(x, spec_yield_step(x.0))
    } else if up && before.latched_right && s1.two.phase == TwoFingerPhase::PhysicalSecondaryClickHeld {
        still(InteractionState { two: TwoFingerState { phase: TwoFingerPhase::Finished, ..s1.two }, ..s1 })
    } else {
        still(s1)
    };
    assert(left_kept(s1, a));
    if raw_right && !before.physical_right_raw {
        let y = spec_tap_cancel(a.0);
        lemma_tap_cancel_kept(a.0);
        lemma_two_end_kept(y.0, "physical click");
        lemma_left_kept_join(a.0, y, spec_yield_step(y.0));
        lemma_left_kept_join(s1, a, join_steps(y, spec_yield_step(y.0)));
    }
}

proof fn lemma_discontinuity_kept(st: InteractionState, summary: ContactSummary)
    requires
        quiet_phase(st.tap.phase),
    ensures
        left_kept(st, spec_discontinuity_step(st, summary, None)),
{
    let a = spec_cancel_pointer(st, Some("discontinuity"));
    assert(left_kept(st, a));
    lemma_tap_cancel_kept(a.0);
    lemma_left_kept_join(st, a, spec_tap_cancel(a.0));
    let b = join_steps(a, spec_tap_cancel(a.0));
    let phase = b.0.two.phase;
    if phase != TwoFingerPhase::PhysicalSecondaryClickHeld && (phase == TwoFingerPhase::Candidate
        || phase == TwoFingerPhase::CommittedScroll) {
        lemma_two_end_kept(b.0, "discontinuity");
        lemma_left_kept_join(st, b, crate::two_finger::spec_two_end(b.0, TwoEnd::Cancel("discontinuity"), false));
    }
}

proof fn lemma_front_kept(st: InteractionState, frame: ContactFrame)
    requires
        quiet_phase(st.tap.phase),
    ensures
        left_kept(spec_buttons_taken(st, frame, None), spec_frame_front(st, frame, None, None)),
{
    reveal(spec_frame_front);
    let summary = spec_summary(frame.contacts@);
    let s1 = spec_buttons_taken(st, frame, None);
    let r = spec_press_reactions(
        s1,
        st.buttons,
        frame.physical_buttons.left,
        frame.physical_buttons.right,
        false,
    );
    lemma_press_reactions_kept(s1, st.buttons, frame.physical_buttons.left, frame.physical_buttons.right);
    let d = if frame.discontinuity {
        lemma_discontinuity_kept(r.0, summary);
        lemma_left_kept_join(s1, r, spec_discontinuity_step(r.0, summary, None));
        join_steps(r, spec_discontinuity_step(r.0, summary, None))
    } else {
        r
    };
    assert(spec_expire_step(d.0, None, frame.monotonic_timestamp) == still(d.0));
    lemma_left_kept_join(s1, d, still(d.0));
}

proof fn lemma_steps_kept(st: InteractionState, ours: i32, c: LiveContact, disc: bool, now: Monotonic, ended: bool, within: bool)
    requires
        quiet_phase(st.tap.phase),
    ensures
        left_kept(st, crate::pointer::spec_begin_pointer(st, c, disc, None, now)),
        left_kept(st, crate::pointer::spec_commit_pointer(st, ours)),
        left_kept(st, crate::pointer::spec_release_pointer(st, ours, ended, within, None, now)),
        left_kept(st, crate::pointer::spec_finish_pointer(st, ours)),
        left_kept(st, crate::pointer::spec_replace_old(st, ours, None)),
        left_kept(st, spec_cancel_pointer(st, Some("missing required coordinates"))),
        left_kept(st, spec_cancel_pointer(st, Some("unexpected tracking id replacement"))),
        left_kept(st, spec_cancel_pointer(st, Some("second live contact"))),
        left_kept(st, crate::pointer::spec_second_contact(st, ours)),
{
    lemma_tap_cancel_kept(spec_cancel_pointer(st, Some("second live contact")).0);
}

proof fn lemma_pointer_policy_kept(st: InteractionState, live: u32, m: ContactMotion, now: Monotonic)
    requires
        quiet_phase(st.tap.phase),
    ensures
        left_kept(st, crate::pointer::spec_pointer_policy(st, live, m, None, now).0),
{
    let c = m.first;
    let ended_complete = m.ended == Some(true);
    if live == 0 {
        if st.active() && st.tracking_id is Some {
            let ours = st.tracking_id.unwrap();
            let commits = st.lifecycle == crate::arbiter::Lifecycle::Candidate && ended_complete && m.crossed;
            lemma_steps_kept(st, ours, c, m.discontinuity, now, ended_complete, m.tap_within_limits);
            let a = if commits {
                crate::pointer::spec_commit_pointer(st, ours)
            } else {
                still(st)
            };
            lemma_steps_kept(a.0, ours, c, m.discontinuity, now, ended_complete, m.tap_within_limits);
            let b = crate::pointer::spec_release_pointer(a.0, ours, ended_complete, m.tap_within_limits, None, now);
            lemma_left_kept_join(st, a, b);
            lemma_steps_kept(b.0, ours, c, m.discontinuity, now, ended_complete, m.tap_within_limits);
            lemma_left_kept_join(st, join_steps(a, b), crate::pointer::spec_finish_pointer(b.0, ours));
        }
    } else if live == 1 {
        lemma_tap_cancel_kept(st);
        if st.active() && st.tracking_id is Some {
            let ours = st.tracking_id.unwrap();
            lemma_steps_kept(st, ours, c, m.discontinuity, now, ended_complete, m.tap_within_limits);
            if c.tracking_id == ours {
                if !c.complete {
                    let a = spec_cancel_pointer(st, Some("missing required coordinates"));
                    lemma_tap_cancel_kept(a.0);
                    lemma_left_kept_join(st, a, spec_tap_cancel(a.0));
                }
            } else if c.began {
                let a = crate::pointer::spec_replace_old(st, ours, None);
                lemma_steps_kept(a.0, ours, c, m.discontinuity, now, ended_complete, m.tap_within_limits);
                let f = crate::pointer::spec_finish_pointer(a.0, ours);
                lemma_left_kept_join(st, a, f);
                let b = join_steps(a, f);
                lemma_steps_kept(b.0, ours, c, m.discontinuity, now, ended_complete, m.tap_within_limits);
                if c.complete {
                    lemma_left_kept_join(st, b, crate::pointer::spec_begin_pointer(b.0, c, m.discontinuity, None, now));
                } else {
                    lemma_left_kept_join(st, b, still(b.0));
                }
            } else {
                let a = spec_cancel_pointer(st, Some("unexpected tracking id replacement"));
                lemma_tap_cancel_kept(a.0);
                lemma_left_kept_join(st, a, spec_tap_cancel(a.0));
            }
        } else {
            lemma_steps_kept(st, 0, c, m.discontinuity, now, ended_complete, m.tap_within_limits);
        }
    } else {
        lemma_tap_cancel_kept(st);
        if st.active() && st.tracking_id is Some {
            lemma_steps_kept(st, st.tracking_id.unwrap(), c, m.discontinuity, now, ended_complete, m.tap_within_limits);
        }
    }
}

proof fn lemma_back_kept(front: InteractionState, before: InteractionState, frame: ContactFrame, m: FrameMotion)
    requires
        quiet_phase(front.tap.phase),
        m.owner == ContactOwner::Pointer,
    ensures
        left_kept(front, spec_frame_back(front, before, frame, m, None, None).0),
{
    reveal(spec_frame_back);
    let summary = spec_summary(frame.contacts@);
    let cm = ContactMotion {
        first: summary.first,
        ended: spec_ended_record(frame.contacts@, front.tracking_id),
        crossed: m.crossed,
        tap_within_limits: m.tap_within_limits,
        discontinuity: frame.discontinuity,
        owner: m.owner,
    };
    lemma_pointer_policy_kept(front, summary.live, cm, frame.monotonic_timestamp);
    let c = crate::pointer::spec_contacts_step(front, summary.live, cm, None, frame.monotonic_timestamp);
    let sample = TwoFingerSample {
        live_present: summary.live > 0,
        complete: summary.complete,
        incomplete: summary.incomplete,
        pair: summary.pair,
        ended_pair: spec_pair_ended(frame.contacts@, c.0.0.two_pair),
        crossed: m.scroll_crossed,
        secondary_within_limits: m.secondary_within_limits,
    };
    let latched_released = !frame.physical_buttons.left && before.buttons.physical_left_raw
        && before.buttons.latched_right;
    let t = crate::two_finger::spec_two_finger_step(c.0.0, sample, None, latched_released, frame.discontinuity);
    assert(left_kept(c.0.0, t.0));
    lemma_left_kept_join(front, c.0, t.0);
}

proof fn lemma_filter_none(s: Seq<OutputEvent>, p: spec_fn(OutputEvent) -> bool)
    requires
        forall|i: int| 0 <= i < s.len() ==> !p(#[trigger] s[i]),
    ensures
        s.filter(p) == Seq::<OutputEvent>::empty(),
{
    assert(s.all(|x: OutputEvent| !p(x)));
    s.lemma_all_neg_filter_empty(p);
    assert(s.filter(p) =~= Seq::<OutputEvent>::empty());
}

proof fn lemma_filter_within(s: Seq<OutputEvent>, p: spec_fn(OutputEvent) -> bool, q: spec_fn(OutputEvent) -> bool)
    requires
        forall|x: OutputEvent| #[trigger] q(x) ==> p(x),
    ensures
        s.filter(p).filter(q) == s.filter(q),
    decreases s.len(),
{
    if s.len() == 0 {
        assert(s.filter(p) =~= Seq::<OutputEvent>::empty()) by {
            reveal(Seq::filter);
        }
        assert(s.filter(q) =~= Seq::<OutputEvent>::empty()) by {
            reveal(Seq::filter);
        }
        assert(Seq::<OutputEvent>::empty().filter(q) =~= Seq::<OutputEvent>::empty()) by {
            reveal(Seq::filter);
        }
    } else {
        let t = s.drop_last();
        let x = s.last();
        lemma_filter_within(t, p, q);
        assert(s =~= t.push(x));
        t.lemma_filter_push(x, p);
        t.lemma_filter_push(x, q);
        if p(x) {
            t.filter(p).lemma_filter_push(x, q);
        }
    }
}

proof fn lemma_event_if_filter(c: bool, e: OutputEvent, p: spec_fn(OutputEvent) -> bool)
    ensures
        crate::interaction::event_if(c, e).filter(p) == crate::interaction::event_if(c && p(e), e),
{
    assert(Seq::<OutputEvent>::empty().filter(p) =~= Seq::<OutputEvent>::empty()) by {
        reveal(Seq::filter);
    }
    if c {
        assert(seq![e] =~= Seq::<OutputEvent>::empty().push(e));
        Seq::<OutputEvent>::empty().lemma_filter_push(e, p);
        assert(crate::interaction::event_if(c && p(e), e) =~= (if p(e) {
            Seq::<OutputEvent>::empty().push(e)
        } else {
            Seq::<OutputEvent>::empty()
        }));
    }
}

proof fn lemma_order_left(
    phys: Seq<OutputEvent>,
    ev: Seq<OutputEvent>,
    owner_events: Seq<OutputEvent>,
    before: ButtonSources,
    after: ButtonSources,
    p: spec_fn(OutputEvent) -> bool,
)
    requires
        p == kind(EventKind::LeftDown) || p == kind(EventKind::LeftUp),
        ev.filter(p) == Seq::<OutputEvent>::empty(),
    ensures
        ({
            let order = spec_order(phys, ev, owner_events, before, after);
            (order.0 + order.1).filter(p) == phys.filter(p)
        }),
{
    let ld = kind(EventKind::LeftDown);
    let lu = kind(EventKind::LeftUp);
    let buttons = phys + ev.filter(kind(EventKind::Button));
    let downs = buttons.filter(kind(EventKind::Down));
    let ups = buttons.filter(kind(EventKind::Up));
    let scroll_ends = ev.filter(kind(EventKind::ScrollEnd));
    let rest = ev.filter(kind(EventKind::Rest));
    let owned = owner_events.filter(kind(EventKind::NotButton));
    let empty = Seq::<OutputEvent>::empty();
    lemma_filter_within(ev, kind(EventKind::Button), p);
    Seq::filter_distributes_over_add(phys, ev.filter(kind(EventKind::Button)), p);
    assert(buttons.filter(p) =~= phys.filter(p));
    ups.filter_lemma(lu);
    ups.filter_lemma(kind(EventKind::OtherUp));
    buttons.filter_lemma(kind(EventKind::Up));
    buttons.filter_lemma(kind(EventKind::Down));
    ev.filter_lemma(kind(EventKind::ScrollEnd));
    ev.filter_lemma(kind(EventKind::Rest));
    owner_events.filter_lemma(kind(EventKind::NotButton));
    lemma_filter_none(scroll_ends, p);
    lemma_filter_none(rest, p);
    lemma_filter_none(owned, p);
    lemma_filter_none(empty, p);
    lemma_filter_none(ups.filter(kind(EventKind::OtherUp)), p);
    let (first, second) = spec_order(phys, ev, owner_events, before, after);
    if p == ld {
        lemma_filter_within(buttons, kind(EventKind::Down), ld);
        lemma_filter_none(ups, ld);
        lemma_filter_none(ups.filter(lu), ld);
    } else {
        lemma_filter_within(buttons, kind(EventKind::Up), lu);
        lemma_filter_none(downs, lu);
        lemma_filter_within(ups, lu, lu);
    }
    let left_pulse = downs.filter(kind(EventKind::LeftDown)).len() > 0 && ups.filter(
        kind(EventKind::LeftUp),
    ).len() > 0;
    let repress = before.synthetic_left && after.synthetic_left && !after.physical_left
        && ev.filter(kind(EventKind::LeftUp)).len() > 0 && ev.filter(kind(EventKind::LeftDown)).len()
        > 0;
    let early_first = (!left_pulse && downs.filter(kind(EventKind::RightDown)).len() > 0) || repress;
    let early = if early_first {
        ups.filter(lu)
    } else {
        empty
    };
    let late = if early_first {
        ups.filter(kind(EventKind::OtherUp))
    } else {
        ups
    };
    assert(first == early + scroll_ends + downs);
    assert(second == rest + owned + late);
    Seq::filter_distributes_over_add(early, scroll_ends, p);
    Seq::filter_distributes_over_add(early + scroll_ends, downs, p);
    Seq::filter_distributes_over_add(rest, owned, p);
    Seq::filter_distributes_over_add(rest + owned, late, p);
    Seq::filter_distributes_over_add(first, second, p);
    assert((first + second).filter(p) =~= phys.filter(p));
}

proof fn lemma_phys_left(b: ButtonSources, pressed: bool, raw_right: bool, p: spec_fn(OutputEvent) -> bool)
    requires
        b.wf(),
        !b.synthetic_left,
        !b.latched_right,
        p == kind(EventKind::LeftDown) || p == kind(EventKind::LeftUp),
    ensures
        spec_physical_sources(b, pressed, raw_right, false).wire_left() == pressed,
        p == kind(EventKind::LeftDown) ==> spec_physical_events(b, pressed, raw_right, false).filter(p)
            == crate::interaction::event_if(
            !b.wire_left() && pressed,
            OutputEvent::ButtonDown(MouseButton::Left),
        ),
        p == kind(EventKind::LeftUp) ==> spec_physical_events(b, pressed, raw_right, false).filter(p)
            == crate::interaction::event_if(
            b.wire_left() && !pressed,
            OutputEvent::ButtonUp(MouseButton::Left),
        ),
{
    let after = spec_physical_sources(b, pressed, raw_right, false);
    let held = b.wire_left();
    let left_down = !held && pressed;
    let left_up = held && !pressed;
    let right_down = !b.wire_right() && after.wire_right();
    let right_up = b.wire_right() && !after.wire_right();
    let e_ld = OutputEvent::ButtonDown(MouseButton::Left);
    let e_rd = OutputEvent::ButtonDown(MouseButton::Right);
    let e_lu = OutputEvent::ButtonUp(MouseButton::Left);
    let e_ru = OutputEvent::ButtonUp(MouseButton::Right);
    let phys = spec_physical_events(b, pressed, raw_right, false);
    lemma_event_if_filter(left_down, e_ld, p);
    lemma_event_if_filter(right_down, e_rd, p);
    lemma_event_if_filter(left_up, e_lu, p);
    lemma_event_if_filter(right_up, e_ru, p);
    let x1 = crate::interaction::event_if(left_down, e_ld);
    let x2 = crate::interaction::event_if(right_down, e_rd);
    let x3 = crate::interaction::event_if(left_up, e_lu);
    let x4 = crate::interaction::event_if(right_up, e_ru);
    if left_up && right_down {
        lemma_event_if_filter(true, e_lu, p);
        lemma_event_if_filter(true, e_rd, p);
        let y1 = crate::interaction::event_if(true, e_lu);
        let y2 = crate::interaction::event_if(true, e_rd);
        assert(phys =~= y1 + y2);
        Seq::filter_distributes_over_add(y1, y2, p);
    } else {
        assert(phys == x1 + x2 + x3 + x4);
        Seq::filter_distributes_over_add(x1, x2, p);
        Seq::filter_distributes_over_add(x1 + x2, x3, p);
        Seq::filter_distributes_over_add(x1 + x2 + x3, x4, p);
    }
    if p == kind(EventKind::LeftDown) {
        assert(phys.filter(p) =~= crate::interaction::event_if(left_down, e_ld));
    } else {
        assert(phys.filter(p) =~= crate::interaction::event_if(left_up, e_lu));
    }
}

/// The physical left button at frame level: where no tap, two-finger,
/// continuous gesture or three-finger drag configuration is in play, an
/// accepted frame emits exactly one left press when the left button goes
/// down, exactly one left release when it goes up, and no left event
/// otherwise, also on frames that cancel the interaction, are discontinuous
/// or miss coordinates; and the left wire then follows the physical button.
pub proof fn lemma_frame_left_edge(
    st: InteractionState,
    frame: ContactFrame,
    m: FrameMotion,
    owner_events: Seq<OutputEvent>,
)
    requires
        plain_pointer_state(st),
        m.owner == ContactOwner::Pointer,
    ensures
        ({
            let policy = spec_frame_policy(st, frame, m, None, None);
            let order = spec_frame_order(st, frame, m, owner_events, None, None);
            let held = st.buttons.wire_left();
            let pressed = frame.physical_buttons.left;
            &&& (order.0 + order.1).filter(kind(EventKind::LeftDown)) == crate::interaction::event_if(
                !held && pressed,
                OutputEvent::ButtonDown(MouseButton::Left),
            )
            &&& (order.0 + order.1).filter(kind(EventKind::LeftUp)) == crate::interaction::event_if(
                held && !pressed,
                OutputEvent::ButtonUp(MouseButton::Left),
            )
            &&& policy.0.0.buttons.wire_left() == pressed
        }),
{
    let s1 = spec_buttons_taken(st, frame, None);
    lemma_front_kept(st, frame);
    let front = spec_frame_front(st, frame, None, None);
    lemma_back_kept(front.0, st, frame, m);
    let back = spec_frame_back(front.0, st, frame, m, None, None);
    lemma_left_kept_join(s1, front, back.0);
    let policy = spec_frame_policy(st, frame, m, None, None);
    assert(policy.0 == join_steps(front, back.0));
    let ev = policy.0.1;
    let ld = kind(EventKind::LeftDown);
    let lu = kind(EventKind::LeftUp);
    lemma_filter_none(ev, ld);
    lemma_filter_none(ev, lu);
    let pressed = frame.physical_buttons.left;
    let raw_right = frame.physical_buttons.right;
    lemma_phys_left(st.buttons, pressed, raw_right, ld);
    lemma_phys_left(st.buttons, pressed, raw_right, lu);
    lemma_order_left(policy.1, ev, owner_events, st.buttons, policy.0.0.buttons, ld);
    lemma_order_left(policy.1, ev, owner_events, st.buttons, policy.0.0.buttons, lu);
}

/// The interaction arbiter: its configuration and its state, which keeps
/// its invariant.
#[derive(Debug, PartialEq)]
pub struct Arbiter {
    config: crate::arbiter::ArbiterConfig,
    state: ArbiterState,
}

impl Arbiter {
    #[verifier::type_invariant]
    spec fn valid(self) -> bool {
        self.state.interaction.inv()
    }

    /// The arbiter's state.
    pub closed spec fn spec_state(&self) -> ArbiterState {
        self.state
    }

    /// The arbiter's configuration.
    pub closed spec fn spec_config(&self) -> crate::arbiter::ArbiterConfig {
        self.config
    }

    /// An arbiter in its fresh state.
    pub fn new(config: crate::arbiter::ArbiterConfig) -> (r: Arbiter)
        ensures
            r.spec_state() == spec_fresh(),
            r.spec_config() == config,
    {
        Arbiter { config, state: ArbiterState::fresh() }
    }

    /// The configuration.
    pub fn config(&self) -> (r: &crate::arbiter::ArbiterConfig)
        ensures
            *r == self.spec_config(),
    {
        &self.config
    }

    /// The state.
    pub fn state(&self) -> (r: ArbiterState)
        ensures
            r == self.spec_state(),
            r.interaction.inv(),
    {
        proof {
            use_type_invariant(self);
        }
        self.state
    }

    /// Processes one frame with the attached tap and two-finger
    /// configurations (see [`frame_step`]).
    pub fn frame(&mut self, frame: &ContactFrame, motion: FrameMotion, owner_events: Vec<OutputEvent>) -> (r: Result<
        FrameOutput,
        ArbiterError,
    >)
        ensures
            final(self).spec_config() == old(self).spec_config(),
            frame_result(
                old(self).spec_state(),
                final(self).spec_state(),
                *frame,
                motion,
                owner_events@,
                old(self).spec_config().spec_tap(),
                old(self).spec_config().spec_two_finger(),
                r,
            ),
    {
        proof {
            use_type_invariant(&*self);
        }
        let mut state = self.state;
        let r = frame_step(
            &mut state,
            frame,
            motion,
            owner_events,
            self.config.tap_config(),
            self.config.two_finger_config(),
        );
        self.state = state;
        r
    }

    /// Advances the time-driven policy (see [`tick_step`]).
    pub fn tick(&mut self, timestamp: Monotonic) -> (r: Result<Vec<OutputEvent>, ArbiterError>)
        ensures
            final(self).spec_config() == old(self).spec_config(),
            tick_result(
                old(self).spec_state(),
                final(self).spec_state(),
                timestamp,
                old(self).spec_config().spec_tap(),
                r,
            ),
    {
        proof {
            use_type_invariant(&*self);
        }
        let mut state = self.state;
        let r = tick_step(&mut state, timestamp, self.config.tap_config());
        self.state = state;
        r
    }

    /// The escape path (see [`ArbiterState::release_all`]); a second call
    /// releases nothing.
    pub fn release_all(&mut self) -> (r: Vec<OutputEvent>)
        ensures
            final(self).spec_config() == old(self).spec_config(),
            r@ == spec_release_all_events(old(self).spec_state()),
            final(self).spec_state() == spec_fresh(),
    {
        let mut state = self.state;
        let r = state.release_all();
        self.state = state;
        r
    }

    /// The one-finger lifecycle.
    pub fn lifecycle(&self) -> (r: crate::arbiter::Lifecycle)
        ensures
            r == self.spec_state().interaction.lifecycle,
    {
        self.state.interaction.lifecycle
    }

    /// The contact of the one-finger interaction, if any.
    pub fn tracking_id(&self) -> (r: Option<i32>)
        ensures
            r == self.spec_state().interaction.tracking_id,
    {
        self.state.interaction.tracking_id
    }

    /// Whether the left wire button is held.
    pub fn is_left_held(&self) -> (r: bool)
        ensures
            r == self.spec_state().interaction.buttons.wire_left(),
    {
        self.state.interaction.buttons.physical_left || self.state.interaction.buttons.synthetic_left
    }

    /// Whether the synthetic left source holds the left button.
    pub fn is_synthetic_left_held(&self) -> (r: bool)
        ensures
            r == self.spec_state().interaction.buttons.synthetic_left,
    {
        self.state.interaction.buttons.synthetic_left
    }

    /// Whether the physical left source holds the left button.
    pub fn is_physical_left_held(&self) -> (r: bool)
        ensures
            r == self.spec_state().interaction.buttons.physical_left,
    {
        self.state.interaction.buttons.physical_left
    }

    /// The tap family's phase.
    pub fn tap_drag_phase(&self) -> (r: crate::arbiter::TapDragPhase)
        ensures
            r == self.spec_state().interaction.tap.phase,
    {
        self.state.interaction.tap.phase
    }

    /// The two-finger phase.
    pub fn two_finger_phase(&self) -> (r: TwoFingerPhase)
        ensures
            r == self.spec_state().interaction.two.phase,
    {
        self.state.interaction.two.phase
    }

    /// Whether the right wire button is held.
    pub fn is_right_held(&self) -> (r: bool)
        ensures
            r == self.spec_state().interaction.buttons.wire_right(),
    {
        let b = self.state.interaction.buttons;
        b.physical_right || b.synthetic_right || b.latched_right
    }

    /// Whether the physical right source holds the right button.
    pub fn is_physical_right_held(&self) -> (r: bool)
        ensures
            r == self.spec_state().interaction.buttons.physical_right,
    {
        self.state.interaction.buttons.physical_right
    }

    /// Whether the synthetic right source holds the right button.
    pub fn is_synthetic_right_held(&self) -> (r: bool)
        ensures
            r == self.spec_state().interaction.buttons.synthetic_right,
    {
        self.state.interaction.buttons.synthetic_right
    }

    /// Whether a latched press holds the right button.
    pub fn is_latched_right_held(&self) -> (r: bool)
        ensures
            r == self.spec_state().interaction.buttons.latched_right,
    {
        self.state.interaction.buttons.latched_right
    }

    /// Whether a two-finger scroll is open.
    pub fn is_scroll_open(&self) -> (r: bool)
        ensures
            r == self.spec_state().interaction.two.scroll_open,
    {
        self.state.interaction.two.scroll_open
    }

    /// Whether a tick is owed: a pending tap press waits for its follow-up
    /// deadline.
    pub fn needs_timer_tick(&self) -> (r: bool)
        ensures
            r == (self.spec_state().interaction.tap.phase == crate::arbiter::TapDragPhase::FollowUpWindow),
    {
        self.state.interaction.tap.phase == crate::arbiter::TapDragPhase::FollowUpWindow
    }

    /// The timestamp of the last accepted frame.
    pub fn last_input_timestamp(&self) -> (r: Option<Monotonic>)
        ensures
            r == self.spec_state().last_timestamp,
    {
        self.state.last_timestamp
    }

    /// The sequence of the last accepted frame.
    pub fn last_input_sequence(&self) -> (r: Option<u64>)
        ensures
            r == self.spec_state().last_sequence,
    {
        self.state.last_sequence
    }
}


/// The state after aligning the button and scroll state with what an output
/// sink is known to hold: a held left adds the synthetic left source, a
/// released left clears both left sources; a held right adds the synthetic
/// right source, a released right clears the physical right source and the
/// latched press; the scroll is open exactly when the sink holds it open.
pub open spec fn spec_reconcile(s: ArbiterState, left: bool, right: bool, scroll: bool) -> ArbiterState {
    let b = s.interaction.buttons;
    let latched = right && b.latched_right;
    let raw_left = (left || latched) && b.physical_left_raw;
    let raw_right = right && b.physical_right_raw;
    ArbiterState {
        interaction: InteractionState {
            buttons: ButtonSources {
                physical_left: raw_left && !latched,
                physical_left_raw: raw_left,
                synthetic_left: left,
                physical_right: raw_right,
                physical_right_raw: raw_right,
                synthetic_right: right,
                latched_right: latched,
            },
            two: TwoFingerState { scroll_open: scroll, ..s.interaction.two },
            ..s.interaction
        },
        ..s
    }
}

impl Arbiter {
    /// Aligns the held buttons and the open scroll with what the output sink
    /// is known to hold (see [`spec_reconcile`]); the wire state afterwards
    /// is exactly the sink's.
    pub(crate) fn reconcile(&mut self, left: bool, right: bool, scroll: bool)
        ensures
            final(self).spec_config() == old(self).spec_config(),
            final(self).spec_state() == spec_reconcile(old(self).spec_state(), left, right, scroll),
            final(self).spec_state().interaction.buttons.wire_left() == left,
            final(self).spec_state().interaction.buttons.wire_right() == right,
            final(self).spec_state().interaction.two.scroll_open == scroll,
    {
        proof {
            use_type_invariant(&*self);
        }
        let mut state = self.state;
        let b = state.interaction.buttons;
        let latched = right && b.latched_right;
        let raw_left = (left || latched) && b.physical_left_raw;
        let raw_right = right && b.physical_right_raw;
        state.interaction.buttons = ButtonSources {
            physical_left: raw_left && !latched,
            physical_left_raw: raw_left,
            synthetic_left: left,
            physical_right: raw_right,
            physical_right_raw: raw_right,
            synthetic_right: right,
            latched_right: latched,
        };
        state.interaction.two.scroll_open = scroll;
        self.state = state;
    }
}

/// Whether no tap policy is pending, and, when one was pending before
/// (`pending`), its synthetic left press is released.
pub open spec fn tap_settled(st: InteractionState, pending: bool) -> bool {
    &&& quiet_phase(st.tap.phase)
    &&& pending ==> !st.buttons.synthetic_left
}

/// A physical press wins over the tap family: once the physical buttons of
/// a frame in which the right or the left button goes down have acted (the
/// front of the frame, before its contacts), no tap policy is pending, and a
/// synthetic left press that a pending tap policy held is released, so the
/// wire never shows the tap's left press together with a right press, and a
/// left press is the physical button's own.
pub proof fn lemma_right_press_settles_tap(
    st: InteractionState,
    frame: ContactFrame,
    tap: Option<TapConfig>,
    two: Option<TwoFingerConfig>,
)
    requires
        (frame.physical_buttons.right && !st.buttons.physical_right_raw) || (frame.physical_buttons.left
            && !st.buttons.physical_left_raw),
    ensures
        tap_settled(spec_frame_front(st, frame, tap, two).0, !quiet_phase(st.tap.phase)),
{
    reveal(spec_frame_front);
    let pending = !quiet_phase(st.tap.phase);
    let summary = spec_summary(frame.contacts@);
    let s1 = spec_buttons_taken(st, frame, two);
    let r = spec_press_reactions(
        s1,
        st.buttons,
        frame.physical_buttons.left,
        frame.physical_buttons.right,
        frame_latch_allowed(summary, two),
    );
    assert(tap_settled(r.0, pending));
    let d = if frame.discontinuity {
        join_steps(r, spec_discontinuity_step(r.0, summary, two))
    } else {
        r
    };
    assert(tap_settled(d.0, pending));
    let e = spec_expire_step(d.0, tap, frame.monotonic_timestamp);
    assert(tap_settled(e.0, pending));
}

} // verus!
