//! The two-finger policy of the interaction arbiter, as a step: a candidate
//! begins on two complete live contacts, commits a scroll once its centroid
//! crosses the scroll commit threshold, follows the pair, and ends on a
//! release (a qualifying secondary tap fires its right click pair) or is
//! cancelled by missing coordinates, an identity change or a third contact.
//!
//! Centroid distances and the secondary tap limits are floating point; the
//! caller hands their outcome in ([`TwoFingerSample`]).

use crate::arbiter::{TwoFingerConfig, TwoFingerPhase};
use crate::diagnostic::{DiagnosticCode, DiagnosticLevel};
use crate::interaction::{end_two_finger, no_reports, note, replays, reports, spec_end_two_finger, ButtonSources, TwoEnd, TwoFingerState};
use crate::output::OutputEvent;
use crate::pointer::{chains, keeps, realizes, still, InteractionState, Step, StepOut, TrackingPair};
use crate::text::{decimal, decimal_text, join};
use vstd::prelude::*;

verus! {

/// What a frame's contacts show the two-finger policy: whether any contact
/// is live; how many live contacts carry both coordinates and whether some
/// live contact lacks one; the tracking ids of the first two complete live
/// contacts (read when there are exactly two); whether an `Ended` record
/// with both coordinates exists for one of the pair's tracking ids; whether
/// the pair's centroid lies at least the scroll commit threshold from its
/// anchor; and whether the candidate stayed within the secondary tap
/// duration and per-contact movement.
#[derive(Clone, Copy, Debug, PartialEq, Eq, Structural)]
pub struct TwoFingerSample {
    pub live_present: bool,
    pub complete: u32,
    pub incomplete: bool,
    pub pair: TrackingPair,
    pub ended_pair: bool,
    pub crossed: bool,
    pub secondary_within_limits: bool,
}

/// The scroll motion a two-finger step owes, which the caller computes and
/// emits after the step's `ScrollBegin`.
#[derive(Clone, Copy, Debug, PartialEq, Eq, Structural)]
pub enum ScrollMotion {
    /// No scroll motion.
    Still,
    /// The scroll commits: the centroid's displacement from its anchor.
    Commit,
    /// The committed scroll follows the centroid.
    Follow,
}

/// A pair of tracking ids, ascending.
pub open spec fn sorted(pair: TrackingPair) -> TrackingPair {
    if pair.first <= pair.second {
        pair
    } else {
        TrackingPair { first: pair.second, second: pair.first }
    }
}

/// Whether a physical button, or a latched press, is held.
pub open spec fn physical_ownership(b: ButtonSources) -> bool {
    b.physical_left || b.physical_right || b.latched_right
}

/// Message of a begun two-finger candidate.
pub open spec fn pair_began_text(pair: TrackingPair) -> Seq<char> {
    "two-finger candidate began (tracking ids "@ + decimal_text(pair.first as int) + ", "@
        + decimal_text(pair.second as int) + ")"@
}

/// The two-finger interaction ends (see [`crate::interaction::end_two_finger`])
/// and forgets its pair.
pub open spec fn spec_two_end(st: InteractionState, end: TwoEnd, qualifies: bool) -> Step {
    let r = spec_end_two_finger(st.two, st.buttons, end, qualifies);
    (InteractionState { two: r.0, buttons: r.1, two_pair: None, ..st }, r.2, Seq::empty(), r.3)
}

pub(crate) fn two_end(st: InteractionState, end: TwoEnd, qualifies: bool, sequence: u64) -> (r: StepOut)
    ensures
        realizes(r, spec_two_end(st, end, qualifies), sequence),
        keeps(st, spec_two_end(st, end, qualifies)),
{
    let (two, buttons, events, diagnostics) = end_two_finger(st.two, st.buttons, end, qualifies, sequence);
    proof {
        reveal_with_fuel(chains, 1);
    }
    StepOut {
        state: InteractionState { two, buttons, two_pair: None, ..st },
        events,
        transitions: Vec::new(),
        diagnostics,
    }
}

/// The two-finger policy of one frame. Without a two-finger configuration
/// (or with every two-finger feature off) it only lifts the cluster's
/// secondary tap disqualification once no contact is live. Otherwise: with
/// no interaction active, two complete live contacts and no incomplete one
/// begin a candidate, unless a latched press was released in this frame or
/// a physical button is held; a candidate beginning across a discontinuity
/// is disqualified from the secondary tap. A held latched press is left
/// alone. An active interaction is cancelled by an incomplete live contact,
/// a duplicate identity, a changed pair or a third contact; it ends on a
/// release (clean when the pair has an `Ended` record with coordinates,
/// where a qualifying secondary tap fires); it commits a scroll
/// (`ScrollBegin`) once the centroid crosses the threshold while scrolling
/// is on and no physical button is held, and a committed scroll follows the
/// pair.
pub open spec fn spec_two_finger_step(
    st: InteractionState,
    sample: TwoFingerSample,
    cfg: Option<TwoFingerConfig>,
    latched_released: bool,
    discontinuity: bool,
) -> (Step, ScrollMotion) {
    let two = st.two;
    let enabled = cfg matches Some(c) && (c@.scroll_enabled || c@.secondary_tap_enabled
        || c@.two_finger_physical_click_enabled);
    let active = two.phase == TwoFingerPhase::Candidate || two.phase
        == TwoFingerPhase::CommittedScroll || two.phase == TwoFingerPhase::PhysicalSecondaryClickHeld;
    let lifted = InteractionState {
        two: TwoFingerState { tap_disqualified: false, ..two },
        ..st
    };
    if !enabled {
        (if sample.live_present { still(st) } else { still(lifted) }, ScrollMotion::Still)
    } else {
        let c = cfg.unwrap();
        let st1 = if !sample.live_present && !active { lifted } else { st };
        if !active {
            if sample.complete == 2 && !sample.incomplete && !latched_released && !physical_ownership(
                st.buttons,
            ) && (c@.scroll_enabled || c@.secondary_tap_enabled) {
                let pair = sorted(sample.pair);
                (
                    (
                        InteractionState {
                            two: TwoFingerState {
                                phase: TwoFingerPhase::Candidate,
                                tap_disqualified: st1.two.tap_disqualified || discontinuity,
                                ..two
                            },
                            two_pair: Some(pair),
                            ..st1
                        },
                        Seq::empty(),
                        Seq::empty(),
                        seq![
                            (
                                DiagnosticLevel::Info,
                                DiagnosticCode::TwoFingerScrollBegan,
                                pair_began_text(pair),
                            ),
                        ],
                    ),
                    ScrollMotion::Still,
                )
            } else {
                (still(st1), ScrollMotion::Still)
            }
        } else if two.phase == TwoFingerPhase::PhysicalSecondaryClickHeld {
            (still(st1), ScrollMotion::Still)
        } else if sample.incomplete {
            (spec_two_end(st1, TwoEnd::Cancel("missing required coordinates"), false), ScrollMotion::Still)
        } else if sample.complete <= 1 {
            if sample.ended_pair {
                let qualifies = c@.secondary_tap_enabled && !two.tap_disqualified
                    && sample.secondary_within_limits && !physical_ownership(st.buttons);
                (spec_two_end(st1, TwoEnd::Release, qualifies), ScrollMotion::Still)
            } else {
                (
                    spec_two_end(st1, TwoEnd::Cancel("release without Ended record"), false),
                    ScrollMotion::Still,
                )
            }
        } else if sample.complete == 2 {
            if sample.pair.first == sample.pair.second {
                (
                    spec_two_end(st1, TwoEnd::Cancel("duplicate tracking identity"), false),
                    ScrollMotion::Still,
                )
            } else if st.two_pair == Some(sorted(sample.pair)) {
                if two.phase == TwoFingerPhase::Candidate {
                    if c@.scroll_enabled && !physical_ownership(st.buttons) && sample.crossed {
                        (
                            (
                                InteractionState {
                                    two: TwoFingerState {
                                        phase: TwoFingerPhase::CommittedScroll,
                                        scroll_open: true,
                                        ..two
                                    },
                                    ..st1
                                },
                                seq![OutputEvent::ScrollBegin],
                                Seq::empty(),
                                seq![
                                    (
                                        DiagnosticLevel::Info,
                                        DiagnosticCode::TwoFingerScrollCommitted,
                                        "two-finger scroll committed: ScrollBegin emitted"@,
                                    ),
                                ],
                            ),
                            ScrollMotion::Commit,
                        )
                    } else {
                        (still(st1), ScrollMotion::Still)
                    }
                } else {
                    (still(st1), ScrollMotion::Follow)
                }
            } else {
                (
                    spec_two_end(st1, TwoEnd::Cancel("tracking id replacement"), false),
                    ScrollMotion::Still,
                )
            }
        } else {
            (spec_two_end(st1, TwoEnd::Cancel("third live contact"), false), ScrollMotion::Still)
        }
    }
}

/// Runs the two-finger policy of one frame: see [`spec_two_finger_step`].
/// `latched_released` tells whether a latched press was released in this
/// frame. The events replay on the wire from the old sources to the new
/// ones, the one-finger lifecycle is untouched, and scroll motion is owed
/// only by a candidate that commits or by a committed scroll.
pub fn two_finger_step(
    state: InteractionState,
    sample: TwoFingerSample,
    cfg: Option<&TwoFingerConfig>,
    latched_released: bool,
    discontinuity: bool,
    sequence: u64,
) -> (r: (StepOut, ScrollMotion))
    ensures
        ({
            let spec = spec_two_finger_step(
                state,
                sample,
                match cfg {
                    Some(c) => Some(*c),
                    None => None,
                },
                latched_released,
                discontinuity,
            );
            &&& realizes(r.0, spec.0, sequence)
            &&& r.1 == spec.1
            &&& keeps(state, spec.0)
        }),
        r.0.state.lifecycle == state.lifecycle,
        r.0.state.tracking_id == state.tracking_id,
        r.1 == ScrollMotion::Commit ==> state.two.phase == TwoFingerPhase::Candidate && sample.crossed,
        r.1 == ScrollMotion::Follow ==> state.two.phase == TwoFingerPhase::CommittedScroll,
{
    let two = state.two;
    let enabled = match cfg {
        Some(c) => c.scroll_enabled() || c.secondary_tap_enabled()
            || c.two_finger_physical_click_enabled(),
        None => false,
    };
    let active = two.phase == TwoFingerPhase::Candidate || two.phase == TwoFingerPhase::CommittedScroll
        || two.phase == TwoFingerPhase::PhysicalSecondaryClickHeld;
    let lifted = InteractionState {
        two: TwoFingerState { tap_disqualified: false, ..two },
        ..state
    };
    let ownership = state.buttons.physical_left || state.buttons.physical_right
        || state.buttons.latched_right;
    let c = match cfg {
        Some(c) if enabled => c,
        _ => {
            let keep = if sample.live_present {
                state
            } else {
                lifted
            };
            return (quiet(keep, sequence), ScrollMotion::Still);
        },
    };
    let st1 = if !sample.live_present && !active {
        lifted
    } else {
        state
    };
    if !active {
        if sample.complete == 2 && !sample.incomplete && !latched_released && !ownership && (
        c.scroll_enabled() || c.secondary_tap_enabled()) {
            let pair = if sample.pair.first <= sample.pair.second {
                sample.pair
            } else {
                TrackingPair { first: sample.pair.second, second: sample.pair.first }
            };
            let lo_text = decimal(pair.first as i128);
            let hi_text = decimal(pair.second as i128);
            let text = join("two-finger candidate began (tracking ids ", lo_text.as_str());
            let text = join(text.as_str(), ", ");
            let text = join(text.as_str(), hi_text.as_str());
            let text = join(text.as_str(), ")");
            let diagnostics = note(
                DiagnosticLevel::Info,
                DiagnosticCode::TwoFingerScrollBegan,
                text.as_str(),
                sequence,
            );
            proof {
                reveal_with_fuel(replays, 1);
                reveal_with_fuel(chains, 1);
            }
            return (
                StepOut {
                    state: InteractionState {
                        two: TwoFingerState {
                            phase: TwoFingerPhase::Candidate,
                            tap_disqualified: st1.two.tap_disqualified || discontinuity,
                            ..two
                        },
                        two_pair: Some(pair),
                        ..st1
                    },
                    events: Vec::new(),
                    transitions: Vec::new(),
                    diagnostics,
                },
                ScrollMotion::Still,
            );
        }
        return (quiet(st1, sequence), ScrollMotion::Still);
    }
    if two.phase == TwoFingerPhase::PhysicalSecondaryClickHeld {
        return (quiet(st1, sequence), ScrollMotion::Still);
    }
    if sample.incomplete {
        return (two_end(st1, TwoEnd::Cancel("missing required coordinates"), false, sequence), ScrollMotion::Still);
    }
    if sample.complete <= 1 {
        if sample.ended_pair {
            let qualifies = c.secondary_tap_enabled() && !two.tap_disqualified
                && sample.secondary_within_limits && !ownership;
            return (two_end(st1, TwoEnd::Release, qualifies, sequence), ScrollMotion::Still);
        }
        return (
            two_end(st1, TwoEnd::Cancel("release without Ended record"), false, sequence),
            ScrollMotion::Still,
        );
    }
    if sample.complete == 2 {
        if sample.pair.first == sample.pair.second {
            return (
                two_end(st1, TwoEnd::Cancel("duplicate tracking identity"), false, sequence),
                ScrollMotion::Still,
            );
        }
        let pair = if sample.pair.first <= sample.pair.second {
            sample.pair
        } else {
            TrackingPair { first: sample.pair.second, second: sample.pair.first }
        };
        let same = match state.two_pair {
            Some(known) => known.first == pair.first && known.second == pair.second,
            None => false,
        };
        if same {
            if two.phase == TwoFingerPhase::Candidate {
                if c.scroll_enabled() && !ownership && sample.crossed {
                    let mut events: Vec<OutputEvent> = Vec::new();
                    events.push(OutputEvent::ScrollBegin);
                    let diagnostics = note(
                        DiagnosticLevel::Info,
                        DiagnosticCode::TwoFingerScrollCommitted,
                        "two-finger scroll committed: ScrollBegin emitted",
                        sequence,
                    );
                    proof {
                        reveal_with_fuel(replays, 2);
                        reveal_with_fuel(chains, 1);
                    }
                    return (
                        StepOut {
                            state: InteractionState {
                                two: TwoFingerState {
                                    phase: TwoFingerPhase::CommittedScroll,
                                    scroll_open: true,
                                    ..two
                                },
                                ..st1
                            },
                            events,
                            transitions: Vec::new(),
                            diagnostics,
                        },
                        ScrollMotion::Commit,
                    );
                }
                return (quiet(st1, sequence), ScrollMotion::Still);
            }
            return (quiet(st1, sequence), ScrollMotion::Follow);
        }
        return (
            two_end(st1, TwoEnd::Cancel("tracking id replacement"), false, sequence),
            ScrollMotion::Still,
        );
    }
    (two_end(st1, TwoEnd::Cancel("third live contact"), false, sequence), ScrollMotion::Still)
}

fn quiet(st: InteractionState, sequence: u64) -> (r: StepOut)
    ensures
        realizes(r, still(st), sequence),
        keeps(st, still(st)),
{
    let empty = no_reports();
    proof {
        assert(reports(empty@, Seq::empty(), sequence));
        reveal_with_fuel(replays, 1);
        reveal_with_fuel(chains, 1);
    }
    StepOut { state: st, events: Vec::new(), transitions: Vec::new(), diagnostics: empty }
}

} // verus!
