//! Delivery accounting between the arbiter and an output sink.
//!
//! A sink may accept only a prefix of a decision's events. The ledger
//! records what the sink is known to hold (a left press, a right press, an
//! open scroll) from the events it accepted, faults after a partial
//! submission so that no further frame is fed until cleanup succeeds, keeps
//! the arbiter's held state aligned with the sink's, and decides which
//! releases cleanup still owes. The submissions themselves are made by the
//! caller, which hands their outcomes to these functions.

use crate::frame::{spec_fresh, spec_reconcile, Arbiter};
use crate::output::{MouseButton, OutputEvent};
use vstd::prelude::*;

verus! {

/// What the sink is known to hold.
#[derive(Clone, Copy, Debug, PartialEq, Eq, Structural)]
pub struct Delivered {
    pub left: bool,
    pub right: bool,
    pub scroll: bool,
}

/// Nothing held.
pub open spec fn spec_nothing() -> Delivered {
    Delivered { left: false, right: false, scroll: false }
}

/// What the sink holds after accepting one more event.
pub open spec fn spec_ack(d: Delivered, e: OutputEvent) -> Delivered {
    match e {
        OutputEvent::ButtonDown(MouseButton::Left) => Delivered { left: true, ..d },
        OutputEvent::ButtonUp(MouseButton::Left) => Delivered { left: false, ..d },
        OutputEvent::ButtonDown(MouseButton::Right) => Delivered { right: true, ..d },
        OutputEvent::ButtonUp(MouseButton::Right) => Delivered { right: false, ..d },
        OutputEvent::ScrollBegin => Delivered { scroll: true, ..d },
        OutputEvent::ScrollEnd => Delivered { scroll: false, ..d },
        _ => d,
    }
}

/// What the sink holds after accepting a sequence of events, in order.
pub open spec fn spec_ack_all(d: Delivered, s: Seq<OutputEvent>) -> Delivered
    decreases s.len(),
{
    if s.len() == 0 {
        d
    } else {
        spec_ack(spec_ack_all(d, s.drop_last()), s.last())
    }
}

/// The releases that cleanup owes, in submission order: the left up, the
/// right up, the scroll end.
pub open spec fn spec_owed(d: Delivered) -> Seq<OutputEvent> {
    (if d.left { seq![OutputEvent::ButtonUp(MouseButton::Left)] } else { Seq::empty() })
        + (if d.right { seq![OutputEvent::ButtonUp(MouseButton::Right)] } else { Seq::empty() })
        + (if d.scroll { seq![OutputEvent::ScrollEnd] } else { Seq::empty() })
}

/// What remains held after the explicit releases: an owed release stays
/// held when its submission failed.
pub open spec fn spec_after_explicit(d: Delivered, left_ok: bool, right_ok: bool, scroll_ok: bool) -> Delivered {
    Delivered { left: d.left && !left_ok, right: d.right && !right_ok, scroll: d.scroll && !scroll_ok }
}

/// Where a partial submission stopped, in the coordinates of the whole
/// decision.
#[derive(Clone, Copy, Debug, PartialEq, Eq, Structural)]
pub struct PartialSubmit {
    /// Index of the rejected event.
    pub index: usize,
    /// Number of events the sink accepted.
    pub accepted_prefix: usize,
    /// Number of events in the decision.
    pub decision_len: usize,
    /// The rejected event.
    pub failed_event: OutputEvent,
}

/// The delivery ledger: what the sink holds, and whether a partial
/// submission has blocked further frames.
#[derive(Clone, Copy, Debug, PartialEq, Eq, Structural)]
pub struct SinkLedger {
    pub delivered: Delivered,
    pub faulted: bool,
}

impl SinkLedger {
    /// Nothing delivered, not faulted.
    pub fn new() -> (r: SinkLedger)
        ensures
            r.delivered == spec_nothing(),
            !r.faulted,
    {
        SinkLedger { delivered: Delivered { left: false, right: false, scroll: false }, faulted: false }
    }

    /// Records one accepted event.
    pub fn ack(&mut self, event: &OutputEvent)
        ensures
            final(self).delivered == spec_ack(old(self).delivered, *event),
            final(self).faulted == old(self).faulted,
    {
        match event {
            OutputEvent::ButtonDown(MouseButton::Left) => self.delivered.left = true,
            OutputEvent::ButtonUp(MouseButton::Left) => self.delivered.left = false,
            OutputEvent::ButtonDown(MouseButton::Right) => self.delivered.right = true,
            OutputEvent::ButtonUp(MouseButton::Right) => self.delivered.right = false,
            OutputEvent::ScrollBegin => self.delivered.scroll = true,
            OutputEvent::ScrollEnd => self.delivered.scroll = false,
            _ => {},
        }
    }

    /// Records the accepted events `events[start..end]`, in order.
    pub fn accept(&mut self, events: &Vec<OutputEvent>, start: usize, end: usize)
        requires
            start <= end <= events.len(),
        ensures
            final(self).delivered == spec_ack_all(old(self).delivered, events@.subrange(
                start as int,
                end as int,
            )),
            final(self).faulted == old(self).faulted,
    {
        let ghost d0 = self.delivered;
        let mut i: usize = start;
        assert(events@.subrange(start as int, start as int) =~= Seq::<OutputEvent>::empty());
        while i < end
            invariant
                start <= i <= end <= events.len(),
                self.delivered == spec_ack_all(d0, events@.subrange(start as int, i as int)),
                self.faulted == old(self).faulted,
            decreases end - i,
        {
            assert(events@.subrange(start as int, i + 1).drop_last() =~= events@.subrange(
                start as int,
                i as int,
            ));
            self.ack(&events[i]);
            i = i + 1;
        }
    }

    /// Handles a submission of `events[start..end]` that the sink rejected
    /// after accepting `accepted` of its events, the rejected one at
    /// `failed` (both relative to the segment, clamped to it): records the
    /// accepted events, faults, aligns the arbiter with what the sink holds,
    /// and reports where the decision stopped. The events before `start`
    /// were accepted earlier. The arbiter's held buttons and open scroll are
    /// then exactly what the sink holds.
    pub fn fail(
        &mut self,
        arbiter: &mut Arbiter,
        events: &Vec<OutputEvent>,
        start: usize,
        end: usize,
        accepted: usize,
        failed: usize,
    ) -> (r: PartialSubmit)
        requires
            start < end <= events.len(),
        ensures
            ({
                let seg = end - start;
                let acc = if accepted < seg { accepted as int } else { seg };
                let rel = if failed < seg { failed as int } else { seg - 1 };
                &&& final(self).delivered == spec_ack_all(old(self).delivered, events@.subrange(
                    start as int,
                    start + acc,
                ))
                &&& final(self).faulted
                &&& r.accepted_prefix == start + acc
                &&& r.index == start + rel
                &&& r.decision_len == events.len()
                &&& r.failed_event == events@[start + rel]
            }),
            final(arbiter).spec_config() == old(arbiter).spec_config(),
            final(arbiter).spec_state() == spec_reconcile(
                old(arbiter).spec_state(),
                final(self).delivered.left,
                final(self).delivered.right,
                final(self).delivered.scroll,
            ),
            final(arbiter).spec_state().interaction.buttons.wire_left() == final(self).delivered.left,
            final(arbiter).spec_state().interaction.buttons.wire_right() == final(self).delivered.right,
            final(arbiter).spec_state().interaction.two.scroll_open == final(self).delivered.scroll,
    {
        let seg = end - start;
        let acc = if accepted < seg {
            accepted
        } else {
            seg
        };
        self.accept(events, start, start + acc);
        self.faulted = true;
        arbiter.reconcile(self.delivered.left, self.delivered.right, self.delivered.scroll);
        let rel = if failed < seg {
            failed
        } else {
            seg - 1
        };
        let index = start + rel;
        PartialSubmit {
            index,
            accepted_prefix: start + acc,
            decision_len: events.len(),
            failed_event: events[index],
        }
    }

    /// The releases that cleanup owes, in submission order.
    pub fn owed_releases(&self) -> (r: Vec<OutputEvent>)
        ensures
            r@ == spec_owed(self.delivered),
    {
        let mut r: Vec<OutputEvent> = Vec::new();
        if self.delivered.left {
            r.push(OutputEvent::ButtonUp(MouseButton::Left));
        }
        if self.delivered.right {
            r.push(OutputEvent::ButtonUp(MouseButton::Right));
        }
        if self.delivered.scroll {
            r.push(OutputEvent::ScrollEnd);
        }
        proof {
            assert(r@ =~= spec_owed(self.delivered));
        }
        r
    }

    /// Completes cleanup from the outcomes of the owed explicit releases
    /// (`left_ok`, `right_ok`, `scroll_ok`; an outcome for a release that
    /// was not owed is ignored) and of the sink's own cleanup (`cleanup_ok`).
    /// A successful sink cleanup releases everything it holds; otherwise a
    /// failed explicit release stays owed. The arbiter is aligned with what
    /// the sink holds. Only when every owed release and the sink cleanup
    /// succeeded is the arbiter reset and the fault cleared, and the result
    /// is `true`; otherwise nothing owed is forgotten and the result is
    /// `false`. Either way the arbiter's held buttons and open scroll are then
    /// exactly what the sink holds.
    pub fn finish_release(
        &mut self,
        arbiter: &mut Arbiter,
        left_ok: bool,
        right_ok: bool,
        scroll_ok: bool,
        cleanup_ok: bool,
    ) -> (r: bool)
        ensures
            ({
                let after = spec_after_explicit(old(self).delivered, left_ok, right_ok, scroll_ok);
                &&& r == (after == spec_nothing() && cleanup_ok)
                &&& final(self).delivered == (if cleanup_ok { spec_nothing() } else { after })
                &&& final(self).faulted == (old(self).faulted && !r)
                &&& r ==> final(arbiter).spec_state() == spec_fresh()
                &&& !r ==> final(arbiter).spec_state() == spec_reconcile(
                    old(arbiter).spec_state(),
                    final(self).delivered.left,
                    final(self).delivered.right,
                    final(self).delivered.scroll,
                )
            }),
            final(arbiter).spec_config() == old(arbiter).spec_config(),
            final(arbiter).spec_state().interaction.buttons.wire_left() == final(self).delivered.left,
            final(arbiter).spec_state().interaction.buttons.wire_right() == final(self).delivered.right,
            final(arbiter).spec_state().interaction.two.scroll_open == final(self).delivered.scroll,
    {
        let explicit_ok = !(self.delivered.left && !left_ok) && !(self.delivered.right && !right_ok)
            && !(self.delivered.scroll && !scroll_ok);
        if cleanup_ok {
            self.delivered = Delivered { left: false, right: false, scroll: false };
        } else {
            self.delivered = Delivered {
                left: self.delivered.left && !left_ok,
                right: self.delivered.right && !right_ok,
                scroll: self.delivered.scroll && !scroll_ok,
            };
        }
        arbiter.reconcile(self.delivered.left, self.delivered.right, self.delivered.scroll);
        if explicit_ok && cleanup_ok {
            let _ = arbiter.release_all();
            self.faulted = false;
            true
        } else {
            false
        }
    }
}

/// A ledger that owes nothing submits no release, and its cleanup succeeds
/// exactly when the sink's own cleanup does, whatever the explicit outcomes
/// would have been.
pub proof fn lemma_settled_release(left_ok: bool, right_ok: bool, scroll_ok: bool, cleanup_ok: bool)
    ensures
        spec_owed(spec_nothing()) == Seq::<OutputEvent>::empty(),
        (spec_after_explicit(spec_nothing(), left_ok, right_ok, scroll_ok) == spec_nothing() && cleanup_ok)
            == cleanup_ok,
{
    assert(spec_owed(spec_nothing()) =~= Seq::<OutputEvent>::empty());
}

} // verus!
