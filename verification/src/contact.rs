//! Contact and frame model.
//!
//! A [`ContactFrame`] is the normalized unit of input published by the
//! platform input layer once per report boundary. All interaction
//! algorithms consume frames; they never see raw kernel events. Pressure and
//! orientation are binary32 bit patterns (see [`crate::binary32`]).

use crate::binary32;
use crate::diagnostic::{Diagnostic, DiagnosticCode, DiagnosticLevel};
use crate::time::Monotonic;
use crate::text::{decimal, decimal_text, hex_text, hex_u32, join};
use crate::units::Millimeters;
use std::collections::HashSet;
use vstd::prelude::*;

verus! {

broadcast use vstd::std_specs::hash::group_hash_axioms;

/// Lifecycle state of a contact within a frame.
#[derive(Clone, Copy, Debug, PartialEq, Eq, Hash, Structural)]
pub enum ContactState {
    /// A new tracking id appeared in this frame.
    Began,
    /// The contact persisted from an earlier frame.
    Active,
    /// The contact ended in this frame.
    Ended,
}

/// Physical button state captured with a frame.
#[derive(Clone, Copy, Debug, PartialEq, Eq, Hash, Structural)]
pub struct PhysicalButtons {
    pub left: bool,
    pub right: bool,
    pub middle: bool,
}

impl PhysicalButtons {
    /// No physical button pressed.
    pub fn none() -> (r: PhysicalButtons)
        ensures
            r == (PhysicalButtons { left: false, right: false, middle: false }),
    {
        PhysicalButtons { left: false, right: false, middle: false }
    }

    /// Creates a button state from the three physical buttons.
    pub fn new(left: bool, right: bool, middle: bool) -> (r: PhysicalButtons)
        ensures
            r == (PhysicalButtons { left, right, middle }),
    {
        PhysicalButtons { left, right, middle }
    }

    /// Whether no physical button is pressed.
    pub fn is_empty(self) -> (r: bool)
        ensures
            r == (!self.left && !self.right && !self.middle),
    {
        !self.left && !self.right && !self.middle
    }
}

impl Default for PhysicalButtons {
    /// No physical button pressed.
    fn default() -> (r: PhysicalButtons)
        ensures
            r == (PhysicalButtons { left: false, right: false, middle: false }),
    {
        PhysicalButtons { left: false, right: false, middle: false }
    }
}

/// A single touch contact in a committed frame.
#[derive(Clone, Debug, PartialEq)]
pub struct Contact {
    /// Device tracking id; `>= 0` for live contacts.
    pub tracking_id: i32,
    /// Type-B slot index this contact occupies.
    pub slot: u32,
    /// Physical position in millimeters; `None` only while unknown.
    pub x_mm: Option<Millimeters>,
    /// Physical position in millimeters; `None` only while unknown.
    pub y_mm: Option<Millimeters>,
    /// Normalized pressure in `[0, 1]` (binary32 pattern), when reported.
    pub pressure: Option<u32>,
    /// Contact ellipse major axis in millimeters, when reported.
    pub major_mm: Option<Millimeters>,
    /// Contact ellipse minor axis in millimeters, when reported.
    pub minor_mm: Option<Millimeters>,
    /// Contact orientation in radians (binary32 pattern), when reported.
    pub orientation: Option<u32>,
    /// Lifecycle state within this frame.
    pub state: ContactState,
}

/// A finding of a validation: its severity, code, and message text.
pub type Finding = (DiagnosticLevel, DiagnosticCode, Seq<char>);

/// The severity, code, and message text of a diagnostic.
pub open spec fn finding_of(d: Diagnostic) -> Finding {
    (d.level, d.code, d.message@)
}

/// A single finding, or none.
pub open spec fn finding_if(
    condition: bool,
    level: DiagnosticLevel,
    code: DiagnosticCode,
    message: Seq<char>,
) -> Seq<Finding> {
    if condition {
        seq![(level, code, message)]
    } else {
        seq![]
    }
}

/// Message for a live contact with a negative tracking id.
pub open spec fn negative_live_id_text(slot: u32, tracking_id: i32) -> Seq<char> {
    "live contact on slot "@ + decimal_text(slot as int) + " has negative tracking id "@
        + decimal_text(tracking_id as int)
}

/// Message for a `Began` contact without coordinates.
pub open spec fn missing_coordinates_text(slot: u32) -> Seq<char> {
    "Began contact on slot "@ + decimal_text(slot as int) + " has missing coordinates"@
}

/// Message for an `Ended` contact without a tracking id.
pub open spec fn ended_without_id_text(slot: u32) -> Seq<char> {
    "Ended contact on slot "@ + decimal_text(slot as int) + " carries no tracking id"@
}

/// Message for a pressure outside `[0, 1]`, naming its binary32 pattern.
pub open spec fn pressure_range_text(pressure: u32) -> Seq<char> {
    "pressure (binary32 "@ + hex_text(pressure as nat, 8) + ") is outside [0, 1]"@
}

/// Message for a slot used twice in one frame.
pub open spec fn duplicate_slot_text(slot: u32, sequence: u64) -> Seq<char> {
    "duplicate slot "@ + decimal_text(slot as int) + " in frame "@ + decimal_text(sequence as int)
}

/// Whether an optional length is negative.
pub open spec fn negative_length(value: Option<Millimeters>) -> bool {
    value matches Some(m) && binary32::lt(m@, binary32::ZERO_BITS)
}

impl Contact {
    /// Whether both coordinates are known.
    pub open spec fn spec_is_complete(&self) -> bool {
        self.x_mm is Some && self.y_mm is Some
    }

    /// Findings on the tracking id and coordinates.
    pub open spec fn spec_state_findings(&self) -> Seq<Finding> {
        match self.state {
            ContactState::Ended => finding_if(
                self.tracking_id < 0,
                DiagnosticLevel::Error,
                DiagnosticCode::InvalidEventOrder,
                ended_without_id_text(self.slot),
            ),
            _ => finding_if(
                self.tracking_id < 0,
                DiagnosticLevel::Error,
                DiagnosticCode::InvalidEventOrder,
                negative_live_id_text(self.slot, self.tracking_id),
            ) + finding_if(
                self.state == ContactState::Began && !self.spec_is_complete(),
                DiagnosticLevel::Warning,
                DiagnosticCode::IncompleteNewContact,
                missing_coordinates_text(self.slot),
            ),
        }
    }

    /// Findings on the pressure.
    pub open spec fn spec_pressure_findings(&self) -> Seq<Finding> {
        match self.pressure {
            Some(p) => if !binary32::is_finite(p) {
                seq![
                    (
                        DiagnosticLevel::Error,
                        DiagnosticCode::NonFiniteValue,
                        "pressure must be finite"@,
                    ),
                ]
            } else if !(binary32::le(binary32::ZERO_BITS, p) && binary32::le(p, binary32::ONE_BITS)) {
                seq![(DiagnosticLevel::Error, DiagnosticCode::OutOfRangeValue, pressure_range_text(p))]
            } else {
                seq![]
            },
            None => seq![],
        }
    }

    /// Findings on the orientation and the ellipse axes.
    pub open spec fn spec_shape_findings(&self) -> Seq<Finding> {
        finding_if(
            self.orientation matches Some(o) && !binary32::is_finite(o),
            DiagnosticLevel::Error,
            DiagnosticCode::NonFiniteValue,
            "orientation must be finite"@,
        ) + finding_if(
            negative_length(self.major_mm),
            DiagnosticLevel::Error,
            DiagnosticCode::OutOfRangeValue,
            "major_mm must be non-negative"@,
        ) + finding_if(
            negative_length(self.minor_mm),
            DiagnosticLevel::Error,
            DiagnosticCode::OutOfRangeValue,
            "minor_mm must be non-negative"@,
        )
    }

    /// What [`Contact::validate`] reports, in order: a negative tracking id
    /// (any state), a `Began` contact without coordinates, a non-finite or
    /// out-of-range pressure, a non-finite orientation, a negative major
    /// then minor axis.
    pub open spec fn spec_findings(&self) -> Seq<Finding> {
        self.spec_state_findings() + self.spec_pressure_findings() + self.spec_shape_findings()
    }

    /// Creates a contact with no optional data filled in.
    pub fn new(tracking_id: i32, slot: u32, state: ContactState) -> (c: Contact)
        ensures
            c == (Contact {
                tracking_id,
                slot,
                x_mm: None,
                y_mm: None,
                pressure: None,
                major_mm: None,
                minor_mm: None,
                orientation: None,
                state,
            }),
    {
        Contact {
            tracking_id,
            slot,
            state,
            x_mm: None,
            y_mm: None,
            pressure: None,
            major_mm: None,
            minor_mm: None,
            orientation: None,
        }
    }

    /// Whether both coordinates are known.
    pub fn is_complete(&self) -> (r: bool)
        ensures
            r == self.spec_is_complete(),
    {
        self.x_mm.is_some() && self.y_mm.is_some()
    }

    /// Structural validation, returning diagnostics instead of panicking:
    /// live and ended contacts carry a non-negative tracking id, `Began`
    /// contacts have both coordinates, pressure is a finite value in
    /// `[0, 1]`, orientation is finite, and ellipse axes are non-negative.
    pub fn validate(&self) -> (out: Vec<Diagnostic>)
        ensures
            out@.map_values(|d: Diagnostic| finding_of(d)) == self.spec_findings(),
            unframed(out@),
    {
        let mut out: Vec<Diagnostic> = Vec::new();
        assert(out@.map_values(|d: Diagnostic| finding_of(d)) =~= Seq::<Finding>::empty());
        self.push_state_findings(&mut out);
        self.push_pressure_findings(&mut out);
        self.push_shape_findings(&mut out);
        assert(self.spec_findings() =~= Seq::<Finding>::empty() + self.spec_state_findings()
            + self.spec_pressure_findings() + self.spec_shape_findings());
        out
    }

    fn push_state_findings(&self, out: &mut Vec<Diagnostic>)
        requires
            unframed(old(out)@),
        ensures
            unframed(final(out)@),
            final(out)@.map_values(|d: Diagnostic| finding_of(d)) == old(out)@.map_values(
                |d: Diagnostic| finding_of(d),
            ) + self.spec_state_findings(),
    {
        let ghost start = out@.map_values(|d: Diagnostic| finding_of(d));
        match self.state {
            ContactState::Began | ContactState::Active => {
                if self.tracking_id < 0 {
                    let message = negative_live_id_message(self.slot, self.tracking_id);
                    push_finding(
                        out,
                        DiagnosticLevel::Error,
                        DiagnosticCode::InvalidEventOrder,
                        message.as_str(),
                    );
                }
                if self.state == ContactState::Began && !self.is_complete() {
                    let message = missing_coordinates_message(self.slot);
                    push_finding(
                        out,
                        DiagnosticLevel::Warning,
                        DiagnosticCode::IncompleteNewContact,
                        message.as_str(),
                    );
                }
            },
            ContactState::Ended => {
                if self.tracking_id < 0 {
                    let message = ended_without_id_message(self.slot);
                    push_finding(
                        out,
                        DiagnosticLevel::Error,
                        DiagnosticCode::InvalidEventOrder,
                        message.as_str(),
                    );
                }
            },
        }
        assert(out@.map_values(|d: Diagnostic| finding_of(d)) =~= start
            + self.spec_state_findings());
    }

    fn push_pressure_findings(&self, out: &mut Vec<Diagnostic>)
        requires
            unframed(old(out)@),
        ensures
            unframed(final(out)@),
            final(out)@.map_values(|d: Diagnostic| finding_of(d)) == old(out)@.map_values(
                |d: Diagnostic| finding_of(d),
            ) + self.spec_pressure_findings(),
    {
        let ghost start = out@.map_values(|d: Diagnostic| finding_of(d));
        if let Some(pressure) = self.pressure {
            if !binary32::finite(pressure) {
                push_finding(
                    out,
                    DiagnosticLevel::Error,
                    DiagnosticCode::NonFiniteValue,
                    "pressure must be finite",
                );
            } else if !(binary32::less_or_equal(binary32::ZERO_BITS, pressure)
                && binary32::less_or_equal(pressure, binary32::ONE_BITS)) {
                let message = pressure_range_message(pressure);
                push_finding(
                    out,
                    DiagnosticLevel::Error,
                    DiagnosticCode::OutOfRangeValue,
                    message.as_str(),
                );
            }
        }
        assert(out@.map_values(|d: Diagnostic| finding_of(d)) =~= start
            + self.spec_pressure_findings());
    }

    fn push_shape_findings(&self, out: &mut Vec<Diagnostic>)
        requires
            unframed(old(out)@),
        ensures
            unframed(final(out)@),
            final(out)@.map_values(|d: Diagnostic| finding_of(d)) == old(out)@.map_values(
                |d: Diagnostic| finding_of(d),
            ) + self.spec_shape_findings(),
    {
        let ghost start = out@.map_values(|d: Diagnostic| finding_of(d));
        if let Some(orientation) = self.orientation {
            if !binary32::finite(orientation) {
                push_finding(
                    out,
                    DiagnosticLevel::Error,
                    DiagnosticCode::NonFiniteValue,
                    "orientation must be finite",
                );
            }
        }
        if let Some(major) = self.major_mm {
            if binary32::less_than(major.to_bits(), binary32::ZERO_BITS) {
                push_finding(
                    out,
                    DiagnosticLevel::Error,
                    DiagnosticCode::OutOfRangeValue,
                    "major_mm must be non-negative",
                );
            }
        }
        if let Some(minor) = self.minor_mm {
            if binary32::less_than(minor.to_bits(), binary32::ZERO_BITS) {
                push_finding(
                    out,
                    DiagnosticLevel::Error,
                    DiagnosticCode::OutOfRangeValue,
                    "minor_mm must be non-negative",
                );
            }
        }
        assert(out@.map_values(|d: Diagnostic| finding_of(d)) =~= start
            + self.spec_shape_findings());
    }
}

/// Whether no diagnostic of a list is tied to a frame.
pub open spec fn unframed(diagnostics: Seq<Diagnostic>) -> bool {
    forall|i: int| 0 <= i < diagnostics.len() ==> (#[trigger] diagnostics[i]).frame_sequence is None
}

/// Appends a diagnostic not tied to a frame.
fn push_finding(out: &mut Vec<Diagnostic>, level: DiagnosticLevel, code: DiagnosticCode, message: &str)
    requires
        unframed(old(out)@),
    ensures
        unframed(final(out)@),
        final(out)@.map_values(|d: Diagnostic| finding_of(d)) == old(out)@.map_values(
            |d: Diagnostic| finding_of(d),
        ).push((level, code, message@)),
{
    out.push(Diagnostic::new(level, code, message));
    assert(out@.map_values(|d: Diagnostic| finding_of(d)) =~= old(out)@.map_values(
        |d: Diagnostic| finding_of(d),
    ).push((level, code, message@)));
}

/// Builds [`negative_live_id_text`].
fn negative_live_id_message(slot: u32, tracking_id: i32) -> (r: String)
    ensures
        r@ == negative_live_id_text(slot, tracking_id),
{
    let slot_text = decimal(slot as i128);
    let head = join("live contact on slot ", slot_text.as_str());
    let middle = join(head.as_str(), " has negative tracking id ");
    let id_text = decimal(tracking_id as i128);
    join(middle.as_str(), id_text.as_str())
}

/// Builds [`missing_coordinates_text`].
fn missing_coordinates_message(slot: u32) -> (r: String)
    ensures
        r@ == missing_coordinates_text(slot),
{
    let slot_text = decimal(slot as i128);
    let head = join("Began contact on slot ", slot_text.as_str());
    join(head.as_str(), " has missing coordinates")
}

/// Builds [`ended_without_id_text`].
fn ended_without_id_message(slot: u32) -> (r: String)
    ensures
        r@ == ended_without_id_text(slot),
{
    let slot_text = decimal(slot as i128);
    let head = join("Ended contact on slot ", slot_text.as_str());
    join(head.as_str(), " carries no tracking id")
}

/// Builds [`pressure_range_text`].
fn pressure_range_message(pressure: u32) -> (r: String)
    ensures
        r@ == pressure_range_text(pressure),
{
    let shown = hex_u32(pressure);
    let head = join("pressure (binary32 ", shown.as_str());
    join(head.as_str(), ") is outside [0, 1]")
}

/// Builds [`duplicate_slot_text`].
fn duplicate_slot_message(slot: u32, sequence: u64) -> (r: String)
    ensures
        r@ == duplicate_slot_text(slot, sequence),
{
    let slot_text = decimal(slot as i128);
    let head = join("duplicate slot ", slot_text.as_str());
    let middle = join(head.as_str(), " in frame ");
    let sequence_text = decimal(sequence as i128);
    join(middle.as_str(), sequence_text.as_str())
}

/// A committed frame of input state, published once per report boundary.
#[derive(Clone, Debug, PartialEq)]
pub struct ContactFrame {
    /// Monotonic timestamp of the frame.
    pub monotonic_timestamp: Monotonic,
    /// Monotonically increasing frame sequence.
    pub sequence: u64,
    /// True when the input stream lost continuity and was resynchronized;
    /// consumers must not compare this frame's contacts with the previous
    /// frame.
    pub discontinuity: bool,
    /// Contacts in this frame.
    pub contacts: Vec<Contact>,
    /// Physical button state as of this frame.
    pub physical_buttons: PhysicalButtons,
    /// Diagnostics attached to this frame.
    pub diagnostics: Vec<Diagnostic>,
}

/// Whether the contact at position `i` reuses the slot of an earlier one.
pub open spec fn slot_seen_before(contacts: Seq<Contact>, i: int) -> bool {
    exists|j: int| 0 <= j < i && contacts[j].slot == contacts[i].slot
}

/// What [`ContactFrame::validate`] reports for the first `n` contacts: for
/// each contact, a duplicate-slot finding when its slot was already used,
/// then the contact's own findings.
pub open spec fn frame_findings(contacts: Seq<Contact>, sequence: u64, n: int) -> Seq<Finding>
    decreases n,
{
    if n <= 0 {
        seq![]
    } else {
        frame_findings(contacts, sequence, n - 1) + finding_if(
            slot_seen_before(contacts, n - 1),
            DiagnosticLevel::Error,
            DiagnosticCode::DuplicateSlot,
            duplicate_slot_text(contacts[n - 1].slot, sequence),
        ) + contacts[n - 1].spec_findings()
    }
}

impl ContactFrame {
    /// Creates an empty, continuous frame.
    pub fn new(monotonic_timestamp: Monotonic, sequence: u64) -> (f: ContactFrame)
        ensures
            f.monotonic_timestamp == monotonic_timestamp,
            f.sequence == sequence,
            !f.discontinuity,
            f.contacts@.len() == 0,
            f.physical_buttons == (PhysicalButtons { left: false, right: false, middle: false }),
            f.diagnostics@.len() == 0,
    {
        ContactFrame {
            monotonic_timestamp,
            sequence,
            discontinuity: false,
            contacts: Vec::new(),
            physical_buttons: PhysicalButtons { left: false, right: false, middle: false },
            diagnostics: Vec::new(),
        }
    }

    /// Creates an empty frame flagged as discontinuous (after resync).
    pub fn with_discontinuity(monotonic_timestamp: Monotonic, sequence: u64) -> (f: ContactFrame)
        ensures
            f.monotonic_timestamp == monotonic_timestamp,
            f.sequence == sequence,
            f.discontinuity,
            f.contacts@.len() == 0,
            f.physical_buttons == (PhysicalButtons { left: false, right: false, middle: false }),
            f.diagnostics@.len() == 0,
    {
        let mut frame = ContactFrame::new(monotonic_timestamp, sequence);
        frame.discontinuity = true;
        frame
    }

    /// Validates frame structure: no duplicate slots, plus per-contact
    /// validation, in contact order.
    pub fn validate(&self) -> (out: Vec<Diagnostic>)
        ensures
            out@.map_values(|d: Diagnostic| finding_of(d)) == frame_findings(
                self.contacts@,
                self.sequence,
                self.contacts@.len() as int,
            ),
            unframed(out@),
    {
        let mut out: Vec<Diagnostic> = Vec::new();
        let mut seen: HashSet<u32> = HashSet::new();
        let mut i: usize = 0;
        while i < self.contacts.len()
            invariant
                0 <= i <= self.contacts@.len(),
                out@.map_values(|d: Diagnostic| finding_of(d)) == frame_findings(
                    self.contacts@,
                    self.sequence,
                    i as int,
                ),
                unframed(out@),
                forall|s: u32|
                    #[trigger] seen@.contains(s) <==> exists|j: int|
                        0 <= j < i && self.contacts@[j].slot == s,
            decreases self.contacts@.len() - i,
        {
            let contact = &self.contacts[i];
            let ghost before = out@;
            let fresh = seen.insert(contact.slot);
            assert(fresh == !slot_seen_before(self.contacts@, i as int));
            if !fresh {
                let message = duplicate_slot_message(contact.slot, self.sequence);
                push_finding(
                    &mut out,
                    DiagnosticLevel::Error,
                    DiagnosticCode::DuplicateSlot,
                    message.as_str(),
                );
            }
            let ghost middle = out@;
            let mut found = contact.validate();
            let ghost found_view = found@;
            out.append(&mut found);
            proof {
                let f = |d: Diagnostic| finding_of(d);
                assert(out@ =~= middle + found_view);
                assert(middle.map_values(f) =~= before.map_values(f) + finding_if(
                    slot_seen_before(self.contacts@, i as int),
                    DiagnosticLevel::Error,
                    DiagnosticCode::DuplicateSlot,
                    duplicate_slot_text(self.contacts@[i as int].slot, self.sequence),
                ));
                assert(found_view.map_values(f) == self.contacts@[i as int].spec_findings());
                assert(out@.map_values(f) =~= middle.map_values(f) + found_view.map_values(f));
                assert(frame_findings(self.contacts@, self.sequence, i + 1) == frame_findings(
                    self.contacts@,
                    self.sequence,
                    i as int,
                ) + finding_if(
                    slot_seen_before(self.contacts@, i as int),
                    DiagnosticLevel::Error,
                    DiagnosticCode::DuplicateSlot,
                    duplicate_slot_text(self.contacts@[i as int].slot, self.sequence),
                ) + self.contacts@[i as int].spec_findings());
                assert(out@.map_values(f) =~= frame_findings(self.contacts@, self.sequence, i + 1));
            }
            i = i + 1;
        }
        out
    }
}


/// Whether the first `n` contacts have distinct slots and each validates
/// clean.
pub open spec fn clean_prefix(contacts: Seq<Contact>, n: int) -> bool {
    forall|i: int|
        #![trigger contacts[i].spec_findings()]
        #![trigger slot_seen_before(contacts, i)]
        0 <= i < n ==> !slot_seen_before(contacts, i) && contacts[i].spec_findings().len() == 0
}

/// A frame validates clean exactly when its slots are distinct and each of
/// its contacts validates clean.
pub proof fn lemma_clean_frame(contacts: Seq<Contact>, sequence: u64, n: int)
    requires
        0 <= n <= contacts.len(),
    ensures
        frame_findings(contacts, sequence, n).len() == 0 <==> clean_prefix(contacts, n),
    decreases n,
{
    if n > 0 {
        lemma_clean_frame(contacts, sequence, n - 1);
        let dup = finding_if(
            slot_seen_before(contacts, n - 1),
            DiagnosticLevel::Error,
            DiagnosticCode::DuplicateSlot,
            duplicate_slot_text(contacts[n - 1].slot, sequence),
        );
        assert(frame_findings(contacts, sequence, n).len() == frame_findings(contacts, sequence, n - 1).len()
            + dup.len() + contacts[n - 1].spec_findings().len());
        assert(dup.len() == 0 <==> !slot_seen_before(contacts, n - 1));
        if clean_prefix(contacts, n) {
            assert(contacts[n - 1].spec_findings().len() == 0);
            assert(clean_prefix(contacts, n - 1));
        }
        if frame_findings(contacts, sequence, n).len() == 0 {
            assert(clean_prefix(contacts, n - 1));
            assert(contacts[n - 1].spec_findings().len() == 0);
        }
    }
}

} // verus!
