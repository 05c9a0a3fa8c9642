use touchpad_core::contact::{Contact, ContactFrame, ContactState, PhysicalButtons};
use touchpad_core::diagnostic::{DiagnosticCode, DiagnosticLevel};
use touchpad_core::time::Monotonic;
use touchpad_core::units::Millimeters;

fn length(value: f32) -> Millimeters {
    Millimeters::try_new(value.to_bits()).unwrap()
}

fn completed_contact(slot: u32) -> Contact {
    let mut contact = Contact::new(42, slot, ContactState::Began);
    contact.x_mm = Some(length(10.0));
    contact.y_mm = Some(length(20.0));
    contact
}

#[test]
fn began_contact_without_coordinates_is_diagnosed() {
    let contact = Contact::new(1, 0, ContactState::Began);
    assert!(!contact.is_complete());
    let diags = contact.validate();
    assert!(diags
        .iter()
        .any(|d| d.code == DiagnosticCode::IncompleteNewContact));
}

#[test]
fn complete_began_contact_validates_clean() {
    let contact = completed_contact(0);
    assert!(contact.is_complete());
    assert!(contact.validate().is_empty());
}

#[test]
fn invalid_pressure_is_diagnosed() {
    let mut contact = completed_contact(0);
    contact.pressure = Some(1.5f32.to_bits());
    assert!(contact
        .validate()
        .iter()
        .any(|d| d.code == DiagnosticCode::OutOfRangeValue));
    contact.pressure = Some(f32::NAN.to_bits());
    assert!(contact
        .validate()
        .iter()
        .any(|d| d.code == DiagnosticCode::NonFiniteValue));
}

#[test]
fn negative_live_tracking_id_is_diagnosed() {
    let contact = Contact::new(-1, 0, ContactState::Active);
    assert!(contact
        .validate()
        .iter()
        .any(|d| d.code == DiagnosticCode::InvalidEventOrder));
}

#[test]
fn frame_rejects_duplicate_slots() {
    let mut frame = ContactFrame::new(Monotonic::from_nanos(0), 0);
    frame.contacts.push(completed_contact(0));
    frame.contacts.push(completed_contact(0));
    let diags = frame.validate();
    assert!(diags
        .iter()
        .any(|d| d.code == DiagnosticCode::DuplicateSlot));
}

#[test]
fn frame_discontinuity_flag() {
    assert!(!ContactFrame::new(Monotonic::from_nanos(0), 0).discontinuity);
    assert!(ContactFrame::with_discontinuity(Monotonic::from_nanos(0), 1).discontinuity);
}

#[test]
fn contact_findings_come_in_order() {
    let mut contact = Contact::new(-3, 4, ContactState::Began);
    contact.pressure = Some((-0.25f32).to_bits());
    contact.orientation = Some(f32::INFINITY.to_bits());
    contact.major_mm = Some(length(-1.0));
    contact.minor_mm = Some(length(-0.0));
    let found: Vec<(DiagnosticLevel, DiagnosticCode)> =
        contact.validate().iter().map(|d| (d.level, d.code)).collect();
    assert_eq!(
        found,
        vec![
            (DiagnosticLevel::Error, DiagnosticCode::InvalidEventOrder),
            (DiagnosticLevel::Warning, DiagnosticCode::IncompleteNewContact),
            (DiagnosticLevel::Error, DiagnosticCode::OutOfRangeValue),
            (DiagnosticLevel::Error, DiagnosticCode::NonFiniteValue),
            (DiagnosticLevel::Error, DiagnosticCode::OutOfRangeValue),
        ]
    );
    let diags = contact.validate();
    assert_eq!(diags[0].message, "live contact on slot 4 has negative tracking id -3");
    assert_eq!(diags[1].message, "Began contact on slot 4 has missing coordinates");
    assert_eq!(diags[3].message, "orientation must be finite");
    assert_eq!(diags[4].message, "major_mm must be non-negative");
}

#[test]
fn ended_contact_without_tracking_id_and_pressure_bounds() {
    let mut contact = Contact::new(-1, 2, ContactState::Ended);
    contact.pressure = Some(1.0f32.to_bits());
    let diags = contact.validate();
    assert_eq!(diags.len(), 1);
    assert_eq!(diags[0].message, "Ended contact on slot 2 carries no tracking id");
    let mut contact = completed_contact(1);
    contact.pressure = Some(0.0f32.to_bits());
    assert!(contact.validate().is_empty());
    contact.pressure = Some((-0.0f32).to_bits());
    assert!(contact.validate().is_empty());
}

#[test]
fn frame_findings_follow_contact_order() {
    let mut frame = ContactFrame::new(Monotonic::from_nanos(5), 9);
    frame.contacts.push(completed_contact(3));
    frame.contacts.push(Contact::new(7, 1, ContactState::Began));
    frame.contacts.push(completed_contact(3));
    let diags = frame.validate();
    let codes: Vec<DiagnosticCode> = diags.iter().map(|d| d.code).collect();
    assert_eq!(
        codes,
        vec![DiagnosticCode::IncompleteNewContact, DiagnosticCode::DuplicateSlot]
    );
    assert_eq!(diags[1].message, "duplicate slot 3 in frame 9");
    assert_eq!(frame.monotonic_timestamp.as_nanos(), 5);
}

#[test]
fn physical_buttons_emptiness() {
    assert!(PhysicalButtons::default().is_empty());
    assert!(PhysicalButtons::new(false, false, false).is_empty());
    assert!(!PhysicalButtons::new(false, true, false).is_empty());
}
