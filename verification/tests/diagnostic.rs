use touchpad_core::diagnostic::{Diagnostic, DiagnosticCode, DiagnosticLevel};

#[test]
fn diagnostic_construction() {
    let d = Diagnostic::new(
        DiagnosticLevel::Warning,
        DiagnosticCode::IncompleteNewContact,
        "incomplete contact",
    );
    assert_eq!(d.level, DiagnosticLevel::Warning);
    assert_eq!(d.code, DiagnosticCode::IncompleteNewContact);
    assert_eq!(d.frame_sequence, None);

    let d = Diagnostic::with_frame(
        DiagnosticLevel::Error,
        DiagnosticCode::DuplicateSlot,
        "duplicate slot",
        7,
    );
    assert_eq!(d.frame_sequence, Some(7));
}

#[test]
fn diagnostic_keeps_its_message() {
    let d = Diagnostic::with_frame(DiagnosticLevel::Info, DiagnosticCode::TapFired, "tap", 3);
    assert_eq!(d.message, "tap");
    assert_eq!(d.level, DiagnosticLevel::Info);
    assert_eq!(d.code, DiagnosticCode::TapFired);
}
