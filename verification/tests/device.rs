use touchpad_core::axis::AxisInfo;
use touchpad_core::device::{AxisId, DeviceDescriptor};
use touchpad_core::diagnostic::{DiagnosticCode, DiagnosticLevel};

fn descriptor() -> DeviceDescriptor {
    let mut descriptor = DeviceDescriptor::new("test touchpad", 0x1234, 0x5678);
    descriptor.slot_count = Some(10);
    descriptor.supports_type_b_mt = true;
    descriptor.has_physical_buttons = true;
    descriptor
}

#[test]
fn valid_descriptor_has_no_diagnostics() {
    assert!(descriptor().validate().is_empty());
}

#[test]
fn invalid_axis_range_is_diagnosed() {
    let mut descriptor = descriptor();
    descriptor
        .axes
        .insert(AxisId::new(1).as_u32(), AxisInfo::new(100, 0, 0, 0, None));
    let diags = descriptor.validate();
    assert!(diags
        .iter()
        .any(|d| d.code == DiagnosticCode::InvalidAxisRange));
}

#[test]
fn axis_ids_are_distinct() {
    assert_ne!(AxisId::new(1), AxisId::new(2));
    assert_eq!(AxisId::new(1), AxisId::new(1));
}

#[test]
fn one_diagnostic_per_invalid_axis_in_axis_order() {
    let mut descriptor = descriptor();
    descriptor.axes.insert(5, AxisInfo::new(0, 10, -1, 0, None));
    descriptor.axes.insert(2, AxisInfo::new(0, 10, 0, 0, Some(12)));
    descriptor.axes.insert(3, AxisInfo::new(10, 0, 0, 0, None));
    let diags = descriptor.validate();
    assert_eq!(diags.len(), 2);
    for d in &diags {
        assert_eq!(d.level, DiagnosticLevel::Error);
        assert_eq!(d.code, DiagnosticCode::InvalidAxisRange);
        assert_eq!(d.frame_sequence, None);
    }
    assert_eq!(
        diags[0].message,
        "axis AxisId(3) has invalid range min=10 max=0 (fuzz=0, flat=0)"
    );
    assert_eq!(
        diags[1].message,
        "axis AxisId(5) has invalid range min=0 max=10 (fuzz=-1, flat=0)"
    );
}

#[test]
fn new_descriptor_is_empty() {
    let d = DeviceDescriptor::new("pad", 7, 9);
    assert_eq!(d.name, "pad");
    assert_eq!((d.vendor_id, d.product_id), (7, 9));
    assert!(d.axes.is_empty());
    assert_eq!(d.slot_count, None);
    assert!(!d.supports_type_b_mt);
    assert!(!d.has_physical_buttons);
}
