use nokhwa_core::control::{
    ControlDescription, ControlFlags, ControlId, ControlValue, ControlValueDescriptor, Controls,
    FloatBits, Orientation,
};
use nokhwa_core::error::NokhwaError;
use nokhwa_core::ranges::{Range, ValidatableRange};

fn int_description(min: i64, max: i64) -> ControlDescription {
    ControlDescription::new(
        vec![ControlFlags::Slider],
        ControlValueDescriptor::Integer(Range::new(min, max, Some(1))),
        Some(ControlValue::Integer(min)),
    )
    .unwrap()
}

fn float(x: f64) -> ControlValue {
    ControlValue::Float(FloatBits { bits: x.to_bits() })
}

#[test]
fn descriptor_rejects_other_kinds() {
    let d = ControlValueDescriptor::Integer(Range::new(0, 10, None));
    assert!(!d.validate(&ControlValue::String("5".to_string())));
    assert!(!d.validate(&ControlValue::BitMask(5)));
    assert!(d.validate(&ControlValue::Integer(5)));
    assert!(!ControlValueDescriptor::String.validate(&ControlValue::Integer(1)));
    assert!(!ControlValueDescriptor::Boolean.validate(&ControlValue::Null));
    assert!(ControlValueDescriptor::Null.validate(&ControlValue::Null));
    assert!(!ControlValueDescriptor::Null.validate(&ControlValue::Boolean(false)));
}

#[test]
fn descriptor_checks_bounds_of_each_kind() {
    let bin = ControlValueDescriptor::Binary(Range::new(2u64, 4, None));
    assert!(bin.validate(&ControlValue::Binary(vec![1, 2, 3])));
    assert!(!bin.validate(&ControlValue::Binary(vec![1])));
    let area = ControlValueDescriptor::Area {
        width_limits: Range::new(1, 100, None),
        height_limits: Range::new(1, 50, None),
    };
    assert!(area.validate(&ControlValue::Area { width: 100, height: 50 }));
    assert!(!area.validate(&ControlValue::Area { width: 100, height: 51 }));
    let any = ControlValueDescriptor::Orientation(vec![]);
    assert!(any.validate(&ControlValue::Orientation(Orientation::Far)));
    let some = ControlValueDescriptor::Orientation(vec![Orientation::Up, Orientation::Custom(7)]);
    assert!(some.validate(&ControlValue::Orientation(Orientation::Custom(7))));
    assert!(!some.validate(&ControlValue::Orientation(Orientation::Down)));
}

#[test]
fn array_descriptor_checks_every_element() {
    let d = ControlValueDescriptor::Array(Box::new(ControlValueDescriptor::Integer(Range::new(0, 9, None))));
    assert!(d.validate(&ControlValue::Array(vec![ControlValue::Integer(1), ControlValue::Integer(9)])));
    assert!(!d.validate(&ControlValue::Array(vec![ControlValue::Integer(1), ControlValue::Integer(10)])));
    assert!(!d.validate(&ControlValue::Array(vec![ControlValue::Boolean(true)])));
    assert!(d.validate(&ControlValue::Array(vec![])));
}

#[test]
fn menu_descriptor_checks_key() {
    let d = ControlValueDescriptor::Menu(vec![
        (ControlValue::Integer(0), ControlValue::String("Manual".to_string())),
        (ControlValue::Integer(1), ControlValue::String("Auto".to_string())),
    ]);
    assert!(d.validate(&ControlValue::EnumPick(Box::new(ControlValue::Integer(1)))));
    assert!(!d.validate(&ControlValue::EnumPick(Box::new(ControlValue::Integer(2)))));
    assert!(!d.validate(&ControlValue::Integer(1)));
}

#[test]
fn float_range_uses_total_order() {
    let d = ControlValueDescriptor::Float(Range::new(
        FloatBits { bits: (-1.5f64).to_bits() },
        FloatBits { bits: 2.0f64.to_bits() },
        None,
    ));
    assert!(d.validate(&float(-1.5)));
    assert!(d.validate(&float(0.0)));
    assert!(d.validate(&float(-0.0)));
    assert!(!d.validate(&float(-2.0)));
    assert!(!d.validate(&float(2.5)));
    assert!(!d.validate(&float(f64::NAN)));
}

#[test]
fn float_keys_order_numbers() {
    let k = |x: f64| FloatBits { bits: x.to_bits() }.key();
    assert!(k(-3.0) < k(-1.0));
    assert!(k(-1.0) < k(0.0));
    assert_eq!(k(-0.0), k(0.0));
    assert!(k(1.0) < k(f64::INFINITY));
    assert!(k(f64::INFINITY) < k(f64::NAN));
}

#[test]
fn value_equality_and_kinds() {
    let a = ControlValue::Array(vec![ControlValue::String("x".to_string()), float(0.0)]);
    let b = ControlValue::Array(vec![ControlValue::String("x".to_string()), float(-0.0)]);
    let c = ControlValue::Array(vec![ControlValue::String("y".to_string()), float(0.0)]);
    assert!(a.equals(&b));
    assert!(!a.equals(&c));
    assert!(a.same_type(&c));
    assert!(!a.same_type(&ControlValue::Null));
    assert!(!a.is_primitive());
    assert!(ControlValue::Binary(vec![1]).is_primitive());
    assert!(!ControlValue::EnumPick(Box::new(ControlValue::Null)).is_primitive());
    assert!(ControlValue::Binary(vec![1, 2]).equals(&ControlValue::Binary(vec![1, 2])));
    assert!(!ControlValue::Binary(vec![1, 2]).equals(&ControlValue::Binary(vec![1])));
}

#[test]
fn description_rejects_invalid_default() {
    let d = ControlDescription::new(
        vec![],
        ControlValueDescriptor::Integer(Range::new(0, 10, None)),
        Some(ControlValue::Integer(11)),
    );
    assert!(d.is_none());
    let d = ControlDescription::new(vec![], ControlValueDescriptor::Boolean, None);
    assert!(d.is_some());
}

#[test]
fn description_flags() {
    let mut d = int_description(0, 5);
    assert!(d.has_flag(ControlFlags::Slider));
    d.add_flag(ControlFlags::ReadOnly);
    d.add_flag(ControlFlags::ReadOnly);
    assert!(d.has_flag(ControlFlags::ReadOnly));
    assert!(d.remove_flag(ControlFlags::ReadOnly));
    assert!(!d.has_flag(ControlFlags::ReadOnly));
    assert!(!d.remove_flag(ControlFlags::Busy));
    assert_eq!(d.flags(), &vec![ControlFlags::Slider]);
    assert!(matches!(d.default_value(), Some(ControlValue::Integer(0))));
    assert!(d.validate(&ControlValue::Integer(5)));
    assert!(!d.validate(&ControlValue::Integer(6)));
}

#[test]
fn controls_new_rejects_invalid_value() {
    let c = Controls::new(
        vec![(ControlId::ZoomAbsolute, int_description(0, 10))],
        vec![(ControlId::ZoomAbsolute, ControlValue::Integer(11))],
    );
    assert!(c.is_none());
}

#[test]
fn controls_new_rejects_value_without_description() {
    let c = Controls::new(
        vec![(ControlId::ZoomAbsolute, int_description(0, 10))],
        vec![(ControlId::FocusAbsolute, ControlValue::Integer(1))],
    );
    assert!(c.is_none());
}

#[test]
fn controls_new_rejects_repeated_id() {
    let c = Controls::new(
        vec![(ControlId::ZoomAbsolute, int_description(0, 10))],
        vec![
            (ControlId::ZoomAbsolute, ControlValue::Integer(1)),
            (ControlId::ZoomAbsolute, ControlValue::Integer(2)),
        ],
    );
    assert!(c.is_none());
}

#[test]
fn controls_new_accepts_valid_values() {
    let c = Controls::new(
        vec![
            (ControlId::ZoomAbsolute, int_description(0, 10)),
            (ControlId::PlatformSpecific(77), int_description(-5, 5)),
        ],
        vec![(ControlId::ZoomAbsolute, ControlValue::Integer(7))],
    )
    .unwrap();
    assert!(matches!(c.value(&ControlId::ZoomAbsolute), Some(ControlValue::Integer(7))));
    assert!(c.value(&ControlId::PlatformSpecific(77)).is_none());
    assert!(c.description(&ControlId::PlatformSpecific(77)).is_some());
    assert!(c.description(&ControlId::FocusMode).is_none());
    let ids = c.ids();
    assert_eq!(ids.len(), 2);
    assert!(ids.contains(&ControlId::PlatformSpecific(77)));
    assert_eq!(c.descriptions().len(), 2);
    assert_eq!(c.values().len(), 1);
}

#[test]
fn set_value_on_unknown_id_is_not_found() {
    let mut c = Controls::new(
        vec![(ControlId::ZoomAbsolute, int_description(0, 10))],
        vec![(ControlId::ZoomAbsolute, ControlValue::Integer(3))],
    )
    .unwrap();
    let r = c.set_control_value(&ControlId::FocusMode, ControlValue::Integer(1));
    match r {
        Err(NokhwaError::SetPropertyError { error, .. }) => assert_eq!(error, "ID Not Found"),
        _ => panic!("expected a not-found error"),
    }
    assert!(c.value(&ControlId::FocusMode).is_none());
    assert!(matches!(c.value(&ControlId::ZoomAbsolute), Some(ControlValue::Integer(3))));
    assert_eq!(c.values().len(), 1);
}

#[test]
fn set_value_replaces_and_inserts() {
    let mut c = Controls::new(
        vec![
            (ControlId::ZoomAbsolute, int_description(0, 10)),
            (ControlId::FocusAbsolute, int_description(0, 10)),
        ],
        vec![(ControlId::ZoomAbsolute, ControlValue::Integer(3))],
    )
    .unwrap();
    assert!(c.set_control_value(&ControlId::ZoomAbsolute, ControlValue::Integer(4)).is_ok());
    assert!(matches!(c.value(&ControlId::ZoomAbsolute), Some(ControlValue::Integer(4))));
    assert!(c.set_control_value(&ControlId::FocusAbsolute, ControlValue::Integer(9)).is_ok());
    assert!(matches!(c.value(&ControlId::FocusAbsolute), Some(ControlValue::Integer(9))));
    let r = c.set_control_value(&ControlId::FocusAbsolute, ControlValue::Integer(11));
    assert!(matches!(r, Err(NokhwaError::SetPropertyError { .. })));
    assert!(matches!(c.value(&ControlId::FocusAbsolute), Some(ControlValue::Integer(9))));
}

#[test]
fn empty_controls() {
    let c = Controls::empty();
    assert!(c.ids().is_empty());
    assert!(c.value(&ControlId::Orientation).is_none());
}
