use nokhwa_core::control::{ControlFlags, ControlId, ControlValue, ControlValueDescriptor};
use nokhwa_core::error::NokhwaError;
use nokhwa_core::frame_format::FrameFormat;
use nokhwa_core::v4l2::{
    cid_to_control_id, control_id_to_cid, convert_description_to_ctrl_body, flags,
    fourcc_to_frame_format, frame_format_to_fourcc, interval_to_frame_rate, stepwise_values,
    swap_bytes, ControlInfo, ControlKind, MenuItem,
};

fn code(tag: &[u8; 4]) -> u32 {
    u32::from_le_bytes(*tag)
}

#[test]
fn named_formats_map_to_fourcc() {
    assert_eq!(frame_format_to_fourcc(FrameFormat::MJpeg).unwrap(), code(b"MJPG"));
    assert_eq!(frame_format_to_fourcc(FrameFormat::Yuyv422).unwrap(), code(b"YUYV"));
    assert_eq!(frame_format_to_fourcc(FrameFormat::Luma16).unwrap(), code(b"Y16 "));
    assert_eq!(fourcc_to_frame_format(code(b"H264")), FrameFormat::H264);
    assert_eq!(fourcc_to_frame_format(code(b"YU12")), FrameFormat::I420);
}

#[test]
fn unknown_fourcc_becomes_custom_and_back() {
    let c = code(b"ABCD");
    let f = fourcc_to_frame_format(c);
    assert_eq!(f, FrameFormat::Custom(u64::from_be_bytes(*b"ABCD\0\0\0\0")));
    assert_eq!(frame_format_to_fourcc(f).unwrap(), c);
}

#[test]
fn custom_with_high_bytes_is_rejected() {
    let r = frame_format_to_fourcc(FrameFormat::Custom(u64::from_be_bytes(*b"ABCDEFGH")));
    assert!(matches!(r, Err(NokhwaError::ConversionError(_))));
    assert!(matches!(frame_format_to_fourcc(FrameFormat::Rgb555), Err(NokhwaError::ConversionError(_))));
}

#[test]
fn byte_swap() {
    assert_eq!(swap_bytes(0x11223344), 0x44332211);
}

#[test]
fn control_ids_map_both_ways() {
    assert_eq!(control_id_to_cid(ControlId::FocusAbsolute).unwrap(), 0x009a_090a);
    assert_eq!(control_id_to_cid(ControlId::WhiteBalanceMode).unwrap(), 0x0098_090c);
    assert_eq!(cid_to_control_id(0x009a_0922), ControlId::Orientation);
    assert_eq!(cid_to_control_id(0x1234), ControlId::PlatformSpecific(0x1234));
    assert_eq!(control_id_to_cid(ControlId::PlatformSpecific(0x1234)).unwrap(), 0x1234);
    assert!(control_id_to_cid(ControlId::PlatformSpecific(1 << 40)).is_err());
    assert!(matches!(control_id_to_cid(ControlId::FocusAutoType), Err(NokhwaError::ConversionError(_))));
}

#[test]
fn flag_bits() {
    let f = flags(0x0001 | 0x0004 | 0x0200 | 0x8000_0000);
    assert_eq!(f, vec![ControlFlags::Disabled, ControlFlags::ReadOnly, ControlFlags::ExecuteOnWrite]);
    assert!(flags(0).is_empty());
}

fn info(typ: ControlKind, min: i64, max: i64, step: u64, default: i64, items: Option<Vec<(u32, MenuItem)>>) -> ControlInfo {
    ControlInfo { id: 0x009a_090a, typ, minimum: min, maximum: max, step, default, flags: 0x0020, items }
}

#[test]
fn integer_control_description() {
    let d = convert_description_to_ctrl_body(&info(ControlKind::Integer, 0, 250, 5, 10, None)).unwrap();
    assert!(d.has_flag(ControlFlags::Slider));
    assert!(d.validate(&ControlValue::Integer(245)));
    assert!(!d.validate(&ControlValue::Integer(246)));
    assert!(matches!(d.default_value(), Some(ControlValue::Integer(10))));
    assert!(convert_description_to_ctrl_body(&info(ControlKind::Integer, 0, 250, 5, 12, None)).is_none());
}

#[test]
fn u8_control_uses_byte_range() {
    let d = convert_description_to_ctrl_body(&info(ControlKind::U8, -9, 9, 1, 200, None)).unwrap();
    assert!(d.validate(&ControlValue::Integer(255)));
    assert!(!d.validate(&ControlValue::Integer(256)));
}

#[test]
fn menu_control_description() {
    let items = vec![(0, MenuItem::Name("Manual".to_string())), (3, MenuItem::Name("Auto".to_string()))];
    let d = convert_description_to_ctrl_body(&info(ControlKind::Menu, 0, 3, 1, 3, Some(items))).unwrap();
    assert!(matches!(d.descriptor(), ControlValueDescriptor::Menu(v) if v.len() == 2));
    assert!(d.validate(&ControlValue::EnumPick(Box::new(ControlValue::Integer(0)))));
    assert!(!d.validate(&ControlValue::EnumPick(Box::new(ControlValue::Integer(1)))));
    let items = vec![(0, MenuItem::Value(100))];
    assert!(convert_description_to_ctrl_body(&info(ControlKind::IntegerMenu, 0, 1, 1, 1, Some(items))).is_none());
    assert!(convert_description_to_ctrl_body(&info(ControlKind::Menu, 0, 1, 1, 0, None)).is_none());
}

#[test]
fn other_control_kinds() {
    let b = convert_description_to_ctrl_body(&info(ControlKind::Boolean, 0, 1, 1, 1, None)).unwrap();
    assert!(matches!(b.default_value(), Some(ControlValue::Boolean(true))));
    let s = convert_description_to_ctrl_body(&info(ControlKind::String, 0, 0, 0, 0, None)).unwrap();
    assert!(s.default_value().is_none());
    assert!(s.validate(&ControlValue::String("x".to_string())));
    let button = convert_description_to_ctrl_body(&info(ControlKind::Button, 0, 0, 0, 0, None)).unwrap();
    assert!(button.validate(&ControlValue::Null));
    assert!(convert_description_to_ctrl_body(&info(ControlKind::CtrlClass, 0, 0, 0, 0, None)).is_none());
    assert!(convert_description_to_ctrl_body(&info(ControlKind::Area, 0, 0, 0, 0, None)).is_none());
}

#[test]
fn stepwise_interval_values() {
    assert_eq!(stepwise_values(1, 10, 3), vec![1, 4, 7]);
    assert_eq!(stepwise_values(1, 10, 0), Vec::<u32>::new());
    assert_eq!(stepwise_values(5, 5, 1), Vec::<u32>::new());
    assert_eq!(stepwise_values(u32::MAX - 1, u32::MAX, u32::MAX), vec![u32::MAX - 1]);
}

#[test]
fn interval_to_rate() {
    assert_eq!(interval_to_frame_rate(1, 30), Some(30));
    assert_eq!(interval_to_frame_rate(1001, 30000), Some(29));
    assert_eq!(interval_to_frame_rate(0, 30), None);
}
