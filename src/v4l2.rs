use crate::control::{
    ControlDescription, ControlFlags, ControlId, ControlValue, ControlValueDescriptor,
    default_admitted, menu_has_key,
};
use crate::ranges::{Range, ValidatableRange};
use crate::error::NokhwaError;
use crate::frame_format::FrameFormat;
use vstd::prelude::*;

verus! {

/// The four bytes of a pixel-format tag in reverse order.
pub open spec fn swap32(x: u32) -> u32 {
    ((x & 0xFFu32) << 24u32) | (((x >> 8u32) & 0xFFu32) << 16u32) | (((x >> 16u32) & 0xFFu32)
        << 8u32) | (x >> 24u32)
}

/// The V4L2 pixel format (four characters, the first in the lowest byte) of a frame
/// format; `None` for a format V4L2 has no code for. A custom tag maps when its last
/// four bytes are zero: its first four bytes are the code's characters.
pub open spec fn pixelformat(f: FrameFormat) -> Option<u32> {
    match f {
        FrameFormat::H265 => Some(0x43564548u32),
        FrameFormat::H264 => Some(0x34363248u32),
        FrameFormat::Avc1 => Some(0x31435641u32),
        FrameFormat::H263 => Some(0x33363248u32),
        FrameFormat::Av1 => Some(0x46315641u32),
        FrameFormat::Mpeg1 => Some(0x3147504Du32),
        FrameFormat::Mpeg2 => Some(0x3247504Du32),
        FrameFormat::Mpeg4 => Some(0x3447504Du32),
        FrameFormat::MJpeg => Some(0x47504A4Du32),
        FrameFormat::XVid => Some(0x44495658u32),
        FrameFormat::VP8 => Some(0x30385056u32),
        FrameFormat::VP9 => Some(0x30395056u32),
        FrameFormat::Ayuv444 => Some(0x56555941u32),
        FrameFormat::Yuyv422 => Some(0x56595559u32),
        FrameFormat::Uyvy422 => Some(0x59565955u32),
        FrameFormat::Yvyu422 => Some(0x55595659u32),
        FrameFormat::Yv12 => Some(0x32315659u32),
        FrameFormat::Nv12 => Some(0x3231564Eu32),
        FrameFormat::Nv21 => Some(0x3132564Eu32),
        FrameFormat::I420 => Some(0x32315559u32),
        FrameFormat::Yvu9 => Some(0x39555659u32),
        FrameFormat::Luma8 => Some(0x59455247u32),
        FrameFormat::Luma16 => Some(0x20363159u32),
        FrameFormat::Depth16 => Some(0x2036315Au32),
        FrameFormat::Rgb332 => Some(0x31424752u32),
        FrameFormat::Rgb888 => Some(0x33424752u32),
        FrameFormat::Bgr888 => Some(0x33524742u32),
        FrameFormat::BgrA8888 => Some(0x34324152u32),
        FrameFormat::RgbA8888 => Some(0x34324241u32),
        FrameFormat::ARgb8888 => Some(0x34324142u32),
        FrameFormat::Bayer8 => Some(0x31384142u32),
        FrameFormat::Bayer16 => Some(0x32525942u32),
        FrameFormat::Custom(t) => if t % 0x1_0000_0000 == 0 {
            Some(swap32((t / 0x1_0000_0000) as u32))
        } else {
            None
        },
        _ => None,
    }
}

/// The V4L2 control id of a control; `None` for one V4L2 has no id for, or a
/// platform-specific id that does not fit in 32 bits.
pub open spec fn v4l2_cid(id: ControlId) -> Option<u32> {
    match id {
        ControlId::FocusMode => Some(0x9A090Cu32),
        ControlId::FocusAutoRange => Some(0x9A091Fu32),
        ControlId::FocusAbsolute => Some(0x9A090Au32),
        ControlId::FocusRelative => Some(0x9A090Bu32),
        ControlId::FocusStatus => Some(0x9A091Eu32),
        ControlId::ExposureMode => Some(0x9A0901u32),
        ControlId::ExposureBias => Some(0x9A0913u32),
        ControlId::ExposureMetering => Some(0x9A0919u32),
        ControlId::ExposureAbsolute => Some(0x9A0902u32),
        ControlId::IsoMode => Some(0x9A0918u32),
        ControlId::IsoSensitivity => Some(0x9A0917u32),
        ControlId::ApertureAbsolute => Some(0x9A0911u32),
        ControlId::ApertureRelative => Some(0x9A0912u32),
        ControlId::WhiteBalanceMode => Some(0x98090Cu32),
        ControlId::WhiteBalanceTemperature => Some(0x9A0914u32),
        ControlId::ZoomContinuous => Some(0x9A090Fu32),
        ControlId::ZoomRelative => Some(0x9A090Eu32),
        ControlId::ZoomAbsolute => Some(0x9A090Du32),
        ControlId::LightingMode => Some(0x9C0901u32),
        ControlId::LightingStart => Some(0x9C0903u32),
        ControlId::LightingStop => Some(0x9C0904u32),
        ControlId::LightingStatus => Some(0x9C0905u32),
        ControlId::Orientation => Some(0x9A0922u32),
        ControlId::PlatformSpecific(x) => if x <= u32::MAX {
            Some(x as u32)
        } else {
            None
        },
        _ => None,
    }
}

/// Computes `swap32`.
pub fn swap_bytes(x: u32) -> (r: u32)
    ensures
        r == swap32(x),
{
    ((x & 0xFFu32) << 24u32) | (((x >> 8u32) & 0xFFu32) << 16u32) | (((x >> 16u32) & 0xFFu32)
        << 8u32) | (x >> 24u32)
}

/// The V4L2 pixel format of a frame format.
pub fn frame_format_to_fourcc(frame_format: FrameFormat) -> (r: Result<u32, NokhwaError>)
    ensures
        r matches Ok(c) ==> pixelformat(frame_format) == Some(c),
        r is Err <==> pixelformat(frame_format) is None,
        r matches Err(e) ==> e is ConversionError,
{
    match frame_format {
        FrameFormat::H265 => Ok(0x43564548u32),
        FrameFormat::H264 => Ok(0x34363248u32),
        FrameFormat::Avc1 => Ok(0x31435641u32),
        FrameFormat::H263 => Ok(0x33363248u32),
        FrameFormat::Av1 => Ok(0x46315641u32),
        FrameFormat::Mpeg1 => Ok(0x3147504Du32),
        FrameFormat::Mpeg2 => Ok(0x3247504Du32),
        FrameFormat::Mpeg4 => Ok(0x3447504Du32),
        FrameFormat::MJpeg => Ok(0x47504A4Du32),
        FrameFormat::XVid => Ok(0x44495658u32),
        FrameFormat::VP8 => Ok(0x30385056u32),
        FrameFormat::VP9 => Ok(0x30395056u32),
        FrameFormat::Ayuv444 => Ok(0x56555941u32),
        FrameFormat::Yuyv422 => Ok(0x56595559u32),
        FrameFormat::Uyvy422 => Ok(0x59565955u32),
        FrameFormat::Yvyu422 => Ok(0x55595659u32),
        FrameFormat::Yv12 => Ok(0x32315659u32),
        FrameFormat::Nv12 => Ok(0x3231564Eu32),
        FrameFormat::Nv21 => Ok(0x3132564Eu32),
        FrameFormat::I420 => Ok(0x32315559u32),
        FrameFormat::Yvu9 => Ok(0x39555659u32),
        FrameFormat::Luma8 => Ok(0x59455247u32),
        FrameFormat::Luma16 => Ok(0x20363159u32),
        FrameFormat::Depth16 => Ok(0x2036315Au32),
        FrameFormat::Rgb332 => Ok(0x31424752u32),
        FrameFormat::Rgb888 => Ok(0x33424752u32),
        FrameFormat::Bgr888 => Ok(0x33524742u32),
        FrameFormat::BgrA8888 => Ok(0x34324152u32),
        FrameFormat::RgbA8888 => Ok(0x34324241u32),
        FrameFormat::ARgb8888 => Ok(0x34324142u32),
        FrameFormat::Bayer8 => Ok(0x31384142u32),
        FrameFormat::Bayer16 => Ok(0x32525942u32),
        FrameFormat::Custom(t) => {
            if t % 0x1_0000_0000u64 != 0 {
                return Err(
                    NokhwaError::ConversionError(
                        "Invalid: Custom bytes 4-7 are set (linux only uses 0-3)".to_string(),
                    ),
                );
            }
            Ok(swap_bytes((t / 0x1_0000_0000u64) as u32))
        },
        _ => Err(NokhwaError::ConversionError("Unsupported FrameFormat".to_string())),
    }
}

/// The frame format of a V4L2 pixel format: a named one where V4L2's code is known,
/// else a custom tag holding the code's four characters.
pub fn fourcc_to_frame_format(fourcc: u32) -> (r: FrameFormat)
    ensures
        pixelformat(r) == Some(fourcc),
        r is Custom ==> forall|f: FrameFormat| !(f is Custom) ==> pixelformat(f) != Some(fourcc),
{
    match fourcc {
        0x43564548u32 => FrameFormat::H265,
        0x34363248u32 => FrameFormat::H264,
        0x31435641u32 => FrameFormat::Avc1,
        0x33363248u32 => FrameFormat::H263,
        0x46315641u32 => FrameFormat::Av1,
        0x3147504Du32 => FrameFormat::Mpeg1,
        0x3247504Du32 => FrameFormat::Mpeg2,
        0x3447504Du32 => FrameFormat::Mpeg4,
        0x47504A4Du32 => FrameFormat::MJpeg,
        0x44495658u32 => FrameFormat::XVid,
        0x30385056u32 => FrameFormat::VP8,
        0x30395056u32 => FrameFormat::VP9,
        0x56555941u32 => FrameFormat::Ayuv444,
        0x56595559u32 => FrameFormat::Yuyv422,
        0x59565955u32 => FrameFormat::Uyvy422,
        0x55595659u32 => FrameFormat::Yvyu422,
        0x32315659u32 => FrameFormat::Yv12,
        0x3231564Eu32 => FrameFormat::Nv12,
        0x3132564Eu32 => FrameFormat::Nv21,
        0x32315559u32 => FrameFormat::I420,
        0x39555659u32 => FrameFormat::Yvu9,
        0x59455247u32 => FrameFormat::Luma8,
        0x20363159u32 => FrameFormat::Luma16,
        0x2036315Au32 => FrameFormat::Depth16,
        0x31424752u32 => FrameFormat::Rgb332,
        0x33424752u32 => FrameFormat::Rgb888,
        0x33524742u32 => FrameFormat::Bgr888,
        0x34324152u32 => FrameFormat::BgrA8888,
        0x34324241u32 => FrameFormat::RgbA8888,
        0x34324142u32 => FrameFormat::ARgb8888,
        0x31384142u32 => FrameFormat::Bayer8,
        0x32525942u32 => FrameFormat::Bayer16,
        _ => {
            let swapped = swap_bytes(fourcc);
            let t: u64 = (swapped as u64) * 0x1_0000_0000u64;
            proof {
                assert(t % 0x1_0000_0000 == 0);
                assert((t / 0x1_0000_0000) as u32 == swapped);
                assert(swap32(swap32(fourcc)) == fourcc) by (bit_vector);
            }
            FrameFormat::Custom(t)
        },
    }
}

/// The V4L2 control id of a control.
pub fn control_id_to_cid(control_id: ControlId) -> (r: Result<u32, NokhwaError>)
    ensures
        r matches Ok(c) ==> v4l2_cid(control_id) == Some(c),
        r is Err <==> v4l2_cid(control_id) is None,
        r matches Err(e) ==> e is ConversionError,
{
    match control_id {
        ControlId::FocusMode => Ok(0x9A090Cu32),
        ControlId::FocusAutoRange => Ok(0x9A091Fu32),
        ControlId::FocusAbsolute => Ok(0x9A090Au32),
        ControlId::FocusRelative => Ok(0x9A090Bu32),
        ControlId::FocusStatus => Ok(0x9A091Eu32),
        ControlId::ExposureMode => Ok(0x9A0901u32),
        ControlId::ExposureBias => Ok(0x9A0913u32),
        ControlId::ExposureMetering => Ok(0x9A0919u32),
        ControlId::ExposureAbsolute => Ok(0x9A0902u32),
        ControlId::IsoMode => Ok(0x9A0918u32),
        ControlId::IsoSensitivity => Ok(0x9A0917u32),
        ControlId::ApertureAbsolute => Ok(0x9A0911u32),
        ControlId::ApertureRelative => Ok(0x9A0912u32),
        ControlId::WhiteBalanceMode => Ok(0x98090Cu32),
        ControlId::WhiteBalanceTemperature => Ok(0x9A0914u32),
        ControlId::ZoomContinuous => Ok(0x9A090Fu32),
        ControlId::ZoomRelative => Ok(0x9A090Eu32),
        ControlId::ZoomAbsolute => Ok(0x9A090Du32),
        ControlId::LightingMode => Ok(0x9C0901u32),
        ControlId::LightingStart => Ok(0x9C0903u32),
        ControlId::LightingStop => Ok(0x9C0904u32),
        ControlId::LightingStatus => Ok(0x9C0905u32),
        ControlId::Orientation => Ok(0x9A0922u32),
        ControlId::PlatformSpecific(specific_id) => {
            if specific_id <= u32::MAX as u64 {
                Ok(specific_id as u32)
            } else {
                Err(NokhwaError::ConversionError("ID must be a u32".to_string()))
            }
        },
        _ => Err(NokhwaError::ConversionError("Could not match ID".to_string())),
    }
}

/// The control of a V4L2 control id: a named one where the id is known, else a
/// platform-specific one.
pub fn cid_to_control_id(cid: u32) -> (r: ControlId)
    ensures
        v4l2_cid(r) == Some(cid),
        r is PlatformSpecific ==> forall|id: ControlId|
            !(id is PlatformSpecific) ==> v4l2_cid(id) != Some(cid),
{
    match cid {
        0x9A090Cu32 => ControlId::FocusMode,
        0x9A091Fu32 => ControlId::FocusAutoRange,
        0x9A090Au32 => ControlId::FocusAbsolute,
        0x9A090Bu32 => ControlId::FocusRelative,
        0x9A091Eu32 => ControlId::FocusStatus,
        0x9A0901u32 => ControlId::ExposureMode,
        0x9A0913u32 => ControlId::ExposureBias,
        0x9A0919u32 => ControlId::ExposureMetering,
        0x9A0902u32 => ControlId::ExposureAbsolute,
        0x9A0918u32 => ControlId::IsoMode,
        0x9A0917u32 => ControlId::IsoSensitivity,
        0x9A0911u32 => ControlId::ApertureAbsolute,
        0x9A0912u32 => ControlId::ApertureRelative,
        0x98090Cu32 => ControlId::WhiteBalanceMode,
        0x9A0914u32 => ControlId::WhiteBalanceTemperature,
        0x9A090Fu32 => ControlId::ZoomContinuous,
        0x9A090Eu32 => ControlId::ZoomRelative,
        0x9A090Du32 => ControlId::ZoomAbsolute,
        0x9C0901u32 => ControlId::LightingMode,
        0x9C0903u32 => ControlId::LightingStart,
        0x9C0904u32 => ControlId::LightingStop,
        0x9C0905u32 => ControlId::LightingStatus,
        0x9A0922u32 => ControlId::Orientation,
        other_id => ControlId::PlatformSpecific(other_id as u64),
    }
}

/// V4L2 control flag: the control is disabled.
pub const FLAG_DISABLED: u32 = 0x0001;
/// V4L2 control flag: another application holds the control.
pub const FLAG_GRABBED: u32 = 0x0002;
/// V4L2 control flag: the control can only be read.
pub const FLAG_READ_ONLY: u32 = 0x0004;
/// V4L2 control flag: changing the control may change others.
pub const FLAG_UPDATE: u32 = 0x0008;
/// V4L2 control flag: the control has no effect at present.
pub const FLAG_INACTIVE: u32 = 0x0010;
/// V4L2 control flag: the control is best shown as a slider.
pub const FLAG_SLIDER: u32 = 0x0020;
/// V4L2 control flag: the control can only be written.
pub const FLAG_WRITE_ONLY: u32 = 0x0040;
/// V4L2 control flag: the device changes the value on its own.
pub const FLAG_VOLATILE: u32 = 0x0080;
/// V4L2 control flag: writing the control performs an action.
pub const FLAG_EXECUTE_ON_WRITE: u32 = 0x0200;

/// The control flags that V4L2 flag bits stand for.
pub open spec fn flag_set_of(bits: u32) -> Set<ControlFlags> {
    Set::new(
        |f: ControlFlags|
            match f {
                ControlFlags::Disabled => bits & FLAG_DISABLED != 0,
                ControlFlags::Busy => bits & FLAG_GRABBED != 0,
                ControlFlags::ReadOnly => bits & FLAG_READ_ONLY != 0,
                ControlFlags::CascadingUpdates => bits & FLAG_UPDATE != 0,
                ControlFlags::Inactive => bits & FLAG_INACTIVE != 0,
                ControlFlags::Slider => bits & FLAG_SLIDER != 0,
                ControlFlags::WriteOnly => bits & FLAG_WRITE_ONLY != 0,
                ControlFlags::Volatile => bits & FLAG_VOLATILE != 0,
                ControlFlags::ExecuteOnWrite => bits & FLAG_EXECUTE_ON_WRITE != 0,
                ControlFlags::ContinuousChange => false,
            },
    )
}

/// Appends `flag` when `set` holds.
fn push_flag_if(flags: &mut Vec<ControlFlags>, set: bool, flag: ControlFlags)
    ensures
        forall|g: ControlFlags|
            #[trigger] final(flags)@.contains(g) <==> (old(flags)@.contains(g) || (set && g == flag)),
{
    if set {
        flags.push(flag);
        proof {
            assert forall|g: ControlFlags|
                #[trigger] final(flags)@.contains(g) <==> (old(flags)@.contains(g) || g == flag) by {
                if old(flags)@.contains(g) {
                    let k = choose|k: int| 0 <= k < old(flags)@.len() && old(flags)@[k] == g;
                    assert(final(flags)@[k] == g);
                }
                if g == flag {
                    assert(final(flags)@[old(flags)@.len() as int] == g);
                }
                if final(flags)@.contains(g) {
                    let k = choose|k: int| 0 <= k < final(flags)@.len() && final(flags)@[k] == g;
                    if k < old(flags)@.len() {
                        assert(old(flags)@[k] == g);
                    }
                }
            }
        }
    }
}

/// The control flags of V4L2 flag bits.
pub fn flags(bits: u32) -> (r: Vec<ControlFlags>)
    ensures
        r@.to_set() == flag_set_of(bits),
{
    let mut output_flags: Vec<ControlFlags> = Vec::new();
    push_flag_if(&mut output_flags, bits & FLAG_DISABLED != 0, ControlFlags::Disabled);
    push_flag_if(&mut output_flags, bits & FLAG_GRABBED != 0, ControlFlags::Busy);
    push_flag_if(&mut output_flags, bits & FLAG_READ_ONLY != 0, ControlFlags::ReadOnly);
    push_flag_if(&mut output_flags, bits & FLAG_UPDATE != 0, ControlFlags::CascadingUpdates);
    push_flag_if(&mut output_flags, bits & FLAG_INACTIVE != 0, ControlFlags::Inactive);
    push_flag_if(&mut output_flags, bits & FLAG_SLIDER != 0, ControlFlags::Slider);
    push_flag_if(&mut output_flags, bits & FLAG_WRITE_ONLY != 0, ControlFlags::WriteOnly);
    push_flag_if(&mut output_flags, bits & FLAG_VOLATILE != 0, ControlFlags::Volatile);
    push_flag_if(&mut output_flags, bits & FLAG_EXECUTE_ON_WRITE != 0, ControlFlags::ExecuteOnWrite);
    proof {
        assert(output_flags@.to_set() =~= flag_set_of(bits));
    }
    output_flags
}

/// The kind of a V4L2 control.
#[derive(Copy, Clone, Debug, PartialEq, Eq, Structural)]
pub enum ControlKind {
    Integer,
    Boolean,
    Menu,
    Button,
    Integer64,
    CtrlClass,
    String,
    Bitmask,
    IntegerMenu,
    U8,
    U16,
    U32,
    Area,
}

/// An entry of a V4L2 menu: a name, or a number for integer menus.
#[derive(Debug)]
pub enum MenuItem {
    Name(String),
    Value(i64),
}

/// What V4L2 reports of a control.
#[derive(Debug)]
pub struct ControlInfo {
    pub id: u32,
    pub typ: ControlKind,
    pub minimum: i64,
    pub maximum: i64,
    pub step: u64,
    pub default: i64,
    pub flags: u32,
    pub items: Option<Vec<(u32, MenuItem)>>,
}

/// The menu entry a V4L2 menu item becomes: its index as an integer key, and its
/// name or number.
pub open spec fn menu_choice(item: (u32, MenuItem)) -> (ControlValue, ControlValue) {
    (
        ControlValue::Integer(item.0 as i64),
        match item.1 {
            MenuItem::Name(n) => ControlValue::String(n),
            MenuItem::Value(v) => ControlValue::Integer(v),
        },
    )
}

/// The menu a list of V4L2 menu items becomes.
pub open spec fn menu_choices(items: Seq<(u32, MenuItem)>) -> Seq<(ControlValue, ControlValue)> {
    items.map_values(|item: (u32, MenuItem)| menu_choice(item))
}

/// The integer range of a control of a numeric kind.
pub open spec fn integer_range(info: ControlInfo) -> Range<i64> {
    let (minimum, maximum) = match info.typ {
        ControlKind::U8 => (0i64, 0xFFi64),
        ControlKind::U16 => (0i64, 0xFFFFi64),
        ControlKind::U32 => (0i64, 0xFFFF_FFFFi64),
        _ => (info.minimum, info.maximum),
    };
    Range {
        minimum,
        lower_inclusive: true,
        maximum,
        upper_inclusive: true,
        step: Some(info.step as i64),
    }
}

/// Whether the library can describe a control of this kind.
pub open spec fn describable(info: ControlInfo) -> bool {
    match info.typ {
        ControlKind::Menu | ControlKind::IntegerMenu => info.items is Some,
        ControlKind::CtrlClass | ControlKind::Area => false,
        _ => true,
    }
}

/// The default value a description of the control holds.
pub open spec fn default_of(info: ControlInfo) -> Option<ControlValue> {
    match info.typ {
        ControlKind::Integer | ControlKind::Integer64 | ControlKind::U8 | ControlKind::U16
        | ControlKind::U32 => Some(ControlValue::Integer(info.default)),
        ControlKind::Boolean => Some(ControlValue::Boolean(info.default != 0)),
        ControlKind::Bitmask => Some(ControlValue::BitMask(info.default)),
        ControlKind::Menu | ControlKind::IntegerMenu => Some(
            ControlValue::EnumPick(Box::new(ControlValue::Integer(info.default))),
        ),
        _ => None,
    }
}

/// Whether `d` is the descriptor of the control.
pub open spec fn describes(info: ControlInfo, d: ControlValueDescriptor) -> bool {
    match info.typ {
        ControlKind::Integer | ControlKind::Integer64 | ControlKind::U8 | ControlKind::U16
        | ControlKind::U32 => d == ControlValueDescriptor::Integer(integer_range(info)),
        ControlKind::String => d is String,
        ControlKind::Boolean => d is Boolean,
        ControlKind::Bitmask => d is BitMask,
        ControlKind::Button => d is Null,
        ControlKind::Menu | ControlKind::IntegerMenu => d matches ControlValueDescriptor::Menu(v)
            && info.items matches Some(items) && v@ == menu_choices(items@),
        _ => false,
    }
}

/// Whether the control's descriptor admits its default.
pub open spec fn default_fits(info: ControlInfo) -> bool {
    match info.typ {
        ControlKind::Integer | ControlKind::Integer64 | ControlKind::U8 | ControlKind::U16
        | ControlKind::U32 => integer_range(info).admits(info.default),
        ControlKind::Menu | ControlKind::IntegerMenu => info.items matches Some(items)
            && menu_has_key(menu_choices(items@), ControlValue::Integer(info.default)),
        _ => true,
    }
}

/// The menu of a list of V4L2 menu items.
pub fn menu_from_items(items: &Vec<(u32, MenuItem)>) -> (r: Vec<(ControlValue, ControlValue)>)
    ensures
        r@ == menu_choices(items@),
{
    let mut out: Vec<(ControlValue, ControlValue)> = Vec::new();
    let mut i: usize = 0;
    while i < items.len()
        invariant
            i <= items.len(),
            out@.len() == i,
            forall|k: int| 0 <= k < i ==> out@[k] == menu_choice(#[trigger] items@[k]),
        decreases items.len() - i,
    {
        let key = ControlValue::Integer(items[i].0 as i64);
        let shown = match &items[i].1 {
            MenuItem::Name(n) => ControlValue::String(n.clone()),
            MenuItem::Value(v) => ControlValue::Integer(*v),
        };
        out.push((key, shown));
        i = i + 1;
    }
    assert(out@ =~= menu_choices(items@));
    out
}

/// The description of a control that V4L2 reports. Fails for kinds the library does
/// not describe (control classes, areas), for a menu without items, and when the
/// descriptor rejects the reported default.
pub fn convert_description_to_ctrl_body(description: &ControlInfo) -> (r: Option<ControlDescription>)
    ensures
        r is Some <==> describable(*description) && default_fits(*description),
        r matches Some(c) ==> {
            &&& c.wf()
            &&& c.flag_set() == flag_set_of(description.flags)
            &&& describes(*description, c.spec_descriptor())
            &&& c.spec_default() == default_of(*description)
        },
{
    let flags = flags(description.flags);
    let step = Some(description.step as i64);
    let (descriptor, default) = match description.typ {
        ControlKind::Integer | ControlKind::Integer64 => (
            ControlValueDescriptor::Integer(
                Range::new(description.minimum, description.maximum, step),
            ),
            Some(ControlValue::Integer(description.default)),
        ),
        ControlKind::U8 => (
            ControlValueDescriptor::Integer(Range::new(0, 0xFF, step)),
            Some(ControlValue::Integer(description.default)),
        ),
        ControlKind::U16 => (
            ControlValueDescriptor::Integer(Range::new(0, 0xFFFF, step)),
            Some(ControlValue::Integer(description.default)),
        ),
        ControlKind::U32 => (
            ControlValueDescriptor::Integer(Range::new(0, 0xFFFF_FFFF, step)),
            Some(ControlValue::Integer(description.default)),
        ),
        ControlKind::String => (ControlValueDescriptor::String, None),
        ControlKind::Boolean => (
            ControlValueDescriptor::Boolean,
            Some(ControlValue::Boolean(description.default != 0)),
        ),
        ControlKind::Bitmask => (
            ControlValueDescriptor::BitMask,
            Some(ControlValue::BitMask(description.default)),
        ),
        ControlKind::Menu | ControlKind::IntegerMenu => {
            let descriptor = match &description.items {
                Some(items) => ControlValueDescriptor::Menu(menu_from_items(items)),
                None => {
                    return None;
                },
            };
            (
                descriptor,
                Some(ControlValue::EnumPick(Box::new(ControlValue::Integer(description.default)))),
            )
        },
        ControlKind::Button => (ControlValueDescriptor::Null, None),
        ControlKind::CtrlClass | ControlKind::Area => {
            return None;
        },
    };
    proof {
        assert(describes(*description, descriptor));
        assert(default == default_of(*description));
        assert(default_admitted(descriptor, default) == default_fits(*description));
    }
    ControlDescription::new(flags, descriptor, default)
}

/// The values from `minimum` up to, not including, `maximum`, `step` apart; none when
/// the step is zero.
pub fn stepwise_values(minimum: u32, maximum: u32, step: u32) -> (r: Vec<u32>)
    ensures
        step == 0 ==> r@.len() == 0,
        forall|k: int| 0 <= k < r@.len() ==> #[trigger] r@[k] == minimum + k * step && r@[k] < maximum,
        step > 0 ==> minimum + r@.len() * step >= maximum,
{
    let mut out: Vec<u32> = Vec::new();
    if step == 0 {
        return out;
    }
    let mut value: u64 = minimum as u64;
    assert(out@.len() * step == 0) by (nonlinear_arith)
        requires
            out@.len() == 0,
    ;
    while value < maximum as u64
        invariant
            step > 0,
            value == minimum + out@.len() * step,
            out@.len() > 0 ==> value <= maximum as int + step,
            forall|k: int| 0 <= k < out@.len() ==> #[trigger] out@[k] == minimum + k * step && out@[k] < maximum,
        decreases maximum as int + step - value,
    {
        out.push(value as u32);
        proof {
            assert(out@[out@.len() - 1] == minimum + (out@.len() - 1) * step);
            assert(minimum + out@.len() * step == minimum + (out@.len() - 1) * step + step) by (nonlinear_arith);
        }
        value = value + step as u64;
    }
    out
}

/// The frame rate of a V4L2 frame interval of `numerator / denominator` seconds, in
/// whole frames per second; `None` for a zero interval.
pub fn interval_to_frame_rate(numerator: u32, denominator: u32) -> (r: Option<u32>)
    ensures
        numerator == 0 ==> r is None,
        numerator != 0 ==> r == Some((denominator / numerator) as u32),
{
    if numerator == 0 {
        None
    } else {
        Some(denominator / numerator)
    }
}

} // verus!
