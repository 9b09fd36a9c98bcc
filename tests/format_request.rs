use nokhwa_core::format_request::{format_distance_to_point, FormatRequest, FormatRequestType};
use nokhwa_core::frame_format::FrameFormat;
use nokhwa_core::ranges::Range;
use nokhwa_core::types::{CameraFormat, Resolution};

fn fmt(w: u32, h: u32, format: FrameFormat, fps: u32) -> CameraFormat {
    CameraFormat::new(Resolution::new(w, h), format, fps)
}

fn shape(list: &[CameraFormat]) -> Vec<(u32, u32, u32)> {
    list.iter().map(|f| (f.width(), f.height(), f.frame_rate())).collect()
}

#[test]
fn exact_keeps_only_exact_matches() {
    let request = FormatRequest::new(
        FormatRequestType::Exact { resolution: Resolution::new(1920, 1080), frame_rate: 30 },
        vec![FrameFormat::MJpeg],
    );
    let formats = vec![
        fmt(1920, 1080, FrameFormat::MJpeg, 30),
        fmt(1920, 1080, FrameFormat::MJpeg, 60),
        fmt(1280, 720, FrameFormat::MJpeg, 30),
    ];
    let sorted = request.sort_foramts(formats);
    assert_eq!(shape(&sorted), vec![(1920, 1080, 30)]);
}

#[test]
fn closest_puts_preferred_resolution_first() {
    let request = FormatRequest::new(
        FormatRequestType::Closest {
            resolution: Some(Resolution::new(1280, 720)),
            resolution_range: None,
            frame_rate: None,
            frame_rate_range: None,
        },
        vec![FrameFormat::Yuyv422],
    );
    let formats = vec![
        fmt(640, 480, FrameFormat::Yuyv422, 30),
        fmt(1280, 720, FrameFormat::Yuyv422, 30),
        fmt(1920, 1080, FrameFormat::Yuyv422, 30),
    ];
    let sorted = request.sort_foramts(formats);
    assert_eq!(shape(&sorted), vec![(1280, 720, 30), (640, 480, 30), (1920, 1080, 30)]);
    let best = request.best(&sorted).unwrap();
    assert_eq!(best.resolution(), Resolution::new(1280, 720));
}

#[test]
fn closest_keeps_enumeration_order_on_ties() {
    let request = FormatRequest::new(
        FormatRequestType::Closest {
            resolution: Some(Resolution::new(1000, 1000)),
            resolution_range: None,
            frame_rate: Some(30),
            frame_rate_range: None,
        },
        vec![FrameFormat::MJpeg, FrameFormat::Nv12],
    );
    let formats = vec![
        fmt(1100, 1000, FrameFormat::MJpeg, 30),
        fmt(1000, 1000, FrameFormat::Nv12, 130),
        fmt(900, 1000, FrameFormat::Nv12, 30),
        fmt(1000, 1000, FrameFormat::Rgb888, 30),
        fmt(1000, 1000, FrameFormat::Nv12, 25),
    ];
    let sorted = request.sort_foramts(formats);
    assert_eq!(
        shape(&sorted),
        vec![(1000, 1000, 25), (1100, 1000, 30), (1000, 1000, 130), (900, 1000, 30)]
    );
}

#[test]
fn closest_filters_by_both_ranges() {
    let request = FormatRequest::new(
        FormatRequestType::Closest {
            resolution: None,
            resolution_range: Some(Range::new(Resolution::new(0, 0), Resolution::new(1280, 720), None)),
            frame_rate: None,
            frame_rate_range: Some(Range::new(30, 60, None)),
        },
        vec![FrameFormat::MJpeg],
    );
    let formats = vec![
        fmt(640, 480, FrameFormat::MJpeg, 15),
        fmt(640, 480, FrameFormat::MJpeg, 30),
        fmt(1920, 1080, FrameFormat::MJpeg, 30),
    ];
    assert_eq!(shape(&request.sort_foramts(formats)), vec![(640, 480, 30)]);
}

#[test]
fn highest_frame_rate_sorts_ascending_within_range() {
    let request = FormatRequest::new(
        FormatRequestType::HighestFrameRate { frame_rate: Range::new(10, 60, None) },
        vec![FrameFormat::MJpeg],
    );
    let formats = vec![
        fmt(640, 480, FrameFormat::MJpeg, 60),
        fmt(640, 480, FrameFormat::MJpeg, 5),
        fmt(640, 480, FrameFormat::MJpeg, 30),
        fmt(640, 480, FrameFormat::MJpeg, 120),
        fmt(640, 480, FrameFormat::H264, 30),
    ];
    assert_eq!(shape(&request.sort_foramts(formats)), vec![(640, 480, 30), (640, 480, 60)]);
}

#[test]
fn highest_resolution_sorts_by_width_then_height() {
    let request = FormatRequest::new(
        FormatRequestType::HighestResolution {
            resolution: Range::new(Resolution::new(0, 0), Resolution::new(4000, 4000), None),
        },
        vec![FrameFormat::MJpeg],
    );
    let formats = vec![
        fmt(1920, 1080, FrameFormat::MJpeg, 30),
        fmt(640, 480, FrameFormat::MJpeg, 30),
        fmt(1920, 800, FrameFormat::MJpeg, 30),
    ];
    assert_eq!(
        shape(&request.sort_foramts(formats)),
        vec![(640, 480, 30), (1920, 800, 30), (1920, 1080, 30)]
    );
}

#[test]
fn any_passes_everything_through() {
    let request = FormatRequest::new(FormatRequestType::Any, vec![]);
    let formats = vec![fmt(1, 2, FrameFormat::Custom(9), 3), fmt(4, 5, FrameFormat::VP8, 6)];
    assert_eq!(shape(&request.sort_foramts(formats)), vec![(1, 2, 3), (4, 5, 6)]);
}

#[test]
fn empty_list_gives_empty_result() {
    let request = FormatRequest::new(FormatRequestType::Any, vec![FrameFormat::MJpeg]);
    let sorted = request.sort_foramts(vec![]);
    assert!(sorted.is_empty());
    assert!(request.best(&sorted).is_none());
}

#[test]
fn distance_adds_frame_rate_and_resolution() {
    let f = fmt(1000, 700, FrameFormat::MJpeg, 25);
    assert_eq!(format_distance_to_point(&Some(Resolution::new(1280, 720)), &Some(30), &f), 305);
    assert_eq!(format_distance_to_point(&None, &Some(30), &f), 5);
    assert_eq!(format_distance_to_point(&None, &None, &f), 0);
    assert_eq!(Resolution::new(1, 10).distance_from(&Resolution::new(4, 6)), 7);
}
