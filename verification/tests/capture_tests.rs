use screen_capture::capture::CaptureTarget;
use screen_capture::capture::ChannelOrder;
use screen_capture::capture::RawFrame;
use screen_capture::capture::RowOrder;
use screen_capture::capture::capture;
use screen_capture::capture::capture_region;
use screen_capture::capture::capture_screen;
use screen_capture::capture::capture_screen_area;
use screen_capture::capture::capture_window;
use screen_capture::capture::normalize_frame;
use screen_capture::error::CaptureError;
use screen_capture::geometry::Rect;
use screen_capture::monitor::Monitor;
use screen_capture::monitor::ScaleFactor;
use screen_capture::window::Window;

fn monitor(id: u32, x: i32, y: i32, width: u32, height: u32) -> Monitor {
    Monitor {
        id,
        name: format!("Display {}", id),
        x,
        y,
        width,
        height,
        rotation: 0,
        scale_factor: ScaleFactor { num: 1, den: 1 },
        frequency: 60,
        is_primary: true,
    }
}

fn rgba_frame(width: u32, height: u32) -> RawFrame {
    RawFrame {
        width,
        height,
        stride: width * 4,
        channel_order: ChannelOrder::Rgba,
        row_order: RowOrder::TopDown,
        data: vec![0u8; (width * height * 4) as usize],
    }
}

#[test]
fn full_hd_screen_capture_dimensions() {
    let m = monitor(1, 0, 0, 1920, 1080);
    let img = capture_screen(&m, &rgba_frame(1920, 1080)).unwrap();
    assert_eq!(img.width, 1920);
    assert_eq!(img.height, 1080);
    assert_eq!(img.buffer.len(), 8294400);
}

#[test]
fn area_capture_dimensions_and_bounds_policy() {
    let m = monitor(1, 0, 0, 1920, 1080);
    let img = capture_screen_area(&m, 100, 100, 50, 50, &rgba_frame(50, 50)).unwrap();
    assert_eq!(img.width, 50);
    assert_eq!(img.height, 50);
    assert_eq!(img.buffer.len(), 10000);
    // A rectangle reaching outside the monitor fails; it is not clamped.
    let r = capture_screen_area(&m, 1900, 1000, 200, 200, &rgba_frame(200, 200));
    assert_eq!(r.err(), Some(CaptureError::UnsupportedTarget));
    let r = capture_screen_area(&m, -5, 0, 50, 50, &rgba_frame(50, 50));
    assert_eq!(r.err(), Some(CaptureError::UnsupportedTarget));
}

#[test]
fn full_bounds_area_equals_direct_screen_capture_dimensions() {
    let m = monitor(1, 0, 0, 640, 480);
    let direct = capture_screen(&m, &rgba_frame(640, 480)).unwrap();
    let area = capture_screen_area(&m, 0, 0, 640, 480, &rgba_frame(640, 480)).unwrap();
    assert_eq!(direct.width, area.width);
    assert_eq!(direct.height, area.height);
    assert_eq!(direct.buffer.len(), area.buffer.len());
}

#[test]
fn zero_size_targets_fail_with_geometry_error() {
    let m = monitor(1, 0, 0, 1920, 1080);
    let r = capture_screen_area(&m, 0, 0, 0, 50, &rgba_frame(1, 1));
    assert_eq!(r.err(), Some(CaptureError::GeometryFailure));
    let zero = monitor(2, 0, 0, 0, 0);
    let r = capture_screen(&zero, &rgba_frame(1, 1));
    assert_eq!(r.err(), Some(CaptureError::GeometryFailure));
}

#[test]
fn mismatched_or_short_frames_fail_with_resource_error() {
    let m = monitor(1, 0, 0, 100, 100);
    // Frame of the wrong size for the target.
    let r = capture_screen(&m, &rgba_frame(99, 100));
    assert_eq!(r.err(), Some(CaptureError::ResourceAcquisitionFailure));
    // Buffer shorter than the declared layout.
    let mut short = rgba_frame(100, 100);
    short.data.truncate(100);
    let r = capture_screen(&m, &short);
    assert_eq!(r.err(), Some(CaptureError::ResourceAcquisitionFailure));
    // Stride too small to hold a row.
    let mut narrow = rgba_frame(100, 100);
    narrow.stride = 399;
    let r = capture_screen(&m, &narrow);
    assert_eq!(r.err(), Some(CaptureError::ResourceAcquisitionFailure));
}

#[test]
fn normalization_swaps_channels_strips_padding_and_flips_rows() {
    // Two rows of two BGRA pixels, four bytes of padding per row,
    // bottom row first.
    let data: Vec<u8> = vec![
        // Source row 0: the bottom row of the picture.
        10, 20, 30, 40, 11, 21, 31, 41, 0, 0, 0, 0,
        // Source row 1: the top row of the picture.
        50, 60, 70, 80, 51, 61, 71, 81, 0, 0, 0, 0,
    ];
    let frame = RawFrame {
        width: 2,
        height: 2,
        stride: 12,
        channel_order: ChannelOrder::Bgra,
        row_order: RowOrder::BottomUp,
        data,
    };
    let img = normalize_frame(&frame).unwrap();
    assert_eq!(img.width, 2);
    assert_eq!(img.height, 2);
    assert_eq!(
        img.buffer,
        vec![
            70, 60, 50, 80, 71, 61, 51, 81, // top row, RGBA
            30, 20, 10, 40, 31, 21, 11, 41, // bottom row, RGBA
        ]
    );
}

#[test]
fn top_down_rgba_frame_passes_through_without_padding() {
    let data: Vec<u8> = vec![1, 2, 3, 4, 5, 6, 7, 8];
    let frame = RawFrame {
        width: 2,
        height: 1,
        stride: 8,
        channel_order: ChannelOrder::Rgba,
        row_order: RowOrder::TopDown,
        data: data.clone(),
    };
    let img = normalize_frame(&frame).unwrap();
    assert_eq!(img.buffer, data);
}

#[test]
fn window_capture_matches_window_dimensions() {
    let w = Window {
        id: 10,
        title: "editor".to_string(),
        app_name: "code".to_string(),
        pid: 1010,
        monitor_id: 1,
        x: 30,
        y: 40,
        z: 0,
        width: 640,
        height: 480,
        is_minimized: false,
        is_maximized: false,
    };
    let img = capture_window(&w, &rgba_frame(640, 480)).unwrap();
    assert_eq!(img.width, 640);
    assert_eq!(img.height, 480);
    assert_eq!(img.buffer.len(), 640 * 480 * 4);
    let r = capture_window(&w, &rgba_frame(480, 640));
    assert_eq!(r.err(), Some(CaptureError::ResourceAcquisitionFailure));
}


#[test]
fn region_capture_is_checked_against_the_virtual_desktop_extents() {
    let ms = vec![monitor(1, 0, 0, 1920, 1080), monitor(2, 1920, 0, 1280, 1024)];
    // A rectangle spanning both monitors fits the extents.
    let spanning = Rect { x: 1900, y: 0, width: 200, height: 1000 };
    let img = capture_region(&ms, &spanning, &rgba_frame(200, 1000)).unwrap();
    assert_eq!(img.width, 200);
    assert_eq!(img.height, 1000);
    // Reaching past the right edge of the extents fails unclamped.
    let outside = Rect { x: 3100, y: 0, width: 200, height: 10 };
    let r = capture_region(&ms, &outside, &rgba_frame(200, 10));
    assert_eq!(r.err(), Some(CaptureError::UnsupportedTarget));
    // Reaching past the left edge fails too.
    let outside = Rect { x: -10, y: 0, width: 5, height: 5 };
    let r = capture_region(&ms, &outside, &rgba_frame(5, 5));
    assert_eq!(r.err(), Some(CaptureError::UnsupportedTarget));
    // With no monitors there is no addressable desktop.
    let r = capture_region(&Vec::new(), &spanning, &rgba_frame(200, 1000));
    assert_eq!(r.err(), Some(CaptureError::UnsupportedTarget));
}

#[test]
fn dispatcher_routes_each_target_kind() {
    let ms = vec![monitor(1, 0, 0, 640, 480)];
    let img = capture(&CaptureTarget::Monitor(monitor(1, 0, 0, 640, 480)), &ms, &rgba_frame(640, 480))
        .unwrap();
    assert_eq!((img.width, img.height), (640, 480));
    let w = Window {
        id: 10,
        title: "w".to_string(),
        app_name: "a".to_string(),
        pid: 1,
        monitor_id: 1,
        x: 0,
        y: 0,
        z: 0,
        width: 320,
        height: 200,
        is_minimized: false,
        is_maximized: false,
    };
    let img = capture(&CaptureTarget::Window(w), &ms, &rgba_frame(320, 200)).unwrap();
    assert_eq!((img.width, img.height), (320, 200));
    let region = Rect { x: 10, y: 10, width: 100, height: 100 };
    let img = capture(&CaptureTarget::Region(region), &ms, &rgba_frame(100, 100)).unwrap();
    assert_eq!((img.width, img.height), (100, 100));
}
