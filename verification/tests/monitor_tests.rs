use screen_capture::error::CaptureError;
use screen_capture::monitor::Monitor;
use screen_capture::monitor::RawDisplay;
use screen_capture::monitor::RawDisplayMode;
use screen_capture::monitor::ScaleFactor;
use screen_capture::monitor::find_monitor;
use screen_capture::monitor::list_monitors;
use screen_capture::monitor::monitor_from_point;
use screen_capture::monitor::resolve_scale_factor;
use screen_capture::monitor::rotation_from_orientation;

fn raw(id: u32, x: i32, y: i32, width: u32, height: u32, primary: bool) -> RawDisplay {
    RawDisplay {
        id,
        name: format!("Display {}", id),
        is_primary: primary,
        mode: Some(RawDisplayMode { x, y, width, height, orientation: 0, frequency: 60 }),
        dpi: None,
        physical_width: width,
        logical_width: width,
    }
}

#[test]
fn single_full_hd_monitor_is_normalized() {
    let raws = vec![raw(1, 0, 0, 1920, 1080, true)];
    let ms = list_monitors(&raws);
    assert_eq!(ms.len(), 1);
    let m = &ms[0];
    assert_eq!(m.id, 1);
    assert_eq!(m.x, 0);
    assert_eq!(m.y, 0);
    assert_eq!(m.width, 1920);
    assert_eq!(m.height, 1080);
    assert_eq!(m.rotation, 0);
    // Scale factor 1.0: the ratio's terms are equal.
    assert_eq!(m.scale_factor.num, m.scale_factor.den);
    assert_eq!(m.frequency, 60);
    assert!(m.is_primary);
}

#[test]
fn rotation_maps_the_four_orientation_codes() {
    assert_eq!(rotation_from_orientation(0), 0);
    assert_eq!(rotation_from_orientation(1), 90);
    assert_eq!(rotation_from_orientation(2), 180);
    assert_eq!(rotation_from_orientation(3), 270);
    // Unknown codes fall back to no rotation.
    assert_eq!(rotation_from_orientation(7), 0);
}

#[test]
fn dpi_query_wins_over_device_caps() {
    let s = resolve_scale_factor(Some(144), 1920, 1920);
    assert_eq!(s, Some(ScaleFactor { num: 144, den: 96 }));
}

#[test]
fn device_caps_ratio_is_the_fallback() {
    let s = resolve_scale_factor(None, 3840, 1920);
    assert_eq!(s, Some(ScaleFactor { num: 3840, den: 1920 }));
    // A zero DPI answer also falls back.
    let s = resolve_scale_factor(Some(0), 3840, 1920);
    assert_eq!(s, Some(ScaleFactor { num: 3840, den: 1920 }));
}

#[test]
fn unresolvable_scale_has_no_value() {
    assert_eq!(resolve_scale_factor(None, 0, 1920), None);
    assert_eq!(resolve_scale_factor(None, 1920, 0), None);
}

#[test]
fn monitor_new_reports_the_failing_field() {
    let mut d = raw(1, 0, 0, 800, 600, true);
    d.mode = None;
    assert_eq!(Monitor::new(&d).err(), Some(CaptureError::FieldDecodeFailure));

    let d = raw(2, 0, 0, 0, 600, true);
    assert_eq!(Monitor::new(&d).err(), Some(CaptureError::GeometryFailure));

    let mut d = raw(3, 0, 0, 800, 600, true);
    d.physical_width = 0;
    assert_eq!(Monitor::new(&d).err(), Some(CaptureError::FieldDecodeFailure));
}

#[test]
fn undecodable_display_is_skipped_not_fatal() {
    let mut bad = raw(2, 1920, 0, 1280, 1024, false);
    bad.mode = None;
    let raws = vec![raw(1, 0, 0, 1920, 1080, true), bad, raw(3, 3200, 0, 800, 600, false)];
    let ms = list_monitors(&raws);
    assert_eq!(ms.len(), 2);
    assert_eq!(ms[0].id, 1);
    assert_eq!(ms[1].id, 3);
}

#[test]
fn exactly_one_primary_when_platform_flags_none() {
    let raws = vec![raw(1, 0, 0, 1920, 1080, false), raw(2, 1920, 0, 1280, 1024, false)];
    let ms = list_monitors(&raws);
    assert_eq!(ms.len(), 2);
    assert!(ms[0].is_primary);
    assert!(!ms[1].is_primary);
}

#[test]
fn exactly_one_primary_when_platform_flags_many() {
    let raws = vec![
        raw(1, 0, 0, 1920, 1080, false),
        raw(2, 1920, 0, 1280, 1024, true),
        raw(3, 3200, 0, 800, 600, true),
    ];
    let ms = list_monitors(&raws);
    let primaries = ms.iter().filter(|m| m.is_primary).count();
    assert_eq!(primaries, 1);
    // The first flagged record keeps the flag.
    assert!(ms[1].is_primary);
}

#[test]
fn monitor_from_point_finds_the_containing_monitor() {
    let raws = vec![raw(1, 0, 0, 1920, 1080, true), raw(2, 1920, 0, 1280, 1024, false)];
    let ms = list_monitors(&raws);
    assert_eq!(monitor_from_point(&ms, 100, 100), Some(0));
    assert_eq!(monitor_from_point(&ms, 2000, 500), Some(1));
    // The right and bottom edges are exclusive.
    assert_eq!(monitor_from_point(&ms, 3200, 0), None);
    assert_eq!(monitor_from_point(&ms, -1, 0), None);
}

#[test]
fn find_monitor_resolves_identifiers() {
    let raws = vec![raw(7, 0, 0, 1920, 1080, true), raw(9, 1920, 0, 1280, 1024, false)];
    let ms = list_monitors(&raws);
    assert_eq!(find_monitor(&ms, 9), Some(1));
    assert_eq!(find_monitor(&ms, 8), None);
}

#[test]
fn enumeration_preserves_names_and_positions() {
    let raws = vec![raw(1, -1920, -500, 1920, 1080, true)];
    let ms = list_monitors(&raws);
    assert_eq!(ms[0].name, "Display 1");
    assert_eq!(ms[0].x, -1920);
    assert_eq!(ms[0].y, -500);
}
