use screen_capture::error::CaptureError;
use screen_capture::geometry::Rect;
use screen_capture::monitor::Monitor;
use screen_capture::monitor::ScaleFactor;
use screen_capture::window::RawWindowEntry;
use screen_capture::window::Window;
use screen_capture::window::associate_monitor;
use screen_capture::window::list_windows;

fn monitor(id: u32, x: i32, y: i32, width: u32, height: u32, primary: bool) -> Monitor {
    Monitor {
        id,
        name: format!("Display {}", id),
        x,
        y,
        width,
        height,
        rotation: 0,
        scale_factor: ScaleFactor { num: 96, den: 96 },
        frequency: 60,
        is_primary: primary,
    }
}

fn entry(id: u32, title: &str, app: &str, bounds: Rect, onscreen: bool) -> RawWindowEntry {
    RawWindowEntry {
        id: Some(id),
        pid: Some(id + 1000),
        title: Some(title.to_string()),
        app_name: Some(app.to_string()),
        sharing_state: Some(1),
        is_onscreen: Some(onscreen),
        bounds: Some(bounds),
    }
}

fn two_monitors() -> Vec<Monitor> {
    vec![monitor(1, 0, 0, 1920, 1080, true), monitor(2, 1920, 0, 1280, 1024, false)]
}

#[test]
fn z_indices_are_a_reversed_permutation() {
    let ms = two_monitors();
    let entries = vec![
        entry(10, "front", "app a", Rect { x: 0, y: 0, width: 100, height: 100 }, true),
        entry(11, "middle", "app b", Rect { x: 50, y: 50, width: 100, height: 100 }, true),
        entry(12, "back", "app c", Rect { x: 90, y: 90, width: 100, height: 100 }, true),
    ];
    let ws = list_windows(&entries, &ms);
    assert_eq!(ws.len(), 3);
    // The frontmost native entry carries the highest z-index.
    assert_eq!(ws[0].id, 10);
    assert_eq!(ws[0].z, 2);
    assert_eq!(ws[1].z, 1);
    assert_eq!(ws[2].z, 0);
    // The z-indices are a permutation of 0..3.
    let mut seen = vec![false; 3];
    for w in &ws {
        assert!(w.z < 3);
        assert!(!seen[w.z]);
        seen[w.z] = true;
    }
}

#[test]
fn undecodable_entry_is_skipped_not_fatal() {
    let ms = two_monitors();
    let mut broken = entry(11, "no title", "app", Rect { x: 0, y: 0, width: 10, height: 10 }, true);
    broken.title = None;
    let entries = vec![
        entry(10, "first", "app", Rect { x: 0, y: 0, width: 10, height: 10 }, true),
        broken,
        entry(12, "third", "app", Rect { x: 0, y: 0, width: 10, height: 10 }, true),
    ];
    let ws = list_windows(&entries, &ms);
    assert_eq!(ws.len(), 2);
    assert_eq!(ws[0].id, 10);
    assert_eq!(ws[1].id, 12);
    // The two kept windows still share out the ranks 0 and 1.
    assert_eq!(ws[0].z, 1);
    assert_eq!(ws[1].z, 0);
}

#[test]
fn status_indicator_pseudo_window_is_skipped() {
    let ms = two_monitors();
    let entries = vec![
        entry(10, "StatusIndicator", "Window Server", Rect { x: 0, y: 0, width: 10, height: 10 }, true),
        entry(11, "kept", "app", Rect { x: 0, y: 0, width: 10, height: 10 }, true),
        // The title alone does not mark the pseudo-window.
        entry(12, "StatusIndicator", "other app", Rect { x: 0, y: 0, width: 10, height: 10 }, true),
    ];
    let ws = list_windows(&entries, &ms);
    assert_eq!(ws.len(), 2);
    assert_eq!(ws[0].id, 11);
    assert_eq!(ws[1].id, 12);
}

#[test]
fn sharing_state_none_is_excluded_from_capture() {
    let ms = two_monitors();
    let mut excluded = entry(10, "hidden", "app", Rect { x: 0, y: 0, width: 10, height: 10 }, true);
    excluded.sharing_state = Some(0);
    let mut unknown = entry(11, "unknown", "app", Rect { x: 0, y: 0, width: 10, height: 10 }, true);
    unknown.sharing_state = None;
    let entries =
        vec![excluded, unknown, entry(12, "kept", "app", Rect { x: 0, y: 0, width: 10, height: 10 }, true)];
    let ws = list_windows(&entries, &ms);
    assert_eq!(ws.len(), 1);
    assert_eq!(ws[0].id, 12);
}

#[test]
fn window_fields_are_carried_over() {
    let ms = two_monitors();
    let entries = vec![entry(10, "editor", "code", Rect { x: 30, y: 40, width: 640, height: 480 }, true)];
    let ws = list_windows(&entries, &ms);
    let w = &ws[0];
    assert_eq!(w.id, 10);
    assert_eq!(w.pid, 1010);
    assert_eq!(w.title, "editor");
    assert_eq!(w.app_name, "code");
    assert_eq!(w.x, 30);
    assert_eq!(w.y, 40);
    assert_eq!(w.width, 640);
    assert_eq!(w.height, 480);
}

#[test]
fn center_point_decides_the_monitor() {
    let ms = two_monitors();
    // Center (2000, 300) lies on the second monitor.
    let entries = vec![entry(10, "w", "a", Rect { x: 1900, y: 200, width: 200, height: 200 }, true)];
    let ws = list_windows(&entries, &ms);
    assert_eq!(ws[0].monitor_id, 2);
}

#[test]
fn largest_intersection_decides_when_no_center_matches() {
    // The window's center falls in the gap between the two monitors.
    let ms = vec![monitor(1, 0, 0, 100, 100, true), monitor(2, 300, 0, 400, 100, false)];
    // Spans x 80..460: 20 columns overlap monitor 1, 160 overlap monitor 2,
    // and the center x = 270 lies on neither.
    let r = Rect { x: 80, y: 0, width: 380, height: 50 };
    assert_eq!(associate_monitor(&ms, &r), Some(1));
}

#[test]
fn primary_monitor_is_the_last_resort() {
    let ms = vec![monitor(1, 0, 0, 100, 100, false), monitor(2, 300, 0, 400, 100, true)];
    let r = Rect { x: 1000, y: 1000, width: 50, height: 50 };
    assert_eq!(associate_monitor(&ms, &r), Some(1));
    // With no monitors at all, nothing can be associated.
    assert_eq!(associate_monitor(&Vec::new(), &r), None);
}

#[test]
fn maximized_is_derived_from_monitor_size() {
    let ms = two_monitors();
    // Covers the full primary monitor in both dimensions.
    let entries = vec![entry(10, "big", "app", Rect { x: 0, y: 0, width: 1920, height: 1080 }, true)];
    let ws = list_windows(&entries, &ms);
    assert!(ws[0].is_maximized);
    assert!(!ws[0].is_minimized);
}

#[test]
fn minimized_and_maximized_are_mutually_exclusive() {
    let ms = two_monitors();
    // Off-screen and monitor-sized: judged maximized, hence not minimized.
    let covering =
        entry(10, "covering", "app", Rect { x: 0, y: 0, width: 2000, height: 1200 }, false);
    // Off-screen and small: minimized.
    let small = entry(11, "small", "app", Rect { x: 10, y: 10, width: 300, height: 200 }, false);
    // On-screen and small: neither.
    let plain = entry(12, "plain", "app", Rect { x: 10, y: 10, width: 300, height: 200 }, true);
    let ws = list_windows(&vec![covering, small, plain], &ms);
    assert!(ws[0].is_maximized && !ws[0].is_minimized);
    assert!(!ws[1].is_maximized && ws[1].is_minimized);
    assert!(!ws[2].is_maximized && !ws[2].is_minimized);
    for w in &ws {
        assert!(!(w.is_minimized && w.is_maximized));
    }
}

#[test]
fn window_new_reports_the_failing_field() {
    let ms = two_monitors();
    let mut no_bounds = entry(10, "w", "a", Rect { x: 0, y: 0, width: 10, height: 10 }, true);
    no_bounds.bounds = None;
    assert_eq!(
        Window::new(&no_bounds, &ms, 0).err(),
        Some(CaptureError::GeometryFailure)
    );

    let mut no_id = entry(10, "w", "a", Rect { x: 0, y: 0, width: 10, height: 10 }, true);
    no_id.id = None;
    assert_eq!(
        Window::new(&no_id, &ms, 0).err(),
        Some(CaptureError::FieldDecodeFailure)
    );

    let ok = entry(10, "w", "a", Rect { x: 0, y: 0, width: 10, height: 10 }, true);
    assert_eq!(
        Window::new(&ok, &Vec::new(), 0).err(),
        Some(CaptureError::FieldDecodeFailure)
    );
    assert!(Window::new(&ok, &ms, 5).is_ok());
    assert_eq!(Window::new(&ok, &ms, 5).unwrap().z, 5);
}
