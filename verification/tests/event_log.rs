use glide::events::{
    camera_target, mouse_event_from_hook, rebase_entry, CameraTarget, LogEntry, MouseEvent,
    MoveSampler, ScreenPoint, ACTIVE_ZOOM, IDLE_ZOOM, WM_LBUTTONDOWN, WM_LBUTTONUP,
    WM_MBUTTONDOWN, WM_MBUTTONUP, WM_RBUTTONDOWN, WM_RBUTTONUP,
};
use glide::hooks::WM_MOUSEWHEEL;
use glide::tracker::{EventTracker, StubEventTracker};
use std::path::PathBuf;
use std::sync::atomic::{AtomicBool, AtomicU64};
use std::sync::Arc;

fn zoom_factor(units: u32) -> f32 {
    units as f32 / 1200.0
}

#[test]
fn test_camera_idle_zoom() {
    let mut events = vec![];

    let t = camera_target(0, &events);
    assert_eq!(zoom_factor(t.zoom), 1.0);

    events.push(LogEntry {
        t: 1_000_000,
        event: MouseEvent::Click { x: 10, y: 10, button: "left".into(), action: "down".into() },
    });

    let t = camera_target(800_000, &events);
    assert_eq!(zoom_factor(t.zoom), 1.5);

    let t = camera_target(3_000_000, &events);
    assert_eq!(zoom_factor(t.zoom), 1.0);
}

fn mv(t: u64, x: i32, y: i32) -> LogEntry {
    LogEntry { t, event: MouseEvent::Move { x, y } }
}

#[test]
fn camera_target_looks_ahead_for_the_cursor() {
    let events = vec![mv(0, 1, 1), mv(200_000, 2, 2), mv(400_000, 3, 3), mv(4_000_000, 4, 4)];
    // at 0 the lookahead reaches 300 ms: the move at 200 ms
    assert_eq!(
        camera_target(0, &events),
        CameraTarget { cursor: Some(ScreenPoint { x: 2, y: 2 }), zoom: ACTIVE_ZOOM }
    );
    assert_eq!(camera_target(100_000, &events).cursor, Some(ScreenPoint { x: 3, y: 3 }));
    // 1.5 s after the last entry within reach the camera zooms out
    let late = camera_target(1_600_000, &events);
    assert_eq!(late.cursor, Some(ScreenPoint { x: 3, y: 3 }));
    assert_eq!(late.zoom, ACTIVE_ZOOM);
    assert_eq!(camera_target(1_900_000, &events).zoom, ACTIVE_ZOOM);
    assert_eq!(camera_target(1_900_001, &events).zoom, IDLE_ZOOM);
    // the next entry comes into the lookahead 300 ms before it happens
    let near = camera_target(3_700_000, &events);
    assert_eq!(near, CameraTarget { cursor: Some(ScreenPoint { x: 4, y: 4 }), zoom: ACTIVE_ZOOM });
}

#[test]
fn camera_target_without_moves_keeps_center() {
    let events = vec![LogEntry { t: 10, event: MouseEvent::Scroll { x: 5, y: 5, delta: 120 } }];
    assert_eq!(camera_target(0, &events), CameraTarget { cursor: None, zoom: ACTIVE_ZOOM });
    assert_eq!(camera_target(u64::MAX, &events), CameraTarget { cursor: None, zoom: IDLE_ZOOM });
}

#[test]
fn camera_follows_the_last_move_not_clicks() {
    let events = vec![
        mv(0, 1, 1),
        LogEntry { t: 100_000, event: MouseEvent::Click { x: 9, y: 9, button: "left".into(), action: "down".into() } },
        LogEntry { t: 150_000, event: MouseEvent::Scroll { x: 8, y: 8, delta: -120 } },
    ];
    assert_eq!(camera_target(0, &events).cursor, Some(ScreenPoint { x: 1, y: 1 }));
}

#[test]
fn lookahead_saturates_at_the_end_of_the_clock() {
    let events = vec![mv(u64::MAX, 7, 7)];
    assert_eq!(
        camera_target(u64::MAX - 100_000, &events),
        CameraTarget { cursor: Some(ScreenPoint { x: 7, y: 7 }), zoom: ACTIVE_ZOOM }
    );
}

fn click_of(e: Option<MouseEvent>) -> (i32, i32, String, String) {
    match e {
        Some(MouseEvent::Click { x, y, button, action }) => (x, y, button, action),
        _ => panic!("expected a click"),
    }
}

#[test]
fn hook_messages_become_clicks_and_scrolls() {
    let cases = [
        (WM_LBUTTONDOWN, "left", "down"),
        (WM_LBUTTONUP, "left", "up"),
        (WM_RBUTTONDOWN, "right", "down"),
        (WM_RBUTTONUP, "right", "up"),
        (WM_MBUTTONDOWN, "middle", "down"),
        (WM_MBUTTONUP, "middle", "up"),
    ];
    for (msg, button, action) in cases {
        let (x, y, b, a) = click_of(mouse_event_from_hook(0, msg, 7, -8, 0));
        assert_eq!((x, y), (7, -8));
        assert_eq!(b, button);
        assert_eq!(a, action);
    }
    match mouse_event_from_hook(0, WM_MOUSEWHEEL, 1, 2, 0xFF88_0000) {
        Some(MouseEvent::Scroll { x: 1, y: 2, delta: -120 }) => {}
        other => panic!("unexpected {:?}", other),
    }
    assert!(mouse_event_from_hook(0, 0x0200, 1, 2, 0).is_none());
    assert!(mouse_event_from_hook(-1, WM_LBUTTONDOWN, 1, 2, 0).is_none());
}

#[test]
fn entries_are_rebased_on_the_recording_start() {
    let e = rebase_entry(mv(1_500, 1, 2), 1_000).unwrap();
    assert_eq!(e.t, 500);
    assert!(rebase_entry(mv(1_500, 1, 2), u64::MAX).is_none());
    assert_eq!(rebase_entry(mv(500, 1, 2), 1_000).unwrap().t, 0);
}

#[test]
fn move_sampler_logs_only_moves() {
    let mut s = MoveSampler::new();
    let first = s.observe(3, 4, 10).unwrap();
    assert_eq!(first.t, 10);
    assert!(matches!(first.event, MouseEvent::Move { x: 3, y: 4 }));
    assert!(s.observe(3, 4, 20).is_none());
    assert!(s.observe(3, 5, 30).is_some());
}

#[test]
fn trackers_start_and_stop() {
    let stop = Arc::new(AtomicBool::new(false));
    let start = Arc::new(AtomicU64::new(u64::MAX));
    let mut stub = StubEventTracker::start(PathBuf::from("a.events.jsonl"), stop.clone(), start.clone()).unwrap();
    stub.stop();
    let mut t = EventTracker::start(PathBuf::from("a.events.jsonl"), stop, start).unwrap();
    t.stop();
}
