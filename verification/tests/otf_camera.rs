use glide::events::ScreenPoint;
use glide::hooks::{
    accessibility_keys_enabled, send_event, wheel_delta, CursorPoller, GestureHooks, TapTracker,
    DOUBLE_TAP_WINDOW_US, VK_CONTROL, VK_LSHIFT, VK_RSHIFT, VK_SHIFT, WM_KEYDOWN, WM_KEYUP,
    WM_MOUSEWHEEL, WM_SYSKEYDOWN,
};
use glide::otf::{
    CameraState, LiveCamera, LiveTarget, OtfInputEvent, DEFAULT_ZOOM, MAX_ZOOM, MIN_ZOOM,
};
use glide::overlay::{last_region, latest_region, OverlayCommand, OverlayWindow};

fn apply(mut s: CameraState, e: OtfInputEvent) -> CameraState {
    s.apply_event(e);
    s
}

#[test]
fn camera_state_starts_idle() {
    assert_eq!(CameraState::new(), CameraState::Idle);
}

#[test]
fn double_tap_shift_zooms_to_default_and_resets() {
    assert_eq!(
        apply(CameraState::Idle, OtfInputEvent::DoubleTapShift),
        CameraState::Zoomed { level: DEFAULT_ZOOM }
    );
    assert_eq!(
        apply(CameraState::Zoomed { level: 3000 }, OtfInputEvent::DoubleTapShift),
        CameraState::Zoomed { level: 1920 }
    );
}

#[test]
fn double_tap_ctrl_returns_to_idle() {
    assert_eq!(apply(CameraState::Zoomed { level: 2500 }, OtfInputEvent::DoubleTapCtrl), CameraState::Idle);
    assert_eq!(apply(CameraState::Idle, OtfInputEvent::DoubleTapCtrl), CameraState::Idle);
}

#[test]
fn scroll_up_from_idle_zooms_one_tenth_per_notch() {
    // 1.0x + 0.1x
    assert_eq!(apply(CameraState::Idle, OtfInputEvent::ShiftScroll(120)), CameraState::Zoomed { level: 1320 });
    // scrolling down while idle does nothing
    assert_eq!(apply(CameraState::Idle, OtfInputEvent::ShiftScroll(-120)), CameraState::Idle);
    assert_eq!(apply(CameraState::Idle, OtfInputEvent::ShiftScroll(0)), CameraState::Idle);
}

#[test]
fn scroll_is_clamped_to_max_zoom() {
    assert_eq!(
        apply(CameraState::Zoomed { level: 4700 }, OtfInputEvent::ShiftScroll(1200)),
        CameraState::Zoomed { level: MAX_ZOOM }
    );
    assert_eq!(apply(CameraState::Idle, OtfInputEvent::ShiftScroll(i32::MAX)), CameraState::Zoomed { level: 4800 });
}

#[test]
fn scrolling_down_through_one_exits_to_idle() {
    // 1.6x - 6 notches = 1.0x
    assert_eq!(apply(CameraState::Zoomed { level: DEFAULT_ZOOM }, OtfInputEvent::ShiftScroll(-720)), CameraState::Idle);
    // just above 1.001x stays zoomed
    assert_eq!(
        apply(CameraState::Zoomed { level: 1322 }, OtfInputEvent::ShiftScroll(-120)),
        CameraState::Zoomed { level: 1202 }
    );
    assert_eq!(apply(CameraState::Zoomed { level: 1321 }, OtfInputEvent::ShiftScroll(-120)), CameraState::Idle);
    assert_eq!(apply(CameraState::Zoomed { level: MIN_ZOOM }, OtfInputEvent::ShiftScroll(i32::MIN)), CameraState::Idle);
}

#[test]
fn scroll_round_trip_returns_to_level() {
    let s = apply(CameraState::Zoomed { level: 2000 }, OtfInputEvent::ShiftScroll(360));
    assert_eq!(s, CameraState::Zoomed { level: 2360 });
    assert_eq!(apply(s, OtfInputEvent::ShiftScroll(-360)), CameraState::Zoomed { level: 2000 });
}

#[test]
fn cursor_moves_keep_state() {
    let s = CameraState::Zoomed { level: 2222 };
    assert_eq!(apply(s, OtfInputEvent::CursorMoved(5, 6)), s);
}

#[test]
fn live_camera_follows_cursor_when_zoomed() {
    let mut cam = LiveCamera::new();
    assert_eq!(cam.target(), LiveTarget::FullFrame);
    cam.apply(OtfInputEvent::CursorMoved(100, 200));
    assert_eq!(cam.target(), LiveTarget::FullFrame);
    cam.apply(OtfInputEvent::DoubleTapShift);
    assert_eq!(
        cam.target(),
        LiveTarget::Follow { cursor: Some(ScreenPoint { x: 100, y: 200 }), level: 1920 }
    );
    cam.apply(OtfInputEvent::DoubleTapCtrl);
    assert_eq!(cam.target(), LiveTarget::FullFrame);
}

#[test]
fn live_camera_drains_all_pending_events_in_order() {
    let (tx, rx) = crossbeam_channel::unbounded();
    tx.send(OtfInputEvent::CursorMoved(1, 2)).unwrap();
    tx.send(OtfInputEvent::DoubleTapShift).unwrap();
    tx.send(OtfInputEvent::ShiftScroll(120)).unwrap();
    tx.send(OtfInputEvent::CursorMoved(3, 4)).unwrap();
    let mut cam = LiveCamera::new();
    let drained = cam.drain(&rx);
    assert_eq!(drained.len(), 4);
    assert_eq!(drained[1], OtfInputEvent::DoubleTapShift);
    assert_eq!(cam.state, CameraState::Zoomed { level: 2040 });
    assert_eq!(cam.cursor, Some(ScreenPoint { x: 3, y: 4 }));
    assert_eq!(cam.drain(&rx).len(), 0);
}

#[test]
fn tap_tracker_detects_double_tap_within_window() {
    let mut t = TapTracker::new();
    assert!(!t.press(1_000_000));
    t.release();
    assert!(t.press(1_000_000 + DOUBLE_TAP_WINDOW_US));
    assert_eq!(t, TapTracker { is_down: true, last_down_us: None });
}

#[test]
fn tap_tracker_ignores_slow_taps_and_autorepeat() {
    let mut t = TapTracker::new();
    assert!(!t.press(0));
    // auto-repeat while held
    assert!(!t.press(100));
    assert!(!t.press(200));
    t.release();
    assert!(!t.press(350_001));
    assert_eq!(t.last_down_us, Some(350_001));
    t.release();
    // clock going backwards counts as no time passing
    assert!(t.press(10));
}

#[test]
fn gesture_hooks_emit_double_taps() {
    let mut h = GestureHooks::new();
    assert_eq!(h.on_key(0, WM_KEYDOWN, VK_LSHIFT, 0), None);
    assert_eq!(h.on_key(0, WM_KEYUP, VK_LSHIFT, 50_000), None);
    assert_eq!(h.on_key(0, WM_SYSKEYDOWN, VK_RSHIFT, 200_000), Some(OtfInputEvent::DoubleTapShift));
    assert_eq!(h.on_key(0, WM_KEYUP, VK_SHIFT, 210_000), None);
    // a third tap starts over
    assert_eq!(h.on_key(0, WM_KEYDOWN, VK_SHIFT, 300_000), None);

    assert_eq!(h.on_key(0, WM_KEYDOWN, VK_CONTROL, 400_000), None);
    assert_eq!(h.on_key(0, WM_KEYUP, VK_CONTROL, 410_000), None);
    assert_eq!(h.on_key(0, WM_KEYDOWN, 0xA2, 420_000), Some(OtfInputEvent::DoubleTapCtrl));
}

#[test]
fn gesture_hooks_ignore_negative_codes_and_other_keys() {
    let mut h = GestureHooks::new();
    assert_eq!(h.on_key(-1, WM_KEYDOWN, VK_SHIFT, 0), None);
    assert!(!h.shift.is_down);
    assert_eq!(h.on_key(0, WM_KEYDOWN, 0x41, 0), None);
    assert_eq!(h, GestureHooks::new());
}

#[test]
fn shift_scroll_needs_shift_held() {
    let mut h = GestureHooks::new();
    let data: u32 = 120u32 << 16;
    assert_eq!(h.on_mouse(0, WM_MOUSEWHEEL, data), None);
    h.on_key(0, WM_KEYDOWN, VK_SHIFT, 0);
    assert_eq!(h.on_mouse(0, WM_MOUSEWHEEL, data), Some(OtfInputEvent::ShiftScroll(120)));
    let down: u32 = 0xFF88u32 << 16;
    assert_eq!(h.on_mouse(0, WM_MOUSEWHEEL, down), Some(OtfInputEvent::ShiftScroll(-120)));
    assert_eq!(h.on_mouse(-1, WM_MOUSEWHEEL, data), None);
    assert_eq!(h.on_mouse(0, 0x0200, data), None);
}

#[test]
fn wheel_delta_decodes_signed_high_word() {
    assert_eq!(wheel_delta(0x0078_0000), 120);
    assert_eq!(wheel_delta(0xFF88_1234), -120);
    assert_eq!(wheel_delta(0x8000_0000), -32768);
    assert_eq!(wheel_delta(0x7FFF_FFFF), 32767);
    assert_eq!(wheel_delta(0xFFFF), 0);
}

#[test]
fn cursor_poller_reports_changes_only() {
    let mut p = CursorPoller::new();
    assert_eq!(p.observe(-1, -1), None);
    assert_eq!(p.observe(10, 20), Some(OtfInputEvent::CursorMoved(10, 20)));
    assert_eq!(p.observe(10, 20), None);
    assert_eq!(p.observe(10, 21), Some(OtfInputEvent::CursorMoved(10, 21)));
}

#[test]
fn accessibility_keys_block_when_either_is_on() {
    assert!(!accessibility_keys_enabled(None, None));
    assert!(!accessibility_keys_enabled(Some(0x2), Some(0x4)));
    assert!(accessibility_keys_enabled(Some(0x3), None));
    assert!(accessibility_keys_enabled(None, Some(0x1)));
}

#[test]
fn send_event_forwards_to_registered_sender() {
    let (tx, rx) = crossbeam_channel::unbounded();
    send_event(&Some(tx), OtfInputEvent::DoubleTapCtrl);
    assert_eq!(rx.try_recv(), Ok(OtfInputEvent::DoubleTapCtrl));
    send_event(&None, OtfInputEvent::DoubleTapCtrl);
}

#[test]
fn overlay_shows_hole_while_zoomed() {
    let mut w = OverlayWindow::new();
    assert_eq!(w.update(None), OverlayCommand::Keep);
    assert_eq!(
        w.update(Some((1, 2, 3, 4, true))),
        OverlayCommand::CutHole { show: true, left: 1, top: 2, right: 3, bottom: 4 }
    );
    assert_eq!(
        w.update(Some((5, 6, 7, 8, true))),
        OverlayCommand::CutHole { show: false, left: 5, top: 6, right: 7, bottom: 8 }
    );
    assert!(w.showing);
    assert_eq!(w.update(Some((0, 0, 0, 0, false))), OverlayCommand::Hide);
    assert_eq!(w.update(Some((0, 0, 0, 0, false))), OverlayCommand::Keep);
    assert!(!w.showing);
}

#[test]
fn overlay_takes_latest_region() {
    let (tx, rx) = crossbeam_channel::unbounded();
    assert_eq!(latest_region(&rx), (vec![], None));
    tx.send((1, 1, 2, 2, true)).unwrap();
    tx.send((3, 3, 4, 4, false)).unwrap();
    assert_eq!(
        latest_region(&rx),
        (vec![(1, 1, 2, 2, true), (3, 3, 4, 4, false)], Some((3, 3, 4, 4, false)))
    );
    assert_eq!(latest_region(&rx), (vec![], None));
}

#[test]
fn only_the_last_drained_region_is_applied() {
    assert_eq!(last_region(&vec![]), None);
    let drained = vec![(1, 1, 2, 2, true), (0, 0, 0, 0, false)];
    assert_eq!(last_region(&drained), Some((0, 0, 0, 0, false)));
    let mut w = OverlayWindow::new();
    assert_eq!(w.update(last_region(&drained)), OverlayCommand::Keep);
    assert!(!w.showing);
    assert_eq!(w.update(last_region(&vec![])), OverlayCommand::Keep);
}
