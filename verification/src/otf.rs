//! The live ("on the fly") zoom camera: the gesture events the input hooks
//! produce and the zoom state machine they drive.
//!
//! Zoom levels are exact rationals held as integers: a level of `n` means a
//! magnification of `n / ZOOM_UNIT`. One notch of the mouse wheel (a delta of
//! 120) changes the zoom by 0.1x, so a wheel delta of `d` moves the level by
//! exactly `d` units.
use vstd::prelude::*;
use crossbeam_channel::Receiver;
use crate::channel::{channel_try_recv, DRAIN_LIMIT};
use crate::events::ScreenPoint;

verus! {

/// Units per 1.0x of magnification.
pub const ZOOM_UNIT: u32 = 1200;
/// Zoom engaged by a double-tap of Shift (1.6x).
pub const DEFAULT_ZOOM: u32 = 1920;
/// Lowest zoom level (1.0x).
pub const MIN_ZOOM: u32 = 1200;
/// Highest zoom level (4.0x).
pub const MAX_ZOOM: u32 = 4800;
/// A zoomed level at or below this (1.001x) falls back to idle.
pub const IDLE_THRESHOLD: u32 = 1201;

/// A gesture or cursor sample delivered by the global input hooks.
#[derive(Debug, Clone, Copy, PartialEq, Eq, Structural)]
pub enum OtfInputEvent {
    DoubleTapShift,
    DoubleTapCtrl,
    /// Wheel delta while Shift is held (usually +-120 per notch).
    ShiftScroll(i32),
    CursorMoved(i32, i32),
}

/// Whether the live camera follows the cursor, and at which zoom.
#[derive(Debug, Clone, Copy, PartialEq, Eq, Structural)]
pub enum CameraState {
    Idle,
    /// `level` is in units of `1 / ZOOM_UNIT`.
    Zoomed { level: u32 },
}

/// `v` clamped to `[MIN_ZOOM, MAX_ZOOM]`.
pub open spec fn clamp_zoom(v: int) -> int {
    if v < MIN_ZOOM as int {
        MIN_ZOOM as int
    } else if v > MAX_ZOOM as int {
        MAX_ZOOM as int
    } else {
        v
    }
}

/// The state that `event` leads to from `s`.
pub open spec fn next_camera_state(s: CameraState, event: OtfInputEvent) -> CameraState {
    match event {
        OtfInputEvent::DoubleTapShift => CameraState::Zoomed { level: DEFAULT_ZOOM },
        OtfInputEvent::DoubleTapCtrl => CameraState::Idle,
        OtfInputEvent::ShiftScroll(delta) => match s {
            CameraState::Idle => {
                if delta > 0 {
                    CameraState::Zoomed { level: clamp_zoom(MIN_ZOOM + delta) as u32 }
                } else {
                    CameraState::Idle
                }
            },
            CameraState::Zoomed { level } => {
                let new_level = clamp_zoom(level + delta);
                if new_level <= IDLE_THRESHOLD as int {
                    CameraState::Idle
                } else {
                    CameraState::Zoomed { level: new_level as u32 }
                }
            },
        },
        OtfInputEvent::CursorMoved(_, _) => s,
    }
}

/// The state after applying `events` in order, starting from `s`.
pub open spec fn camera_state_after(s: CameraState, events: Seq<OtfInputEvent>) -> CameraState
    decreases events.len(),
{
    if events.len() == 0 {
        s
    } else {
        next_camera_state(camera_state_after(s, events.drop_last()), events.last())
    }
}

/// A state whose zoom level, if any, lies within `[MIN_ZOOM, MAX_ZOOM]`.
pub open spec fn camera_state_valid(s: CameraState) -> bool {
    match s {
        CameraState::Idle => true,
        CameraState::Zoomed { level } => MIN_ZOOM <= level <= MAX_ZOOM,
    }
}

fn clamp_zoom_exec(v: i64) -> (r: u32)
    ensures
        r == clamp_zoom(v as int),
{
    if v < MIN_ZOOM as i64 {
        MIN_ZOOM
    } else if v > MAX_ZOOM as i64 {
        MAX_ZOOM
    } else {
        v as u32
    }
}

impl CameraState {
    /// The state the camera starts in.
    pub fn new() -> (s: Self)
        ensures
            s == CameraState::Idle,
    {
        CameraState::Idle
    }

    /// Advances the state machine by one input event.
    pub fn apply_event(&mut self, event: OtfInputEvent)
        ensures
            *final(self) == next_camera_state(*old(self), event),
    {
        match event {
            OtfInputEvent::DoubleTapShift => {
                *self = CameraState::Zoomed { level: DEFAULT_ZOOM };
            },
            OtfInputEvent::DoubleTapCtrl => {
                *self = CameraState::Idle;
            },
            OtfInputEvent::ShiftScroll(delta) => {
                match *self {
                    CameraState::Idle => {
                        if delta > 0 {
                            let new_level = clamp_zoom_exec(MIN_ZOOM as i64 + delta as i64);
                            *self = CameraState::Zoomed { level: new_level };
                        }
                    },
                    CameraState::Zoomed { level } => {
                        let new_level = clamp_zoom_exec(level as i64 + delta as i64);
                        if new_level <= IDLE_THRESHOLD {
                            *self = CameraState::Idle;
                        } else {
                            *self = CameraState::Zoomed { level: new_level };
                        }
                    },
                }
            },
            OtfInputEvent::CursorMoved(_, _) => {},
        }
    }
}


/// The last cursor position among `events`, or `current` if none moves it.
pub open spec fn cursor_after(current: Option<ScreenPoint>, events: Seq<OtfInputEvent>) -> Option<ScreenPoint>
    decreases events.len(),
{
    if events.len() == 0 {
        current
    } else {
        cursor_step(cursor_after(current, events.drop_last()), events.last())
    }
}

/// The cursor position after one event.
pub open spec fn cursor_step(current: Option<ScreenPoint>, event: OtfInputEvent) -> Option<ScreenPoint> {
    match event {
        OtfInputEvent::CursorMoved(x, y) => Some(ScreenPoint { x, y }),
        _ => current,
    }
}

/// Where the live camera aims.
#[derive(Debug, Clone, Copy, PartialEq, Eq, Structural)]
pub enum LiveTarget {
    /// The whole frame at 1.0x.
    FullFrame,
    /// Follow the cursor (the frame center while no position is known) at
    /// `level` units of zoom.
    Follow { cursor: Option<ScreenPoint>, level: u32 },
}

/// The gesture-driven part of the live camera: its zoom state and the
/// latest cursor position reported by the hooks.
pub struct LiveCamera {
    pub state: CameraState,
    pub cursor: Option<ScreenPoint>,
}

impl LiveCamera {
    /// Idle, with no cursor position known yet.
    pub fn new() -> (c: Self)
        ensures
            c.state == CameraState::Idle,
            c.cursor is None,
    {
        LiveCamera { state: CameraState::Idle, cursor: None }
    }

    /// Applies one input event.
    pub fn apply(&mut self, event: OtfInputEvent)
        ensures
            final(self).state == next_camera_state(old(self).state, event),
            final(self).cursor == cursor_step(old(self).cursor, event),
    {
        match event {
            OtfInputEvent::CursorMoved(x, y) => {
                self.cursor = Some(ScreenPoint { x, y });
            },
            _ => {},
        }
        self.state.apply_event(event);
    }

    /// Takes every pending event off `rx` (up to `DRAIN_LIMIT`) and applies
    /// them in order; returns them.
    pub fn drain(&mut self, rx: &Receiver<OtfInputEvent>) -> (events: Vec<OtfInputEvent>)
        ensures
            final(self).state == camera_state_after(old(self).state, events@),
            final(self).cursor == cursor_after(old(self).cursor, events@),
    {
        let mut events: Vec<OtfInputEvent> = Vec::new();
        let mut budget: usize = DRAIN_LIMIT;
        let ghost s0 = self.state;
        let ghost c0 = self.cursor;
        while budget > 0
            invariant
                self.state == camera_state_after(s0, events@),
                self.cursor == cursor_after(c0, events@),
            decreases budget,
        {
            match channel_try_recv(rx) {
                Some(event) => {
                    self.apply(event);
                    let ghost before = events@;
                    events.push(event);
                    assert(events@.drop_last() =~= before);
                    budget = budget - 1;
                },
                None => {
                    break;
                },
            }
        }
        events
    }

    /// The target the camera's springs pull toward.
    pub fn target(&self) -> (t: LiveTarget)
        ensures
            self.state == CameraState::Idle ==> t == LiveTarget::FullFrame,
            self.state matches CameraState::Zoomed { level } ==> t == (LiveTarget::Follow {
                cursor: self.cursor,
                level,
            }),
    {
        match self.state {
            CameraState::Idle => LiveTarget::FullFrame,
            CameraState::Zoomed { level } => LiveTarget::Follow { cursor: self.cursor, level },
        }
    }
}

/// A state with a valid zoom level stays valid whatever event arrives.
pub proof fn lemma_event_keeps_zoom_valid(s: CameraState, event: OtfInputEvent)
    requires
        camera_state_valid(s),
    ensures
        camera_state_valid(next_camera_state(s, event)),
{
}

/// Every state reached from a valid one through a sequence of events is valid.
pub proof fn lemma_events_keep_zoom_valid(s: CameraState, events: Seq<OtfInputEvent>)
    requires
        camera_state_valid(s),
    ensures
        camera_state_valid(camera_state_after(s, events)),
    decreases events.len(),
{
    if events.len() > 0 {
        lemma_events_keep_zoom_valid(s, events.drop_last());
    }
}

/// A double-tap of Control always returns the camera to idle (1.0x), and a
/// double-tap of Shift always engages the default zoom, whatever the state.
pub proof fn lemma_double_taps(s: CameraState)
    ensures
        next_camera_state(s, OtfInputEvent::DoubleTapCtrl) == CameraState::Idle,
        next_camera_state(s, OtfInputEvent::DoubleTapShift) == (CameraState::Zoomed {
            level: DEFAULT_ZOOM,
        }),
{
}

/// Cursor samples never change the state machine.
pub proof fn lemma_cursor_moves_keep_state(s: CameraState, x: i32, y: i32)
    ensures
        next_camera_state(s, OtfInputEvent::CursorMoved(x, y)) == s,
{
}

/// Scrolling down (or not at all) while idle keeps the camera idle.
pub proof fn lemma_idle_ignores_scroll_down(delta: i32)
    requires
        delta <= 0,
    ensures
        next_camera_state(CameraState::Idle, OtfInputEvent::ShiftScroll(delta)) == CameraState::Idle,
{
}

/// Scrolling up while idle engages zoom above 1.0x.
pub proof fn lemma_idle_scroll_up_zooms(delta: i32)
    requires
        delta > 0,
    ensures
        next_camera_state(CameraState::Idle, OtfInputEvent::ShiftScroll(delta)) == (
        CameraState::Zoomed { level: clamp_zoom(MIN_ZOOM + delta) as u32 }),
        MIN_ZOOM < clamp_zoom(MIN_ZOOM + delta) <= MAX_ZOOM,
{
}

/// Scrolling back down through ~1.0x exits to idle.
pub proof fn lemma_scroll_through_one_exits(level: u32, delta: i32)
    requires
        level + delta <= IDLE_THRESHOLD,
    ensures
        next_camera_state(CameraState::Zoomed { level }, OtfInputEvent::ShiftScroll(delta))
            == CameraState::Idle,
{
}

/// Within the zoom range, scrolling by `delta` and then by `-delta` returns
/// to the level it started from.
pub proof fn lemma_scroll_round_trip(level: u32, delta: i32)
    requires
        IDLE_THRESHOLD < level <= MAX_ZOOM,
        IDLE_THRESHOLD < level + delta <= MAX_ZOOM,
        delta > i32::MIN,
    ensures
        next_camera_state(
            next_camera_state(CameraState::Zoomed { level }, OtfInputEvent::ShiftScroll(delta)),
            OtfInputEvent::ShiftScroll(-delta as i32),
        ) == (CameraState::Zoomed { level }),
{
}

/// The zoom level after a scroll never moves against the wheel: scrolling up
/// never lowers the level and scrolling down never raises it.
pub proof fn lemma_scroll_direction(level: u32, delta: i32)
    requires
        MIN_ZOOM <= level <= MAX_ZOOM,
    ensures
        next_camera_state(CameraState::Zoomed { level }, OtfInputEvent::ShiftScroll(delta)) matches CameraState::Zoomed { level: l2 } ==> (
            (delta >= 0 ==> l2 >= level) && (delta <= 0 ==> l2 <= level)),
{
}

} // verus!
