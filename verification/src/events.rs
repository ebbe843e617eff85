//! The cursor and click log recorded beside a capture ("demo mode"): the
//! entries, how raw mouse-hook callbacks and polled cursor positions turn
//! into entries, and how the render pass reads targets for its virtual
//! camera out of the log.
use vstd::prelude::*;
use crate::hooks::{wheel_delta, wheel_delta_of, WM_MOUSEWHEEL};
use crate::clock::{event_time, spec_event_time};

verus! {

/// `WM_LBUTTONDOWN`
pub const WM_LBUTTONDOWN: u32 = 0x0201;
/// `WM_LBUTTONUP`
pub const WM_LBUTTONUP: u32 = 0x0202;
/// `WM_RBUTTONDOWN`
pub const WM_RBUTTONDOWN: u32 = 0x0204;
/// `WM_RBUTTONUP`
pub const WM_RBUTTONUP: u32 = 0x0205;
/// `WM_MBUTTONDOWN`
pub const WM_MBUTTONDOWN: u32 = 0x0207;
/// `WM_MBUTTONUP`
pub const WM_MBUTTONUP: u32 = 0x0208;

/// A logged mouse event, in screen coordinates.
#[derive(Debug, Clone)]
pub enum MouseEvent {
    Move { x: i32, y: i32 },
    /// `button` is "left", "right" or "middle"; `action` is "down" or "up".
    Click { x: i32, y: i32, button: String, action: String },
    Scroll { x: i32, y: i32, delta: i32 },
}

/// One line of the event log: `t` is in microseconds since the recording
/// started.
#[derive(Debug, Clone)]
pub struct LogEntry {
    pub t: u64,
    pub event: MouseEvent,
}

/// The button and action a mouse-button message stands for.
pub open spec fn click_of_msg(msg: u32) -> Option<(Seq<char>, Seq<char>)> {
    if msg == WM_LBUTTONDOWN {
        Some(("left"@, "down"@))
    } else if msg == WM_LBUTTONUP {
        Some(("left"@, "up"@))
    } else if msg == WM_RBUTTONDOWN {
        Some(("right"@, "down"@))
    } else if msg == WM_RBUTTONUP {
        Some(("right"@, "up"@))
    } else if msg == WM_MBUTTONDOWN {
        Some(("middle"@, "down"@))
    } else if msg == WM_MBUTTONUP {
        Some(("middle"@, "up"@))
    } else {
        None
    }
}

/// What the logging mouse hook records for a callback.
pub open spec fn hook_event_is(code: i32, msg: u32, x: i32, y: i32, mouse_data: u32, r: Option<MouseEvent>) -> bool {
    if code < 0 {
        r is None
    } else if click_of_msg(msg) is Some {
        let (b, a) = click_of_msg(msg).unwrap();
        r matches Some(MouseEvent::Click { x: x2, y: y2, button, action })
            && x2 == x && y2 == y && button@ == b && action@ == a
    } else if msg == WM_MOUSEWHEEL {
        r == Some(MouseEvent::Scroll { x, y, delta: wheel_delta_of(mouse_data) as i32 })
    } else {
        r is None
    }
}

fn click(x: i32, y: i32, button: &str, action: &str) -> (e: MouseEvent)
    ensures
        e matches MouseEvent::Click { x: x2, y: y2, button: b, action: a }
            && x2 == x && y2 == y && b@ == button@ && a@ == action@,
{
    MouseEvent::Click { x, y, button: String::from_str(button), action: String::from_str(action) }
}

/// The event the logging mouse hook records for a callback with hook code
/// `code`, message `msg`, cursor `(x, y)` and `mouseData`; `None` for
/// messages it does not log.
pub fn mouse_event_from_hook(code: i32, msg: u32, x: i32, y: i32, mouse_data: u32) -> (r: Option<MouseEvent>)
    ensures
        hook_event_is(code, msg, x, y, mouse_data, r),
{
    if code < 0 {
        None
    } else if msg == WM_LBUTTONDOWN {
        Some(click(x, y, "left", "down"))
    } else if msg == WM_LBUTTONUP {
        Some(click(x, y, "left", "up"))
    } else if msg == WM_RBUTTONDOWN {
        Some(click(x, y, "right", "down"))
    } else if msg == WM_RBUTTONUP {
        Some(click(x, y, "right", "up"))
    } else if msg == WM_MBUTTONDOWN {
        Some(click(x, y, "middle", "down"))
    } else if msg == WM_MBUTTONUP {
        Some(click(x, y, "middle", "up"))
    } else if msg == WM_MOUSEWHEEL {
        Some(MouseEvent::Scroll { x, y, delta: wheel_delta(mouse_data) })
    } else {
        None
    }
}


/// Rebases an entry captured with a raw clock reading on the recording
/// start; `None` while the start is unknown (`u64::MAX`), in which case the
/// entry is not written.
pub fn rebase_entry(entry: LogEntry, start_us: u64) -> (r: Option<LogEntry>)
    ensures
        spec_event_time(entry.t, start_us) is None ==> r is None,
        spec_event_time(entry.t, start_us) matches Some(t) ==> r == Some(LogEntry { t, event: entry.event }),
{
    match event_time(entry.t, start_us) {
        Some(t) => Some(LogEntry { t, event: entry.event }),
        None => None,
    }
}

/// Samples the cursor position for the log, recording a move only when the
/// position differs from the last recorded one.
pub struct MoveSampler {
    pub last: Option<(i32, i32)>,
}

impl MoveSampler {
    pub fn new() -> (s: Self)
        ensures
            s.last is None,
    {
        MoveSampler { last: None }
    }

    /// The entry to log for a cursor sample `(x, y)` taken at `t`, if the
    /// cursor moved.
    pub fn observe(&mut self, x: i32, y: i32, t: u64) -> (r: Option<LogEntry>)
        ensures
            old(self).last == Some((x, y)) ==> r is None,
            old(self).last != Some((x, y)) ==> r == Some(LogEntry { t, event: MouseEvent::Move { x, y } }),
            final(self).last == Some((x, y)),
    {
        let moved = match self.last {
            Some((lx, ly)) => lx != x || ly != y,
            None => true,
        };
        self.last = Some((x, y));
        if moved {
            Some(LogEntry { t, event: MouseEvent::Move { x, y } })
        } else {
            None
        }
    }
}

/// A position on screen.
#[derive(Debug, Clone, Copy, PartialEq, Eq, Structural)]
pub struct ScreenPoint {
    pub x: i32,
    pub y: i32,
}

/// The cursor position the log gives for `target_us`: the last move among
/// the entries read before the first entry later than `target_us`, or
/// `current` when there is none.
pub open spec fn cursor_at(events: Seq<LogEntry>, target_us: u64, current: Option<ScreenPoint>) -> Option<ScreenPoint>
    decreases events.len(),
{
    if events.len() == 0 || events[0].t > target_us {
        current
    } else {
        let next = match events[0].event {
            MouseEvent::Move { x, y } => Some(ScreenPoint { x, y }),
            _ => current,
        };
        cursor_at(events.drop_first(), target_us, next)
    }
}

/// Whether some entry read before the first entry later than `target_us`
/// happened at or after `window_start_us`.
pub open spec fn active_since(events: Seq<LogEntry>, target_us: u64, window_start_us: u64) -> bool
    decreases events.len(),
{
    if events.len() == 0 || events[0].t > target_us {
        false
    } else {
        events[0].t >= window_start_us || active_since(events.drop_first(), target_us, window_start_us)
    }
}

/// How far ahead of the playhead the camera looks for the cursor (300 ms).
pub const LOOKAHEAD_US: u64 = 300_000;
/// Without events for this long (1.5 s) the camera zooms back out.
pub const IDLE_TIMEOUT_US: u64 = 1_500_000;
/// Zoom while the user is active (1.5x, in units of 1/1200).
pub const ACTIVE_ZOOM: u32 = 1800;
/// Zoom while the user is idle (1.0x, in units of 1/1200).
pub const IDLE_ZOOM: u32 = 1200;

/// What the demo-mode camera aims at for one output frame.
#[derive(Debug, Clone, Copy, PartialEq, Eq, Structural)]
pub struct CameraTarget {
    /// The cursor position to center on; `None` keeps the current center.
    pub cursor: Option<ScreenPoint>,
    /// Target zoom in units of 1/1200.
    pub zoom: u32,
}

/// How far the camera reads the log for the frame at `time_us`: a lookahead
/// after it, saturating at the end of the clock.
pub open spec fn lookahead_target(time_us: u64) -> u64 {
    if time_us + LOOKAHEAD_US > u64::MAX { u64::MAX } else { (time_us + LOOKAHEAD_US) as u64 }
}

pub open spec fn spec_camera_target(events: Seq<LogEntry>, time_us: u64) -> CameraTarget {
    let target_us = lookahead_target(time_us);
    let window_start = if time_us >= IDLE_TIMEOUT_US { (time_us - IDLE_TIMEOUT_US) as u64 } else { 0u64 };
    CameraTarget {
        cursor: cursor_at(events, target_us, None),
        zoom: if active_since(events, target_us, window_start) { ACTIVE_ZOOM } else { IDLE_ZOOM },
    }
}

/// The camera target for the output frame at `time_us`, read from the event
/// log `events` (in recording order): where the cursor will be a lookahead
/// from now, and whether anything happened within the idle timeout.
pub fn camera_target(time_us: u64, events: &Vec<LogEntry>) -> (r: CameraTarget)
    ensures
        r == spec_camera_target(events@, time_us),
{
    let target_us = time_us.saturating_add(LOOKAHEAD_US);
    let window_start = time_us.saturating_sub(IDLE_TIMEOUT_US);
    let mut cursor: Option<ScreenPoint> = None;
    let mut active = false;
    let mut i: usize = 0;
    assert(events@.skip(0) =~= events@);
    while i < events.len() && events[i].t <= target_us
        invariant
            i <= events@.len(),
            cursor_at(events@, target_us, None) == cursor_at(events@.skip(i as int), target_us, cursor),
            active_since(events@, target_us, window_start) == (active || active_since(
                events@.skip(i as int),
                target_us,
                window_start,
            )),
        decreases events@.len() - i,
    {
        assert(events@.skip(i as int)[0] == events@[i as int]);
        assert(events@.skip(i as int).drop_first() =~= events@.skip(i + 1));
        let entry = &events[i];
        match &entry.event {
            MouseEvent::Move { x, y } => {
                cursor = Some(ScreenPoint { x: *x, y: *y });
            },
            _ => {},
        }
        if entry.t >= window_start {
            active = true;
        }
        i = i + 1;
    }
    assert(i < events@.len() ==> events@.skip(i as int)[0] == events@[i as int]);
    CameraTarget { cursor, zoom: if active { ACTIVE_ZOOM } else { IDLE_ZOOM } }
}


/// Whether the log's entries are in time order, as the writer produces them.
pub open spec fn in_time_order(events: Seq<LogEntry>) -> bool {
    forall|i: int, j: int| 0 <= i <= j < events.len() ==> events[i].t <= events[j].t
}

proof fn lemma_active_since_witness(events: Seq<LogEntry>, target_us: u64, window_start_us: u64, k: int)
    requires
        0 <= k < events.len(),
        forall|j: int| 0 <= j <= k ==> events[j].t <= target_us,
        events[k].t >= window_start_us,
    ensures
        active_since(events, target_us, window_start_us),
    decreases k,
{
    if k > 0 && events[0].t < window_start_us {
        let rest = events.drop_first();
        assert forall|j: int| 0 <= j <= k - 1 implies rest[j].t <= target_us by {
            assert(rest[j] == events[j + 1]);
        }
        assert(rest[k - 1] == events[k]);
        lemma_active_since_witness(rest, target_us, window_start_us, k - 1);
    }
}

proof fn lemma_active_since_none(events: Seq<LogEntry>, target_us: u64, window_start_us: u64)
    requires
        forall|j: int| 0 <= j < events.len() && events[j].t <= target_us ==> events[j].t < window_start_us,
        in_time_order(events),
    ensures
        !active_since(events, target_us, window_start_us),
    decreases events.len(),
{
    if events.len() > 0 && events[0].t <= target_us {
        let rest = events.drop_first();
        assert forall|j: int| 0 <= j < rest.len() && rest[j].t <= target_us implies rest[j].t < window_start_us by {
            assert(rest[j] == events[j + 1]);
        }
        assert forall|i: int, j: int| 0 <= i <= j < rest.len() implies rest[i].t <= rest[j].t by {
            assert(rest[i] == events[i + 1]);
            assert(rest[j] == events[j + 1]);
        }
        lemma_active_since_none(rest, target_us, window_start_us);
    }
}

/// Entry `k` is a move logged no later than `target_us`, and no later entry
/// up to `target_us` is a move.
pub open spec fn is_last_move_by(events: Seq<LogEntry>, target_us: u64, k: int) -> bool {
    &&& 0 <= k < events.len()
    &&& events[k].t <= target_us
    &&& events[k].event is Move
    &&& forall|j: int| k < j < events.len() && #[trigger] events[j].t <= target_us ==> !(events[j].event is Move)
}

proof fn lemma_cursor_at_last_move(events: Seq<LogEntry>, target_us: u64, current: Option<ScreenPoint>)
    requires
        in_time_order(events),
    ensures
        (forall|k: int| 0 <= k < events.len() && #[trigger] events[k].t <= target_us ==> !(events[k].event is Move))
            ==> cursor_at(events, target_us, current) == current,
        forall|k: int| #[trigger] is_last_move_by(events, target_us, k) ==> (events[k].event matches MouseEvent::Move { x, y }
            && cursor_at(events, target_us, current) == Some(ScreenPoint { x, y })),
    decreases events.len(),
{
    if events.len() > 0 && events[0].t <= target_us {
        let rest = events.drop_first();
        let next = match events[0].event {
            MouseEvent::Move { x, y } => Some(ScreenPoint { x, y }),
            _ => current,
        };
        assert forall|i: int, j: int| 0 <= i <= j < rest.len() implies rest[i].t <= rest[j].t by {
            assert(rest[i] == events[i + 1]);
            assert(rest[j] == events[j + 1]);
        }
        lemma_cursor_at_last_move(rest, target_us, next);
        if forall|k: int| 0 <= k < events.len() && #[trigger] events[k].t <= target_us ==> !(events[k].event is Move) {
            assert forall|k: int| 0 <= k < rest.len() && #[trigger] rest[k].t <= target_us implies !(rest[k].event is Move) by {
                assert(rest[k] == events[k + 1]);
            }
        }
        assert forall|k: int| #[trigger] is_last_move_by(events, target_us, k) implies (events[k].event matches MouseEvent::Move { x, y }
            && cursor_at(events, target_us, current) == Some(ScreenPoint { x, y })) by {
            if k == 0 {
                assert forall|j: int| 0 <= j < rest.len() && #[trigger] rest[j].t <= target_us implies !(rest[j].event is Move) by {
                    assert(rest[j] == events[j + 1]);
                    assert(events[j + 1].t <= target_us);
                }
            } else {
                assert(rest[k - 1] == events[k]);
                assert forall|j: int| k - 1 < j < rest.len() && #[trigger] rest[j].t <= target_us implies !(rest[j].event is Move) by {
                    assert(rest[j] == events[j + 1]);
                    assert(events[j + 1].t <= target_us);
                }
                assert(is_last_move_by(rest, target_us, k - 1));
            }
        }
    } else if events.len() > 0 {
        assert forall|k: int| 0 <= k < events.len() implies events[k].t > target_us by {
            assert(events[0].t <= events[k].t);
        }
    }
}

/// In a log in time order, the demo camera aims at the last cursor move
/// logged up to a lookahead after the frame (to the end of the log where
/// the lookahead runs past the end of the clock), and keeps its current
/// center when no move has been logged by then.
pub proof fn lemma_camera_follows_last_move(events: Seq<LogEntry>, time_us: u64)
    requires
        in_time_order(events),
    ensures
        (forall|k: int| 0 <= k < events.len() && #[trigger] events[k].t <= lookahead_target(time_us) ==> !(events[k].event is Move))
            ==> spec_camera_target(events, time_us).cursor is None,
        forall|k: int| #[trigger] is_last_move_by(events, lookahead_target(time_us), k) ==> (events[k].event matches MouseEvent::Move { x, y }
            && spec_camera_target(events, time_us).cursor == Some(ScreenPoint { x, y })),
{
    lemma_cursor_at_last_move(events, lookahead_target(time_us), None);
}

/// In a log in time order, the demo camera zooms in for a frame exactly when
/// some entry falls between the idle timeout before the frame and the
/// lookahead after it (which saturates at the end of the clock).
pub proof fn lemma_camera_zooms_near_activity(events: Seq<LogEntry>, time_us: u64)
    requires
        in_time_order(events),
    ensures
        spec_camera_target(events, time_us).zoom == ACTIVE_ZOOM <==> exists|k: int|
            0 <= k < events.len() && time_us - IDLE_TIMEOUT_US <= #[trigger] events[k].t <= lookahead_target(time_us),
        spec_camera_target(events, time_us).zoom == ACTIVE_ZOOM || spec_camera_target(events, time_us).zoom == IDLE_ZOOM,
{
    let target_us = lookahead_target(time_us);
    let window_start: u64 = if time_us >= IDLE_TIMEOUT_US { (time_us - IDLE_TIMEOUT_US) as u64 } else { 0u64 };
    if exists|k: int| 0 <= k < events.len() && time_us - IDLE_TIMEOUT_US <= #[trigger] events[k].t <= target_us {
        let k = choose|k: int| 0 <= k < events.len() && time_us - IDLE_TIMEOUT_US <= #[trigger] events[k].t <= target_us;
        assert forall|j: int| 0 <= j <= k implies events[j].t <= target_us by {
            assert(events[j].t <= events[k].t);
        }
        lemma_active_since_witness(events, target_us, window_start, k);
    } else {
        assert forall|j: int| 0 <= j < events.len() && events[j].t <= target_us implies events[j].t < window_start by {
            if events[j].t >= window_start {
                assert(time_us - IDLE_TIMEOUT_US <= events[j].t <= target_us);
            }
        }
        lemma_active_since_none(events, target_us, window_start);
    }
}

} // verus!
