//! Decisions of the global keyboard and mouse hooks: which raw hook
//! callbacks become gestures (double-taps of Shift or Control, Shift+wheel)
//! and when a polled cursor position is reported.
//!
//! The hooks themselves (installing them, pumping messages, reading the
//! clock) are platform I/O; here each callback is a transition from the
//! tracked key state and the callback's arguments to the next state and the
//! event to emit.
use vstd::prelude::*;
use vstd::arithmetic::div_mod::lemma_fundamental_div_mod;
use crossbeam_channel::Sender;
use crate::channel::channel_send;
use crate::otf::OtfInputEvent;

verus! {

/// `WM_KEYDOWN`
pub const WM_KEYDOWN: u32 = 0x0100;
/// `WM_KEYUP`
pub const WM_KEYUP: u32 = 0x0101;
/// `WM_SYSKEYDOWN`
pub const WM_SYSKEYDOWN: u32 = 0x0104;
/// `WM_SYSKEYUP`
pub const WM_SYSKEYUP: u32 = 0x0105;
/// `WM_MOUSEWHEEL`
pub const WM_MOUSEWHEEL: u32 = 0x020A;
/// `VK_SHIFT`
pub const VK_SHIFT: u32 = 0x10;
/// `VK_CONTROL`
pub const VK_CONTROL: u32 = 0x11;
/// `VK_LSHIFT`
pub const VK_LSHIFT: u32 = 0xA0;
/// `VK_RSHIFT`
pub const VK_RSHIFT: u32 = 0xA1;
/// `VK_LCONTROL`
pub const VK_LCONTROL: u32 = 0xA2;
/// `VK_RCONTROL`
pub const VK_RCONTROL: u32 = 0xA3;

/// Two genuine presses of a modifier at most this far apart (350 ms, in
/// microseconds) form a double-tap.
pub const DOUBLE_TAP_WINDOW_US: u64 = 350_000;

pub open spec fn is_shift_key(vk: u32) -> bool {
    vk == VK_SHIFT || vk == VK_LSHIFT || vk == VK_RSHIFT
}

pub open spec fn is_ctrl_key(vk: u32) -> bool {
    vk == VK_CONTROL || vk == VK_LCONTROL || vk == VK_RCONTROL
}

pub open spec fn is_key_down_msg(msg: u32) -> bool {
    msg == WM_KEYDOWN || msg == WM_SYSKEYDOWN
}

pub open spec fn is_key_up_msg(msg: u32) -> bool {
    msg == WM_KEYUP || msg == WM_SYSKEYUP
}

/// Whether `vk` is one of the Shift virtual-key codes.
pub fn shift_key(vk: u32) -> (r: bool)
    ensures
        r == is_shift_key(vk),
{
    vk == VK_SHIFT || vk == VK_LSHIFT || vk == VK_RSHIFT
}

/// Whether `vk` is one of the Control virtual-key codes.
pub fn ctrl_key(vk: u32) -> (r: bool)
    ensures
        r == is_ctrl_key(vk),
{
    vk == VK_CONTROL || vk == VK_LCONTROL || vk == VK_RCONTROL
}

/// The signed wheel delta held in the high word of a hook's `mouseData`.
pub open spec fn wheel_delta_of(mouse_data: u32) -> int {
    let hi = mouse_data as int / 65536;
    if hi >= 32768 {
        hi - 65536
    } else {
        hi
    }
}

/// Decodes the high word of `mouseData` as a signed 16-bit wheel delta.
pub fn wheel_delta(mouse_data: u32) -> (d: i32)
    ensures
        d == wheel_delta_of(mouse_data),
        -32768 <= d <= 32767,
{
    let hi: u32 = mouse_data >> 16u32;
    assert(hi == mouse_data / 65536) by (bit_vector)
        requires
            hi == mouse_data >> 16u32,
    ;
    if hi >= 32768 {
        hi as i32 - 65536
    } else {
        hi as i32
    }
}

/// Press tracking for one modifier key.
#[derive(Debug, Clone, Copy, PartialEq, Eq, Structural)]
pub struct TapTracker {
    /// The key is physically held (so a repeated key-down is auto-repeat).
    pub is_down: bool,
    /// Time of the last genuine press that has not yet completed a double-tap.
    pub last_down_us: Option<u64>,
}

/// Tracker state after a genuine or repeated press at `now_us`.
pub open spec fn tracker_after_press(t: TapTracker, now_us: u64) -> TapTracker {
    if t.is_down {
        t
    } else {
        match t.last_down_us {
            Some(prev) => if now_us - prev <= DOUBLE_TAP_WINDOW_US {
                TapTracker { is_down: true, last_down_us: None }
            } else {
                TapTracker { is_down: true, last_down_us: Some(now_us) }
            },
            None => TapTracker { is_down: true, last_down_us: Some(now_us) },
        }
    }
}

/// Whether a press at `now_us` completes a double-tap.
pub open spec fn press_completes_double_tap(t: TapTracker, now_us: u64) -> bool {
    !t.is_down && match t.last_down_us {
        Some(prev) => now_us - prev <= DOUBLE_TAP_WINDOW_US,
        None => false,
    }
}

impl TapTracker {
    /// A key that is up and has no pending press.
    pub fn new() -> (t: Self)
        ensures
            t == (TapTracker { is_down: false, last_down_us: None }),
    {
        TapTracker { is_down: false, last_down_us: None }
    }

    /// Registers a key-down at `now_us` (microseconds on a monotonic clock;
    /// an earlier clock reading counts as no time elapsed). Returns whether
    /// it completes a double-tap.
    pub fn press(&mut self, now_us: u64) -> (tapped: bool)
        ensures
            tapped == press_completes_double_tap(*old(self), now_us),
            *final(self) == tracker_after_press(*old(self), now_us),
    {
        if self.is_down {
            return false;
        }
        self.is_down = true;
        match self.last_down_us {
            Some(prev) => {
                let elapsed = if now_us >= prev { now_us - prev } else { 0 };
                if elapsed <= DOUBLE_TAP_WINDOW_US {
                    self.last_down_us = None;
                    true
                } else {
                    self.last_down_us = Some(now_us);
                    false
                }
            },
            None => {
                self.last_down_us = Some(now_us);
                false
            },
        }
    }

    /// Registers a key-up.
    pub fn release(&mut self)
        ensures
            *final(self) == (TapTracker { is_down: false, last_down_us: old(self).last_down_us }),
    {
        self.is_down = false;
    }
}


/// The modifier state shared by the keyboard and mouse hooks.
#[derive(Debug, Clone, Copy, PartialEq, Eq, Structural)]
pub struct GestureHooks {
    pub shift: TapTracker,
    pub ctrl: TapTracker,
}

/// The gesture hook state after a keyboard callback.
pub open spec fn hooks_after_key(h: GestureHooks, code: i32, msg: u32, vk: u32, now_us: u64) -> GestureHooks {
    if code < 0 {
        h
    } else if is_shift_key(vk) {
        if is_key_down_msg(msg) {
            GestureHooks { shift: tracker_after_press(h.shift, now_us), ..h }
        } else if is_key_up_msg(msg) {
            GestureHooks { shift: TapTracker { is_down: false, ..h.shift }, ..h }
        } else {
            h
        }
    } else if is_ctrl_key(vk) {
        if is_key_down_msg(msg) {
            GestureHooks { ctrl: tracker_after_press(h.ctrl, now_us), ..h }
        } else if is_key_up_msg(msg) {
            GestureHooks { ctrl: TapTracker { is_down: false, ..h.ctrl }, ..h }
        } else {
            h
        }
    } else {
        h
    }
}

/// The gesture (if any) a keyboard callback emits.
pub open spec fn key_gesture(h: GestureHooks, code: i32, msg: u32, vk: u32, now_us: u64) -> Option<OtfInputEvent> {
    if code >= 0 && is_key_down_msg(msg) && is_shift_key(vk) && press_completes_double_tap(h.shift, now_us) {
        Some(OtfInputEvent::DoubleTapShift)
    } else if code >= 0 && is_key_down_msg(msg) && is_ctrl_key(vk) && press_completes_double_tap(h.ctrl, now_us) {
        Some(OtfInputEvent::DoubleTapCtrl)
    } else {
        None
    }
}

/// The gesture (if any) a mouse callback emits.
pub open spec fn mouse_gesture(h: GestureHooks, code: i32, msg: u32, mouse_data: u32) -> Option<OtfInputEvent> {
    if code >= 0 && msg == WM_MOUSEWHEEL && h.shift.is_down {
        Some(OtfInputEvent::ShiftScroll(wheel_delta_of(mouse_data) as i32))
    } else {
        None
    }
}

impl GestureHooks {
    /// No modifier held, no pending press.
    pub fn new() -> (h: Self)
        ensures
            h.shift == (TapTracker { is_down: false, last_down_us: None }),
            h.ctrl == (TapTracker { is_down: false, last_down_us: None }),
    {
        GestureHooks { shift: TapTracker::new(), ctrl: TapTracker::new() }
    }

    /// The low-level keyboard callback: `code` is the hook code, `msg` the
    /// window message, `vk` the virtual-key code and `now_us` the time of the
    /// callback. Returns the gesture to send, if any.
    pub fn on_key(&mut self, code: i32, msg: u32, vk: u32, now_us: u64) -> (ev: Option<OtfInputEvent>)
        ensures
            *final(self) == hooks_after_key(*old(self), code, msg, vk, now_us),
            ev == key_gesture(*old(self), code, msg, vk, now_us),
    {
        if code < 0 {
            return None;
        }
        let is_down = msg == WM_KEYDOWN || msg == WM_SYSKEYDOWN;
        let is_up = msg == WM_KEYUP || msg == WM_SYSKEYUP;
        if shift_key(vk) {
            if is_down {
                if self.shift.press(now_us) {
                    return Some(OtfInputEvent::DoubleTapShift);
                }
            } else if is_up {
                self.shift.release();
            }
        }
        if ctrl_key(vk) {
            if is_down {
                if self.ctrl.press(now_us) {
                    return Some(OtfInputEvent::DoubleTapCtrl);
                }
            } else if is_up {
                self.ctrl.release();
            }
        }
        None
    }

    /// The low-level mouse callback: a wheel turn while Shift is held becomes
    /// a zoom gesture. The key state is left as it is.
    pub fn on_mouse(&self, code: i32, msg: u32, mouse_data: u32) -> (ev: Option<OtfInputEvent>)
        ensures
            ev == mouse_gesture(*self, code, msg, mouse_data),
    {
        if code >= 0 && msg == WM_MOUSEWHEEL {
            let delta = wheel_delta(mouse_data);
            if self.shift.is_down {
                return Some(OtfInputEvent::ShiftScroll(delta));
            }
        }
        None
    }
}

/// A held key's auto-repeat never completes a double-tap and changes nothing.
pub proof fn lemma_autorepeat_is_ignored(h: GestureHooks, msg: u32, vk: u32, now_us: u64)
    requires
        is_key_down_msg(msg),
        is_shift_key(vk) ==> h.shift.is_down,
        is_ctrl_key(vk) ==> h.ctrl.is_down,
    ensures
        key_gesture(h, 0, msg, vk, now_us) is None,
        hooks_after_key(h, 0, msg, vk, now_us) == h,
{
}

/// A second genuine press of Shift within the window emits a double-tap and
/// clears the pending press, so a third press alone cannot emit another.
pub proof fn lemma_shift_double_tap(h: GestureHooks, first_us: u64, vk: u32, now_us: u64, later_us: u64)
    requires
        is_shift_key(vk),
        !h.shift.is_down,
        h.shift.last_down_us == Some(first_us),
        first_us <= now_us <= first_us + DOUBLE_TAP_WINDOW_US,
    ensures
        key_gesture(h, 0, WM_KEYDOWN, vk, now_us) == Some(OtfInputEvent::DoubleTapShift),
        ({
            let h2 = hooks_after_key(
                hooks_after_key(h, 0, WM_KEYDOWN, vk, now_us),
                0,
                WM_KEYUP,
                vk,
                later_us,
            );
            key_gesture(h2, 0, WM_KEYDOWN, vk, later_us) is None
        }),
{
}

/// The same holds for Control: a second genuine press within the window
/// emits a double-tap and a third press alone does not.
pub proof fn lemma_ctrl_double_tap(h: GestureHooks, first_us: u64, vk: u32, now_us: u64, later_us: u64)
    requires
        is_ctrl_key(vk),
        !h.ctrl.is_down,
        h.ctrl.last_down_us == Some(first_us),
        first_us <= now_us <= first_us + DOUBLE_TAP_WINDOW_US,
    ensures
        key_gesture(h, 0, WM_KEYDOWN, vk, now_us) == Some(OtfInputEvent::DoubleTapCtrl),
        ({
            let h2 = hooks_after_key(
                hooks_after_key(h, 0, WM_KEYDOWN, vk, now_us),
                0,
                WM_KEYUP,
                vk,
                later_us,
            );
            key_gesture(h2, 0, WM_KEYDOWN, vk, later_us) is None
        }),
{
}

/// A press that comes after the window has passed starts a new pending tap
/// instead of completing one.
pub proof fn lemma_slow_taps_do_not_count(t: TapTracker, first_us: u64, now_us: u64)
    requires
        !t.is_down,
        t.last_down_us == Some(first_us),
        now_us > first_us + DOUBLE_TAP_WINDOW_US,
    ensures
        !press_completes_double_tap(t, now_us),
        tracker_after_press(t, now_us) == (TapTracker { is_down: true, last_down_us: Some(now_us) }),
{
}

/// Keys other than Shift and Control never change the state nor emit.
pub proof fn lemma_other_keys_ignored(h: GestureHooks, code: i32, msg: u32, vk: u32, now_us: u64)
    requires
        !is_shift_key(vk),
        !is_ctrl_key(vk),
    ensures
        hooks_after_key(h, code, msg, vk, now_us) == h,
        key_gesture(h, code, msg, vk, now_us) is None,
{
}

/// A wheel turn becomes a zoom gesture exactly when Shift is held.
pub proof fn lemma_scroll_needs_shift(h: GestureHooks, mouse_data: u32)
    ensures
        mouse_gesture(h, 0, WM_MOUSEWHEEL, mouse_data) is Some <==> h.shift.is_down,
{
}


/// With Shift held, a wheel callback becomes a zoom gesture carrying the
/// whole wheel amount: the signed 16-bit high word of `mouseData`, i.e. the
/// one delta in `[-32768, 32768)` that with the low word makes up
/// `mouseData` modulo 2^32. Two notches (240) zoom twice as far as one.
pub proof fn lemma_wheel_gesture_carries_delta(h: GestureHooks, code: i32, mouse_data: u32)
    requires
        h.shift.is_down,
        code >= 0,
    ensures
        mouse_gesture(h, code, WM_MOUSEWHEEL, mouse_data) matches Some(OtfInputEvent::ShiftScroll(d))
            && -32768 <= d < 32768
            && (d * 65536 + mouse_data as int % 65536 - mouse_data as int) % 4294967296 == 0,
{
    let m = mouse_data as int;
    let hi = m / 65536;
    let lo = m % 65536;
    lemma_fundamental_div_mod(m, 65536);
    assert(0 <= hi < 65536) by (nonlinear_arith)
        requires
            m == 65536 * hi + lo,
            0 <= lo < 65536,
            0 <= m < 4294967296,
    ;
    let d = wheel_delta_of(mouse_data);
    if hi >= 32768 {
        assert(d * 65536 + lo - m == -4294967296);
    } else {
        assert(d * 65536 + lo - m == 0);
    }
}

/// With Shift held, a wheel turn of `d` (the high word of `mouseData`, any
/// low word) zooms by exactly `d`, in either direction.
pub proof fn lemma_wheel_amount_is_kept(h: GestureHooks, code: i32, d: int, low: int)
    requires
        h.shift.is_down,
        code >= 0,
        -32768 <= d < 32768,
        0 <= low < 65536,
    ensures
        mouse_gesture(
            h,
            code,
            WM_MOUSEWHEEL,
            (if d >= 0 { d * 65536 + low } else { (d + 65536) * 65536 + low }) as u32,
        ) == Some(OtfInputEvent::ShiftScroll(d as i32)),
{
    let m = if d >= 0 { d * 65536 + low } else { (d + 65536) * 65536 + low };
    let hi = if d >= 0 { d } else { d + 65536 };
    assert(0 <= m < 4294967296) by (nonlinear_arith)
        requires
            m == hi * 65536 + low,
            0 <= hi < 65536,
            0 <= low < 65536,
    ;
    lemma_fundamental_div_mod(m, 65536);
    assert(m / 65536 == hi) by (nonlinear_arith)
        requires
            m == 65536 * (m / 65536) + m % 65536,
            0 <= m % 65536 < 65536,
            m == hi * 65536 + low,
            0 <= low < 65536,
    ;
    assert((m as u32) as int == m);
}

/// Polls the cursor for the live camera, reporting a position only when it
/// differs from the last one reported. It starts from `(-1, -1)`.
pub struct CursorPoller {
    pub last_x: i32,
    pub last_y: i32,
}

impl CursorPoller {
    pub fn new() -> (p: Self)
        ensures
            p.last_x == -1,
            p.last_y == -1,
    {
        CursorPoller { last_x: -1, last_y: -1 }
    }

    /// The event for a cursor sample at `(x, y)`, if the cursor moved.
    pub fn observe(&mut self, x: i32, y: i32) -> (r: Option<OtfInputEvent>)
        ensures
            (x != old(self).last_x || y != old(self).last_y) ==> r == Some(OtfInputEvent::CursorMoved(x, y)),
            (x == old(self).last_x && y == old(self).last_y) ==> r is None,
            final(self).last_x == x,
            final(self).last_y == y,
    {
        if x != self.last_x || y != self.last_y {
            self.last_x = x;
            self.last_y = y;
            Some(OtfInputEvent::CursorMoved(x, y))
        } else {
            None
        }
    }
}

/// The global keyboard and mouse hooks of live zoom. Starting them installs
/// the platform hooks and hands back the receiving end of their channel.
pub struct InputHook;

/// Forwards a gesture to the live camera through the registered sender, if
/// one is registered; a gesture nobody listens for is dropped.
pub fn send_event(sender: &Option<Sender<OtfInputEvent>>, event: OtfInputEvent) {
    match sender {
        Some(tx) => {
            let _ = channel_send(tx, event);
        },
        None => {},
    }
}

/// `SKF_STICKYKEYSON` / `FKF_FILTERKEYSON`
pub const KEYS_ON_FLAG: u32 = 0x1;

/// Whether Sticky Keys or Filter Keys are on, given the flags of each
/// setting as read from the system (`None` where the query failed). Either
/// one breaks double-tap detection, so live zoom refuses to start.
pub fn accessibility_keys_enabled(sticky_flags: Option<u32>, filter_flags: Option<u32>) -> (r: bool)
    ensures
        r == ((sticky_flags matches Some(f) && f & KEYS_ON_FLAG != 0)
            || (filter_flags matches Some(f) && f & KEYS_ON_FLAG != 0)),
{
    let mut enabled = false;
    match sticky_flags {
        Some(f) => {
            if f & KEYS_ON_FLAG != 0 {
                enabled = true;
            }
        },
        None => {},
    }
    match filter_flags {
        Some(f) => {
            if f & KEYS_ON_FLAG != 0 {
                enabled = true;
            }
        },
        None => {},
    }
    enabled
}

} // verus!
