//! Captured video frames and the pixel work done on them: packing a mapped
//! GPU texture into a tight buffer, compositing the cursor patch, and
//! converting BGRA to RGBA for snapshots.
use vstd::prelude::*;
use vstd::arithmetic::div_mod::{lemma_fundamental_div_mod, lemma_fundamental_div_mod_converse};
use vstd::arithmetic::mul::lemma_mul_inequality;
use crate::clock::{qpc_to_us, rebase, spec_qpc_to_us, spec_rebase};

verus! {

/// Layout of a frame's pixel data.
#[derive(Debug, Clone, Copy, PartialEq, Eq, Structural)]
pub enum PixelFormat {
    Bgra,
    Nv12,
}

/// A captured video frame; `timestamp_us` is measured from the recording
/// start.
pub struct Frame {
    pub data: Vec<u8>,
    pub format: PixelFormat,
    pub width: u32,
    pub height: u32,
    pub timestamp_us: u64,
}

/// The audio stream a capturer records.
#[derive(Debug, Clone, Copy, PartialEq, Eq, Structural)]
pub enum AudioTrack {
    SystemLoopback,
    Microphone,
}

/// Why a capturer could not start or stopped.
#[derive(Debug)]
pub enum CaptureError {
    Initialization(String),
    StreamError(String),
    Timeout,
}

impl CaptureError {
    /// The human-readable description of the error.
    pub fn message(&self) -> (m: String)
        ensures
            self matches CaptureError::Initialization(s) ==> m@ == "Failed to initialize capture: "@ + s@,
            self matches CaptureError::StreamError(s) ==> m@ == "Capture stream error: "@ + s@,
            self matches CaptureError::Timeout ==> m@ == "Timeout acquiring frame"@,
    {
        match self {
            CaptureError::Initialization(s) => {
                let mut m = String::from_str("Failed to initialize capture: ");
                m.append(s.as_str());
                m
            },
            CaptureError::StreamError(s) => {
                let mut m = String::from_str("Capture stream error: ");
                m.append(s.as_str());
                m
            },
            CaptureError::Timeout => String::from_str("Timeout acquiring frame"),
        }
    }
}

/// Screen capture through PipeWire (Linux). The portal and stream setup is
/// still to come; until then the capturer produces blank 1080p frames.
pub struct PipeWireCapturer {}

/// Width of the frames the PipeWire capturer produces.
pub const PIPEWIRE_WIDTH: u32 = 1920;
/// Height of the frames the PipeWire capturer produces.
pub const PIPEWIRE_HEIGHT: u32 = 1080;

impl PipeWireCapturer {
    /// Sets the capturer up; this cannot fail yet.
    pub fn new() -> (r: Result<Self, CaptureError>)
        ensures
            r is Ok,
    {
        Ok(PipeWireCapturer {})
    }

    /// The frame the capture loop sends `elapsed_us` after it started: a
    /// blank BGRA 1920x1080 image.
    pub fn blank_frame(&self, elapsed_us: u64) -> (f: Frame)
        ensures
            f.width == PIPEWIRE_WIDTH,
            f.height == PIPEWIRE_HEIGHT,
            f.format == PixelFormat::Bgra,
            f.timestamp_us == elapsed_us,
            f.data@.len() == PIPEWIRE_WIDTH * PIPEWIRE_HEIGHT * 4,
            forall|i: int| 0 <= i < f.data@.len() ==> f.data@[i] == 0,
    {
        let len: usize = 1920 * 1080 * 4;
        let mut data: Vec<u8> = Vec::with_capacity(len);
        while data.len() < len
            invariant
                data@.len() <= len,
                len == 1920 * 1080 * 4,
                forall|i: int| 0 <= i < data@.len() ==> data@[i] == 0,
            decreases len - data@.len(),
        {
            data.push(0);
        }
        Frame { data, format: PixelFormat::Bgra, width: 1920, height: 1080, timestamp_us: elapsed_us }
    }
}

/// Audio capture through PipeWire (Linux) for one track.
pub struct PipeWireAudioCapturer {
    pub track: AudioTrack,
}

impl PipeWireAudioCapturer {
    /// Sets the capturer up for `track`; this cannot fail yet.
    pub fn new(track: AudioTrack) -> (r: Result<Self, CaptureError>)
        ensures
            r matches Ok(c) && c.track == track,
    {
        Ok(PipeWireAudioCapturer { track })
    }
}


/// The row and column of byte `i` of a buffer with rows `pitch` bytes apart.
pub open spec fn row_of(i: int, pitch: int) -> int {
    i / pitch
}

pub open spec fn col_of(i: int, pitch: int) -> int {
    i % pitch
}

/// The tightly packed image of `rows` rows of `row_bytes` bytes each, read
/// from `src` whose rows start `pitch` bytes apart.
pub open spec fn packed_rows(src: Seq<u8>, pitch: int, row_bytes: int, rows: int) -> Seq<u8> {
    Seq::new((rows * row_bytes) as nat, |i: int| src[row_of(i, row_bytes) * pitch + col_of(i, row_bytes)])
}

proof fn lemma_index_split(y: int, x: int, w: int)
    requires
        0 <= x < w,
        0 <= y,
    ensures
        row_of(y * w + x, w) == y,
        col_of(y * w + x, w) == x,
{
    lemma_fundamental_div_mod_converse(y * w + x, w, y, x);
}

proof fn lemma_row_in_bounds(y: int, x: int, rows: int, pitch: int, row_bytes: int)
    requires
        0 <= y < rows,
        0 <= x < row_bytes <= pitch,
    ensures
        0 <= y * pitch + x < (rows - 1) * pitch + row_bytes,
{
    lemma_mul_inequality(y, rows - 1, pitch);
    assert(0 <= y * pitch) by (nonlinear_arith)
        requires
            0 <= y,
            0 <= pitch,
    ;
}

/// Copies `rows` rows of `row_bytes` bytes out of a mapped texture whose
/// rows are `pitch` bytes apart, into a tightly packed buffer.
pub fn pack_rows(src: &[u8], pitch: usize, row_bytes: usize, rows: usize) -> (out: Vec<u8>)
    requires
        row_bytes <= pitch,
        rows > 0 ==> (rows - 1) * pitch + row_bytes <= src@.len(),
        rows * row_bytes <= usize::MAX,
    ensures
        out@ == packed_rows(src@, pitch as int, row_bytes as int, rows as int),
{
    let mut out: Vec<u8> = Vec::new();
    let n: usize = src.len();
    let mut y: usize = 0;
    while y < rows
        invariant
            n == src@.len(),
            y <= rows,
            row_bytes <= pitch,
            rows > 0 ==> (rows - 1) * pitch + row_bytes <= src@.len(),
            rows * row_bytes <= usize::MAX,
            out@.len() == y * row_bytes,
            forall|i: int| 0 <= i < out@.len() ==> out@[i] == src@[row_of(i, row_bytes as int) * pitch + col_of(i, row_bytes as int)],
        decreases rows - y,
    {
        assert(y * pitch <= (rows - 1) * pitch) by {
            lemma_mul_inequality(y as int, rows - 1, pitch as int);
        }
        let base: usize = y * pitch;
        let mut x: usize = 0;
        while x < row_bytes
            invariant
                n == src@.len(),
                y < rows,
                x <= row_bytes,
                row_bytes <= pitch,
                (rows - 1) * pitch + row_bytes <= src@.len(),
                rows * row_bytes <= usize::MAX,
                base == y * pitch,
                out@.len() == y * row_bytes + x,
                forall|i: int| 0 <= i < out@.len() ==> out@[i] == src@[row_of(i, row_bytes as int) * pitch + col_of(i, row_bytes as int)],
            decreases row_bytes - x,
        {
            proof {
                lemma_row_in_bounds(y as int, x as int, rows as int, pitch as int, row_bytes as int);
                lemma_index_split(y as int, x as int, row_bytes as int);
            }
            out.push(src[base + x]);
            x = x + 1;
        }
        assert(out@.len() == (y + 1) * row_bytes) by (nonlinear_arith)
            requires
                out@.len() == y * row_bytes + row_bytes,
        ;
        y = y + 1;
    }
    assert(out@ =~= packed_rows(src@, pitch as int, row_bytes as int, rows as int));
    out
}


/// Whether offset `d` from a rectangle's first byte falls inside the
/// rectangle of `h` rows of `w` bytes whose rows are `pitch` bytes apart.
pub open spec fn in_rect(d: int, pitch: int, w: int, h: int) -> bool {
    d >= 0 && row_of(d, pitch) < h && col_of(d, pitch) < w
}

/// `dst` after copying the rectangle of `h` rows of `w` bytes that starts at
/// `src_start` in `src` (rows `src_pitch` apart) to `dst_start` in `dst`
/// (rows `dst_pitch` apart); every other byte of `dst` is kept.
pub open spec fn rect_copied(
    dst: Seq<u8>,
    dst_start: int,
    dst_pitch: int,
    src: Seq<u8>,
    src_start: int,
    src_pitch: int,
    w: int,
    h: int,
) -> Seq<u8> {
    Seq::new(
        dst.len(),
        |i: int|
            if in_rect(i - dst_start, dst_pitch, w, h) {
                src[src_start + row_of(i - dst_start, dst_pitch) * src_pitch + col_of(i - dst_start, dst_pitch)]
            } else {
                dst[i]
            },
    )
}

spec fn copied_prefix(d: int, pitch: int, w: int, y: int, x: int) -> bool {
    d >= 0 && col_of(d, pitch) < w && (row_of(d, pitch) < y || (row_of(d, pitch) == y && col_of(d, pitch) < x))
}

/// Copies a rectangle of `h` rows of `w` bytes from `src` to `dst`, for
/// instance the screen area under the cursor into the cursor's bitmap and
/// back.
pub fn copy_rect(
    src: &[u8],
    src_start: usize,
    src_pitch: usize,
    dst: &mut Vec<u8>,
    dst_start: usize,
    dst_pitch: usize,
    w: usize,
    h: usize,
)
    requires
        w <= src_pitch,
        0 < dst_pitch,
        w <= dst_pitch,
        h > 0 ==> src_start + (h - 1) * src_pitch + w <= src@.len(),
        h > 0 ==> dst_start + (h - 1) * dst_pitch + w <= old(dst)@.len(),
    ensures
        final(dst)@ == rect_copied(
            old(dst)@,
            dst_start as int,
            dst_pitch as int,
            src@,
            src_start as int,
            src_pitch as int,
            w as int,
            h as int,
        ),
{
    let ghost d0 = dst@;
    let n: usize = src.len();
    let m: usize = dst.len();
    let mut y: usize = 0;
    while y < h
        invariant
            n == src@.len(),
            m == dst@.len(),
            dst@.len() == d0.len(),
            y <= h,
            w <= src_pitch,
            0 < dst_pitch,
            w <= dst_pitch,
            h > 0 ==> src_start + (h - 1) * src_pitch + w <= n,
            h > 0 ==> dst_start + (h - 1) * dst_pitch + w <= m,
            forall|i: int| 0 <= i < dst@.len() ==> dst@[i] == if copied_prefix(i - dst_start, dst_pitch as int, w as int, y as int, 0) {
                src@[src_start + row_of(i - dst_start, dst_pitch as int) * src_pitch + col_of(i - dst_start, dst_pitch as int)]
            } else {
                d0[i]
            },
        decreases h - y,
    {
        assert(y * src_pitch <= (h - 1) * src_pitch) by {
            lemma_mul_inequality(y as int, h - 1, src_pitch as int);
        }
        assert(y * dst_pitch <= (h - 1) * dst_pitch) by {
            lemma_mul_inequality(y as int, h - 1, dst_pitch as int);
        }
        let src_row: usize = src_start + y * src_pitch;
        let dst_row: usize = dst_start + y * dst_pitch;
        let mut x: usize = 0;
        while x < w
            invariant
                n == src@.len(),
                m == dst@.len(),
                dst@.len() == d0.len(),
                y < h,
                x <= w,
                w <= src_pitch,
                0 < dst_pitch,
                w <= dst_pitch,
                src_start + (h - 1) * src_pitch + w <= n,
                dst_start + (h - 1) * dst_pitch + w <= m,
                src_row == src_start + y * src_pitch,
                dst_row == dst_start + y * dst_pitch,
                y * src_pitch <= (h - 1) * src_pitch,
                y * dst_pitch <= (h - 1) * dst_pitch,
                forall|i: int| 0 <= i < dst@.len() ==> dst@[i] == if copied_prefix(i - dst_start, dst_pitch as int, w as int, y as int, x as int) {
                    src@[src_start + row_of(i - dst_start, dst_pitch as int) * src_pitch + col_of(i - dst_start, dst_pitch as int)]
                } else {
                    d0[i]
                },
            decreases w - x,
        {
            let k: usize = dst_row + x;
            let v: u8 = src[src_row + x];
            let ghost before = dst@;
            dst.set(k, v);
            proof {
                lemma_index_split(y as int, x as int, dst_pitch as int);
                assert forall|i: int| 0 <= i < dst@.len() implies dst@[i] == if copied_prefix(i - dst_start, dst_pitch as int, w as int, y as int, x + 1) {
                    src@[src_start + row_of(i - dst_start, dst_pitch as int) * src_pitch + col_of(i - dst_start, dst_pitch as int)]
                } else {
                    d0[i]
                } by {
                    if i != k {
                        let d = i - dst_start;
                        lemma_fundamental_div_mod(d, dst_pitch as int);
                        if d >= 0 && row_of(d, dst_pitch as int) == y && col_of(d, dst_pitch as int) == x {
                            assert(dst_pitch * y == y * dst_pitch) by (nonlinear_arith);
                            assert(i == k);
                        }
                    }
                }
            }
            x = x + 1;
        }
        y = y + 1;
    }
    assert(dst@ =~= rect_copied(d0, dst_start as int, dst_pitch as int, src@, src_start as int, src_pitch as int, w as int, h as int));
}


/// Copying a rectangle of a frame into a scratch buffer and straight back
/// leaves the frame exactly as it was.
pub proof fn lemma_copy_rect_round_trip(
    frame: Seq<u8>,
    frame_start: int,
    frame_pitch: int,
    buf: Seq<u8>,
    buf_start: int,
    buf_pitch: int,
    w: int,
    h: int,
)
    requires
        0 <= w <= frame_pitch,
        w <= buf_pitch,
        0 < frame_pitch,
        0 <= frame_start,
        0 <= buf_start,
        h > 0 ==> frame_start + (h - 1) * frame_pitch + w <= frame.len(),
        h > 0 ==> buf_start + (h - 1) * buf_pitch + w <= buf.len(),
    ensures
        rect_copied(
            frame,
            frame_start,
            frame_pitch,
            rect_copied(buf, buf_start, buf_pitch, frame, frame_start, frame_pitch, w, h),
            buf_start,
            buf_pitch,
            w,
            h,
        ) == frame,
{
    let saved = rect_copied(buf, buf_start, buf_pitch, frame, frame_start, frame_pitch, w, h);
    let back = rect_copied(frame, frame_start, frame_pitch, saved, buf_start, buf_pitch, w, h);
    assert forall|i: int| 0 <= i < frame.len() implies back[i] == frame[i] by {
        let d = i - frame_start;
        if in_rect(d, frame_pitch, w, h) {
            let r = row_of(d, frame_pitch);
            let c = col_of(d, frame_pitch);
            lemma_fundamental_div_mod(d, frame_pitch);
            assert(frame_pitch * r == r * frame_pitch) by (nonlinear_arith);
            assert(r >= 0) by {
                if r < 0 {
                    assert(r * frame_pitch < 0) by (nonlinear_arith)
                        requires
                            r < 0,
                            frame_pitch > 0,
                    ;
                }
            }
            lemma_index_split(r, c, buf_pitch);
            lemma_mul_inequality(r, h - 1, buf_pitch);
            let j = buf_start + r * buf_pitch + c;
            assert(0 <= r * buf_pitch) by (nonlinear_arith)
                requires
                    0 <= r,
                    0 <= buf_pitch,
            ;
            assert(0 <= j < buf.len());
            assert(j - buf_start == r * buf_pitch + c);
            assert(in_rect(j - buf_start, buf_pitch, w, h));
            assert(saved[j] == frame[frame_start + r * frame_pitch + c]);
            assert(frame_start + r * frame_pitch + c == i);
        }
    }
    assert(back =~= frame);
}

/// The part of the cursor image that lies on screen: where it goes on the
/// screen and where it starts within the cursor bitmap, in pixels.
#[derive(Debug, Clone, Copy, PartialEq, Eq, Structural)]
pub struct CursorPatch {
    pub screen_x: i32,
    pub screen_y: i32,
    pub icon_x: i32,
    pub icon_y: i32,
    pub width: i32,
    pub height: i32,
}

pub open spec fn max_int(a: int, b: int) -> int {
    if a >= b { a } else { b }
}

pub open spec fn min_int(a: int, b: int) -> int {
    if a <= b { a } else { b }
}

/// The on-screen part of a cursor image of `icon_w` x `icon_h` pixels drawn
/// with its top-left corner at `(draw_x, draw_y)` on a `screen_w` x
/// `screen_h` screen, if any of it is visible.
pub open spec fn spec_cursor_patch(draw_x: int, draw_y: int, icon_w: int, icon_h: int, screen_w: int, screen_h: int) -> Option<CursorPatch> {
    let left = max_int(draw_x, 0);
    let top = max_int(draw_y, 0);
    let right = min_int(draw_x + icon_w, screen_w);
    let bottom = min_int(draw_y + icon_h, screen_h);
    if left < right && top < bottom {
        Some(CursorPatch {
            screen_x: left as i32,
            screen_y: top as i32,
            icon_x: (left - draw_x) as i32,
            icon_y: (top - draw_y) as i32,
            width: (right - left) as i32,
            height: (bottom - top) as i32,
        })
    } else {
        None
    }
}

/// Height of a cursor bitmap: a monochrome cursor's mask holds the AND and
/// XOR masks stacked, so its image is half the mask's height.
pub fn cursor_height(mask_height: i32, has_color: bool) -> (h: i32)
    ensures
        h == if has_color {
            mask_height as int
        } else if mask_height >= 0 {
            mask_height / 2
        } else {
            -((-mask_height) / 2)
        },
{
    if has_color {
        mask_height
    } else {
        if mask_height >= 0 {
            mask_height / 2
        } else {
            -((-(mask_height as i64)) / 2) as i32
        }
    }
}

/// Clips a cursor drawn at screen position `(pos_x, pos_y)` with hotspot
/// `(hot_x, hot_y)` and a bitmap of `icon_w` x `icon_h` pixels to a
/// `screen_w` x `screen_h` screen.
pub fn cursor_patch(
    pos_x: i32,
    pos_y: i32,
    hot_x: i32,
    hot_y: i32,
    icon_w: i32,
    icon_h: i32,
    screen_w: i32,
    screen_h: i32,
) -> (p: Option<CursorPatch>)
    requires
        i32::MIN < pos_x - hot_x <= i32::MAX,
        i32::MIN < pos_y - hot_y <= i32::MAX,
        i32::MIN <= pos_x - hot_x + icon_w <= i32::MAX,
        i32::MIN <= pos_y - hot_y + icon_h <= i32::MAX,
    ensures
        p == spec_cursor_patch(
            pos_x - hot_x,
            pos_y - hot_y,
            icon_w as int,
            icon_h as int,
            screen_w as int,
            screen_h as int,
        ),
{
    let draw_x = pos_x - hot_x;
    let draw_y = pos_y - hot_y;
    let left = if draw_x >= 0 { draw_x } else { 0 };
    let top = if draw_y >= 0 { draw_y } else { 0 };
    let right = if draw_x + icon_w <= screen_w { draw_x + icon_w } else { screen_w };
    let bottom = if draw_y + icon_h <= screen_h { draw_y + icon_h } else { screen_h };
    if left < right && top < bottom {
        Some(CursorPatch {
            screen_x: left,
            screen_y: top,
            icon_x: left - draw_x,
            icon_y: top - draw_y,
            width: right - left,
            height: bottom - top,
        })
    } else {
        None
    }
}

/// The cursor patch is the part of the bitmap that lands on screen: it is
/// visible exactly when the bitmap's rectangle overlaps the screen, it
/// covers exactly that overlap, and each visible screen pixel shows the
/// bitmap pixel drawn there (bitmap offset = screen position - draw
/// position).
pub proof fn lemma_cursor_patch_is_the_overlap(draw_x: int, draw_y: int, icon_w: int, icon_h: int, screen_w: int, screen_h: int)
    requires
        i32::MIN < draw_x <= i32::MAX,
        i32::MIN < draw_y <= i32::MAX,
        i32::MIN <= draw_x + icon_w <= i32::MAX,
        i32::MIN <= draw_y + icon_h <= i32::MAX,
        i32::MIN <= screen_w <= i32::MAX,
        i32::MIN <= screen_h <= i32::MAX,
    ensures
        ({
            let left = if draw_x > 0 { draw_x } else { 0 };
            let top = if draw_y > 0 { draw_y } else { 0 };
            let right = if draw_x + icon_w < screen_w { draw_x + icon_w } else { screen_w };
            let bottom = if draw_y + icon_h < screen_h { draw_y + icon_h } else { screen_h };
            &&& spec_cursor_patch(draw_x, draw_y, icon_w, icon_h, screen_w, screen_h) is Some
                <==> (left < right && top < bottom)
            &&& spec_cursor_patch(draw_x, draw_y, icon_w, icon_h, screen_w, screen_h) matches Some(p) ==> {
                &&& p.screen_x == left && p.screen_y == top
                &&& p.screen_x + p.width == right && p.screen_y + p.height == bottom
                &&& p.icon_x == p.screen_x - draw_x
                &&& p.icon_y == p.screen_y - draw_y
            }
        }),
{
}

/// A visible cursor patch lies within both the screen and the cursor bitmap.
pub proof fn lemma_cursor_patch_in_bounds(draw_x: int, draw_y: int, icon_w: int, icon_h: int, screen_w: int, screen_h: int)
    requires
        i32::MIN < draw_x <= i32::MAX,
        i32::MIN < draw_y <= i32::MAX,
        i32::MIN <= draw_x + icon_w <= i32::MAX,
        i32::MIN <= draw_y + icon_h <= i32::MAX,
        i32::MIN <= screen_w <= i32::MAX,
        i32::MIN <= screen_h <= i32::MAX,
    ensures
        spec_cursor_patch(draw_x, draw_y, icon_w, icon_h, screen_w, screen_h) matches Some(p) ==> {
            &&& 0 <= p.screen_x && p.screen_x + p.width <= screen_w
            &&& 0 <= p.screen_y && p.screen_y + p.height <= screen_h
            &&& 0 <= p.icon_x && p.icon_x + p.width <= icon_w
            &&& 0 <= p.icon_y && p.icon_y + p.height <= icon_h
            &&& p.width > 0 && p.height > 0
        },
{
}

/// The RGBA image of BGRA pixels `bgra`, fully opaque; bytes after the last
/// whole pixel are zero.
pub open spec fn spec_bgra_to_rgba(bgra: Seq<u8>) -> Seq<u8> {
    Seq::new(
        bgra.len(),
        |i: int|
            if i >= (bgra.len() / 4) * 4 {
                0u8
            } else if i % 4 == 0 {
                bgra[i + 2]
            } else if i % 4 == 1 {
                bgra[i]
            } else if i % 4 == 2 {
                bgra[i - 2]
            } else {
                255u8
            },
    )
}

/// Converts a BGRA frame to opaque RGBA for saving a snapshot.
pub fn bgra_to_rgba(bgra: &[u8]) -> (rgba: Vec<u8>)
    ensures
        rgba@ == spec_bgra_to_rgba(bgra@),
{
    let n: usize = bgra.len();
    let whole: usize = n / 4 * 4;
    let mut out: Vec<u8> = Vec::with_capacity(n);
    let mut i: usize = 0;
    while i < whole
        invariant
            n == bgra@.len(),
            whole == (n / 4) * 4,
            whole <= n,
            i <= whole,
            i % 4 == 0,
            out@.len() == i,
            forall|j: int| 0 <= j < i ==> out@[j] == spec_bgra_to_rgba(bgra@)[j],
        decreases whole - i,
    {
        out.push(bgra[i + 2]);
        out.push(bgra[i + 1]);
        out.push(bgra[i]);
        out.push(255);
        i = i + 4;
    }
    while i < n
        invariant
            n == bgra@.len(),
            whole == (n / 4) * 4,
            whole <= i <= n,
            out@.len() == i,
            forall|j: int| 0 <= j < i ==> out@[j] == spec_bgra_to_rgba(bgra@)[j],
        decreases n - i,
    {
        out.push(0);
        i = i + 1;
    }
    assert(out@ =~= spec_bgra_to_rgba(bgra@));
    out
}


/// What asking the desktop duplication for the next image gave.
#[derive(Debug, Clone, Copy, PartialEq, Eq, Structural)]
pub enum AcquireOutcome {
    /// An image was acquired, presented at `present_qpc` (0 when only the
    /// cursor shape changed); `has_resource` tells whether a texture came
    /// with it.
    Acquired { present_qpc: i64, has_resource: bool },
    /// No new image within the wait.
    WaitTimeout,
    /// The duplication was lost (mode change, secure desktop).
    AccessLost,
    /// Any other failure.
    OtherError,
}

/// What the desktop capture loop does with an acquire outcome.
#[derive(Debug, Clone, Copy, PartialEq, Eq, Structural)]
pub enum CaptureStep {
    /// Copy the texture out and send a frame.
    Process,
    /// Release the image unused and acquire the next one.
    ReleaseAndSkip,
    /// Acquire again without releasing anything.
    Retry,
}

/// The next step of the desktop capture loop: an image is processed only
/// when its desktop changed and a texture came with it, otherwise it is
/// released; a timeout and any other failure retry; losing the duplication
/// ends the capture with the stream error "Access lost".
pub fn next_capture_step(outcome: AcquireOutcome) -> (r: Result<CaptureStep, CaptureError>)
    ensures
        outcome matches AcquireOutcome::Acquired { present_qpc, has_resource } ==> (
            r matches Ok(step) && step == if present_qpc != 0 && has_resource {
                CaptureStep::Process
            } else {
                CaptureStep::ReleaseAndSkip
            }),
        outcome == AcquireOutcome::WaitTimeout ==> r matches Ok(CaptureStep::Retry),
        outcome == AcquireOutcome::OtherError ==> r matches Ok(CaptureStep::Retry),
        outcome == AcquireOutcome::AccessLost ==> (r matches Err(CaptureError::StreamError(m)) && m@ == "Access lost"@),
{
    match outcome {
        AcquireOutcome::Acquired { present_qpc, has_resource } => {
            if present_qpc != 0 && has_resource {
                Ok(CaptureStep::Process)
            } else {
                Ok(CaptureStep::ReleaseAndSkip)
            }
        },
        AcquireOutcome::WaitTimeout => Ok(CaptureStep::Retry),
        AcquireOutcome::OtherError => Ok(CaptureStep::Retry),
        AcquireOutcome::AccessLost => {
            proof {
                reveal_strlit("Access lost");
            }
            Err(CaptureError::StreamError(String::from_str("Access lost")))
        },
    }
}

/// Frames in one profiling report of the desktop capture.
pub const PROFILE_INTERVAL: u32 = 100;

/// Counts a processed frame toward the profiling report: returns the new
/// count and whether the report is due, in which case the count (and the
/// timings) start again from zero.
pub fn profile_tick(frame_count: u32) -> (r: (u32, bool))
    requires
        frame_count < u32::MAX,
    ensures
        frame_count + 1 == PROFILE_INTERVAL ==> r == (0u32, true),
        frame_count + 1 != PROFILE_INTERVAL ==> r == ((frame_count + 1) as u32, false),
{
    let n = frame_count + 1;
    if n == PROFILE_INTERVAL {
        (0, true)
    } else {
        (n, false)
    }
}

/// The frame a desktop-duplication capture yields for one acquired image:
/// none when its present time is 0 (the desktop did not change, only the
/// cursor shape), else the mapped texture packed row by row (`pitch` bytes
/// apart, `width * 4` bytes each) as a BGRA frame, timed by its present time
/// `present_qpc` (performance-counter ticks at `qpc_freq` per second)
/// measured from the recording start. The start is lowered to this frame's
/// time if that is earlier; the new start comes back with the frame.
pub fn desktop_frame(
    mapped: &[u8],
    pitch: usize,
    width: u32,
    height: u32,
    present_qpc: i64,
    qpc_freq: i64,
    start_us: u64,
) -> (r: Option<(Frame, u64)>)
    requires
        width * 4 <= pitch,
        height > 0 ==> (height - 1) * pitch + width * 4 <= mapped@.len(),
        height * (width * 4) <= usize::MAX,
        present_qpc >= 0,
        qpc_freq > 0,
        present_qpc * 1_000_000 <= u64::MAX,
    ensures
        present_qpc == 0 ==> r is None,
        present_qpc != 0 ==> (r matches Some((f, new_start)) && {
            &&& f.data@ == packed_rows(mapped@, pitch as int, width * 4, height as int)
            &&& f.format == PixelFormat::Bgra
            &&& f.width == width
            &&& f.height == height
            &&& (new_start, f.timestamp_us) == spec_rebase(spec_qpc_to_us(present_qpc as int, qpc_freq as int) as u64, start_us)
        }),
{
    if present_qpc == 0 {
        return None;
    }
    let row_bytes: usize = width as usize * 4;
    let data = pack_rows(mapped, pitch, row_bytes, height as usize);
    let qpc_us = qpc_to_us(present_qpc, qpc_freq);
    let (new_start, timestamp_us) = rebase(qpc_us, start_us);
    Some((Frame { data, format: PixelFormat::Bgra, width, height, timestamp_us }, new_start))
}

/// Frame counts of a capture run at the last rate report.
pub struct CaptureStats {
    pub last_received: u64,
    pub last_dropped: u64,
}

impl CaptureStats {
    pub fn new() -> (s: Self)
        ensures
            s.last_received == 0,
            s.last_dropped == 0,
    {
        CaptureStats { last_received: 0, last_dropped: 0 }
    }

    /// Starts a new reporting interval at the running totals `received`
    /// and `dropped`; returns the frames received, dropped and produced in
    /// the interval that ends.
    pub fn roll(&mut self, received: u64, dropped: u64) -> (recent: (u64, u64, u64))
        requires
            old(self).last_received <= received,
            old(self).last_dropped <= dropped,
            (received - old(self).last_received) + (dropped - old(self).last_dropped) <= u64::MAX,
        ensures
            recent.0 == received - old(self).last_received,
            recent.1 == dropped - old(self).last_dropped,
            recent.2 == recent.0 + recent.1,
            final(self).last_received == received,
            final(self).last_dropped == dropped,
    {
        let recent_received = received - self.last_received;
        let recent_dropped = dropped - self.last_dropped;
        self.last_received = received;
        self.last_dropped = dropped;
        (recent_received, recent_dropped, recent_received + recent_dropped)
    }
}

} // verus!
