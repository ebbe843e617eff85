//! Timestamp arithmetic of the capture, encode and render stages: converting
//! performance-counter readings to microseconds, rebasing them on the
//! recording's start, and deriving strictly increasing presentation
//! timestamps for video and gap-tolerant ones for audio.
use vstd::prelude::*;
use vstd::arithmetic::div_mod::lemma_fundamental_div_mod;

verus! {

/// Microseconds for a performance-counter reading `count` ticking at `freq`
/// ticks per second; 0 when the frequency is not positive.
pub open spec fn spec_qpc_to_us(count: int, freq: int) -> int {
    if freq > 0 {
        (count * 1_000_000) / freq
    } else {
        0
    }
}

/// Converts a performance-counter reading to microseconds.
pub fn qpc_to_us(count: i64, freq: i64) -> (us: u64)
    requires
        count >= 0,
        freq > 0 ==> count * 1_000_000 <= u64::MAX,
    ensures
        us == spec_qpc_to_us(count as int, freq as int),
{
    if freq > 0 {
        (count as u64 * 1_000_000) / freq as u64
    } else {
        0
    }
}

/// A performance-counter reading converts to the whole microseconds it
/// spans: the result is the largest `us` with `us * freq <= count * 10^6`,
/// so a reading of exactly `freq` ticks is one second at every frequency.
pub proof fn lemma_qpc_to_us_is_floor(count: int, freq: int)
    requires
        count >= 0,
        freq > 0,
    ensures
        spec_qpc_to_us(count, freq) * freq <= count * 1_000_000,
        count * 1_000_000 < (spec_qpc_to_us(count, freq) + 1) * freq,
        spec_qpc_to_us(freq, freq) == 1_000_000,
{
    let x = count * 1_000_000;
    let q = x / freq;
    lemma_fundamental_div_mod(x, freq);
    assert(q * freq <= x < (q + 1) * freq) by (nonlinear_arith)
        requires
            x == freq * q + x % freq,
            0 <= x % freq < freq,
    ;
    let y = freq * 1_000_000;
    let qy = y / freq;
    lemma_fundamental_div_mod(y, freq);
    assert(qy == 1_000_000) by (nonlinear_arith)
        requires
            y == freq * qy + y % freq,
            0 <= y % freq < freq,
            y == freq * 1_000_000,
            freq > 0,
    ;
}

/// Converts an audio device position in 100 ns units to microseconds.
pub fn hundred_ns_to_us(position: u64) -> (us: u64)
    ensures
        us == position / 10,
{
    position / 10
}

/// The base the capture threads share: the earliest timestamp seen so far.
pub open spec fn spec_rebase(ts_us: u64, base_us: u64) -> (u64, u64) {
    let base = if ts_us < base_us { ts_us } else { base_us };
    (base, (ts_us - base) as u64)
}

/// Lowers the shared start time to `ts_us` if it is earlier, and returns the
/// new start time together with `ts_us` measured from it.
pub fn rebase(ts_us: u64, base_us: u64) -> (r: (u64, u64))
    ensures
        r == spec_rebase(ts_us, base_us),
        r.0 <= ts_us,
        r.1 == ts_us - r.0,
{
    let base = if ts_us < base_us { ts_us } else { base_us };
    (base, ts_us - base)
}

/// An event log timestamp measured from the recording start, or `None` while
/// the start is not known yet (it is `u64::MAX` until the first frame).
pub open spec fn spec_event_time(raw_us: u64, start_us: u64) -> Option<u64> {
    if start_us == u64::MAX {
        None
    } else if raw_us >= start_us {
        Some((raw_us - start_us) as u64)
    } else {
        Some(0)
    }
}

/// Normalizes a raw event timestamp against the recording start; events seen
/// before the start is known are not logged.
pub fn event_time(raw_us: u64, start_us: u64) -> (r: Option<u64>)
    ensures
        r == spec_event_time(raw_us, start_us),
{
    if start_us == u64::MAX {
        None
    } else if raw_us >= start_us {
        Some(raw_us - start_us)
    } else {
        Some(0)
    }
}

/// The presentation timestamp a video frame at `ts_us` gets in a time base of
/// `num / den` seconds, before it is forced to increase.
pub open spec fn spec_video_pts(ts_us: int, num: int, den: int) -> int {
    (ts_us * den) / (num * 1_000_000)
}

/// Hands out strictly increasing video presentation timestamps.
pub struct VideoPtsClock {
    pub last_pts: i64,
}

impl VideoPtsClock {
    /// A clock that has not stamped any frame yet.
    pub fn new() -> (c: Self)
        ensures
            c.last_pts == -1,
    {
        VideoPtsClock { last_pts: -1 }
    }

    /// The timestamp of a frame captured at `ts_us` in the time base
    /// `num / den`: its exact value, or one more than the previous frame's
    /// where that would not increase.
    pub fn next_pts(&mut self, ts_us: u64, num: i32, den: i32) -> (pts: i64)
        requires
            num > 0,
            den >= 0,
            ts_us <= i64::MAX,
            ts_us * den <= i64::MAX,
            old(self).last_pts < i64::MAX,
        ensures
            pts == if spec_video_pts(ts_us as int, num as int, den as int) <= old(self).last_pts {
                old(self).last_pts + 1
            } else {
                spec_video_pts(ts_us as int, num as int, den as int)
            },
            pts > old(self).last_pts,
            final(self).last_pts == pts,
    {
        let ts: i64 = ts_us as i64;
        let d: i64 = den as i64;
        assert(0 <= ts * d <= i64::MAX) by (nonlinear_arith)
            requires
                0 <= ts,
                0 <= d,
                ts * d <= i64::MAX,
        ;
        let numer: i64 = ts * d;
        let denom: i64 = num as i64 * 1_000_000;
        let mut pts: i64 = numer / denom;
        if pts <= self.last_pts {
            pts = self.last_pts + 1;
        }
        self.last_pts = pts;
        pts
    }
}

/// In the microsecond time base every frame with a later timestamp than the
/// previous frame's pts is stamped with its timestamp exactly.
pub proof fn lemma_microsecond_pts_exact(ts_us: u64, last_pts: i64)
    requires
        last_pts < ts_us,
    ensures
        spec_video_pts(ts_us as int, 1, 1_000_000) == ts_us,
        !(spec_video_pts(ts_us as int, 1, 1_000_000) <= last_pts),
{
    assert((ts_us as int * 1_000_000) / (1int * 1_000_000) == ts_us) by (nonlinear_arith);
}

/// The render-time position of a decoded frame in microseconds, from its
/// `pts` in the time base `num / den`, clamped at 0.
pub open spec fn spec_frame_time_us(pts: int, num: int, den: int) -> int {
    let scaled = pts * num * 1_000_000;
    if scaled < 0 { 0 } else { scaled / den }
}

/// A decoded frame's time is the whole microseconds its pts spans in the
/// time base `num / den`: the largest `t` with `t * den <= pts * num * 10^6`,
/// or 0 for a time before the start. In the microsecond time base a frame's
/// time is its pts.
pub proof fn lemma_frame_time_is_floor(pts: int, num: int, den: int)
    requires
        den > 0,
    ensures
        pts * num < 0 ==> spec_frame_time_us(pts, num, den) == 0,
        pts * num >= 0 ==> spec_frame_time_us(pts, num, den) * den <= pts * num * 1_000_000,
        pts * num >= 0 ==> pts * num * 1_000_000 < (spec_frame_time_us(pts, num, den) + 1) * den,
        pts >= 0 ==> spec_frame_time_us(pts, 1, 1_000_000) == pts,
{
    let x = pts * num * 1_000_000;
    assert(pts * num < 0 <==> x < 0) by (nonlinear_arith)
        requires
            x == pts * num * 1_000_000,
    ;
    if x >= 0 {
        let q = x / den;
        lemma_fundamental_div_mod(x, den);
        assert(q * den <= x < (q + 1) * den) by (nonlinear_arith)
            requires
                x == den * q + x % den,
                0 <= x % den < den,
        ;
    }
    if pts >= 0 {
        assert(pts * 1 * 1_000_000 / 1_000_000 == pts) by (nonlinear_arith)
            requires
                pts >= 0,
        ;
    }
}

/// Keeps the frame times of a render pass increasing.
pub struct RenderClock {
    pub last_us: u64,
}

impl RenderClock {
    pub fn new() -> (c: Self)
        ensures
            c.last_us == 0,
    {
        RenderClock { last_us: 0 }
    }

    /// The time of the next decoded frame and the step since the previous
    /// one, both in microseconds. Once a frame with a positive time has been
    /// seen, times strictly increase.
    pub fn advance(&mut self, pts: i64, num: i32, den: i32) -> (r: (u64, u64))
        requires
            den > 0,
            i64::MIN <= pts * num * 1_000_000 <= i64::MAX,
            old(self).last_us < u64::MAX,
        ensures
            ({
                let t = spec_frame_time_us(pts as int, num as int, den as int);
                let last = old(self).last_us;
                r.0 == if t <= last && last > 0 { last + 1 } else { t }
            }),
            r.0 >= old(self).last_us,
            old(self).last_us > 0 ==> r.0 > old(self).last_us,
            r.1 == r.0 - old(self).last_us,
            final(self).last_us == r.0,
    {
        let n: i64 = num as i64;
        assert(i64::MIN <= pts * n <= i64::MAX) by (nonlinear_arith)
            requires
                i64::MIN <= pts * n * 1_000_000 <= i64::MAX,
        ;
        let pn: i64 = pts * n;
        let scaled: i64 = pn * 1_000_000;
        let mut time_us: u64 = if scaled < 0 { 0 } else { (scaled / den as i64) as u64 };
        if time_us <= self.last_us && self.last_us > 0 {
            time_us = self.last_us + 1;
        }
        let dt = time_us - self.last_us;
        self.last_us = time_us;
        (time_us, dt)
    }
}


/// The sample position a chunk captured at `ts_us` starts at, at `rate` Hz.
pub open spec fn spec_incoming_pts(ts_us: int, rate: int) -> int {
    (ts_us * rate) / 1_000_000
}

/// Re-anchoring tolerance: 100 ms of samples.
pub open spec fn spec_gap_tolerance(rate: int) -> int {
    rate / 10
}

pub open spec fn abs_diff(a: int, b: int) -> int {
    if a >= b { a - b } else { b - a }
}

/// The anchor after a chunk starting at sample `incoming` arrives while
/// `buffered` samples wait: kept while the chunk lines up with the buffered
/// audio within the tolerance, otherwise moved so the buffered samples end
/// exactly where the chunk starts.
pub open spec fn spec_anchor_after(anchor: Option<u64>, buffered: int, incoming: int, tolerance: int) -> Option<u64> {
    match anchor {
        Some(a) => if abs_diff(incoming, a + buffered) > tolerance {
            Some(if incoming >= buffered { (incoming - buffered) as u64 } else { 0u64 })
        } else {
            Some(a)
        },
        None => Some(incoming as u64),
    }
}

/// The timestamp of the next encoder frame and the clock after taking it:
/// nothing while fewer than a frame's samples wait.
pub open spec fn spec_pop(c: AudioPtsClock) -> (Option<u64>, AudioPtsClock) {
    if c.buffered < c.frame_size {
        (None, c)
    } else {
        (
            c.anchor_pts,
            AudioPtsClock {
                anchor_pts: match c.anchor_pts {
                    Some(a) => Some((a + c.frame_size) as u64),
                    None => None,
                },
                buffered: (c.buffered - c.frame_size) as u64,
                ..c
            },
        )
    }
}

/// The sample clock of one audio track: the presentation timestamp of the
/// first buffered sample and how many samples wait to fill an encoder frame.
pub struct AudioPtsClock {
    pub anchor_pts: Option<u64>,
    pub buffered: u64,
    pub frame_size: u64,
    pub rate: u32,
}

impl AudioPtsClock {
    /// Buffered samples always have a timestamp, and frames are not empty.
    pub open spec fn wf(&self) -> bool {
        &&& self.frame_size > 0
        &&& self.buffered > 0 ==> self.anchor_pts is Some
    }

    /// A clock for a track at `rate` Hz that encodes `frame_size` samples per
    /// frame.
    pub fn new(rate: u32, frame_size: u64) -> (c: Self)
        requires
            frame_size > 0,
        ensures
            c.wf(),
            c.anchor_pts is None,
            c.buffered == 0,
            c.frame_size == frame_size,
            c.rate == rate,
    {
        AudioPtsClock { anchor_pts: None, buffered: 0, frame_size, rate }
    }

    /// Accounts for `n_samples` new samples of a chunk captured at `ts_us`.
    pub fn push_samples(&mut self, ts_us: u64, n_samples: u64)
        requires
            old(self).wf(),
            ts_us * old(self).rate <= u64::MAX,
            old(self).anchor_pts matches Some(a) ==> a + old(self).buffered <= u64::MAX,
            old(self).buffered + n_samples <= u64::MAX,
        ensures
            final(self).wf(),
            final(self).frame_size == old(self).frame_size,
            final(self).rate == old(self).rate,
            n_samples == 0 ==> *final(self) == *old(self),
            n_samples > 0 ==> final(self).anchor_pts == spec_anchor_after(
                old(self).anchor_pts,
                old(self).buffered as int,
                spec_incoming_pts(ts_us as int, old(self).rate as int),
                spec_gap_tolerance(old(self).rate as int),
            ),
            n_samples > 0 ==> final(self).buffered == old(self).buffered + n_samples,
    {
        if n_samples == 0 {
            return;
        }
        let rate = self.rate as u64;
        assert(ts_us * rate <= u64::MAX);
        let incoming: u64 = (ts_us * rate) / 1_000_000;
        match self.anchor_pts {
            Some(a) => {
                let expected: u64 = a + self.buffered;
                let tolerance: u64 = rate / 10;
                let gap: u64 = if incoming > expected { incoming - expected } else { expected - incoming };
                if gap > tolerance {
                    let reanchored: u64 = if incoming >= self.buffered { incoming - self.buffered } else { 0 };
                    self.anchor_pts = Some(reanchored);
                }
            },
            None => {
                self.anchor_pts = Some(incoming);
            },
        }
        self.buffered = self.buffered + n_samples;
    }

    /// Takes one encoder frame out of the buffer if enough samples wait, and
    /// returns its presentation timestamp.
    pub fn pop_frame(&mut self) -> (pts: Option<u64>)
        requires
            old(self).wf(),
            old(self).anchor_pts matches Some(a) ==> a + old(self).frame_size <= u64::MAX,
        ensures
            final(self).wf(),
            (pts, *final(self)) == spec_pop(*old(self)),
            old(self).buffered >= old(self).frame_size ==> pts is Some,
    {
        if self.buffered < self.frame_size {
            return None;
        }
        let pts = self.anchor_pts;
        match self.anchor_pts {
            Some(a) => {
                self.anchor_pts = Some(a + self.frame_size);
            },
            None => {},
        }
        self.buffered = self.buffered - self.frame_size;
        pts
    }
}

/// Frames taken one after another without new audio in between get
/// timestamps exactly one frame apart: the encoded audio has no gaps or
/// overlaps.
pub proof fn lemma_audio_frames_contiguous(c: AudioPtsClock)
    requires
        c.wf(),
        c.buffered >= 2 * c.frame_size,
        c.anchor_pts matches Some(a) ==> a + c.frame_size <= u64::MAX,
    ensures
        spec_pop(c).0 matches Some(p1) && spec_pop(spec_pop(c).1).0 == Some((p1 + c.frame_size) as u64),
{
}

/// After every chunk the buffered audio ends within the tolerance of where
/// the chunk's timestamp says it starts (exactly there when it had to be
/// re-anchored), unless the chunk claims to start before the buffered samples.
pub proof fn lemma_audio_clock_tracks_timestamps(anchor: Option<u64>, buffered: int, incoming: int, tolerance: int)
    requires
        0 <= buffered <= incoming,
        0 <= tolerance,
        incoming <= u64::MAX,
        buffered > 0 ==> anchor is Some,
    ensures
        spec_anchor_after(anchor, buffered, incoming, tolerance) matches Some(a2) && abs_diff(incoming, a2 + buffered) <= tolerance,
{
}

/// A chunk that lines up with the buffered audio within the tolerance leaves
/// the anchor where it was: timing jitter never shifts the audio.
pub proof fn lemma_audio_jitter_keeps_anchor(a: u64, buffered: int, incoming: int, tolerance: int)
    requires
        abs_diff(incoming, a + buffered) <= tolerance,
    ensures
        spec_anchor_after(Some(a), buffered, incoming, tolerance) == Some(a),
{
}

} // verus!
