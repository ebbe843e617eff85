//! The recording pipeline as the app drives it: what a recording is asked
//! to do, when it may start, where its event log goes, and the handle that
//! stops it.
use vstd::prelude::*;
use std::path::PathBuf;
use std::sync::Arc;
use std::sync::atomic::{AtomicBool, AtomicU64, Ordering};
use crossbeam_channel::Sender;
use crate::capture::Frame;
use crate::channel::channel_try_send;

verus! {

/// What one recording is asked to do.
pub struct PipelineConfig {
    pub output_file: String,
    /// Live zoom (gesture-driven camera) instead of a raw capture.
    pub is_otf: bool,
    /// In live zoom, do not show the dimming overlay.
    pub no_overlay: bool,
    pub record_system_audio: bool,
    pub selected_mic: Option<String>,
}

/// Why a recording could not start.
#[derive(Debug, Clone, Copy, PartialEq, Eq, Structural)]
pub enum StartRefusal {
    /// Sticky Keys or Filter Keys would swallow the double-tap gestures.
    AccessibilityKeysEnabled,
}

impl StartRefusal {
    pub fn message(&self) -> (m: &'static str)
        ensures
            m@ == "Accessibility keys enabled"@,
    {
        "Accessibility keys enabled"
    }
}

/// Whether a recording with `config` may start, given whether Sticky Keys
/// or Filter Keys are on: live zoom needs both off.
pub fn check_can_start(config: &PipelineConfig, accessibility_keys_enabled: bool) -> (r: Result<(), StartRefusal>)
    ensures
        r is Err <==> config.is_otf && accessibility_keys_enabled,
        r matches Err(e) ==> e == StartRefusal::AccessibilityKeysEnabled,
{
    if config.is_otf && accessibility_keys_enabled {
        Err(StartRefusal::AccessibilityKeysEnabled)
    } else {
        Ok(())
    }
}

/// Which stages a recording runs besides the screen capture, the encoder and
/// the muxer, which always run.
#[derive(Debug, Clone, Copy, PartialEq, Eq, Structural)]
pub struct StagePlan {
    /// Capture of the system (loopback) audio.
    pub system_audio: bool,
    /// Capture of the microphone.
    pub microphone: bool,
    /// The gesture hooks and the live compositor between capture and encoder.
    pub live_zoom: bool,
    /// The dimming overlay window around the zoomed region.
    pub overlay: bool,
    /// The cursor and click log beside the video.
    pub event_log: bool,
}

/// The stages a recording with `config` runs: the system audio only when
/// asked for, the microphone and the event log always, live zoom in live
/// mode, and its overlay unless it was turned off.
pub fn stage_plan(config: &PipelineConfig) -> (p: StagePlan)
    ensures
        p.system_audio == config.record_system_audio,
        p.microphone,
        p.live_zoom == config.is_otf,
        p.overlay == (config.is_otf && !config.no_overlay),
        p.event_log,
{
    StagePlan {
        system_audio: config.record_system_audio,
        microphone: true,
        live_zoom: config.is_otf,
        overlay: config.is_otf && !config.no_overlay,
        event_log: true,
    }
}

/// `Path::with_extension` applied to a path given as text, read back as
/// text: the path with its extension replaced by (or extended with) `ext`.
pub uninterp spec fn path_with_extension(path: Seq<char>, ext: Seq<char>) -> Seq<char>;

/// Whether `ext` holds no path separator (a slash, or a backslash on Windows), which
/// `PathBuf::set_extension` rejects with a panic.
pub open spec fn has_no_separator(ext: Seq<char>) -> bool {
    forall|i: int| 0 <= i < ext.len() ==> ext[i] != '/' && ext[i] != '\\'
}

/// `PathBuf::with_extension`, taking and returning the path as text. The
/// extension may hold no path separator: std panics on one.
#[verifier::external_body]
fn with_extension(path: &str, ext: &str) -> (r: String)
    requires
        has_no_separator(ext@),
    ensures
        r@ == path_with_extension(path@, ext@),
{
    PathBuf::from(path).with_extension(ext).to_string_lossy().into_owned()
}

/// The event log written beside the recording `output_file`: the same path
/// with the extension `events.jsonl`.
pub fn event_log_path(output_file: &str) -> (p: String)
    ensures
        p@ == path_with_extension(output_file@, "events.jsonl"@),
{
    proof {
        reveal_strlit("events.jsonl");
    }
    with_extension(output_file, "events.jsonl")
}

/// A running recording; stopping it signals every stage to finish.
pub struct PipelineHandle {
    stop_signal: Arc<AtomicBool>,
}

impl PipelineHandle {
    /// Wraps the stop flag the stages of a running recording watch.
    pub fn new(stop_signal: Arc<AtomicBool>) -> (h: Self)
        ensures
            h.stop_flag() == stop_signal,
    {
        PipelineHandle { stop_signal }
    }

    /// The flag the stages watch.
    pub closed spec fn stop_flag(&self) -> Arc<AtomicBool> {
        self.stop_signal
    }

    /// Tells every stage of the recording to stop.
    pub fn stop(&self) {
        self.stop_signal.store(true, Ordering::Relaxed);
    }
}


/// Hands a captured frame to the encoder without waiting: when the encoder's
/// queue is full (or gone) the frame is dropped and counted in `dropped`.
/// Returns whether the frame was queued.
pub fn offer_frame(tx: &Sender<Frame>, frame: Frame, dropped: &AtomicU64) -> (queued: bool) {
    let queued = channel_try_send(tx, frame);
    if !queued {
        dropped.fetch_add(1, Ordering::Relaxed);
    }
    queued
}

} // verus!
