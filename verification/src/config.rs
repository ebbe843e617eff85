//! The persisted settings of the app, their defaults, and how the settings
//! controls map onto them.
use vstd::prelude::*;

verus! {

/// Raw capture, or live zoom.
#[derive(Clone, Copy, PartialEq, Eq, Debug, Structural)]
pub enum Mode {
    Raw,
    Live,
}

/// Container of the recording.
#[derive(Clone, Copy, PartialEq, Eq, Debug, Structural)]
pub enum Format {
    Mkv,
    Mp4,
}

/// The video encoder the user asked for.
#[derive(Clone, Copy, PartialEq, Eq, Debug, Structural)]
pub enum Encoder {
    Auto,
    VideoToolbox,
    Nvenc,
    Qsv,
    Amf,
    Vaapi,
    X264,
}

/// All settings, as saved to `config.toml`.
#[derive(Clone)]
pub struct AppConfig {
    pub mode: Mode,
    pub format: Format,
    pub export_mp4_copy: bool,
    pub resolution: String,
    pub framerate: u32,
    pub quality: String,
    pub capture_cursor: bool,
    pub capture_clicks: bool,
    pub hardware_accel: bool,
    pub mic_source: String,
    pub mic_enabled: bool,
    pub system_audio: bool,
    pub output_path: String,
    pub show_hud: bool,
    pub launch_at_login: bool,
    pub minimize_to_tray: bool,
    pub countdown: u32,
    pub post_summary: bool,
    pub hotkey_start_stop: String,
    pub hotkey_pause_resume: String,
    pub encoder: Encoder,
    pub ring_buffer: u32,
    pub zoom_intensity: u32,
    pub verbose_logging: bool,
}

/// Default ring buffer size in frames.
pub const DEFAULT_RING_BUFFER: u32 = 4;
/// Default zoom intensity in percent.
pub const DEFAULT_ZOOM_INTENSITY: u32 = 65;

impl AppConfig {
    /// Whether `self` holds the defaults, recordings going to `output_path`.
    pub open spec fn is_default(&self, output_path: Seq<char>) -> bool {
        &&& self.mode == Mode::Live
        &&& self.format == Format::Mkv
        &&& self.export_mp4_copy
        &&& self.resolution@ == "1080p"@
        &&& self.framerate == 60
        &&& self.quality@ == "Crisp"@
        &&& self.capture_cursor
        &&& self.capture_clicks
        &&& self.hardware_accel
        &&& self.mic_source@ == "MacBook Pro Microphone"@
        &&& self.mic_enabled
        &&& self.system_audio
        &&& self.output_path@ == output_path
        &&& self.show_hud
        &&& !self.launch_at_login
        &&& self.minimize_to_tray
        &&& self.countdown == 3
        &&& self.post_summary
        &&& self.hotkey_start_stop@ == "⌃⇧R"@
        &&& self.hotkey_pause_resume@ == "⌃⇧P"@
        &&& self.encoder == Encoder::Auto
        &&& self.ring_buffer == DEFAULT_RING_BUFFER
        &&& self.zoom_intensity == DEFAULT_ZOOM_INTENSITY
        &&& !self.verbose_logging
    }

    /// The default settings, saving recordings to `output_path` (the
    /// user's video folder, or else home folder, joined with `Glide`).
    pub fn defaults(output_path: String) -> (c: Self)
        ensures
            c.is_default(output_path@),
    {
        AppConfig {
            mode: Mode::Live,
            format: Format::Mkv,
            export_mp4_copy: true,
            resolution: String::from_str("1080p"),
            framerate: 60,
            quality: String::from_str("Crisp"),
            capture_cursor: true,
            capture_clicks: true,
            hardware_accel: true,
            mic_source: String::from_str("MacBook Pro Microphone"),
            mic_enabled: true,
            system_audio: true,
            output_path,
            show_hud: true,
            launch_at_login: false,
            minimize_to_tray: true,
            countdown: 3,
            post_summary: true,
            hotkey_start_stop: String::from_str("⌃⇧R"),
            hotkey_pause_resume: String::from_str("⌃⇧P"),
            encoder: Encoder::Auto,
            ring_buffer: DEFAULT_RING_BUFFER,
            zoom_intensity: DEFAULT_ZOOM_INTENSITY,
            verbose_logging: false,
        }
    }

    /// "Reset Advanced to defaults": restores the encoder, ring buffer,
    /// zoom intensity and logging settings and keeps the rest.
    pub fn reset_advanced(&mut self)
        ensures
            final(self).encoder == Encoder::Auto,
            final(self).ring_buffer == DEFAULT_RING_BUFFER,
            final(self).zoom_intensity == DEFAULT_ZOOM_INTENSITY,
            !final(self).verbose_logging,
            final(self).mode == old(self).mode,
            final(self).format == old(self).format,
            final(self).export_mp4_copy == old(self).export_mp4_copy,
            final(self).resolution == old(self).resolution,
            final(self).framerate == old(self).framerate,
            final(self).quality == old(self).quality,
            final(self).capture_cursor == old(self).capture_cursor,
            final(self).capture_clicks == old(self).capture_clicks,
            final(self).hardware_accel == old(self).hardware_accel,
            final(self).mic_source == old(self).mic_source,
            final(self).mic_enabled == old(self).mic_enabled,
            final(self).system_audio == old(self).system_audio,
            final(self).output_path == old(self).output_path,
            final(self).show_hud == old(self).show_hud,
            final(self).launch_at_login == old(self).launch_at_login,
            final(self).minimize_to_tray == old(self).minimize_to_tray,
            final(self).countdown == old(self).countdown,
            final(self).post_summary == old(self).post_summary,
            final(self).hotkey_start_stop == old(self).hotkey_start_stop,
            final(self).hotkey_pause_resume == old(self).hotkey_pause_resume,
    {
        self.encoder = Encoder::Auto;
        self.ring_buffer = DEFAULT_RING_BUFFER;
        self.zoom_intensity = DEFAULT_ZOOM_INTENSITY;
        self.verbose_logging = false;
    }
}

/// The label of an encoder choice in the settings.
pub fn enc_label(e: Encoder) -> (l: &'static str)
    ensures
        e == Encoder::Auto ==> l@ == "Auto (recommended)"@,
        e == Encoder::VideoToolbox ==> l@ == "VideoToolbox · Apple GPU"@,
        e == Encoder::Nvenc ==> l@ == "NVENC · NVIDIA"@,
        e == Encoder::Qsv ==> l@ == "Quick Sync · Intel"@,
        e == Encoder::Amf ==> l@ == "AMF · AMD"@,
        e == Encoder::Vaapi ==> l@ == "VAAPI · Linux"@,
        e == Encoder::X264 ==> l@ == "Software · x264"@,
{
    match e {
        Encoder::Auto => "Auto (recommended)",
        Encoder::VideoToolbox => "VideoToolbox · Apple GPU",
        Encoder::Nvenc => "NVENC · NVIDIA",
        Encoder::Qsv => "Quick Sync · Intel",
        Encoder::Amf => "AMF · AMD",
        Encoder::Vaapi => "VAAPI · Linux",
        Encoder::X264 => "Software · x264",
    }
}

/// The countdown choices, in seconds, in the order of the segmented control
/// ("Off", "3s", "5s").
pub open spec fn countdown_choice(segment: int) -> u32 {
    if segment == 0 { 0 } else if segment == 1 { 3 } else { 5 }
}

/// The segment that shows a countdown: Off, 3 s, and 5 s for any other
/// value.
pub open spec fn countdown_segment_of(countdown: u32) -> usize {
    if countdown == 0 { 0 } else if countdown == 3 { 1 } else { 2 }
}

pub open spec fn format_segment_of(format: Format) -> usize {
    if format == Format::Mkv { 0 } else { 1 }
}

pub open spec fn format_of_segment(i: usize) -> Format {
    if i == 0 { Format::Mkv } else { Format::Mp4 }
}

pub open spec fn framerate_segment_of(framerate: u32) -> usize {
    if framerate >= 60 { 1 } else { 0 }
}

pub open spec fn framerate_of_segment(i: usize) -> u32 {
    if i == 0 { 30 } else { 60 }
}

/// The segment that shows a countdown.
pub fn countdown_segment(countdown: u32) -> (i: usize)
    ensures
        i == countdown_segment_of(countdown),
{
    if countdown == 0 {
        0
    } else if countdown == 3 {
        1
    } else {
        2
    }
}

/// The countdown chosen by clicking segment `i`.
pub fn countdown_for_segment(i: usize) -> (c: u32)
    requires
        i < 3,
    ensures
        c == countdown_choice(i as int),
{
    let choices: [u32; 3] = [0, 3, 5];
    choices[i]
}

/// The segment that shows a container (MKV, MP4).
pub fn format_segment(format: Format) -> (i: usize)
    ensures
        i == format_segment_of(format),
{
    if format == Format::Mkv {
        0
    } else {
        1
    }
}

/// The container chosen by clicking segment `i`.
pub fn format_for_segment(i: usize) -> (f: Format)
    ensures
        f == format_of_segment(i),
{
    if i == 0 {
        Format::Mkv
    } else {
        Format::Mp4
    }
}

/// The segment that shows a frame rate (30 fps, 60 fps).
pub fn framerate_segment(framerate: u32) -> (i: usize)
    ensures
        i == framerate_segment_of(framerate),
{
    if framerate >= 60 {
        1
    } else {
        0
    }
}

/// The frame rate chosen by clicking segment `i`.
pub fn framerate_for_segment(i: usize) -> (r: u32)
    ensures
        r == framerate_of_segment(i),
{
    if i == 0 {
        30
    } else {
        60
    }
}

/// Picking a segment and showing the result selects that segment again:
/// the controls never jump to a different choice.
pub proof fn lemma_segments_round_trip(i: usize)
    requires
        i < 3,
    ensures
        countdown_segment_of(countdown_choice(i as int)) == i,
        i < 2 ==> format_segment_of(format_of_segment(i)) == i,
        i < 2 ==> framerate_segment_of(framerate_of_segment(i)) == i,
{
}

/// The subtitle of the container setting.
pub fn format_hint(format: Format) -> (h: &'static str)
    ensures
        format == Format::Mkv ==> h@ == "MKV is crash-safe — a power loss keeps the file playable."@,
        format == Format::Mp4 ==> h@ == "MP4 is universally compatible, used for the final export."@,
{
    match format {
        Format::Mkv => "MKV is crash-safe — a power loss keeps the file playable.",
        Format::Mp4 => "MP4 is universally compatible, used for the final export.",
    }
}

/// The subtitle of the minimize-to-tray setting.
pub fn tray_hint(minimize_to_tray: bool) -> (h: &'static str)
    ensures
        minimize_to_tray ==> h@ == "ON — closing hides Glide to the menu bar instead of quitting."@,
        !minimize_to_tray ==> h@ == "OFF — closing fully quits Glide. It will not hide to the tray."@,
{
    if minimize_to_tray {
        "ON — closing hides Glide to the menu bar instead of quitting."
    } else {
        "OFF — closing fully quits Glide. It will not hide to the tray."
    }
}

} // verus!
