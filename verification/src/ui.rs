//! The main window's logic: the record button and tray icon, the elapsed
//! timer, the Raw/Live switch and the settings tabs.
use vstd::prelude::*;
use crate::text::{padded2, push_padded2};

verus! {

/// Raw capture or live zoom, as chosen in the window's toolbar.
#[derive(Clone, Copy, PartialEq, Eq, Debug, Structural)]
pub enum RecordMode {
    Raw,
    Live,
}

impl RecordMode {
    /// The segment label.
    pub fn label(self) -> (l: &'static str)
        ensures
            self == RecordMode::Raw ==> l@ == "Raw"@,
            self == RecordMode::Live ==> l@ == "Live"@,
    {
        match self {
            RecordMode::Raw => "Raw",
            RecordMode::Live => "Live",
        }
    }

    /// The hint shown under the toolbar.
    pub fn hint(self) -> (h: &'static str)
        ensures
            self == RecordMode::Raw ==> h@ == "Raw capture mode: uncompressed feed."@,
            self == RecordMode::Live ==> h@ == "Live zoom: double-tap Shift to follow the cursor."@,
    {
        match self {
            RecordMode::Raw => "Raw capture mode: uncompressed feed.",
            RecordMode::Live => "Live zoom: double-tap Shift to follow the cursor.",
        }
    }
}

/// The tabs of the settings panel.
#[derive(Clone, Copy, PartialEq, Eq, Debug, Structural)]
pub enum SettingsTab {
    General,
    Audio,
    Shortcuts,
    Advance,
}

/// The settings tabs from top to bottom.
pub const SETTINGS_TABS: [SettingsTab; 4] = [
    SettingsTab::General,
    SettingsTab::Audio,
    SettingsTab::Shortcuts,
    SettingsTab::Advance,
];

impl SettingsTab {
    /// The tab's label.
    pub fn label(self) -> (l: &'static str)
        ensures
            self == SettingsTab::General ==> l@ == "General"@,
            self == SettingsTab::Audio ==> l@ == "Audio"@,
            self == SettingsTab::Shortcuts ==> l@ == "Shortcuts"@,
            self == SettingsTab::Advance ==> l@ == "Advance"@,
    {
        match self {
            SettingsTab::General => "General",
            SettingsTab::Audio => "Audio",
            SettingsTab::Shortcuts => "Shortcuts",
            SettingsTab::Advance => "Advance",
        }
    }
}

/// The sections of the grouped settings window.
#[derive(Clone, Copy, PartialEq, Eq, Debug, Structural)]
pub enum Tab {
    Recording,
    Audio,
    General,
    Shortcuts,
    Advanced,
}

/// The sections in display order, with their labels, icons and blurbs at
/// the same positions below.
pub const TABS: [Tab; 5] = [Tab::Recording, Tab::Audio, Tab::General, Tab::Shortcuts, Tab::Advanced];
pub const TAB_LABELS: [&'static str; 5] = ["Recording", "Audio", "General", "Shortcuts", "Advanced"];
pub const TAB_ICONS: [&'static str; 5] = ["film", "waveform", "settings", "keyboard", "gauge"];
pub const TAB_BLURB: [&'static str; 5] = [
    "Format, resolution & quality",
    "Microphone & system sound",
    "Output, tray & launch",
    "Global hotkeys & gestures",
    "Encoder & pipeline",
];

/// `secs` as the recording timer shows it: `MM:SS`, or `HH:MM:SS` from one
/// hour on.
pub open spec fn elapsed_text(secs: nat) -> Seq<char> {
    let h = secs / 3600;
    let m = (secs % 3600) / 60;
    let s = secs % 60;
    if h > 0 {
        padded2(h) + ":"@ + padded2(m as nat) + ":"@ + padded2(s as nat)
    } else {
        padded2(m as nat) + ":"@ + padded2(s as nat)
    }
}

/// Formats an elapsed recording time given in whole seconds.
pub fn format_elapsed(secs: u64) -> (t: String)
    ensures
        t@ == elapsed_text(secs as nat),
{
    let h = secs / 3600;
    let m = (secs % 3600) / 60;
    let s = secs % 60;
    let mut t = String::new();
    proof {
        reveal_strlit(":");
    }
    if h > 0 {
        push_padded2(&mut t, h);
        t.append(":");
    }
    push_padded2(&mut t, m);
    t.append(":");
    push_padded2(&mut t, s);
    assert(t@ =~= elapsed_text(secs as nat));
    t
}

/// What the main window shows and whether a recording runs.
pub struct RecorderWindow {
    pub mode: RecordMode,
    pub settings_open: bool,
    pub selected_tab: SettingsTab,
    pub is_recording: bool,
    /// When the running recording started, in microseconds on the app's
    /// monotonic clock.
    pub recording_started_at_us: Option<u64>,
}

impl RecorderWindow {
    /// Collapsed, in Raw mode, on the Audio tab, not recording.
    pub fn new() -> (w: Self)
        ensures
            w.mode == RecordMode::Raw,
            !w.settings_open,
            w.selected_tab == SettingsTab::Audio,
            !w.is_recording,
            w.recording_started_at_us is None,
    {
        RecorderWindow {
            mode: RecordMode::Raw,
            settings_open: false,
            selected_tab: SettingsTab::Audio,
            is_recording: false,
            recording_started_at_us: None,
        }
    }

    /// The record button was clicked at `now_us`: starts a recording (the
    /// window then hides to the tray and the settings collapse) or stops the
    /// running one (a "Recording Saved" notice follows). Returns whether a
    /// recording now runs.
    pub fn toggle_recording(&mut self, now_us: u64) -> (recording: bool)
        ensures
            recording == !old(self).is_recording,
            final(self).is_recording == recording,
            recording ==> final(self).recording_started_at_us == Some(now_us) && !final(self).settings_open,
            !recording ==> final(self).recording_started_at_us is None
                && final(self).settings_open == old(self).settings_open,
            final(self).mode == old(self).mode,
            final(self).selected_tab == old(self).selected_tab,
    {
        self.is_recording = !self.is_recording;
        if self.is_recording {
            self.recording_started_at_us = Some(now_us);
            self.settings_open = false;
        } else {
            self.recording_started_at_us = None;
        }
        self.is_recording
    }

    /// The tray icon was clicked: any recording stops and the window comes
    /// back.
    pub fn tray_clicked(&mut self)
        ensures
            !final(self).is_recording,
            final(self).recording_started_at_us is None,
            final(self).settings_open == old(self).settings_open,
            final(self).mode == old(self).mode,
            final(self).selected_tab == old(self).selected_tab,
    {
        self.is_recording = false;
        self.recording_started_at_us = None;
    }

    /// "More Settings" was clicked.
    pub fn toggle_settings(&mut self)
        ensures
            final(self).settings_open == !old(self).settings_open,
            final(self).is_recording == old(self).is_recording,
            final(self).recording_started_at_us == old(self).recording_started_at_us,
            final(self).mode == old(self).mode,
            final(self).selected_tab == old(self).selected_tab,
    {
        self.settings_open = !self.settings_open;
    }

    /// The timer text at `now_us`, while a recording runs.
    pub fn elapsed(&self, now_us: u64) -> (t: Option<String>)
        ensures
            self.recording_started_at_us is None ==> t is None,
            self.recording_started_at_us matches Some(start) ==> (t matches Some(s)
                && s@ == elapsed_text((if now_us >= start { (now_us - start) / 1_000_000 } else { 0 }) as nat)),
    {
        match self.recording_started_at_us {
            Some(start) => {
                let us = if now_us >= start { now_us - start } else { 0 };
                Some(format_elapsed(us / 1_000_000))
            },
            None => None,
        }
    }
}

} // verus!
