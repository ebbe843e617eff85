//! State of the settings panels: audio input choice, general behavior,
//! and capturing new global hotkeys.
use vstd::prelude::*;
use crate::config::AppConfig;

verus! {

/// The settings that hold a rebindable global hotkey.
#[derive(Clone, Copy, PartialEq, Eq, Debug, Structural)]
pub enum HotkeyField {
    StartStop,
    PauseResume,
}

/// What a hotkey row reports for one frame.
pub enum HotkeyAction {
    /// Nothing happened.
    Nothing,
    /// "Edit" (or "Press keys…") was clicked.
    ToggleListen,
    /// A key combination was pressed while listening.
    Captured(String),
}

/// Applies what the hotkey row of `field` reported: clicking toggles
/// listening for that row; a captured combination becomes the row's hotkey
/// and ends listening. Returns whether the settings must be saved.
pub fn apply_hotkey_action(
    field: HotkeyField,
    action: HotkeyAction,
    cfg: &mut AppConfig,
    listening: &mut Option<HotkeyField>,
) -> (save: bool)
    ensures
        action is Nothing ==> !save && *final(listening) == *old(listening) && *final(cfg) == *old(cfg),
        action is ToggleListen ==> !save && *final(cfg) == *old(cfg) && *final(listening) == if *old(listening) == Some(field) {
            None
        } else {
            Some(field)
        },
        action matches HotkeyAction::Captured(c) ==> save && *final(listening) is None
            && (field == HotkeyField::StartStop ==> *final(cfg) == AppConfig { hotkey_start_stop: c, ..*old(cfg) })
            && (field == HotkeyField::PauseResume ==> *final(cfg) == AppConfig { hotkey_pause_resume: c, ..*old(cfg) }),
{
    match action {
        HotkeyAction::Nothing => false,
        HotkeyAction::ToggleListen => {
            let was_listening = match *listening {
                Some(f) => f == field,
                None => false,
            };
            *listening = if was_listening { None } else { Some(field) };
            false
        },
        HotkeyAction::Captured(c) => {
            match field {
                HotkeyField::StartStop => {
                    cfg.hotkey_start_stop = c;
                },
                HotkeyField::PauseResume => {
                    cfg.hotkey_pause_resume = c;
                },
            }
            *listening = None;
            true
        },
    }
}

/// The modifier prefix of a captured combination, e.g. `Ctrl+Shift+`.
pub open spec fn combo_text(ctrl: bool, shift: bool, alt: bool, key: Seq<char>) -> Seq<char> {
    (if ctrl { "Ctrl+"@ } else { Seq::empty() }) + (if shift { "Shift+"@ } else { Seq::empty() }) + (if alt {
        "Alt+"@
    } else {
        Seq::empty()
    }) + key
}

/// A combination as the rebinding control shows it: the held modifiers
/// among Ctrl, Shift and Alt, then the key's name, joined by `+`.
pub fn format_combo(ctrl: bool, shift: bool, alt: bool, key_name: &str) -> (s: String)
    ensures
        s@ == combo_text(ctrl, shift, alt, key_name@),
{
    let mut s = String::new();
    if ctrl {
        s.append("Ctrl+");
    }
    if shift {
        s.append("Shift+");
    }
    if alt {
        s.append("Alt+");
    }
    s.append(key_name);
    assert(s@ =~= combo_text(ctrl, shift, alt, key_name@));
    s
}

/// A combination in symbols: ⌘, ⌃, ⌥ and ⇧ for the held modifiers, then the
/// key.
pub open spec fn symbol_combo_text(command: bool, ctrl: bool, alt: bool, shift: bool, key: Seq<char>) -> Seq<char> {
    (if command { "⌘"@ } else { Seq::empty() }) + (if ctrl { "⌃"@ } else { Seq::empty() }) + (if alt {
        "⌥"@
    } else {
        Seq::empty()
    }) + (if shift { "⇧"@ } else { Seq::empty() }) + key
}

/// A combination as the grouped settings show it.
pub fn format_symbol_combo(command: bool, ctrl: bool, alt: bool, shift: bool, key: &str) -> (s: String)
    ensures
        s@ == symbol_combo_text(command, ctrl, alt, shift, key@),
{
    let mut s = String::new();
    if command {
        s.append("⌘");
    }
    if ctrl {
        s.append("⌃");
    }
    if alt {
        s.append("⌥");
    }
    if shift {
        s.append("⇧");
    }
    s.append(key);
    assert(s@ =~= symbol_combo_text(command, ctrl, alt, shift, key@));
    s
}

/// A "click to rebind" hotkey control.
pub struct HotkeyCaptureState {
    pub current: String,
    pub listening: bool,
}

impl HotkeyCaptureState {
    /// Shows `default` and is not listening.
    pub fn new(default: &str) -> (s: Self)
        ensures
            s.current@ == default@,
            !s.listening,
    {
        HotkeyCaptureState { current: String::from_str(default), listening: false }
    }

    /// The Edit button was clicked.
    pub fn toggle_listening(&mut self)
        ensures
            final(self).listening == !old(self).listening,
            final(self).current == old(self).current,
    {
        self.listening = !self.listening;
    }

    /// A combination was pressed (`combo`, if any, this frame): while
    /// listening it becomes the binding and listening ends. Returns the new
    /// binding, which must then be registered as the global hotkey.
    pub fn on_combo(&mut self, combo: Option<String>) -> (captured: Option<String>)
        ensures
            old(self).listening && combo is Some ==> {
                &&& captured == combo
                &&& final(self).current == combo.unwrap()
                &&& !final(self).listening
            },
            !(old(self).listening && combo is Some) ==> captured is None && final(self).current == old(
                self,
            ).current && final(self).listening == old(self).listening,
    {
        if self.listening {
            match combo {
                Some(c) => {
                    self.current = c.clone();
                    self.listening = false;
                    Some(c)
                },
                None => None,
            }
        } else {
            None
        }
    }
}

/// The shortcuts panel: the two rebindable global hotkeys.
pub struct ShortcutsPanelState {
    pub start_stop: HotkeyCaptureState,
    pub pause_resume: HotkeyCaptureState,
}

impl Default for ShortcutsPanelState {
    /// Ctrl+Shift+R starts and stops; Ctrl+Shift+P pauses and resumes.
    fn default() -> (s: Self)
        ensures
            s.start_stop.current@ == "Ctrl+Shift+R"@,
            !s.start_stop.listening,
            s.pause_resume.current@ == "Ctrl+Shift+P"@,
            !s.pause_resume.listening,
    {
        ShortcutsPanelState {
            start_stop: HotkeyCaptureState::new("Ctrl+Shift+R"),
            pause_resume: HotkeyCaptureState::new("Ctrl+Shift+P"),
        }
    }
}

/// The general panel's settings.
pub struct GeneralPanelState {
    pub output_path: String,
    pub show_recording_hud: bool,
    pub launch_on_system_start: bool,
    pub minimize_to_tray_on_close: bool,
    pub export_mp4_after_recording: bool,
    /// 0 means no countdown.
    pub countdown_seconds: u8,
}

impl Default for GeneralPanelState {
    /// The panel's defaults.
    fn default() -> (s: Self)
        ensures
            s.output_path@ == "Documents/Glide recordings"@,
            s.show_recording_hud,
            !s.launch_on_system_start,
            s.minimize_to_tray_on_close,
            !s.export_mp4_after_recording,
            s.countdown_seconds == 3,
    {
        GeneralPanelState {
            output_path: String::from_str("Documents/Glide recordings"),
            show_recording_hud: true,
            launch_on_system_start: false,
            minimize_to_tray_on_close: true,
            export_mp4_after_recording: false,
            countdown_seconds: 3,
        }
    }
}

/// The advanced panel's settings.
pub struct AdvancePanelState {
    /// The encoder forced instead of the automatic choice, if any.
    pub encoder: Option<String>,
    pub ring_buffer_capacity: u32,
    pub verbose_logging: bool,
    /// Camera zoom intensity, in percent.
    pub zoom_intensity_percent: u32,
    /// The encoders the override list offers.
    pub available_encoders: Vec<String>,
}

impl Default for AdvancePanelState {
    /// No override, a ring buffer of 4 frames, quiet logging, 50 % zoom
    /// intensity, and the software, NVENC and QuickSync encoders on offer.
    fn default() -> (s: Self)
        ensures
            s.encoder is None,
            s.ring_buffer_capacity == 4,
            !s.verbose_logging,
            s.zoom_intensity_percent == 50,
            names_are(
                s.available_encoders@,
                seq!["libx264 (Software)"@, "h264_nvenc (Hardware)"@, "h264_qsv (Intel QuickSync)"@],
            ),
    {
        let mut available_encoders: Vec<String> = Vec::new();
        available_encoders.push(String::from_str("libx264 (Software)"));
        available_encoders.push(String::from_str("h264_nvenc (Hardware)"));
        available_encoders.push(String::from_str("h264_qsv (Intel QuickSync)"));
        AdvancePanelState {
            encoder: None,
            ring_buffer_capacity: 4,
            verbose_logging: false,
            zoom_intensity_percent: 50,
            available_encoders,
        }
    }
}

/// The audio panel: system audio toggle and microphone choice.
pub struct AudioPanelState {
    pub record_system_audio: bool,
    pub selected_mic: Option<String>,
    pub available_mics: Vec<String>,
}

/// The microphone offered when the device list is unavailable or empty.
pub open spec fn default_mic() -> Seq<char> {
    "Default Microphone"@
}

/// Whether `v` holds exactly the texts `names`.
pub open spec fn names_are(v: Seq<String>, names: Seq<Seq<char>>) -> bool {
    v.len() == names.len() && forall|j: int| 0 <= j < v.len() ==> #[trigger] v[j]@ == names[j]
}

/// The texts of `v`.
pub open spec fn names_of(v: Seq<String>) -> Seq<Seq<char>> {
    Seq::new(v.len(), |j: int| v[j]@)
}

impl AudioPanelState {
    /// Records system audio, no microphone chosen, and offers the
    /// microphones the system enumerated, or the default microphone where
    /// enumerating failed (`None`).
    pub fn new(enumerated: Option<Vec<String>>) -> (s: Self)
        ensures
            s.record_system_audio,
            s.selected_mic is None,
            enumerated matches Some(v) ==> s.available_mics@ == v@,
            enumerated is None ==> names_are(s.available_mics@, seq![default_mic()]),
    {
        let available_mics = match enumerated {
            Some(v) => v,
            None => {
                let mut v: Vec<String> = Vec::new();
                v.push(String::from_str("Default Microphone"));
                v
            },
        };
        AudioPanelState { record_system_audio: true, selected_mic: None, available_mics }
    }

    /// The choices of the input dropdown: the known microphones, or the
    /// default microphone when none is known.
    pub fn mic_options(&self) -> (o: Vec<String>)
        ensures
            self.available_mics@.len() == 0 ==> names_are(o@, seq![default_mic()]),
            self.available_mics@.len() > 0 ==> names_are(o@, names_of(self.available_mics@)),
    {
        if self.available_mics.len() == 0 {
            let mut v: Vec<String> = Vec::new();
            v.push(String::from_str("Default Microphone"));
            v
        } else {
            let mut v: Vec<String> = Vec::new();
            let mut i: usize = 0;
            while i < self.available_mics.len()
                invariant
                    i <= self.available_mics@.len(),
                    v@.len() == i,
                    forall|j: int| 0 <= j < i ==> #[trigger] v@[j]@ == self.available_mics@[j]@,
                decreases self.available_mics@.len() - i,
            {
                v.push(self.available_mics[i].clone());
                i = i + 1;
            }
            v
        }
    }

    /// The dropdown's text: the chosen microphone, else the first option.
    pub fn current_mic(&self) -> (m: String)
        ensures
            self.selected_mic matches Some(s) ==> m@ == s@,
            self.selected_mic is None && self.available_mics@.len() > 0 ==> m@ == self.available_mics@[0]@,
            self.selected_mic is None && self.available_mics@.len() == 0 ==> m@ == default_mic(),
    {
        match &self.selected_mic {
            Some(s) => s.clone(),
            None => {
                if self.available_mics.len() > 0 {
                    self.available_mics[0].clone()
                } else {
                    String::from_str("Default Microphone")
                }
            },
        }
    }

    /// Option `idx` of the dropdown was picked.
    pub fn select_mic(&mut self, idx: usize)
        requires
            idx < if old(self).available_mics@.len() == 0 { 1 } else { old(self).available_mics@.len() },
        ensures
            final(self).selected_mic matches Some(s) && s@ == if old(self).available_mics@.len() == 0 {
                default_mic()
            } else {
                old(self).available_mics@[idx as int]@
            },
            final(self).available_mics@ == old(self).available_mics@,
            final(self).record_system_audio == old(self).record_system_audio,
    {
        let options = self.mic_options();
        self.selected_mic = Some(options[idx].clone());
    }
}

} // verus!
