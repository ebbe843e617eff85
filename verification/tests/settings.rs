use glide::config::{
    countdown_for_segment, countdown_segment, enc_label, format_for_segment, format_hint,
    format_segment, framerate_for_segment, framerate_segment, tray_hint, AppConfig, Encoder,
    Format, Mode,
};
use glide::icons::svg;
use glide::panels::{
    apply_hotkey_action, format_combo, format_symbol_combo, AdvancePanelState, AudioPanelState, GeneralPanelState,
    HotkeyAction, HotkeyCaptureState, HotkeyField, ShortcutsPanelState,
};
use glide::ui::{format_elapsed, RecordMode, RecorderWindow, SettingsTab, Tab, SETTINGS_TABS, TABS, TAB_BLURB, TAB_ICONS, TAB_LABELS};

#[test]
fn config_defaults() {
    let c = AppConfig::defaults("/home/u/Videos/Glide".to_string());
    assert_eq!(c.mode, Mode::Live);
    assert_eq!(c.format, Format::Mkv);
    assert!(c.export_mp4_copy);
    assert_eq!(c.resolution, "1080p");
    assert_eq!(c.framerate, 60);
    assert_eq!(c.quality, "Crisp");
    assert_eq!(c.mic_source, "MacBook Pro Microphone");
    assert_eq!(c.output_path, "/home/u/Videos/Glide");
    assert!(c.minimize_to_tray && !c.launch_at_login);
    assert_eq!(c.countdown, 3);
    assert_eq!(c.hotkey_start_stop, "⌃⇧R");
    assert_eq!(c.hotkey_pause_resume, "⌃⇧P");
    assert_eq!(c.encoder, Encoder::Auto);
    assert_eq!((c.ring_buffer, c.zoom_intensity, c.verbose_logging), (4, 65, false));
}

#[test]
fn reset_advanced_keeps_other_settings() {
    let mut c = AppConfig::defaults("out".to_string());
    c.encoder = Encoder::X264;
    c.ring_buffer = 12;
    c.zoom_intensity = 3;
    c.verbose_logging = true;
    c.framerate = 30;
    c.reset_advanced();
    assert_eq!((c.encoder, c.ring_buffer, c.zoom_intensity, c.verbose_logging), (Encoder::Auto, 4, 65, false));
    assert_eq!(c.framerate, 30);
}

#[test]
fn encoder_labels() {
    assert_eq!(enc_label(Encoder::Auto), "Auto (recommended)");
    assert_eq!(enc_label(Encoder::VideoToolbox), "VideoToolbox · Apple GPU");
    assert_eq!(enc_label(Encoder::X264), "Software · x264");
    assert_eq!(enc_label(Encoder::Vaapi), "VAAPI · Linux");
}

#[test]
fn segmented_controls_round_trip() {
    for i in 0..3 {
        assert_eq!(countdown_segment(countdown_for_segment(i)), i);
    }
    assert_eq!(countdown_for_segment(2), 5);
    assert_eq!(countdown_segment(7), 2);
    for i in 0..2 {
        assert_eq!(format_segment(format_for_segment(i)), i);
        assert_eq!(framerate_segment(framerate_for_segment(i)), i);
    }
    assert_eq!(framerate_segment(120), 1);
    assert_eq!(framerate_for_segment(0), 30);
    assert_eq!(format_for_segment(1), Format::Mp4);
    assert!(format_hint(Format::Mkv).starts_with("MKV is crash-safe"));
    assert!(tray_hint(false).starts_with("OFF"));
}

#[test]
fn hotkey_rows_listen_and_capture() {
    let mut cfg = AppConfig::defaults("out".to_string());
    let mut listening = None;
    assert!(!apply_hotkey_action(HotkeyField::StartStop, HotkeyAction::ToggleListen, &mut cfg, &mut listening));
    assert_eq!(listening, Some(HotkeyField::StartStop));
    assert!(!apply_hotkey_action(HotkeyField::StartStop, HotkeyAction::Nothing, &mut cfg, &mut listening));
    assert_eq!(listening, Some(HotkeyField::StartStop));
    assert!(apply_hotkey_action(HotkeyField::StartStop, HotkeyAction::Captured("⌃R".into()), &mut cfg, &mut listening));
    assert_eq!(cfg.hotkey_start_stop, "⌃R");
    assert_eq!(cfg.hotkey_pause_resume, "⌃⇧P");
    assert_eq!(listening, None);
    apply_hotkey_action(HotkeyField::PauseResume, HotkeyAction::ToggleListen, &mut cfg, &mut listening);
    apply_hotkey_action(HotkeyField::PauseResume, HotkeyAction::ToggleListen, &mut cfg, &mut listening);
    assert_eq!(listening, None);
}

#[test]
fn combos_are_formatted() {
    assert_eq!(format_combo(true, true, false, "R"), "Ctrl+Shift+R");
    assert_eq!(format_combo(false, false, true, "F5"), "Alt+F5");
    assert_eq!(format_combo(false, false, false, "A"), "A");
    assert_eq!(format_symbol_combo(true, true, true, true, "P"), "⌘⌃⌥⇧P");
    assert_eq!(format_symbol_combo(false, true, false, true, "R"), "⌃⇧R");
}

#[test]
fn hotkey_capture_control() {
    let mut s = HotkeyCaptureState::new("Ctrl+Shift+R");
    assert_eq!(s.current, "Ctrl+Shift+R");
    assert_eq!(s.on_combo(Some("Alt+X".into())), None);
    s.toggle_listening();
    assert!(s.listening);
    assert_eq!(s.on_combo(None), None);
    assert_eq!(s.on_combo(Some("Alt+X".into())), Some("Alt+X".to_string()));
    assert_eq!(s.current, "Alt+X");
    assert!(!s.listening);
    let p = ShortcutsPanelState::default();
    assert_eq!(p.start_stop.current, "Ctrl+Shift+R");
    assert_eq!(p.pause_resume.current, "Ctrl+Shift+P");
}

#[test]
fn panel_defaults() {
    let g = GeneralPanelState::default();
    assert_eq!(g.output_path, "Documents/Glide recordings");
    assert_eq!(g.countdown_seconds, 3);
    assert!(g.show_recording_hud && g.minimize_to_tray_on_close);
    assert!(!g.launch_on_system_start && !g.export_mp4_after_recording);
}

#[test]
fn advance_panel_defaults() {
    let a = AdvancePanelState::default();
    assert_eq!(a.encoder, None);
    assert_eq!(a.ring_buffer_capacity, 4);
    assert!(!a.verbose_logging);
    assert_eq!(a.zoom_intensity_percent, 50);
    assert_eq!(
        a.available_encoders,
        vec![
            "libx264 (Software)".to_string(),
            "h264_nvenc (Hardware)".to_string(),
            "h264_qsv (Intel QuickSync)".to_string()
        ]
    );
}

#[test]
fn audio_panel_microphones() {
    let mut a = AudioPanelState::new(None);
    assert!(a.record_system_audio);
    assert_eq!(a.available_mics, vec!["Default Microphone".to_string()]);
    assert_eq!(a.current_mic(), "Default Microphone");

    let mut b = AudioPanelState::new(Some(vec!["USB".to_string(), "Headset".to_string()]));
    assert_eq!(b.current_mic(), "USB");
    assert_eq!(b.mic_options(), vec!["USB".to_string(), "Headset".to_string()]);
    b.select_mic(1);
    assert_eq!(b.current_mic(), "Headset");

    a.available_mics.clear();
    assert_eq!(a.mic_options(), vec!["Default Microphone".to_string()]);
    assert_eq!(a.current_mic(), "Default Microphone");
    a.select_mic(0);
    assert_eq!(a.selected_mic, Some("Default Microphone".to_string()));
}

#[test]
fn elapsed_timer_text() {
    assert_eq!(format_elapsed(0), "00:00");
    assert_eq!(format_elapsed(75), "01:15");
    assert_eq!(format_elapsed(3599), "59:59");
    assert_eq!(format_elapsed(3600), "01:00:00");
    assert_eq!(format_elapsed(36_061), "10:01:01");
    assert_eq!(format_elapsed(360_000), "100:00:00");
}

#[test]
fn record_button_and_tray() {
    let mut w = RecorderWindow::new();
    w.toggle_settings();
    assert!(w.settings_open);
    assert!(w.toggle_recording(5_000_000));
    assert!(!w.settings_open);
    assert_eq!(w.recording_started_at_us, Some(5_000_000));
    assert_eq!(w.elapsed(5_000_000 + 75_500_000), Some("01:15".to_string()));
    assert!(!w.toggle_recording(9_000_000));
    assert_eq!(w.elapsed(9_000_000), None);
    w.toggle_recording(1);
    w.tray_clicked();
    assert!(!w.is_recording);
    assert_eq!(w.recording_started_at_us, None);
}

#[test]
fn labels_and_tabs() {
    assert_eq!(RecordMode::Raw.label(), "Raw");
    assert_eq!(RecordMode::Live.hint(), "Live zoom: double-tap Shift to follow the cursor.");
    assert_eq!(SettingsTab::Advance.label(), "Advance");
    assert_eq!(SETTINGS_TABS.len(), 4);
    assert_eq!(SettingsTab::General.glyph(), "\u{E270}");
    assert_eq!(SettingsTab::Audio.glyph(), egui_phosphor::regular::SPEAKER_HIGH);
    assert_eq!(SettingsTab::Shortcuts.glyph(), "\u{E2D8}");
    assert_eq!(SettingsTab::Advance.glyph(), "\u{E2DE}");
    assert_eq!(TABS[3], Tab::Shortcuts);
    assert_eq!(TAB_LABELS[4], "Advanced");
    assert_eq!(TAB_ICONS[1], "waveform");
    assert_eq!(TAB_BLURB[0], "Format, resolution & quality");
}

#[test]
fn icons_by_name() {
    assert!(svg("record").contains("<circle cx=\"12\" cy=\"12\" r=\"6.5\"/>"));
    assert!(svg("record").contains("fill=\"#fff\""));
    assert!(svg("chevronDown").contains("M6 9.5l6 6 6-6"));
    assert_eq!(svg("nope"), svg("info"));
    assert_ne!(svg("mic"), svg("micOff"));
    assert!(svg("mic").starts_with("<svg xmlns=\"http://www.w3.org/2000/svg\""));
    assert!(svg("mic").ends_with("</svg>"));
}
