//! Icons: the inline SVG sources of the app's own icon set, and the
//! Phosphor font glyphs of the settings tabs.
use vstd::prelude::*;
use crate::ui::SettingsTab;

verus! {
pub const S_RECORD: &'static str = "<svg xmlns=\"http://www.w3.org/2000/svg\" width=\"24\" height=\"24\" viewBox=\"0 0 24 24\" fill=\"#fff\" stroke=\"none\"><circle cx=\"12\" cy=\"12\" r=\"6.5\"/></svg>";
pub const S_STOP: &'static str = "<svg xmlns=\"http://www.w3.org/2000/svg\" width=\"24\" height=\"24\" viewBox=\"0 0 24 24\" fill=\"#fff\" stroke=\"none\"><rect x=\"6.5\" y=\"6.5\" width=\"11\" height=\"11\" rx=\"2.4\"/></svg>";
pub const S_MIC: &'static str = "<svg xmlns=\"http://www.w3.org/2000/svg\" width=\"24\" height=\"24\" viewBox=\"0 0 24 24\" fill=\"none\" stroke=\"#fff\" stroke-width=\"1.7\" stroke-linecap=\"round\" stroke-linejoin=\"round\"><rect x=\"9\" y=\"3\" width=\"6\" height=\"11\" rx=\"3\"/><path d=\"M5.5 11.5a6.5 6.5 0 0 0 13 0\"/><path d=\"M12 18v3M9 21h6\"/></svg>";
pub const S_MIC_OFF: &'static str = "<svg xmlns=\"http://www.w3.org/2000/svg\" width=\"24\" height=\"24\" viewBox=\"0 0 24 24\" fill=\"none\" stroke=\"#fff\" stroke-width=\"1.7\" stroke-linecap=\"round\" stroke-linejoin=\"round\"><path d=\"M9 5.5a3 3 0 0 1 6 .5v3\"/><path d=\"M15.5 11.5A3.5 3.5 0 0 1 9 12.2\"/><path d=\"M5.5 11.5a6.5 6.5 0 0 0 10.8 4.8\"/><path d=\"M12 18v3M9 21h6\"/><path d=\"M4 4l16 16\"/></svg>";
pub const S_FOLDER: &'static str = "<svg xmlns=\"http://www.w3.org/2000/svg\" width=\"24\" height=\"24\" viewBox=\"0 0 24 24\" fill=\"none\" stroke=\"#fff\" stroke-width=\"1.7\" stroke-linecap=\"round\" stroke-linejoin=\"round\"><path d=\"M3 7.5a2 2 0 0 1 2-2h3.4a2 2 0 0 1 1.4.6l1 1a2 2 0 0 0 1.4.6H19a2 2 0 0 1 2 2V17a2 2 0 0 1-2 2H5a2 2 0 0 1-2-2V7.5Z\"/></svg>";
pub const S_REVEAL: &'static str = "<svg xmlns=\"http://www.w3.org/2000/svg\" width=\"24\" height=\"24\" viewBox=\"0 0 24 24\" fill=\"none\" stroke=\"#fff\" stroke-width=\"1.7\" stroke-linecap=\"round\" stroke-linejoin=\"round\"><path d=\"M3 7.5a2 2 0 0 1 2-2h4l2 2H19a2 2 0 0 1 2 2v1\"/><path d=\"M3.5 11H21l-1.4 5.2a2 2 0 0 1-1.9 1.5H8a2 2 0 0 1-1.9-1.4L3.5 11Z\"/><path d=\"M14 16l4-4M18 16v-4h-4\"/></svg>";
pub const S_SETTINGS: &'static str = "<svg xmlns=\"http://www.w3.org/2000/svg\" width=\"24\" height=\"24\" viewBox=\"0 0 24 24\" fill=\"none\" stroke=\"#fff\" stroke-width=\"1.7\" stroke-linecap=\"round\" stroke-linejoin=\"round\"><circle cx=\"12\" cy=\"12\" r=\"3.2\"/><path d=\"M12 2.5v2.6M12 18.9v2.6M21.5 12h-2.6M5.1 12H2.5M18.7 5.3l-1.8 1.8M7.1 16.9l-1.8 1.8M18.7 18.7l-1.8-1.8M7.1 7.1 5.3 5.3\"/></svg>";
pub const S_CHEVRON: &'static str = "<svg xmlns=\"http://www.w3.org/2000/svg\" width=\"24\" height=\"24\" viewBox=\"0 0 24 24\" fill=\"none\" stroke=\"#fff\" stroke-width=\"1.7\" stroke-linecap=\"round\" stroke-linejoin=\"round\"><path d=\"M6 9.5l6 6 6-6\"/></svg>";
pub const S_WAVE: &'static str = "<svg xmlns=\"http://www.w3.org/2000/svg\" width=\"24\" height=\"24\" viewBox=\"0 0 24 24\" fill=\"none\" stroke=\"#fff\" stroke-width=\"1.7\" stroke-linecap=\"round\" stroke-linejoin=\"round\"><path d=\"M4 9v6M8 5v14M12 7v10M16 9.5v5M20 7.5v9\"/></svg>";
pub const S_KBD: &'static str = "<svg xmlns=\"http://www.w3.org/2000/svg\" width=\"24\" height=\"24\" viewBox=\"0 0 24 24\" fill=\"none\" stroke=\"#fff\" stroke-width=\"1.7\" stroke-linecap=\"round\" stroke-linejoin=\"round\"><rect x=\"2.5\" y=\"6\" width=\"19\" height=\"12\" rx=\"2.5\"/><path d=\"M6 10h.01M10 10h.01M14 10h.01M18 10h.01M9 14h6\"/></svg>";
pub const S_FILM: &'static str = "<svg xmlns=\"http://www.w3.org/2000/svg\" width=\"24\" height=\"24\" viewBox=\"0 0 24 24\" fill=\"none\" stroke=\"#fff\" stroke-width=\"1.7\" stroke-linecap=\"round\" stroke-linejoin=\"round\"><rect x=\"3\" y=\"4\" width=\"18\" height=\"16\" rx=\"2.5\"/><path d=\"M8 4v16M16 4v16M3 9h5M3 15h5M16 9h5M16 15h5\"/></svg>";
pub const S_GAUGE: &'static str = "<svg xmlns=\"http://www.w3.org/2000/svg\" width=\"24\" height=\"24\" viewBox=\"0 0 24 24\" fill=\"none\" stroke=\"#fff\" stroke-width=\"1.7\" stroke-linecap=\"round\" stroke-linejoin=\"round\"><path d=\"M4 18a8 8 0 1 1 16 0\"/><path d=\"M12 14l4-3.5\"/></svg>";
pub const S_DRIVE: &'static str = "<svg xmlns=\"http://www.w3.org/2000/svg\" width=\"24\" height=\"24\" viewBox=\"0 0 24 24\" fill=\"none\" stroke=\"#fff\" stroke-width=\"1.7\" stroke-linecap=\"round\" stroke-linejoin=\"round\"><path d=\"M4 14h16l-1.8-7.2A2 2 0 0 0 16.2 5H7.8a2 2 0 0 0-1.95 1.55L4 14Z\"/><path d=\"M4 14h16a1.5 1.5 0 0 1 1.5 1.5V18a1.5 1.5 0 0 1-1.5 1.5H4A1.5 1.5 0 0 1 2.5 18v-2.5A1.5 1.5 0 0 1 4 14Z\"/><path d=\"M7.5 17h.01\"/></svg>";
pub const S_CHECK: &'static str = "<svg xmlns=\"http://www.w3.org/2000/svg\" width=\"24\" height=\"24\" viewBox=\"0 0 24 24\" fill=\"none\" stroke=\"#fff\" stroke-width=\"1.7\" stroke-linecap=\"round\" stroke-linejoin=\"round\"><path d=\"M5 12.5l4.5 4.5L19 7.5\"/></svg>";
pub const S_INFO: &'static str = "<svg xmlns=\"http://www.w3.org/2000/svg\" width=\"24\" height=\"24\" viewBox=\"0 0 24 24\" fill=\"none\" stroke=\"#fff\" stroke-width=\"1.7\" stroke-linecap=\"round\" stroke-linejoin=\"round\"><circle cx=\"12\" cy=\"12\" r=\"9\"/><path d=\"M12 11v5M12 8h.01\"/></svg>";
pub const S_CURSOR: &'static str = "<svg xmlns=\"http://www.w3.org/2000/svg\" width=\"24\" height=\"24\" viewBox=\"0 0 24 24\" fill=\"none\" stroke=\"#fff\" stroke-width=\"1.7\" stroke-linecap=\"round\" stroke-linejoin=\"round\"><path d=\"M5 3.5l6.5 16 2.2-6.6 6.6-2.2L5 3.5Z\"/></svg>";
pub const S_CLOCK: &'static str = "<svg xmlns=\"http://www.w3.org/2000/svg\" width=\"24\" height=\"24\" viewBox=\"0 0 24 24\" fill=\"none\" stroke=\"#fff\" stroke-width=\"1.7\" stroke-linecap=\"round\" stroke-linejoin=\"round\"><circle cx=\"12\" cy=\"12\" r=\"9\"/><path d=\"M12 7.5V12l3 2\"/></svg>";
pub const S_SPARKLES: &'static str = "<svg xmlns=\"http://www.w3.org/2000/svg\" width=\"24\" height=\"24\" viewBox=\"0 0 24 24\" fill=\"none\" stroke=\"#fff\" stroke-width=\"1.7\" stroke-linecap=\"round\" stroke-linejoin=\"round\"><path d=\"M12 4l1.6 4.4L18 10l-4.4 1.6L12 16l-1.6-4.4L6 10l4.4-1.6L12 4Z\"/></svg>";

/// `<str as PartialEq>::eq`: whether two strings hold the same characters.
#[verifier::external_body]
fn str_eq(a: &str, b: &str) -> (r: bool)
    ensures
        r == (a@ == b@),
{
    a == b
}

/// The SVG source of the icon called `name`; unknown names get the info icon.
pub open spec fn icon_svg(name: Seq<char>) -> Seq<char> {
    if name == "record"@ {
        S_RECORD@
    }     else if name == "stop"@ {
        S_STOP@
    }     else if name == "mic"@ {
        S_MIC@
    }     else if name == "micOff"@ {
        S_MIC_OFF@
    }     else if name == "folder"@ {
        S_FOLDER@
    }     else if name == "reveal"@ {
        S_REVEAL@
    }     else if name == "settings"@ {
        S_SETTINGS@
    }     else if name == "chevronDown"@ {
        S_CHEVRON@
    }     else if name == "waveform"@ {
        S_WAVE@
    }     else if name == "keyboard"@ {
        S_KBD@
    }     else if name == "film"@ {
        S_FILM@
    }     else if name == "gauge"@ {
        S_GAUGE@
    }     else if name == "drive"@ {
        S_DRIVE@
    }     else if name == "check"@ {
        S_CHECK@
    }     else if name == "info"@ {
        S_INFO@
    }     else if name == "cursor"@ {
        S_CURSOR@
    }     else if name == "clock"@ {
        S_CLOCK@
    }     else if name == "sparkles"@ {
        S_SPARKLES@
    } else {
        S_INFO@
    }
}

/// Returns the SVG source for a named icon, drawn in white so that it can
/// be tinted.
pub fn svg(name: &str) -> (s: &'static str)
    ensures
        s@ == icon_svg(name@),
{
    if str_eq(name, "record") {
        S_RECORD
    } else if str_eq(name, "stop") {
        S_STOP
    } else if str_eq(name, "mic") {
        S_MIC
    } else if str_eq(name, "micOff") {
        S_MIC_OFF
    } else if str_eq(name, "folder") {
        S_FOLDER
    } else if str_eq(name, "reveal") {
        S_REVEAL
    } else if str_eq(name, "settings") {
        S_SETTINGS
    } else if str_eq(name, "chevronDown") {
        S_CHEVRON
    } else if str_eq(name, "waveform") {
        S_WAVE
    } else if str_eq(name, "keyboard") {
        S_KBD
    } else if str_eq(name, "film") {
        S_FILM
    } else if str_eq(name, "gauge") {
        S_GAUGE
    } else if str_eq(name, "drive") {
        S_DRIVE
    } else if str_eq(name, "check") {
        S_CHECK
    } else if str_eq(name, "info") {
        S_INFO
    } else if str_eq(name, "cursor") {
        S_CURSOR
    } else if str_eq(name, "clock") {
        S_CLOCK
    } else if str_eq(name, "sparkles") {
        S_SPARKLES
    } else {
        S_INFO
    }
}

/// `egui_phosphor::regular::GEAR`, the private-use glyph U+E270.
#[verifier::external_body]
fn gear_glyph() -> (g: &'static str)
    ensures
        g@ == seq!['\u{E270}'],
{
    egui_phosphor::regular::GEAR
}

/// `egui_phosphor::regular::SPEAKER_HIGH`, the private-use glyph U+E44A.
#[verifier::external_body]
fn speaker_high_glyph() -> (g: &'static str)
    ensures
        g@ == seq!['\u{E44A}'],
{
    egui_phosphor::regular::SPEAKER_HIGH
}

/// `egui_phosphor::regular::KEYBOARD`, the private-use glyph U+E2D8.
#[verifier::external_body]
fn keyboard_glyph() -> (g: &'static str)
    ensures
        g@ == seq!['\u{E2D8}'],
{
    egui_phosphor::regular::KEYBOARD
}

/// `egui_phosphor::regular::LIGHTNING`, the private-use glyph U+E2DE.
#[verifier::external_body]
fn lightning_glyph() -> (g: &'static str)
    ensures
        g@ == seq!['\u{E2DE}'],
{
    egui_phosphor::regular::LIGHTNING
}

impl SettingsTab {
    /// The tab's icon in the Phosphor icon font: a gear, a speaker, a
    /// keyboard and a lightning bolt.
    pub fn glyph(self) -> (g: &'static str)
        ensures
            self == SettingsTab::General ==> g@ == seq!['\u{E270}'],
            self == SettingsTab::Audio ==> g@ == seq!['\u{E44A}'],
            self == SettingsTab::Shortcuts ==> g@ == seq!['\u{E2D8}'],
            self == SettingsTab::Advance ==> g@ == seq!['\u{E2DE}'],
    {
        match self {
            SettingsTab::General => gear_glyph(),
            SettingsTab::Audio => speaker_high_glyph(),
            SettingsTab::Shortcuts => keyboard_glyph(),
            SettingsTab::Advance => lightning_glyph(),
        }
    }
}

} // verus!
