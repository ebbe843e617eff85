//! Glide: the decision logic of a screen recorder with a live, gesture-driven
//! zoom camera and a demo mode whose camera follows the logged cursor.
use vstd::prelude::*;

pub mod capture;
pub mod channel;
pub mod cli;
pub mod clock;
pub mod config;
pub mod events;
pub mod hooks;
pub mod icons;
pub mod media;
pub mod otf;
pub mod panels;
pub mod pipeline;
pub mod text;
pub mod tracker;
pub mod ui;
pub mod overlay;

verus! {

} // verus!
