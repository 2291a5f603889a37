//! The core of a "now playing" display: a poller that turns snapshots of a
//! remote player into change signals, a debounced three-button input state
//! machine that yields playback commands, and the compositor that draws
//! album art and title lines onto a 5-6-5 pixel surface.

pub mod buttons;
pub mod codec;
pub mod commands;
pub mod display;
pub mod models;
pub mod poller;
pub mod surface;
pub mod text;
