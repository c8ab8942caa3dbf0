//! Touchpad gesture recognition for a radial application launcher.
//!
//! The core is a recognizer that turns raw multitouch events into taps,
//! swipes and cancellations ([`gesture`], over the per-finger [`tracker`]),
//! and the decisions of the loop that drives it ([`scheduler`]). Around it:
//! configuration, device discovery decisions, and the application entries that
//! the menu shows.
pub mod apps;
pub mod config;
pub mod device;
pub mod gesture;
pub mod menu;
pub mod scheduler;
pub mod settings;
pub mod text;
pub mod tracker;
pub mod tray;
