//! Tray-driven window lifecycle coordination for the zendo desktop shell.
//!
//! The crate decides; it never touches the platform. Every handler takes the
//! shared state explicitly, updates its model of the windows, and returns the
//! list of [`event::Action`]s that the host has to carry out.

pub mod text;
pub mod window;
pub mod registry;
pub mod menu;
pub mod event;
pub mod tray;
pub mod close;
pub mod shell;
pub mod laws;
pub mod greeting;
