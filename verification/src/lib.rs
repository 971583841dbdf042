//! Verified control core for managing Android emulator images and sessions.
//!
//! The library reconciles two independently queried sources of truth — the
//! configured-but-idle emulator images and the currently live device
//! sessions — into one device list, and plans the external command
//! invocations that start, stop, wipe, delete and screenshot devices.
//! Process spawning itself is left to the embedding application; every
//! function here is a total, verified computation on plain values.

pub mod clock;
pub mod config;
pub mod control;
pub mod device;
pub mod error;
pub mod laws;
pub mod locator;
pub mod text;
