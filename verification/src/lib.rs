//! Dual-track playback engine for a drummer's practice player.
//!
//! The engine plays a main track and a synchronized click track through two
//! logical audio channels. It consumes `PlayerCommand` values, drives the two
//! audio output sessions as one transport, and reports what happened through
//! `PlayerEvent` values. Song assets are located by a fixed naming convention
//! and extracted from a `.7z` archive when the files are absent on disk.

pub mod engine;
pub mod laws;
pub mod messages;
pub mod resolver;
pub mod song;
pub mod ui;
