//! Thock: mechanical keyboard click sounds.
//!
//! The verified core of the app: how OS keys map to the logical key names
//! that sound packs use, how held keys and modifiers are tracked so that a
//! held key clicks once, how a sound pack resolves the sound for a key and
//! phase, when an input event makes a sound, where the settings are stored,
//! and how tray menu ids are read.

pub mod config;
pub mod keymap;
pub mod listener;
pub mod soundpack;
pub mod state;
pub mod text;
pub mod tray;
