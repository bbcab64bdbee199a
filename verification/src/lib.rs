//! Map MIDI input events to keyboard keys, chords, text and macros.
//!
//! The library holds the decision logic of the application: MIDI decoding and
//! trigger matching, the mapping model and its normalisation rules, the
//! application state machine, keyboard output through a sink, and the content
//! of the screen.

pub mod config;
pub mod text;
pub mod midi;
pub mod input;
pub mod app;
pub mod actions;
pub mod errors;
pub mod platform;
pub mod ui;
