//! The application's error kinds and their messages.

use vstd::prelude::*;

use crate::text::{append_str, owned};

verus! {

/// An application error, with what it concerns.
#[derive(Debug, Clone, PartialEq)]
pub enum AppError {
    MidiDeviceNotFound(String),
    MidiConnectionLost(String),
    MidiInitError(String),
    ConfigParseError(String),
    ConfigSaveError(String),
    KeyboardError(String),
    UnsupportedKey(String),
    TerminalError(String),
    ChannelError(String),
}

/// The message of an error.
pub open spec fn error_text(e: AppError) -> Seq<char> {
    match e {
        AppError::MidiDeviceNotFound(d) => "MIDI device not found: "@ + d@,
        AppError::MidiConnectionLost(d) => "MIDI connection lost: "@ + d@,
        AppError::MidiInitError(d) => "MIDI initialization error: "@ + d@,
        AppError::ConfigParseError(d) => "Config parse failure: "@ + d@,
        AppError::ConfigSaveError(d) => "Config save failure: "@ + d@,
        AppError::KeyboardError(d) => "Keyboard injection failure: "@ + d@,
        AppError::UnsupportedKey(d) => "Unsupported key on current platform: "@ + d@,
        AppError::TerminalError(d) => "Terminal initialization failure: "@ + d@,
        AppError::ChannelError(d) => "Channel send error: "@ + d@,
    }
}

impl AppError {
    /// The human-readable message of this error.
    pub fn display_string(&self) -> (s: String)
        ensures
            s@ == error_text(*self),
    {
        let (mut s, detail) = match self {
            AppError::MidiDeviceNotFound(d) => (owned("MIDI device not found: "), d),
            AppError::MidiConnectionLost(d) => (owned("MIDI connection lost: "), d),
            AppError::MidiInitError(d) => (owned("MIDI initialization error: "), d),
            AppError::ConfigParseError(d) => (owned("Config parse failure: "), d),
            AppError::ConfigSaveError(d) => (owned("Config save failure: "), d),
            AppError::KeyboardError(d) => (owned("Keyboard injection failure: "), d),
            AppError::UnsupportedKey(d) => (owned("Unsupported key on current platform: "), d),
            AppError::TerminalError(d) => (owned("Terminal initialization failure: "), d),
            AppError::ChannelError(d) => (owned("Channel send error: "), d),
        };
        append_str(&mut s, detail.as_str());
        s
    }
}

} // verus!
