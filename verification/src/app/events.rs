//! The events that flow through the application's main event channel.

use vstd::prelude::*;

use crate::input::key_event::KeyEvent;
use crate::midi::decode::MidiEvent;

verus! {

/// All events that flow through the main event channel.
#[derive(Debug)]
pub enum AppEvent {
    /// Periodic tick for UI refresh.
    Tick,
    /// Terminal keyboard input.
    TerminalKey(KeyEvent),
    /// Terminal resize.
    TerminalResize(u16, u16),
    /// MIDI message received from device.
    MidiReceived(MidiEvent),
    /// Action executor completed successfully.
    ActionCompleted(String),
    /// Action executor failed.
    ActionFailed(String, String),
    /// MIDI device list changed (connect/disconnect).
    DeviceChanged,
}

} // verus!
