//! Configured MIDI triggers.

use vstd::prelude::*;

use crate::config::model::KnobMode;
use crate::text::{append_str, decimal, push_decimal, push_signed_decimal, signed_decimal};

verus! {

/// The direction a knob trigger listens for.
#[derive(Debug, Clone, Copy, PartialEq, Eq, Structural)]
pub enum KnobRotationDirection {
    Clockwise,
    CounterClockwise,
}

/// A MIDI input that a mapping listens for.
#[derive(Debug, Clone, Copy, PartialEq, Eq, Structural)]
#[allow(inconsistent_fields)]
pub enum MidiTrigger {
    NoteOn { channel: u8, note: u8, min_velocity: Option<u8>, max_velocity: Option<u8> },
    NoteOff { channel: u8, note: u8 },
    ControlChange { channel: u8, controller: u8, min_value: Option<u8>, max_value: Option<u8> },
    ProgramChange { channel: u8, program: u8 },
    PitchBend { channel: u8, min_value: Option<i16>, max_value: Option<i16> },
    /// Fires when a CC knob is rotated in a specific direction.
    KnobRotation { channel: u8, controller: u8, direction: KnobRotationDirection, mode: KnobMode },
}


/// `" vel=..."`-style text of an optional byte range, with the given labels.
pub open spec fn byte_range_text(
    min: Option<u8>,
    max: Option<u8>,
    both: Seq<char>,
    at_least: Seq<char>,
    at_most: Seq<char>,
    any: Seq<char>,
) -> Seq<char> {
    match (min, max) {
        (Some(a), Some(b)) => both + decimal(a as nat) + "-"@ + decimal(b as nat),
        (Some(a), None) => at_least + decimal(a as nat),
        (None, Some(b)) => at_most + decimal(b as nat),
        (None, None) => any,
    }
}

/// Human-readable form of a trigger.
pub open spec fn trigger_text(t: MidiTrigger) -> Seq<char> {
    match t {
        MidiTrigger::NoteOn { channel, note, min_velocity, max_velocity } => "NoteOn ch="@
            + decimal(channel as nat) + " note="@ + decimal(note as nat) + byte_range_text(
            min_velocity,
            max_velocity,
            " vel="@,
            " vel>="@,
            " vel<="@,
            " vel=*"@,
        ),
        MidiTrigger::NoteOff { channel, note } => "NoteOff ch="@ + decimal(channel as nat)
            + " note="@ + decimal(note as nat),
        MidiTrigger::ControlChange { channel, controller, min_value, max_value } => "CC ch="@
            + decimal(channel as nat) + " ctrl="@ + decimal(controller as nat) + byte_range_text(
            min_value,
            max_value,
            " val="@,
            " val>="@,
            " val<="@,
            " val=*"@,
        ),
        MidiTrigger::ProgramChange { channel, program } => "PC ch="@ + decimal(channel as nat)
            + " prog="@ + decimal(program as nat),
        MidiTrigger::PitchBend { channel, min_value, max_value } => "PitchBend ch="@ + decimal(
            channel as nat,
        ) + match (min_value, max_value) {
            (Some(a), Some(b)) => " val="@ + signed_decimal(a as int) + "-"@ + signed_decimal(
                b as int,
            ),
            _ => " val=*"@,
        },
        MidiTrigger::KnobRotation { channel, controller, direction, .. } => "Knob "@ + (
        match direction {
            KnobRotationDirection::Clockwise => "CW"@,
            KnobRotationDirection::CounterClockwise => "CCW"@,
        }) + " ch="@ + decimal(channel as nat) + " ctrl="@ + decimal(controller as nat),
    }
}

/// Human-readable name of a knob direction.
pub open spec fn rotation_text(d: KnobRotationDirection) -> Seq<char> {
    match d {
        KnobRotationDirection::Clockwise => "Clockwise"@,
        KnobRotationDirection::CounterClockwise => "Counter-Clockwise"@,
    }
}

impl KnobRotationDirection {
    /// The human-readable name of this direction.
    pub fn display_string(&self) -> (s: String)
        ensures
            s@ == rotation_text(*self),
    {
        match self {
            KnobRotationDirection::Clockwise => crate::text::owned("Clockwise"),
            KnobRotationDirection::CounterClockwise => crate::text::owned("Counter-Clockwise"),
        }
    }
}

fn push_byte_range(
    s: &mut String,
    min: Option<u8>,
    max: Option<u8>,
    both: &str,
    at_least: &str,
    at_most: &str,
    any: &str,
)
    ensures
        final(s)@ == old(s)@ + byte_range_text(min, max, both@, at_least@, at_most@, any@),
{
    match (min, max) {
        (Some(a), Some(b)) => {
            append_str(s, both);
            push_decimal(s, a as u64);
            append_str(s, "-");
            push_decimal(s, b as u64);
        },
        (Some(a), None) => {
            append_str(s, at_least);
            push_decimal(s, a as u64);
        },
        (None, Some(b)) => {
            append_str(s, at_most);
            push_decimal(s, b as u64);
        },
        (None, None) => {
            append_str(s, any);
        },
    }
    assert(s@ =~= old(s)@ + byte_range_text(min, max, both@, at_least@, at_most@, any@));
}

impl MidiTrigger {
    /// Appends the human-readable form of this trigger to `s`.
    pub fn push_text(&self, s: &mut String)
        ensures
            final(s)@ == old(s)@ + trigger_text(*self),
    {
        match *self {
            MidiTrigger::NoteOn { channel, note, min_velocity, max_velocity } => {
                append_str(s, "NoteOn ch=");
                push_decimal(s, channel as u64);
                append_str(s, " note=");
                push_decimal(s, note as u64);
                push_byte_range(s, min_velocity, max_velocity, " vel=", " vel>=", " vel<=", " vel=*");
            },
            MidiTrigger::NoteOff { channel, note } => {
                append_str(s, "NoteOff ch=");
                push_decimal(s, channel as u64);
                append_str(s, " note=");
                push_decimal(s, note as u64);
            },
            MidiTrigger::ControlChange { channel, controller, min_value, max_value } => {
                append_str(s, "CC ch=");
                push_decimal(s, channel as u64);
                append_str(s, " ctrl=");
                push_decimal(s, controller as u64);
                push_byte_range(s, min_value, max_value, " val=", " val>=", " val<=", " val=*");
            },
            MidiTrigger::ProgramChange { channel, program } => {
                append_str(s, "PC ch=");
                push_decimal(s, channel as u64);
                append_str(s, " prog=");
                push_decimal(s, program as u64);
            },
            MidiTrigger::PitchBend { channel, min_value, max_value } => {
                append_str(s, "PitchBend ch=");
                push_decimal(s, channel as u64);
                match (min_value, max_value) {
                    (Some(a), Some(b)) => {
                        append_str(s, " val=");
                        push_signed_decimal(s, a as i64);
                        append_str(s, "-");
                        push_signed_decimal(s, b as i64);
                    },
                    _ => {
                        append_str(s, " val=*");
                    },
                }
            },
            MidiTrigger::KnobRotation { channel, controller, direction, .. } => {
                append_str(s, "Knob ");
                match direction {
                    KnobRotationDirection::Clockwise => append_str(s, "CW"),
                    KnobRotationDirection::CounterClockwise => append_str(s, "CCW"),
                }
                append_str(s, " ch=");
                push_decimal(s, channel as u64);
                append_str(s, " ctrl=");
                push_decimal(s, controller as u64);
            },
        }
        assert(s@ =~= old(s)@ + trigger_text(*self));
    }

    /// The human-readable form of this trigger.
    pub fn display_string(&self) -> (s: String)
        ensures
            s@ == trigger_text(*self),
    {
        let mut s = String::new();
        self.push_text(&mut s);
        assert(s@ =~= trigger_text(*self));
        s
    }
}

} // verus!
