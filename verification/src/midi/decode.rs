//! Decoding raw MIDI bytes, knob direction detection, and trigger matching.

use vstd::prelude::*;

use crate::config::model::KnobMode;
use crate::midi::cc_table::CcTable;
use crate::midi::trigger::{KnobRotationDirection, MidiTrigger};

verus! {

/// Direction of a knob turn, as detected from CC values.
#[derive(Debug, Clone, Copy, PartialEq, Eq, Structural)]
pub enum KnobDirection {
    Clockwise,
    CounterClockwise,
}

/// A MIDI event decoded from bytes.
#[derive(Debug, Clone, Copy, PartialEq, Eq, Structural)]
pub struct MidiEvent {
    pub trigger: MidiTrigger,
    pub raw_velocity: Option<u8>,
    pub raw_value: Option<u8>,
    pub timestamp_us: u64,
    /// Populated for CC events when knob rotation mappings exist.
    pub knob_direction: Option<KnobDirection>,
}

/// The event that `data` decodes to: channel messages (note off, note on,
/// control change, program change, pitch bend) with enough data bytes, on
/// channels numbered from 1. Note on with velocity 0 is a note off. System
/// messages (status `0xF0` and above) and anything else decode to nothing.
pub open spec fn decoded(data: Seq<u8>, timestamp_us: u64) -> Option<MidiEvent> {
    if data.len() == 0 || data[0] >= 0xF0 {
        None
    } else {
        let kind = data[0] / 16;
        let channel = (data[0] % 16 + 1) as u8;
        if kind == 0x8 && data.len() >= 3 {
            Some(
                MidiEvent {
                    trigger: MidiTrigger::NoteOff { channel, note: data[1] },
                    raw_velocity: Some(data[2]),
                    raw_value: None,
                    timestamp_us,
                    knob_direction: None,
                },
            )
        } else if kind == 0x9 && data.len() >= 3 {
            if data[2] == 0 {
                Some(
                    MidiEvent {
                        trigger: MidiTrigger::NoteOff { channel, note: data[1] },
                        raw_velocity: Some(0),
                        raw_value: None,
                        timestamp_us,
                        knob_direction: None,
                    },
                )
            } else {
                Some(
                    MidiEvent {
                        trigger: MidiTrigger::NoteOn {
                            channel,
                            note: data[1],
                            min_velocity: None,
                            max_velocity: None,
                        },
                        raw_velocity: Some(data[2]),
                        raw_value: None,
                        timestamp_us,
                        knob_direction: None,
                    },
                )
            }
        } else if kind == 0xB && data.len() >= 3 {
            Some(
                MidiEvent {
                    trigger: MidiTrigger::ControlChange {
                        channel,
                        controller: data[1],
                        min_value: None,
                        max_value: None,
                    },
                    raw_velocity: None,
                    raw_value: Some(data[2]),
                    timestamp_us,
                    knob_direction: None,
                },
            )
        } else if kind == 0xC && data.len() >= 2 {
            Some(
                MidiEvent {
                    trigger: MidiTrigger::ProgramChange { channel, program: data[1] },
                    raw_velocity: None,
                    raw_value: None,
                    timestamp_us,
                    knob_direction: None,
                },
            )
        } else if kind == 0xE && data.len() >= 3 {
            Some(
                MidiEvent {
                    trigger: MidiTrigger::PitchBend { channel, min_value: None, max_value: None },
                    raw_velocity: None,
                    raw_value: None,
                    timestamp_us,
                    knob_direction: None,
                },
            )
        } else {
            None
        }
    }
}

/// Decode raw MIDI bytes into a MidiEvent.
/// Returns None for system realtime, clock, active sensing, and sysex messages.
pub fn decode_midi_message(data: &[u8], timestamp_us: u64) -> (r: Option<MidiEvent>)
    ensures
        r == decoded(data@, timestamp_us),
{
    if data.len() == 0 {
        return None;
    }
    let status = data[0];
    if status >= 0xF0 {
        return None;
    }
    let kind = status / 16;
    let channel = status % 16 + 1;
    if kind == 0x8 && data.len() >= 3 {
        Some(
            MidiEvent {
                trigger: MidiTrigger::NoteOff { channel, note: data[1] },
                raw_velocity: Some(data[2]),
                raw_value: None,
                timestamp_us,
                knob_direction: None,
            },
        )
    } else if kind == 0x9 && data.len() >= 3 {
        let velocity = data[2];
        if velocity == 0 {
            Some(
                MidiEvent {
                    trigger: MidiTrigger::NoteOff { channel, note: data[1] },
                    raw_velocity: Some(0),
                    raw_value: None,
                    timestamp_us,
                    knob_direction: None,
                },
            )
        } else {
            Some(
                MidiEvent {
                    trigger: MidiTrigger::NoteOn {
                        channel,
                        note: data[1],
                        min_velocity: None,
                        max_velocity: None,
                    },
                    raw_velocity: Some(velocity),
                    raw_value: None,
                    timestamp_us,
                    knob_direction: None,
                },
            )
        }
    } else if kind == 0xB && data.len() >= 3 {
        Some(
            MidiEvent {
                trigger: MidiTrigger::ControlChange {
                    channel,
                    controller: data[1],
                    min_value: None,
                    max_value: None,
                },
                raw_velocity: None,
                raw_value: Some(data[2]),
                timestamp_us,
                knob_direction: None,
            },
        )
    } else if kind == 0xC && data.len() >= 2 {
        Some(
            MidiEvent {
                trigger: MidiTrigger::ProgramChange { channel, program: data[1] },
                raw_velocity: None,
                raw_value: None,
                timestamp_us,
                knob_direction: None,
            },
        )
    } else if kind == 0xE && data.len() >= 3 {
        Some(
            MidiEvent {
                trigger: MidiTrigger::PitchBend { channel, min_value: None, max_value: None },
                raw_velocity: None,
                raw_value: None,
                timestamp_us,
                knob_direction: None,
            },
        )
    } else {
        None
    }
}

/// Whether a raw byte lies within optional bounds (an absent raw byte
/// satisfies any bounds).
pub open spec fn within_bounds(raw: Option<u8>, min: Option<u8>, max: Option<u8>) -> bool {
    match raw {
        Some(v) => (match min {
            Some(m) => v >= m,
            None => true,
        }) && (match max {
            Some(m) => v <= m,
            None => true,
        }),
        None => true,
    }
}

/// The detected direction that a knob trigger direction corresponds to.
pub open spec fn detected_direction(d: KnobRotationDirection) -> KnobDirection {
    match d {
        KnobRotationDirection::Clockwise => KnobDirection::Clockwise,
        KnobRotationDirection::CounterClockwise => KnobDirection::CounterClockwise,
    }
}

/// Whether an incoming event matches a configured trigger: same kind, channel
/// and number, and the event's velocity or value within the trigger's bounds.
/// A pitch bend trigger matches on channel only, and only when it has no
/// bounds. A knob trigger matches a CC event on its channel and controller
/// whose detected direction is the trigger's direction.
pub open spec fn event_matches(event: MidiEvent, trigger: MidiTrigger) -> bool {
    match (event.trigger, trigger) {
        (
            MidiTrigger::NoteOn { channel: ec, note: en, .. },
            MidiTrigger::NoteOn { channel: tc, note: tn, min_velocity, max_velocity },
        ) => ec == tc && en == tn && within_bounds(event.raw_velocity, min_velocity, max_velocity),
        (
            MidiTrigger::NoteOff { channel: ec, note: en },
            MidiTrigger::NoteOff { channel: tc, note: tn },
        ) => ec == tc && en == tn,
        (
            MidiTrigger::ControlChange { channel: ec, controller: ecc, .. },
            MidiTrigger::ControlChange { channel: tc, controller: tcc, min_value, max_value },
        ) => ec == tc && ecc == tcc && within_bounds(event.raw_value, min_value, max_value),
        (
            MidiTrigger::ProgramChange { channel: ec, program: ep },
            MidiTrigger::ProgramChange { channel: tc, program: tp },
        ) => ec == tc && ep == tp,
        (
            MidiTrigger::PitchBend { channel: ec, .. },
            MidiTrigger::PitchBend { channel: tc, min_value, max_value },
        ) => ec == tc && min_value is None && max_value is None,
        (
            MidiTrigger::ControlChange { channel: ec, controller: ecc, .. },
            MidiTrigger::KnobRotation { channel: tc, controller: tcc, direction: td, .. },
        ) => ec == tc && ecc == tcc && event.knob_direction == Some(detected_direction(td)),
        _ => false,
    }
}

/// The channel of a trigger.
pub open spec fn trigger_channel(t: MidiTrigger) -> u8 {
    match t {
        MidiTrigger::NoteOn { channel, .. } => channel,
        MidiTrigger::NoteOff { channel, .. } => channel,
        MidiTrigger::ControlChange { channel, .. } => channel,
        MidiTrigger::ProgramChange { channel, .. } => channel,
        MidiTrigger::PitchBend { channel, .. } => channel,
        MidiTrigger::KnobRotation { channel, .. } => channel,
    }
}

/// Decoding: system messages (status `0xF0` and above) and empty input decode
/// to nothing; every decoded event is on a channel numbered 1 to 16, carries
/// no knob direction, and matches the trigger it carries, so a trigger learned
/// from a message matches that message whenever it comes again.
pub proof fn decoding_rules(data: Seq<u8>, t1: u64, t2: u64)
    ensures
        (data.len() == 0 || data[0] >= 0xF0) ==> decoded(data, t1) is None,
        decoded(data, t1) matches Some(e) ==> {
            &&& 1 <= trigger_channel(e.trigger) <= 16
            &&& e.knob_direction is None
            &&& e.timestamp_us == t1
            &&& decoded(data, t2) matches Some(e2) && event_matches(e2, e.trigger)
        },
{
}

/// Channel numbering: every decoded event is on the channel in the low four
/// bits of the status byte, counted from 1.
pub proof fn decoded_channel_is_status_low_bits(data: Seq<u8>, t: u64)
    ensures
        decoded(data, t) matches Some(e) ==> trigger_channel(e.trigger) == (data[0] & 0x0F) + 1,
{
    if data.len() > 0 {
        let b = data[0];
        assert(b & 0x0F == b % 16) by (bit_vector);
    }
}

/// The three-byte channel messages, field by field: the high four bits of the
/// status byte give the kind (note off, note on, control change, program
/// change, pitch bend), the low four bits the channel counted from 1; the
/// first data byte is the note, controller or program, and the second the
/// velocity or value. A note on with velocity 0 is a note off. Other kinds
/// (polyphonic and channel pressure) decode to nothing.
pub proof fn channel_messages_decode_by_field(status: u8, a: u8, b: u8, t: u64)
    requires
        0x80 <= status < 0xF0,
    ensures
        ({
            let ch: u8 = ((status & 0x0F) + 1) as u8;
            let e = decoded(seq![status, a, b], t);
            &&& status >> 4 == 0x8 ==> e == Some(
                MidiEvent {
                    trigger: MidiTrigger::NoteOff { channel: ch, note: a },
                    raw_velocity: Some(b),
                    raw_value: None,
                    timestamp_us: t,
                    knob_direction: None,
                },
            )
            &&& (status >> 4 == 0x9 && b > 0) ==> e == Some(
                MidiEvent {
                    trigger: MidiTrigger::NoteOn {
                        channel: ch,
                        note: a,
                        min_velocity: None,
                        max_velocity: None,
                    },
                    raw_velocity: Some(b),
                    raw_value: None,
                    timestamp_us: t,
                    knob_direction: None,
                },
            )
            &&& (status >> 4 == 0x9 && b == 0) ==> e == Some(
                MidiEvent {
                    trigger: MidiTrigger::NoteOff { channel: ch, note: a },
                    raw_velocity: Some(0),
                    raw_value: None,
                    timestamp_us: t,
                    knob_direction: None,
                },
            )
            &&& status >> 4 == 0xB ==> e == Some(
                MidiEvent {
                    trigger: MidiTrigger::ControlChange {
                        channel: ch,
                        controller: a,
                        min_value: None,
                        max_value: None,
                    },
                    raw_velocity: None,
                    raw_value: Some(b),
                    timestamp_us: t,
                    knob_direction: None,
                },
            )
            &&& status >> 4 == 0xC ==> e == Some(
                MidiEvent {
                    trigger: MidiTrigger::ProgramChange { channel: ch, program: a },
                    raw_velocity: None,
                    raw_value: None,
                    timestamp_us: t,
                    knob_direction: None,
                },
            )
            &&& status >> 4 == 0xE ==> e == Some(
                MidiEvent {
                    trigger: MidiTrigger::PitchBend { channel: ch, min_value: None, max_value: None },
                    raw_velocity: None,
                    raw_value: None,
                    timestamp_us: t,
                    knob_direction: None,
                },
            )
            &&& (status >> 4 == 0xA || status >> 4 == 0xD) ==> e is None
        }),
{
    assert(status & 0x0F == status % 16) by (bit_vector);
    assert(status >> 4 == status / 16) by (bit_vector);
}

/// Velocity and value bounds: a note-on event matches a note-on trigger
/// exactly when channel and note agree and its velocity (if it carries one)
/// is at least the trigger's lower bound and at most its upper bound, where
/// the trigger has them; a control change event matches a control change
/// trigger in the same way by controller and value.
pub proof fn bounds_gate_matching(event: MidiEvent, trigger: MidiTrigger)
    ensures
        (event.trigger is NoteOn && trigger is NoteOn) ==> (event_matches(event, trigger) <==> {
            &&& event.trigger->NoteOn_channel == trigger->NoteOn_channel
            &&& event.trigger->NoteOn_note == trigger->NoteOn_note
            &&& event.raw_velocity is Some ==> {
                &&& trigger->NoteOn_min_velocity is Some ==> event.raw_velocity->0
                    >= trigger->NoteOn_min_velocity->0
                &&& trigger->NoteOn_max_velocity is Some ==> event.raw_velocity->0
                    <= trigger->NoteOn_max_velocity->0
            }
        }),
        (event.trigger is ControlChange && trigger is ControlChange) ==> (event_matches(
            event,
            trigger,
        ) <==> {
            &&& event.trigger->ControlChange_channel == trigger->ControlChange_channel
            &&& event.trigger->ControlChange_controller == trigger->ControlChange_controller
            &&& event.raw_value is Some ==> {
                &&& trigger->ControlChange_min_value is Some ==> event.raw_value->0
                    >= trigger->ControlChange_min_value->0
                &&& trigger->ControlChange_max_value is Some ==> event.raw_value->0
                    <= trigger->ControlChange_max_value->0
            }
        }),
{
}

/// Message lengths: a channel message needs its data bytes. With one byte
/// nothing decodes; with two only a program change does; bytes past the third
/// are ignored.
pub proof fn decoding_needs_data_bytes(data: Seq<u8>, t: u64)
    requires
        data.len() >= 1,
        0x80 <= data[0] < 0xF0,
    ensures
        data.len() == 1 ==> decoded(data, t) is None,
        data.len() == 2 ==> (decoded(data, t) is Some <==> data[0] >> 4 == 0xC),
        data.len() >= 3 ==> decoded(data, t) == decoded(data.take(3), t),
{
    let b = data[0];
    assert(b >> 4 == b / 16) by (bit_vector);
}

/// Matching by kind: an event matches only a trigger of its own kind (a
/// control change event also matches a knob trigger). Note off and program
/// change triggers match on channel and number; a pitch bend trigger matches
/// any pitch bend on its channel when it has no bounds; a knob trigger matches
/// a control change on its channel and controller whose detected direction is
/// the trigger's direction (clockwise for clockwise).
pub proof fn matching_by_kind(event: MidiEvent, trigger: MidiTrigger)
    ensures
        event_matches(event, trigger) ==> (event.trigger is NoteOn && trigger is NoteOn
            || event.trigger is NoteOff && trigger is NoteOff || event.trigger is ControlChange
            && trigger is ControlChange || event.trigger is ProgramChange && trigger is ProgramChange
            || event.trigger is PitchBend && trigger is PitchBend || event.trigger is ControlChange
            && trigger is KnobRotation),
        (event.trigger is NoteOff && trigger is NoteOff) ==> (event_matches(event, trigger) <==> (
        event.trigger->NoteOff_channel == trigger->NoteOff_channel && event.trigger->NoteOff_note
            == trigger->NoteOff_note)),
        (event.trigger is ProgramChange && trigger is ProgramChange) ==> (event_matches(
            event,
            trigger,
        ) <==> (event.trigger->ProgramChange_channel == trigger->ProgramChange_channel
            && event.trigger->ProgramChange_program == trigger->ProgramChange_program)),
        (event.trigger is PitchBend && trigger is PitchBend) ==> (event_matches(event, trigger) <==> (
        event.trigger->PitchBend_channel == trigger->PitchBend_channel && trigger->PitchBend_min_value
            is None && trigger->PitchBend_max_value is None)),
        (event.trigger is ControlChange && trigger is KnobRotation) ==> (event_matches(
            event,
            trigger,
        ) <==> (event.trigger->ControlChange_channel == trigger->KnobRotation_channel
            && event.trigger->ControlChange_controller == trigger->KnobRotation_controller && (
        trigger->KnobRotation_direction == KnobRotationDirection::Clockwise ==> event.knob_direction
            == Some(KnobDirection::Clockwise)) && (trigger->KnobRotation_direction
            == KnobRotationDirection::CounterClockwise ==> event.knob_direction == Some(
            KnobDirection::CounterClockwise,
        )))),
{
}

fn check_bounds(raw: Option<u8>, min: Option<u8>, max: Option<u8>) -> (b: bool)
    ensures
        b == within_bounds(raw, min, max),
{
    if let Some(v) = raw {
        if let Some(m) = min {
            if v < m {
                return false;
            }
        }
        if let Some(m) = max {
            if v > m {
                return false;
            }
        }
    }
    true
}

/// Check if an incoming MidiEvent matches a configured MidiTrigger.
pub fn event_matches_trigger(event: &MidiEvent, trigger: &MidiTrigger) -> (b: bool)
    ensures
        b == event_matches(*event, *trigger),
{
    match (event.trigger, *trigger) {
        (
            MidiTrigger::NoteOn { channel: ec, note: en, .. },
            MidiTrigger::NoteOn { channel: tc, note: tn, min_velocity, max_velocity },
        ) => {
            if ec != tc || en != tn {
                return false;
            }
            check_bounds(event.raw_velocity, min_velocity, max_velocity)
        },
        (
            MidiTrigger::NoteOff { channel: ec, note: en },
            MidiTrigger::NoteOff { channel: tc, note: tn },
        ) => ec == tc && en == tn,
        (
            MidiTrigger::ControlChange { channel: ec, controller: ecc, .. },
            MidiTrigger::ControlChange { channel: tc, controller: tcc, min_value, max_value },
        ) => {
            if ec != tc || ecc != tcc {
                return false;
            }
            check_bounds(event.raw_value, min_value, max_value)
        },
        (
            MidiTrigger::ProgramChange { channel: ec, program: ep },
            MidiTrigger::ProgramChange { channel: tc, program: tp },
        ) => ec == tc && ep == tp,
        (
            MidiTrigger::PitchBend { channel: ec, .. },
            MidiTrigger::PitchBend { channel: tc, min_value, max_value },
        ) => {
            if ec != tc {
                return false;
            }
            min_value.is_none() && max_value.is_none()
        },
        (
            MidiTrigger::ControlChange { channel: ec, controller: ecc, .. },
            MidiTrigger::KnobRotation { channel: tc, controller: tcc, direction: td, .. },
        ) => {
            if ec != tc || ecc != tcc {
                return false;
            }
            let want = match td {
                KnobRotationDirection::Clockwise => KnobDirection::Clockwise,
                KnobRotationDirection::CounterClockwise => KnobDirection::CounterClockwise,
            };
            match event.knob_direction {
                Some(d) => d == want,
                None => false,
            }
        },
        _ => false,
    }
}

/// The direction that a relative-mode CC value encodes.
pub open spec fn relative_direction(value: u8, mode: KnobMode) -> Option<KnobDirection> {
    match mode {
        KnobMode::Relative1 => if 1 <= value <= 63 {
            Some(KnobDirection::Clockwise)
        } else if 65 <= value <= 127 {
            Some(KnobDirection::CounterClockwise)
        } else {
            None
        },
        KnobMode::Relative2 => if 65 <= value <= 127 {
            Some(KnobDirection::Clockwise)
        } else if 1 <= value <= 63 {
            Some(KnobDirection::CounterClockwise)
        } else {
            None
        },
        KnobMode::Relative3 => if 1 <= value <= 64 {
            Some(KnobDirection::Clockwise)
        } else if 65 <= value <= 127 {
            Some(KnobDirection::CounterClockwise)
        } else {
            None
        },
        KnobMode::Absolute => None,
    }
}

/// Determine rotation direction for a relative-mode CC message.
pub fn detect_direction_relative(value: u8, mode: &KnobMode) -> (r: Option<KnobDirection>)
    ensures
        r == relative_direction(value, *mode),
{
    match mode {
        KnobMode::Relative1 => {
            if 1 <= value && value <= 63 {
                Some(KnobDirection::Clockwise)
            } else if 65 <= value && value <= 127 {
                Some(KnobDirection::CounterClockwise)
            } else {
                None
            }
        },
        KnobMode::Relative2 => {
            if 65 <= value && value <= 127 {
                Some(KnobDirection::Clockwise)
            } else if 1 <= value && value <= 63 {
                Some(KnobDirection::CounterClockwise)
            } else {
                None
            }
        },
        KnobMode::Relative3 => {
            if 1 <= value && value <= 64 {
                Some(KnobDirection::Clockwise)
            } else if 65 <= value && value <= 127 {
                Some(KnobDirection::CounterClockwise)
            } else {
                None
            }
        },
        KnobMode::Absolute => None,
    }
}

/// The direction of an absolute-mode value compared with the previous value.
pub open spec fn absolute_direction(previous: Option<u8>, value: u8) -> Option<KnobDirection> {
    match previous {
        Some(p) => if value > p {
            Some(KnobDirection::Clockwise)
        } else if value < p {
            Some(KnobDirection::CounterClockwise)
        } else {
            None
        },
        None => None,
    }
}

/// An absolute knob compares each value with the one before it on the same
/// pair: after a value is remembered, a higher value turns clockwise, a lower
/// one counter-clockwise, and the same value not at all.
pub proof fn absolute_knob_follows_last_value(
    last_values: Map<(u8, u8), u8>,
    channel: u8,
    controller: u8,
    first: u8,
    second: u8,
)
    ensures
        absolute_direction(last_values.insert((channel, controller), first).get((channel, controller)), second)
            == if second > first {
            Some(KnobDirection::Clockwise)
        } else if second < first {
            Some(KnobDirection::CounterClockwise)
        } else {
            None
        },
{
}

/// State tracker for absolute-mode knobs: the last CC value seen per
/// (channel, controller) pair.
#[derive(Debug)]
pub struct KnobState {
    pub last_values: CcTable,
}

impl View for KnobState {
    type V = Map<(u8, u8), u8>;

    open spec fn view(&self) -> Map<(u8, u8), u8> {
        self.last_values@
    }
}

impl KnobState {
    /// A tracker that has seen no values.
    pub fn new() -> (s: Self)
        ensures
            s@ == Map::<(u8, u8), u8>::empty(),
    {
        KnobState { last_values: CcTable::new() }
    }

    /// Determine rotation direction for an absolute-mode CC message, and
    /// remember `value` as the last value of `(channel, controller)`.
    /// Returns None for the first message of a pair and when the value is
    /// unchanged.
    pub fn detect_direction_absolute(&mut self, channel: u8, controller: u8, value: u8) -> (r:
        Option<KnobDirection>)
        ensures
            r == absolute_direction(old(self)@.get((channel, controller)), value),
            final(self)@ == old(self)@.insert((channel, controller), value),
    {
        let previous = self.last_values.get(channel, controller);
        let direction = match previous {
            Some(p) => {
                if value > p {
                    Some(KnobDirection::Clockwise)
                } else if value < p {
                    Some(KnobDirection::CounterClockwise)
                } else {
                    None
                }
            },
            None => None,
        };
        self.last_values.insert(channel, controller, value);
        direction
    }
}

} // verus!
