use keebmidi::config::model::KnobMode;
use keebmidi::midi::decode::{
    decode_midi_message, detect_direction_relative, event_matches_trigger, KnobDirection,
    KnobState, MidiEvent,
};
use keebmidi::midi::trigger::{KnobRotationDirection, MidiTrigger};

#[test]
fn test_decode_note_on() {
    let data = [0x90, 60, 100]; // ch1 note 60 vel 100
    let event = decode_midi_message(&data, 0).unwrap();
    assert_eq!(
        event.trigger,
        MidiTrigger::NoteOn {
            channel: 1,
            note: 60,
            min_velocity: None,
            max_velocity: None,
        }
    );
    assert_eq!(event.raw_velocity, Some(100));
}

#[test]
fn test_decode_note_on_vel_zero_is_note_off() {
    let data = [0x90, 60, 0];
    let event = decode_midi_message(&data, 0).unwrap();
    assert_eq!(
        event.trigger,
        MidiTrigger::NoteOff {
            channel: 1,
            note: 60,
        }
    );
}

#[test]
fn test_decode_note_off() {
    let data = [0x80, 60, 64];
    let event = decode_midi_message(&data, 0).unwrap();
    assert_eq!(
        event.trigger,
        MidiTrigger::NoteOff {
            channel: 1,
            note: 60,
        }
    );
}

#[test]
fn test_decode_cc() {
    let data = [0xB0, 64, 127]; // ch1 cc64 val127
    let event = decode_midi_message(&data, 0).unwrap();
    assert_eq!(
        event.trigger,
        MidiTrigger::ControlChange {
            channel: 1,
            controller: 64,
            min_value: None,
            max_value: None,
        }
    );
    assert_eq!(event.raw_value, Some(127));
}

#[test]
fn test_decode_program_change() {
    let data = [0xC0, 5];
    let event = decode_midi_message(&data, 0).unwrap();
    assert_eq!(
        event.trigger,
        MidiTrigger::ProgramChange {
            channel: 1,
            program: 5,
        }
    );
}

#[test]
fn test_decode_channel_offset() {
    let data = [0x95, 60, 100]; // ch6 (0x05 + 1)
    let event = decode_midi_message(&data, 0).unwrap();
    match event.trigger {
        MidiTrigger::NoteOn { channel, .. } => assert_eq!(channel, 6),
        _ => panic!("expected NoteOn"),
    }
}

#[test]
fn test_decode_system_realtime_filtered() {
    assert!(decode_midi_message(&[0xF8], 0).is_none()); // clock
    assert!(decode_midi_message(&[0xFE], 0).is_none()); // active sensing
    assert!(decode_midi_message(&[0xF0, 0x7E, 0xF7], 0).is_none()); // sysex
}

#[test]
fn test_decode_empty() {
    assert!(decode_midi_message(&[], 0).is_none());
}

#[test]
fn test_trigger_matching_note_on() {
    let event = MidiEvent {
        trigger: MidiTrigger::NoteOn {
            channel: 1,
            note: 36,
            min_velocity: None,
            max_velocity: None,
        },
        raw_velocity: Some(100),
        raw_value: None,
        timestamp_us: 0,
        knob_direction: None,
    };
    let trigger = MidiTrigger::NoteOn {
        channel: 1,
        note: 36,
        min_velocity: None,
        max_velocity: None,
    };
    assert!(event_matches_trigger(&event, &trigger));
}

#[test]
fn test_trigger_matching_note_on_velocity_range() {
    let event = MidiEvent {
        trigger: MidiTrigger::NoteOn {
            channel: 1,
            note: 36,
            min_velocity: None,
            max_velocity: None,
        },
        raw_velocity: Some(50),
        raw_value: None,
        timestamp_us: 0,
        knob_direction: None,
    };
    let trigger_in_range = MidiTrigger::NoteOn {
        channel: 1,
        note: 36,
        min_velocity: Some(10),
        max_velocity: Some(100),
    };
    assert!(event_matches_trigger(&event, &trigger_in_range));

    let trigger_out_range = MidiTrigger::NoteOn {
        channel: 1,
        note: 36,
        min_velocity: Some(60),
        max_velocity: Some(127),
    };
    assert!(!event_matches_trigger(&event, &trigger_out_range));
}

#[test]
fn test_trigger_matching_cc() {
    let event = MidiEvent {
        trigger: MidiTrigger::ControlChange {
            channel: 1,
            controller: 64,
            min_value: None,
            max_value: None,
        },
        raw_velocity: None,
        raw_value: Some(127),
        timestamp_us: 0,
        knob_direction: None,
    };
    let trigger = MidiTrigger::ControlChange {
        channel: 1,
        controller: 64,
        min_value: Some(1),
        max_value: Some(127),
    };
    assert!(event_matches_trigger(&event, &trigger));
}

#[test]
fn test_trigger_no_cross_type_match() {
    let event = MidiEvent {
        trigger: MidiTrigger::NoteOn {
            channel: 1,
            note: 36,
            min_velocity: None,
            max_velocity: None,
        },
        raw_velocity: Some(100),
        raw_value: None,
        timestamp_us: 0,
        knob_direction: None,
    };
    let trigger = MidiTrigger::ControlChange {
        channel: 1,
        controller: 36,
        min_value: None,
        max_value: None,
    };
    assert!(!event_matches_trigger(&event, &trigger));
}

fn cc_event(value: u8, direction: Option<KnobDirection>) -> MidiEvent {
    MidiEvent {
        trigger: MidiTrigger::ControlChange {
            channel: 1,
            controller: 7,
            min_value: None,
            max_value: None,
        },
        raw_velocity: None,
        raw_value: Some(value),
        timestamp_us: 0,
        knob_direction: direction,
    }
}

fn knob(direction: KnobRotationDirection) -> MidiTrigger {
    MidiTrigger::KnobRotation {
        channel: 1,
        controller: 7,
        direction,
        mode: KnobMode::Absolute,
    }
}

#[test]
fn trigger_matching_knob_rotation_cw() {
    let event = cc_event(65, Some(KnobDirection::Clockwise));
    assert!(event_matches_trigger(&event, &knob(KnobRotationDirection::Clockwise)));
}

#[test]
fn trigger_matching_knob_rotation_ccw() {
    let event = cc_event(63, Some(KnobDirection::CounterClockwise));
    assert!(event_matches_trigger(&event, &knob(KnobRotationDirection::CounterClockwise)));
}

#[test]
fn trigger_matching_knob_rotation_wrong_direction() {
    let event = cc_event(65, Some(KnobDirection::Clockwise));
    assert!(!event_matches_trigger(&event, &knob(KnobRotationDirection::CounterClockwise)));
    let undetected = cc_event(65, None);
    assert!(!event_matches_trigger(&undetected, &knob(KnobRotationDirection::Clockwise)));
}

#[test]
fn trigger_matching_cc_still_works_beside_knobs() {
    let event = cc_event(100, Some(KnobDirection::Clockwise));
    let cc = MidiTrigger::ControlChange {
        channel: 1,
        controller: 7,
        min_value: Some(101),
        max_value: None,
    };
    assert!(!event_matches_trigger(&event, &cc));
    let cc_any = MidiTrigger::ControlChange {
        channel: 1,
        controller: 7,
        min_value: None,
        max_value: None,
    };
    assert!(event_matches_trigger(&event, &cc_any));
}

#[test]
fn pitch_bend_matches_on_channel_without_bounds() {
    let event = decode_midi_message(&[0xE2, 0x00, 0x40], 7).unwrap();
    assert_eq!(event.timestamp_us, 7);
    let any = MidiTrigger::PitchBend { channel: 3, min_value: None, max_value: None };
    assert!(event_matches_trigger(&event, &any));
    let bounded = MidiTrigger::PitchBend { channel: 3, min_value: Some(-10), max_value: Some(10) };
    assert!(!event_matches_trigger(&event, &bounded));
}

#[test]
fn decode_short_messages_are_dropped() {
    assert!(decode_midi_message(&[0x90, 60], 0).is_none());
    assert!(decode_midi_message(&[0xC0], 0).is_none());
    assert!(decode_midi_message(&[0xA0, 1, 2], 0).is_none()); // aftertouch is not decoded
}

#[test]
fn detect_direction_absolute_sequence() {
    let mut state = KnobState::new();
    assert_eq!(state.detect_direction_absolute(1, 7, 64), None); // first event
    assert_eq!(state.detect_direction_absolute(1, 7, 65), Some(KnobDirection::Clockwise));
    assert_eq!(state.detect_direction_absolute(1, 7, 65), None); // no change
    assert_eq!(
        state.detect_direction_absolute(1, 7, 60),
        Some(KnobDirection::CounterClockwise)
    );
}

#[test]
fn knob_state_tracks_multiple_controllers() {
    let mut state = KnobState::new();
    assert_eq!(state.detect_direction_absolute(1, 7, 10), None);
    assert_eq!(state.detect_direction_absolute(1, 8, 100), None);
    assert_eq!(state.detect_direction_absolute(2, 7, 50), None);
    assert_eq!(state.detect_direction_absolute(1, 7, 11), Some(KnobDirection::Clockwise));
    assert_eq!(
        state.detect_direction_absolute(1, 8, 99),
        Some(KnobDirection::CounterClockwise)
    );
}

#[test]
fn detect_direction_relative_modes() {
    assert_eq!(detect_direction_relative(1, &KnobMode::Relative1), Some(KnobDirection::Clockwise));
    assert_eq!(
        detect_direction_relative(65, &KnobMode::Relative1),
        Some(KnobDirection::CounterClockwise)
    );
    assert_eq!(detect_direction_relative(65, &KnobMode::Relative2), Some(KnobDirection::Clockwise));
    assert_eq!(
        detect_direction_relative(63, &KnobMode::Relative2),
        Some(KnobDirection::CounterClockwise)
    );
    assert_eq!(detect_direction_relative(64, &KnobMode::Relative3), Some(KnobDirection::Clockwise));
    assert_eq!(
        detect_direction_relative(127, &KnobMode::Relative3),
        Some(KnobDirection::CounterClockwise)
    );
    for mode in [KnobMode::Relative1, KnobMode::Relative2, KnobMode::Relative3, KnobMode::Absolute] {
        assert_eq!(detect_direction_relative(0, &mode), None);
    }
    assert_eq!(detect_direction_relative(64, &KnobMode::Relative1), None);
    assert_eq!(detect_direction_relative(10, &KnobMode::Absolute), None);
}

#[test]
fn trigger_display() {
    let note = MidiTrigger::NoteOn { channel: 1, note: 36, min_velocity: None, max_velocity: None };
    assert_eq!(note.display_string(), "NoteOn ch=1 note=36 vel=*");
    let note_range =
        MidiTrigger::NoteOn { channel: 2, note: 40, min_velocity: Some(10), max_velocity: Some(90) };
    assert_eq!(note_range.display_string(), "NoteOn ch=2 note=40 vel=10-90");
    let cc = MidiTrigger::ControlChange {
        channel: 1,
        controller: 64,
        min_value: Some(1),
        max_value: None,
    };
    assert_eq!(cc.display_string(), "CC ch=1 ctrl=64 val>=1");
    let cc_max = MidiTrigger::ControlChange {
        channel: 1,
        controller: 64,
        min_value: None,
        max_value: Some(5),
    };
    assert_eq!(cc_max.display_string(), "CC ch=1 ctrl=64 val<=5");
    let pb = MidiTrigger::PitchBend { channel: 1, min_value: Some(-8192), max_value: Some(100) };
    assert_eq!(pb.display_string(), "PitchBend ch=1 val=-8192-100");
    let pc = MidiTrigger::ProgramChange { channel: 3, program: 9 };
    assert_eq!(pc.display_string(), "PC ch=3 prog=9");
    let off = MidiTrigger::NoteOff { channel: 16, note: 0 };
    assert_eq!(off.display_string(), "NoteOff ch=16 note=0");
    assert_eq!(
        knob(KnobRotationDirection::Clockwise).display_string(),
        "Knob CW ch=1 ctrl=7"
    );
    assert_eq!(
        knob(KnobRotationDirection::CounterClockwise).display_string(),
        "Knob CCW ch=1 ctrl=7"
    );
    assert_eq!(KnobRotationDirection::CounterClockwise.display_string(), "Counter-Clockwise");
}
