use keebmidi::app::reducer::{
    crossterm_key_to_keyspec, midi_event_fits, detect_knob_mode, handle_key_event,
    handle_key_event_at, handle_midi_event, handle_midi_event_at, key_acceptable, SideEffect,
};
use keebmidi::app::state::{AppMode, AppState, DebounceTimer, LearnState};
use keebmidi::config::model::{KeySpec, KnobMode, MacroStep, Mapping, MappingOptions, OutputAction};
use keebmidi::input::key_event::{KeyCode, KeyEvent, KeyModifiers};
use keebmidi::midi::decode::{decode_midi_message, MidiEvent};
use keebmidi::midi::trigger::{KnobRotationDirection, MidiTrigger};

fn note_mapping(id: &str, note: u8, options: MappingOptions) -> Mapping {
    Mapping {
        id: id.to_string(),
        name: "Test".to_string(),
        enabled: true,
        trigger: MidiTrigger::NoteOn { channel: 1, note, min_velocity: None, max_velocity: None },
        action: OutputAction::KeyTap { key: KeySpec::Space },
        options,
    }
}

fn note_event(note: u8) -> MidiEvent {
    MidiEvent {
        trigger: MidiTrigger::NoteOn { channel: 1, note, min_velocity: None, max_velocity: None },
        raw_velocity: Some(100),
        raw_value: None,
        timestamp_us: 0,
        knob_direction: None,
    }
}

fn executes(effects: &[SideEffect]) -> usize {
    effects.iter().filter(|e| matches!(e, SideEffect::ExecuteAction(_))).count()
}

#[test]
fn test_handle_quit_clean() {
    let mut state = AppState::default();
    let key = KeyEvent::new(KeyCode::Char('q'), KeyModifiers::none());
    let _effects = handle_key_event(&mut state, key);
    assert!(state.should_quit);
}

#[test]
fn test_handle_quit_dirty_prompts() {
    let mut state = AppState::default();
    state.dirty = true;
    let key = KeyEvent::new(KeyCode::Char('q'), KeyModifiers::none());
    handle_key_event(&mut state, key);
    assert!(!state.should_quit);
    assert!(matches!(state.mode, AppMode::ConfirmDialog(_)));
}

#[test]
fn test_toggle_mapping_enabled() {
    let mut state = AppState::default();
    state.mappings.push(note_mapping("m1", 36, MappingOptions::default()));
    state.selected_mapping = Some(0);

    let key = KeyEvent::new(KeyCode::Char(' '), KeyModifiers::none());
    handle_key_event(&mut state, key);
    assert!(!state.mappings[0].enabled);

    handle_key_event(&mut state, key);
    assert!(state.mappings[0].enabled);
}

#[test]
fn test_learn_midi_captures_trigger() {
    let mut state = AppState::default();
    state.mode = AppMode::LearnMidi;
    state.learn_state = Some(LearnState::WaitingForMidi);

    let event = MidiEvent {
        trigger: MidiTrigger::NoteOn { channel: 1, note: 60, min_velocity: None, max_velocity: None },
        raw_velocity: Some(100),
        raw_value: None,
        timestamp_us: 0,
        knob_direction: None,
    };

    handle_midi_event(&mut state, event);

    assert!(matches!(state.mode, AppMode::LearnAction));
    assert!(state.action_menu_open);
}

#[test]
fn test_learn_midi_cancel() {
    let mut state = AppState::default();
    state.mode = AppMode::LearnMidi;
    state.learn_state = Some(LearnState::WaitingForMidi);
    state.previous_mode = Some(AppMode::Setup);

    let key = KeyEvent::new(KeyCode::Esc, KeyModifiers::none());
    handle_key_event(&mut state, key);

    assert!(matches!(state.mode, AppMode::Setup));
    assert!(state.learn_state.is_none());
}

#[test]
fn test_panic_stop_toggle() {
    let mut state = AppState::default();
    let key = KeyEvent::new(KeyCode::F(12), KeyModifiers::none());
    handle_key_event(&mut state, key);
    assert!(state.panic_stop);
    handle_key_event(&mut state, key);
    assert!(!state.panic_stop);
}

#[test]
fn test_run_mode_matching() {
    let mut state = AppState::default();
    state.mode = AppMode::Run;
    state.mappings.push(note_mapping(
        "m1",
        36,
        MappingOptions { debounce_ms: 0, ..MappingOptions::default() },
    ));

    let event = note_event(36);

    let effects = handle_midi_event(&mut state, event);
    assert!(effects.iter().any(|e| matches!(e, SideEffect::ExecuteAction(_))));
}

#[test]
fn test_debounce_blocks_rapid_retrigger() {
    let mut state = AppState::default();
    state.mode = AppMode::Run;
    state.mappings.push(note_mapping(
        "m1",
        36,
        MappingOptions { debounce_ms: 1000, ..MappingOptions::default() },
    ));

    let event = note_event(36);

    let effects1 = handle_midi_event(&mut state, event.clone());
    assert!(effects1.iter().any(|e| matches!(e, SideEffect::ExecuteAction(_))));

    let effects2 = handle_midi_event(&mut state, event);
    assert!(!effects2.iter().any(|e| matches!(e, SideEffect::ExecuteAction(_))));
}

#[test]
fn debounce_window_passes() {
    let mut state = AppState::default();
    state.mode = AppMode::Run;
    state.mappings.push(note_mapping(
        "m1",
        36,
        MappingOptions { debounce_ms: 50, ..MappingOptions::default() },
    ));
    assert_eq!(executes(&handle_midi_event_at(&mut state, note_event(36), 1_000_000)), 1);
    assert_eq!(executes(&handle_midi_event_at(&mut state, note_event(36), 1_049_999)), 0);
    assert_eq!(executes(&handle_midi_event_at(&mut state, note_event(36), 1_050_000)), 1);
}

#[test]
fn fired_mapping_timer_takes_the_clock_reading() {
    let mut state = AppState::default();
    state.mode = AppMode::Run;
    state.mappings.push(note_mapping("m1", 36, MappingOptions::default()));
    state.mappings.push(note_mapping("m2", 40, MappingOptions::default()));
    handle_midi_event_at(&mut state, note_event(36), 7_000);
    assert_eq!(
        state.debounce_timers,
        vec![DebounceTimer { mapping_id: "m1".to_string(), fired_at_us: 7_000 }]
    );
    handle_midi_event_at(&mut state, note_event(36), 900_000);
    assert_eq!(
        state.debounce_timers,
        vec![DebounceTimer { mapping_id: "m1".to_string(), fired_at_us: 900_000 }]
    );
}

#[test]
fn first_match_wins_without_overlap() {
    let mut state = AppState::default();
    state.mode = AppMode::Run;
    let opts = MappingOptions { debounce_ms: 0, allow_overlap: false, ..MappingOptions::default() };
    state.mappings.push(note_mapping("a", 36, opts));
    state.mappings.push(note_mapping("b", 36, opts));
    let effects = handle_midi_event_at(&mut state, note_event(36), 0);
    assert_eq!(executes(&effects), 1);
    match &effects[0] {
        SideEffect::ExecuteAction(cmd) => assert_eq!(cmd.mapping_id, "a"),
        _ => panic!("expected an action"),
    }
    assert_eq!(state.last_action, Some("Test: Key: Space".to_string()));
    assert_eq!(state.log_lines.last().unwrap(), "\u{25b6} Test: Key: Space");
}

#[test]
fn overlap_lets_later_mappings_fire() {
    let mut state = AppState::default();
    state.mode = AppMode::Run;
    let opts = MappingOptions { debounce_ms: 0, allow_overlap: true, ..MappingOptions::default() };
    state.mappings.push(note_mapping("a", 36, opts));
    state.mappings.push(note_mapping("b", 36, opts));
    let mut disabled = note_mapping("c", 36, opts);
    disabled.enabled = false;
    state.mappings.push(disabled);
    let effects = handle_midi_event_at(&mut state, note_event(36), 0);
    assert_eq!(executes(&effects), 2);
}

#[test]
fn panic_stop_suspends_execution() {
    let mut state = AppState::default();
    state.mode = AppMode::Run;
    state.panic_stop = true;
    state.mappings.push(note_mapping("m1", 36, MappingOptions::default()));
    let effects = handle_midi_event_at(&mut state, note_event(36), 0);
    assert_eq!(executes(&effects), 0);
    assert!(matches!(effects[0], SideEffect::Nothing));
    assert_eq!(state.last_midi_event, Some("NoteOn ch=1 note=36 vel=*".to_string()));
}

#[test]
fn setup_mode_does_not_execute() {
    let mut state = AppState::default();
    state.mappings.push(note_mapping("m1", 36, MappingOptions::default()));
    let effects = handle_midi_event_at(&mut state, note_event(36), 0);
    assert_eq!(executes(&effects), 0);
    assert_eq!(state.log_lines.last().unwrap(), "MIDI: NoteOn ch=1 note=36 vel=*");
}

fn cc_event(controller: u8, value: u8) -> MidiEvent {
    MidiEvent {
        trigger: MidiTrigger::ControlChange {
            channel: 1,
            controller,
            min_value: None,
            max_value: None,
        },
        raw_velocity: None,
        raw_value: Some(value),
        timestamp_us: 0,
        knob_direction: None,
    }
}

#[test]
fn value_change_only_skips_repeated_value() {
    let mut state = AppState::default();
    state.mode = AppMode::Run;
    let mut m = note_mapping(
        "cc",
        0,
        MappingOptions {
            debounce_ms: 0,
            trigger_on_value_change_only: true,
            ..MappingOptions::default()
        },
    );
    m.trigger = MidiTrigger::ControlChange { channel: 1, controller: 7, min_value: None, max_value: None };
    state.mappings.push(m);
    assert_eq!(executes(&handle_midi_event_at(&mut state, cc_event(7, 10), 0)), 1);
    assert_eq!(executes(&handle_midi_event_at(&mut state, cc_event(7, 10), 0)), 0);
    assert_eq!(executes(&handle_midi_event_at(&mut state, cc_event(7, 11), 0)), 1);
}

#[test]
fn absolute_knob_mapping_fires_by_direction() {
    let mut state = AppState::default();
    state.mode = AppMode::Run;
    let mut cw = note_mapping("cw", 0, MappingOptions { debounce_ms: 0, ..MappingOptions::default() });
    cw.trigger = MidiTrigger::KnobRotation {
        channel: 1,
        controller: 7,
        direction: KnobRotationDirection::Clockwise,
        mode: KnobMode::Absolute,
    };
    state.mappings.push(cw);
    assert_eq!(executes(&handle_midi_event_at(&mut state, cc_event(7, 10), 0)), 0);
    assert_eq!(executes(&handle_midi_event_at(&mut state, cc_event(7, 11), 0)), 1);
    assert_eq!(executes(&handle_midi_event_at(&mut state, cc_event(7, 9), 0)), 0);
}

#[test]
fn relative_knob_mapping_fires_by_direction() {
    let mut state = AppState::default();
    state.mode = AppMode::Run;
    let mut ccw = note_mapping("ccw", 0, MappingOptions { debounce_ms: 0, ..MappingOptions::default() });
    ccw.trigger = MidiTrigger::KnobRotation {
        channel: 1,
        controller: 7,
        direction: KnobRotationDirection::CounterClockwise,
        mode: KnobMode::Relative1,
    };
    state.mappings.push(ccw);
    assert_eq!(executes(&handle_midi_event_at(&mut state, cc_event(7, 1), 0)), 0);
    assert_eq!(executes(&handle_midi_event_at(&mut state, cc_event(7, 127), 0)), 1);
    assert_eq!(state.knob_state.last_values.get(1, 7), None);
}

#[test]
fn learn_cc_starts_knob_detection_and_collects_values() {
    let mut state = AppState::default();
    state.mode = AppMode::LearnMidi;
    state.learn_state = Some(LearnState::WaitingForMidi);
    handle_midi_event_at(&mut state, cc_event(7, 64), 0);
    assert_eq!(
        state.log_lines.last().unwrap(),
        "CC detected on ch=1 ctrl=7. Knob detected. Configure as rotary knob? [Y/N]"
    );
    handle_midi_event_at(&mut state, cc_event(7, 65), 0);
    handle_midi_event_at(&mut state, cc_event(8, 1), 0);
    match &state.learn_state {
        Some(LearnState::KnobDetected { channel, controller, values }) => {
            assert_eq!((*channel, *controller), (1, 7));
            assert_eq!(values, &vec![64, 65]);
        }
        _ => panic!("expected knob detection"),
    }
    assert!(matches!(state.mode, AppMode::LearnMidi));
}

#[test]
fn learn_then_choose_key_creates_mapping() {
    let mut state = AppState::default();
    state.mode = AppMode::LearnMidi;
    state.learn_state = Some(LearnState::WaitingForMidi);
    handle_midi_event_at(&mut state, note_event(60), 0);
    assert!(state.learned_trigger.is_some());
    // Choose "single key" from the action menu, then press 'x'.
    handle_key_event_at(&mut state, KeyEvent::new(KeyCode::Enter, KeyModifiers::none()), 0, "id-1".to_string());
    assert!(matches!(state.learn_state, Some(LearnState::WaitingForSingleKey)));
    handle_key_event_at(&mut state, KeyEvent::new(KeyCode::Char('x'), KeyModifiers::none()), 0, "id-1".to_string());
    assert_eq!(state.mappings.len(), 1);
    assert_eq!(state.mappings[0].id, "id-1");
    assert_eq!(state.mappings[0].name, "Mapping 1");
    assert_eq!(state.mappings[0].action, OutputAction::KeyTap { key: KeySpec::Char('x') });
    assert!(matches!(state.mode, AppMode::Setup));
    assert!(state.dirty);
    assert_eq!(state.selected_mapping, Some(0));
}

#[test]
fn log_is_bounded() {
    let mut state = AppState::default();
    for i in 0..450u32 {
        state.add_log(format!("line {i}"));
    }
    assert!(state.log_lines.len() <= 200);
    assert_eq!(state.log_lines.last().unwrap(), "line 449");
}

#[test]
fn checks_before_handling() {
    let mut state = AppState::default();
    let mut m = note_mapping("t", 36, MappingOptions { debounce_ms: 0, ..MappingOptions::default() });
    m.action = OutputAction::Text { text: "aééééééééééééééééééé".to_string() };
    state.mappings.push(m);
    // Outside run mode nothing fires, so nothing needs a summary.
    assert!(midi_event_fits(&state, &note_event(36), 0));
    state.mode = AppMode::Run;
    assert!(!midi_event_fits(&state, &note_event(36), 0));
    assert!(midi_event_fits(&state, &note_event(37), 0));
    state.mappings[0].action = OutputAction::Text { text: "ééééééééééééééééééééé".to_string() };
    assert!(midi_event_fits(&state, &note_event(36), 0));
    assert!(key_acceptable(&state, &KeyEvent::new(KeyCode::Char('q'), KeyModifiers::none())));
}

fn knob_mapping(id: &str, direction: KnobRotationDirection, mode: KnobMode) -> Mapping {
    let mut m = note_mapping(id, 0, MappingOptions { debounce_ms: 0, ..MappingOptions::default() });
    m.trigger = MidiTrigger::KnobRotation { channel: 1, controller: 7, direction, mode };
    m
}

fn fired_ids(effects: &[SideEffect]) -> Vec<String> {
    effects
        .iter()
        .filter_map(|e| match e {
            SideEffect::ExecuteAction(cmd) => Some(cmd.mapping_id.clone()),
            _ => None,
        })
        .collect()
}

#[test]
fn absolute_knob_sequence_fires_clockwise() {
    let mut state = AppState::default();
    state.mode = AppMode::Run;
    state.mappings.push(knob_mapping("cw", KnobRotationDirection::Clockwise, KnobMode::Absolute));
    let mut fired = 0;
    for v in [63u8, 64, 65, 66] {
        fired += executes(&handle_midi_event_at(&mut state, cc_event(7, v), 0));
    }
    assert_eq!(fired, 3);
}

#[test]
fn relative_knob_sequence_fires_both_ways() {
    let mut state = AppState::default();
    state.mode = AppMode::Run;
    state.mappings.push(knob_mapping("cw", KnobRotationDirection::Clockwise, KnobMode::Relative1));
    state.mappings.push(knob_mapping("ccw", KnobRotationDirection::CounterClockwise, KnobMode::Relative1));
    let mut ids = Vec::new();
    for v in [1u8, 2, 65, 66] {
        ids.extend(fired_ids(&handle_midi_event_at(&mut state, cc_event(7, v), 0)));
    }
    assert_eq!(ids, vec!["cw", "cw", "ccw", "ccw"]);
}

#[test]
fn knob_and_cc_mappings_coexist() {
    let mut state = AppState::default();
    state.mode = AppMode::Run;
    let mut cc = note_mapping("cc", 0, MappingOptions { debounce_ms: 0, ..MappingOptions::default() });
    cc.trigger = MidiTrigger::ControlChange { channel: 1, controller: 7, min_value: None, max_value: None };
    state.mappings.push(cc);
    state.mappings.push(knob_mapping("cw", KnobRotationDirection::Clockwise, KnobMode::Relative1));
    let ids = fired_ids(&handle_midi_event_at(&mut state, cc_event(7, 3), 0));
    assert_eq!(ids, vec!["cc", "cw"]);
}

#[test]
fn learned_mapping_gets_a_fresh_uuid() {
    let mut state = AppState::default();
    state.mode = AppMode::LearnMidi;
    state.learn_state = Some(LearnState::WaitingForMidi);
    handle_midi_event(&mut state, note_event(61));
    handle_key_event(&mut state, KeyEvent::new(KeyCode::Enter, KeyModifiers::none()));
    handle_key_event(&mut state, KeyEvent::new(KeyCode::Char('z'), KeyModifiers::none()));
    assert_eq!(state.mappings.len(), 1);
    let id = &state.mappings[0].id;
    assert_eq!(id.len(), 36);
    assert_eq!(id.matches('-').count(), 4);
    assert_eq!(id.chars().nth(14), Some('4'));
    assert!(id.chars().all(|c| c == '-' || c.is_ascii_digit() || ('a'..='f').contains(&c)));
}

#[test]
fn knob_mode_guess() {
    assert_eq!(detect_knob_mode(&[]), KnobMode::Absolute);
    assert_eq!(detect_knob_mode(&[64, 65, 66, 67]), KnobMode::Absolute);
    assert_eq!(detect_knob_mode(&[1, 127, 1, 127]), KnobMode::Relative1);
    assert_eq!(detect_knob_mode(&[1]), KnobMode::Absolute);
    assert_eq!(detect_knob_mode(&[10, 90]), KnobMode::Relative1);
    assert_eq!(detect_knob_mode(&[10, 30]), KnobMode::Absolute);
}

#[test]
fn terminal_keys_to_keys() {
    let k = |code| KeyEvent::new(code, KeyModifiers::none());
    assert_eq!(crossterm_key_to_keyspec(&k(KeyCode::Char('a'))), Some(KeySpec::Char('a')));
    assert_eq!(crossterm_key_to_keyspec(&k(KeyCode::F(5))), Some(KeySpec::F(5)));
    assert_eq!(crossterm_key_to_keyspec(&k(KeyCode::Esc)), Some(KeySpec::Esc));
    assert_eq!(crossterm_key_to_keyspec(&k(KeyCode::Other)), None);
}

#[test]
fn knob_learn_flow_creates_rotation_trigger() {
    let mut state = AppState::default();
    state.mode = AppMode::LearnMidi;
    state.learn_state = Some(LearnState::WaitingForMidi);
    for v in [1u8, 127, 1, 127] {
        handle_midi_event_at(&mut state, cc_event(7, v), 0);
    }
    let key = |code| KeyEvent::new(code, KeyModifiers::none());
    handle_key_event_at(&mut state, key(KeyCode::Char('y')), 0, String::new());
    assert!(matches!(
        state.learn_state,
        Some(LearnState::KnobLearnCW { channel: 1, controller: 7, mode: KnobMode::Relative1 })
    ));
    assert_eq!(
        state.log_lines.last().unwrap(),
        "Detected mode: Relative1. Turn the knob CLOCKWISE and press Enter\u{2026}"
    );
    handle_key_event_at(&mut state, key(KeyCode::Enter), 0, String::new());
    assert_eq!(
        state.learned_trigger,
        Some(MidiTrigger::KnobRotation {
            channel: 1,
            controller: 7,
            direction: KnobRotationDirection::Clockwise,
            mode: KnobMode::Relative1,
        })
    );
    assert!(matches!(state.mode, AppMode::LearnAction));
    assert!(state.action_menu_open);
}

#[test]
fn declining_a_knob_learns_a_cc_trigger() {
    let mut state = AppState::default();
    state.mode = AppMode::LearnMidi;
    state.learn_state = Some(LearnState::WaitingForMidi);
    handle_midi_event_at(&mut state, cc_event(7, 64), 0);
    handle_key_event_at(&mut state, KeyEvent::new(KeyCode::Char('n'), KeyModifiers::none()), 0, String::new());
    assert_eq!(
        state.learned_trigger,
        Some(MidiTrigger::ControlChange { channel: 1, controller: 7, min_value: None, max_value: None })
    );
    assert!(matches!(state.mode, AppMode::LearnAction));
}

#[test]
fn learned_message_fires_in_run_mode() {
    let mut state = AppState::default();
    state.mode = AppMode::LearnMidi;
    state.learn_state = Some(LearnState::WaitingForMidi);
    let bytes = [0x92u8, 48, 90];
    handle_midi_event_at(&mut state, decode_midi_message(&bytes, 10).unwrap(), 0);
    let key = |code| KeyEvent::new(code, KeyModifiers::none());
    handle_key_event_at(&mut state, key(KeyCode::Enter), 0, "m-1".to_string());
    handle_key_event_at(&mut state, key(KeyCode::Char('k')), 0, "m-1".to_string());
    assert_eq!(state.mappings.len(), 1);
    state.mode = AppMode::Run;
    let effects = handle_midi_event_at(&mut state, decode_midi_message(&bytes, 99).unwrap(), 5_000);
    assert_eq!(fired_ids(&effects), vec!["m-1"]);
    let other = handle_midi_event_at(&mut state, decode_midi_message(&[0x92, 49, 90], 0).unwrap(), 500_000);
    assert_eq!(executes(&other), 0);
}

#[test]
fn run_mode_needs_a_connected_device() {
    let mut state = AppState::default();
    let r = KeyEvent::new(KeyCode::Char('r'), KeyModifiers::none());
    handle_key_event_at(&mut state, r, 0, String::new());
    assert!(matches!(state.mode, AppMode::Setup));
    assert_eq!(state.log_lines.last().unwrap(), "Cannot enter run mode: no MIDI device connected");
    state.midi_connected = true;
    handle_key_event_at(&mut state, r, 0, String::new());
    assert!(matches!(state.mode, AppMode::Run));
    assert!(state.running);
}

#[test]
fn esc_cancels_macro_recording() {
    let mut state = AppState::default();
    state.mode = AppMode::RecordMacro;
    state.learn_state = Some(LearnState::RecordingMacro { started_at_us: 0, last_at_us: 0, steps: vec![] });
    handle_key_event_at(&mut state, KeyEvent::new(KeyCode::Char('a'), KeyModifiers::none()), 0, String::new());
    handle_key_event_at(&mut state, KeyEvent::new(KeyCode::Esc, KeyModifiers::none()), 0, String::new());
    assert!(matches!(state.mode, AppMode::Setup));
    assert!(state.learn_state.is_none());
    assert!(state.mappings.is_empty());
    assert_eq!(state.log_lines.last().unwrap(), "Macro recording cancelled");
}

#[test]
fn recorded_macros_keep_the_time_between_keys() {
    let mut state = AppState::default();
    state.mode = AppMode::RecordMacro;
    state.learn_state = Some(LearnState::RecordingMacro { started_at_us: 0, last_at_us: 0, steps: vec![] });
    let key = |c| KeyEvent::new(KeyCode::Char(c), KeyModifiers::none());
    handle_key_event_at(&mut state, key('a'), 40_000, String::new());
    handle_key_event_at(&mut state, key('b'), 160_500, String::new());
    match &state.learn_state {
        Some(LearnState::RecordingMacro { last_at_us, steps, .. }) => {
            assert_eq!(*last_at_us, 160_500);
            assert_eq!(
                steps,
                &vec![
                    MacroStep::KeyTap(KeySpec::Char('a')),
                    MacroStep::DelayMs(120),
                    MacroStep::KeyTap(KeySpec::Char('b')),
                ]
            );
        }
        _ => panic!("expected recording"),
    }
}

#[test]
fn esc_forgets_the_learned_trigger() {
    let mut state = AppState::default();
    state.mode = AppMode::LearnMidi;
    state.learn_state = Some(LearnState::WaitingForMidi);
    handle_midi_event_at(&mut state, note_event(60), 0);
    assert!(state.action_menu_open);
    handle_key_event_at(&mut state, KeyEvent::new(KeyCode::Esc, KeyModifiers::none()), 0, String::new());
    assert!(matches!(state.mode, AppMode::Setup));
    assert!(state.learned_trigger.is_none());
}

#[test]
fn confirming_a_delete_deletes_whatever_the_name() {
    let mut state = AppState::default();
    let mut m = note_mapping("m1", 36, MappingOptions::default());
    m.name = "Quit button".to_string();
    state.mappings.push(m);
    state.selected_mapping = Some(0);
    let key = |c| KeyEvent::new(KeyCode::Char(c), KeyModifiers::none());
    handle_key_event_at(&mut state, key('d'), 0, String::new());
    assert!(matches!(state.mode, AppMode::ConfirmDialog(_)));
    let effects = handle_key_event_at(&mut state, key('y'), 0, String::new());
    assert!(!state.should_quit);
    assert!(matches!(effects[0], SideEffect::Nothing));
    assert!(state.mappings.is_empty());
    assert_eq!(state.selected_mapping, None);
    assert!(matches!(state.mode, AppMode::Setup));
}

#[test]
fn knob_learning_goes_on_to_the_counter_clockwise_turn() {
    let mut state = AppState::default();
    state.mode = AppMode::LearnMidi;
    state.previous_mode = Some(AppMode::Setup);
    state.learn_state = Some(LearnState::WaitingForMidi);
    for v in [64u8, 65, 66] {
        handle_midi_event_at(&mut state, cc_event(7, v), 0);
    }
    let key = |code| KeyEvent::new(code, KeyModifiers::none());
    handle_key_event_at(&mut state, key(KeyCode::Char('y')), 0, String::new());
    handle_key_event_at(&mut state, key(KeyCode::Enter), 0, String::new());
    handle_key_event_at(&mut state, key(KeyCode::Enter), 0, String::new());
    handle_key_event_at(&mut state, key(KeyCode::Right), 0, "cw".to_string());
    assert_eq!(state.mappings.len(), 1);
    assert!(matches!(state.mode, AppMode::LearnMidi));
    assert!(matches!(
        state.learn_state,
        Some(LearnState::KnobLearnCCW { channel: 1, controller: 7, mode: KnobMode::Absolute })
    ));
    handle_key_event_at(&mut state, key(KeyCode::Enter), 0, String::new());
    handle_key_event_at(&mut state, key(KeyCode::Enter), 0, String::new());
    handle_key_event_at(&mut state, key(KeyCode::Left), 0, "ccw".to_string());
    assert_eq!(state.mappings.len(), 2);
    assert_eq!(
        state.mappings[1].trigger,
        MidiTrigger::KnobRotation {
            channel: 1,
            controller: 7,
            direction: KnobRotationDirection::CounterClockwise,
            mode: KnobMode::Absolute,
        }
    );
    assert!(matches!(state.mode, AppMode::Setup));
}

fn press(state: &mut AppState, code: KeyCode) -> Vec<SideEffect> {
    handle_key_event_at(state, KeyEvent::new(code, KeyModifiers::none()), 0, String::new())
}

fn three_mappings() -> AppState {
    let mut state = AppState::default();
    for (id, note) in [("a", 36u8), ("b", 38), ("c", 40)] {
        state.mappings.push(note_mapping(id, note, MappingOptions::default()));
    }
    state
}

#[test]
fn selection_moves_and_stops_at_the_ends() {
    let mut state = three_mappings();
    press(&mut state, KeyCode::Down);
    assert_eq!(state.selected_mapping, Some(0));
    press(&mut state, KeyCode::Up);
    assert_eq!(state.selected_mapping, Some(0));
    press(&mut state, KeyCode::Down);
    press(&mut state, KeyCode::Down);
    press(&mut state, KeyCode::Down);
    assert_eq!(state.selected_mapping, Some(2));
    press(&mut state, KeyCode::Up);
    assert_eq!(state.selected_mapping, Some(1));
    assert_eq!(state.mappings.len(), 3);
}

#[test]
fn deleting_the_middle_mapping_keeps_the_others_in_order() {
    let mut state = three_mappings();
    state.selected_mapping = Some(1);
    press(&mut state, KeyCode::Char('d'));
    press(&mut state, KeyCode::Char('n'));
    assert!(matches!(state.mode, AppMode::Setup));
    assert_eq!(state.mappings.len(), 3);
    press(&mut state, KeyCode::Char('d'));
    assert!(matches!(state.mode, AppMode::ConfirmDialog(_)));
    press(&mut state, KeyCode::Char('y'));
    let ids: Vec<&str> = state.mappings.iter().map(|m| m.id.as_str()).collect();
    assert_eq!(ids, vec!["a", "c"]);
    assert_eq!(state.selected_mapping, Some(1));
    assert!(state.dirty);
    assert!(!state.should_quit);
}

#[test]
fn deleting_the_last_mapping_selects_the_new_last() {
    let mut state = three_mappings();
    state.selected_mapping = Some(2);
    press(&mut state, KeyCode::Char('d'));
    press(&mut state, KeyCode::Char('y'));
    assert_eq!(state.mappings.len(), 2);
    assert_eq!(state.selected_mapping, Some(1));
}

#[test]
fn edit_menu_toggles_allow_overlap_and_back() {
    let mut state = three_mappings();
    state.selected_mapping = Some(1);
    press(&mut state, KeyCode::Char('e'));
    assert!(matches!(state.mode, AppMode::EditMenu));
    for _ in 0..5 {
        press(&mut state, KeyCode::Down);
    }
    assert_eq!(state.edit_menu_index, 5);
    let before = state.mappings.clone();
    press(&mut state, KeyCode::Enter);
    assert!(matches!(state.mode, AppMode::EditMenu));
    assert!(state.dirty);
    assert_eq!(state.mappings[1].options.allow_overlap, !before[1].options.allow_overlap);
    assert_eq!(state.mappings[0], before[0]);
    assert_eq!(state.mappings[2], before[2]);
    press(&mut state, KeyCode::Enter);
    assert_eq!(state.mappings, before);
}

#[test]
fn changed_cc_value_is_remembered() {
    let mut state = AppState::default();
    state.mode = AppMode::Run;
    let mut m = note_mapping(
        "cc",
        0,
        MappingOptions { debounce_ms: 0, trigger_on_value_change_only: true, ..MappingOptions::default() },
    );
    m.trigger = MidiTrigger::ControlChange { channel: 1, controller: 7, min_value: None, max_value: None };
    state.mappings.push(m);
    assert_eq!(state.last_cc_values.get(1, 7), None);
    assert_eq!(executes(&handle_midi_event_at(&mut state, cc_event(7, 42), 0)), 1);
    assert_eq!(state.last_cc_values.get(1, 7), Some(42));
    assert_eq!(executes(&handle_midi_event_at(&mut state, cc_event(7, 43), 0)), 1);
    assert_eq!(state.last_cc_values.get(1, 7), Some(43));
}
