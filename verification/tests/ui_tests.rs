use keebmidi::app::state::{ActivePane, AppMode, AppState, LearnState, MidiDeviceInfo};
use keebmidi::config::model::{KeySpec, MacroSpec, MacroStep, Mapping, MappingOptions, OutputAction, PlaybackMode};
use keebmidi::midi::trigger::MidiTrigger;
use keebmidi::ui::modals::{modal_window, BodyKind};
use keebmidi::ui::panes::{
    details_lines, footer_line, log_line_color, log_pane_lines, log_title, mapping_items,
    mapping_list_title, pane_border, status_line,
};
use keebmidi::ui::view::{Color, TextSpan};

fn texts(line: &[TextSpan]) -> String {
    line.iter().map(|s| s.text.as_str()).collect::<Vec<_>>().concat()
}

fn mapping() -> Mapping {
    Mapping {
        id: "map_01".to_string(),
        name: "Kick".to_string(),
        enabled: true,
        trigger: MidiTrigger::NoteOn { channel: 1, note: 36, min_velocity: None, max_velocity: None },
        action: OutputAction::Macro {
            spec: MacroSpec {
                steps: vec![MacroStep::KeyTap(KeySpec::Char('k')), MacroStep::DelayMs(120)],
                playback_mode: PlaybackMode::FireAndForget,
            },
        },
        options: MappingOptions::default(),
    }
}

#[test]
fn status_bar_shows_mode_device_and_flags() {
    let mut state = AppState::default();
    state.mode = AppMode::Run;
    state.panic_stop = true;
    state.dirty = true;
    let line = status_line(&state);
    assert_eq!(texts(&line), " keebmidi \u{2502} \u{25b6} RUN \u{2502} No device \u{25cb} Disconnected \u{26a0} STOPPED [modified]");
    assert_eq!(line[2].look.color, Color::Green);
    assert!(line[6].look.blink);
}

#[test]
fn mapping_list_marks_selection_and_state() {
    let mut state = AppState::default();
    state.mappings.push(mapping());
    let mut off = mapping();
    off.enabled = false;
    off.name = "Pedal".to_string();
    state.mappings.push(off);
    state.selected_mapping = Some(1);
    let items = mapping_items(&state);
    assert_eq!(texts(&items[0]), "  \u{2713} Kick");
    assert_eq!(texts(&items[1]), "\u{25b8} \u{25cb} Pedal");
    assert_eq!(items[1][3].look.color, Color::DarkGray);
    assert_eq!(mapping_list_title(&state), " Mappings (2) ");
    assert_eq!(pane_border(&state, ActivePane::MappingList), Color::Cyan);
    assert_eq!(pane_border(&state, ActivePane::Log), Color::DarkGray);
}

#[test]
fn details_of_a_macro_mapping() {
    let mut state = AppState::default();
    state.mappings.push(mapping());
    state.selected_mapping = Some(0);
    let lines: Vec<String> = details_lines(&state).iter().map(|l| texts(l)).collect();
    assert_eq!(
        lines,
        vec![
            "Name: Kick",
            "ID: map_01",
            "Enabled: Yes",
            "",
            "Trigger: NoteOn ch=1 note=36 vel=*",
            "",
            "Action: Macro: 2 steps",
            "",
            "Macro Steps:",
            "  1: k tap",
            "  2: Delay 120ms",
            "",
            "Options: ",
            "  Debounce: 50ms",
            "  Suppress retrigger: false",
            "  Value change only: false",
            "  Allow overlap: true",
        ]
    );
    state.selected_mapping = None;
    assert_eq!(texts(&details_lines(&state)[1]), "  No mapping selected");
}

#[test]
fn log_pane_shows_newest_lines_in_color() {
    let mut state = AppState::default();
    state.add_log("\u{25b6} Kick: Key: Space".to_string());
    state.add_log("MIDI: NoteOn".to_string());
    state.add_log("Save failed".to_string());
    state.add_log("Config saved".to_string());
    let lines = log_pane_lines(&state, 3);
    assert_eq!(lines.len(), 3);
    assert_eq!(lines[0][0].look.color, Color::Yellow);
    assert_eq!(log_line_color("Connection failed: x"), Color::Red);
    assert_eq!(log_line_color("\u{25b6} go"), Color::Green);
    assert_eq!(log_line_color("Config saved"), Color::DarkGray);
    state.last_action = Some("Kick: Key: Space".to_string());
    assert_eq!(texts(&log_title(&state)), " Log \u{2502} Last: Kick: Key: Space ");
    assert_eq!(footer_line(&state).text, " q:Quit  s:Save  a:Add  e:Edit  d:Delete  l:LearnMIDI  r:Run  Space:Toggle  D:Device  Tab:Pane  F12:Stop");
}

#[test]
fn modal_windows() {
    let mut state = AppState::default();
    assert!(modal_window(&state).is_none());
    state.mode = AppMode::LearnMidi;
    state.learn_state = Some(LearnState::KnobDetected { channel: 2, controller: 7, values: vec![64] });
    let m = modal_window(&state).unwrap();
    assert_eq!(m.title, " Learn MIDI ");
    assert_eq!(texts(&m.lines[1]), "  Knob detected on CC 7 (ch=2).");
    state.mode = AppMode::LearnAction;
    state.action_menu_open = true;
    state.action_menu_index = 1;
    let m = modal_window(&state).unwrap();
    assert_eq!(m.kind, BodyKind::List);
    assert_eq!(texts(&m.lines[1]), "\u{25b8} Type Text");
    state.mode = AppMode::SelectDevice;
    state.midi_devices = vec![MidiDeviceInfo { id: 0, name: "MPK".to_string() }];
    let m = modal_window(&state).unwrap();
    assert_eq!(m.height, 6);
    assert_eq!(texts(&m.lines[0]), "\u{25b8} MPK");
    state.mode = AppMode::ErrorDialog("Save failed: x".to_string());
    let m = modal_window(&state).unwrap();
    assert_eq!(m.border, Color::Red);
    assert_eq!(texts(&m.lines[1]), "  Save failed: x");
}
