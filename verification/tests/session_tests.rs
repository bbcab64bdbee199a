use keebmidi::app::outcomes::{
    apply_connect_result, apply_device_list, apply_refreshed_devices, apply_save_result,
    apply_startup_connect, config_snapshot, find_device, load_mappings, note_action_completed,
    note_action_failed, note_device_missing, note_queue_failure, note_started, note_warning,
    start_in_run_mode,
};
use keebmidi::app::state::{AppMode, AppState, MidiDeviceInfo};
use keebmidi::config::model::{KeySpec, Mapping, MappingOptions, OutputAction};
use keebmidi::errors::AppError;
use keebmidi::input::key_capture::all_manual_keys;
use keebmidi::midi::trigger::MidiTrigger;
use keebmidi::platform::capabilities::{check_media_key_support, check_platform_warnings, Platform};

fn devices() -> Vec<MidiDeviceInfo> {
    vec![
        MidiDeviceInfo { id: 0, name: "Midi Through Port-0".to_string() },
        MidiDeviceInfo { id: 1, name: "MPK mini IV MIDI 1".to_string() },
    ]
}

fn last_log(state: &AppState) -> &str {
    state.log_lines.last().unwrap()
}

#[test]
fn manual_key_list_contents() {
    let keys = all_manual_keys();
    assert_eq!(keys.len(), 13 + 9 + 12 + 26 + 10);
    assert_eq!(keys[0], ("Enter".to_string(), KeySpec::Enter));
    assert_eq!(keys[12], ("Meta".to_string(), KeySpec::Meta));
    assert_eq!(keys[13], ("Volume Up".to_string(), KeySpec::VolumeUp));
    assert_eq!(keys[16], ("Play / Pause".to_string(), KeySpec::MediaPlayPause));
    assert_eq!(keys[21], ("Brightness Down".to_string(), KeySpec::BrightnessDown));
    assert_eq!(keys[22], ("F1".to_string(), KeySpec::F(1)));
    assert_eq!(keys[33], ("F12".to_string(), KeySpec::F(12)));
    assert_eq!(keys[34], ("a".to_string(), KeySpec::Char('a')));
    assert_eq!(keys[59], ("z".to_string(), KeySpec::Char('z')));
    assert_eq!(keys[60], ("0".to_string(), KeySpec::Char('0')));
    assert_eq!(keys[69], ("9".to_string(), KeySpec::Char('9')));
}

#[test]
fn action_outcomes_are_logged() {
    let mut state = AppState::default();
    note_action_completed(&mut state, "map_01");
    assert_eq!(last_log(&state), "\u{2713} Action completed: map_01");
    note_action_failed(&mut state, "map_02", "key send failed");
    assert_eq!(last_log(&state), "\u{2717} Action failed [map_02]: key send failed");
    note_queue_failure(&mut state, "channel closed");
    assert_eq!(last_log(&state), "Failed to queue action: channel closed");
}

#[test]
fn device_lists_are_taken() {
    let mut state = AppState::default();
    apply_device_list(&mut state, devices());
    assert_eq!(state.midi_devices.len(), 2);
    assert_eq!(last_log(&state), "MIDI device list updated");
    apply_refreshed_devices(&mut state, vec![]);
    assert!(state.midi_devices.is_empty());
    assert_eq!(last_log(&state), "Found 0 MIDI devices");
}

#[test]
fn connect_results() {
    let mut state = AppState::default();
    apply_connect_result(&mut state, 1, Ok("MPK mini IV".to_string()));
    assert!(state.midi_connected);
    assert_eq!(state.selected_device, Some(1));
    assert_eq!(state.selected_device_name, Some("MPK mini IV".to_string()));
    assert_eq!(last_log(&state), "Connected to: MPK mini IV");
    apply_connect_result(&mut state, 2, Err("port gone".to_string()));
    assert!(!state.midi_connected);
    assert_eq!(state.mode, AppMode::ErrorDialog("MIDI connection failed: port gone".to_string()));
    assert_eq!(last_log(&state), "Connection failed: port gone");
}

#[test]
fn save_failure_keeps_dirty_flag() {
    let mut state = AppState::default();
    state.dirty = true;
    apply_save_result(&mut state, "/tmp/x.toml", Err("disk full".to_string()));
    assert!(state.dirty);
    assert_eq!(state.mode, AppMode::ErrorDialog("Save failed: disk full".to_string()));
    assert_eq!(last_log(&state), "Failed to save config: disk full");
    apply_save_result(&mut state, "/tmp/x.toml", Ok(()));
    assert!(!state.dirty);
    assert_eq!(last_log(&state), "Config saved to /tmp/x.toml");
}

fn mapping() -> Mapping {
    Mapping {
        id: "map_01".to_string(),
        name: "Kick Pad -> Space".to_string(),
        enabled: true,
        trigger: MidiTrigger::NoteOn { channel: 1, note: 36, min_velocity: None, max_velocity: None },
        action: OutputAction::KeyTap { key: KeySpec::Space },
        options: MappingOptions::default(),
    }
}

#[test]
fn snapshot_and_load() {
    let mut state = AppState::default();
    load_mappings(&mut state, vec![mapping()]);
    assert_eq!(state.selected_mapping, Some(0));
    state.selected_device_name = Some("MPK mini IV".to_string());
    let config = config_snapshot(&state);
    assert_eq!(config.version, 2);
    assert_eq!(config.selected_device, Some("MPK mini IV".to_string()));
    assert_eq!(config.mappings, vec![mapping()]);
    let mut empty = AppState::default();
    load_mappings(&mut empty, vec![]);
    assert_eq!(empty.selected_mapping, None);
}

#[test]
fn startup_device_selection() {
    let list = devices();
    assert_eq!(find_device(&list, "MPK"), Some(1));
    assert_eq!(find_device(&list, "Port"), Some(0));
    assert_eq!(find_device(&list, "Launchpad"), None);
    let mut state = AppState::default();
    apply_startup_connect(&mut state, &list[1], Ok("MPK mini IV:0".to_string()));
    assert!(state.midi_connected);
    assert_eq!(state.selected_device_name, Some("MPK mini IV:0".to_string()));
    assert_eq!(last_log(&state), "Connected to: MPK mini IV MIDI 1");
    let mut other = AppState::default();
    apply_startup_connect(&mut other, &list[0], Err("busy".to_string()));
    assert!(!other.midi_connected);
    assert_eq!(last_log(&other), "Failed to connect to 'Midi Through Port-0': busy");
    note_device_missing(&mut other, "Launchpad");
    assert_eq!(last_log(&other), "Device 'Launchpad' not found");
}

#[test]
fn run_mode_at_startup_needs_a_device() {
    let mut state = AppState::default();
    start_in_run_mode(&mut state, true, false);
    assert_eq!(state.mode, AppMode::Setup);
    state.midi_connected = true;
    start_in_run_mode(&mut state, true, true);
    assert_eq!(state.mode, AppMode::Setup);
    start_in_run_mode(&mut state, true, false);
    assert_eq!(state.mode, AppMode::Run);
    assert!(state.running);
    assert_eq!(last_log(&state), "\u{25b6} Started in run mode (--run)");
    note_warning(&mut state, "careful");
    assert_eq!(last_log(&state), "\u{26a0} careful");
    note_started(&mut state);
    assert_eq!(
        last_log(&state),
        "keebmidi started. Press 'D' to select MIDI device, 'a' to add mapping."
    );
}

#[test]
fn error_messages() {
    let d = || "x".to_string();
    let cases = vec![
        (AppError::MidiDeviceNotFound(d()), "MIDI device not found: x"),
        (AppError::MidiConnectionLost(d()), "MIDI connection lost: x"),
        (AppError::MidiInitError(d()), "MIDI initialization error: x"),
        (AppError::ConfigParseError(d()), "Config parse failure: x"),
        (AppError::ConfigSaveError(d()), "Config save failure: x"),
        (AppError::KeyboardError(d()), "Keyboard injection failure: x"),
        (AppError::UnsupportedKey(d()), "Unsupported key on current platform: x"),
        (AppError::TerminalError(d()), "Terminal initialization failure: x"),
        (AppError::ChannelError(d()), "Channel send error: x"),
    ];
    for (e, text) in cases {
        assert_eq!(e.display_string(), text);
    }
}

#[test]
fn platform_warning_messages() {
    assert_eq!(
        check_platform_warnings(Platform::Linux, false, false),
        vec!["No DISPLAY or WAYLAND_DISPLAY set. Keyboard injection may not work.".to_string()]
    );
    assert!(check_platform_warnings(Platform::Linux, true, false).is_empty());
    assert_eq!(check_platform_warnings(Platform::MacOs, false, false).len(), 1);
    assert!(check_platform_warnings(Platform::Other, false, false).is_empty());
    assert_eq!(check_media_key_support(Platform::Linux, true).len(), 1);
    assert!(check_media_key_support(Platform::Linux, false).is_empty());
}
