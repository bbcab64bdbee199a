//! How the state takes in what the application loop reports back: finished
//! actions, device lists, connection and save results, and start-up options.

use vstd::prelude::*;

use crate::app::state::{
    device_views, with_log, AppMode, AppModeView, AppState, AppStateView, MidiDeviceInfo,
    MidiDeviceView,
};
use crate::config::model::{mapping_views, AppConfig, Mapping};
use crate::text::{append_str, contains_text, decimal, owned, push_decimal, text_contains};

verus! {

/// Logs that the action of mapping `id` completed.
pub fn note_action_completed(state: &mut AppState, id: &str)
    ensures
        final(state)@ == with_log(old(state)@, "\u{2713} Action completed: "@ + id@),
{
    let mut msg = owned("\u{2713} Action completed: ");
    append_str(&mut msg, id);
    state.add_log(msg);
}

/// Logs that the action of mapping `id` failed with `err`.
pub fn note_action_failed(state: &mut AppState, id: &str, err: &str)
    ensures
        final(state)@ == with_log(
            old(state)@,
            "\u{2717} Action failed ["@ + id@ + "]: "@ + err@,
        ),
{
    let mut msg = owned("\u{2717} Action failed [");
    append_str(&mut msg, id);
    append_str(&mut msg, "]: ");
    append_str(&mut msg, err);
    state.add_log(msg);
}

/// Logs that an action could not be queued for execution.
pub fn note_queue_failure(state: &mut AppState, err: &str)
    ensures
        final(state)@ == with_log(old(state)@, "Failed to queue action: "@ + err@),
{
    let mut msg = owned("Failed to queue action: ");
    append_str(&mut msg, err);
    state.add_log(msg);
}

/// Takes the device list after the devices changed.
pub fn apply_device_list(state: &mut AppState, devices: Vec<MidiDeviceInfo>)
    ensures
        final(state)@ == with_log(
            AppStateView { midi_devices: device_views(devices@), ..old(state)@ },
            "MIDI device list updated"@,
        ),
{
    state.midi_devices = devices;
    state.add_log(owned("MIDI device list updated"));
}

/// Takes the device list after a refresh that the user asked for.
pub fn apply_refreshed_devices(state: &mut AppState, devices: Vec<MidiDeviceInfo>)
    ensures
        final(state)@ == with_log(
            AppStateView { midi_devices: device_views(devices@), ..old(state)@ },
            "Found "@ + decimal(devices@.len()) + " MIDI devices"@,
        ),
{
    let n = devices.len();
    state.midi_devices = devices;
    let mut msg = owned("Found ");
    push_decimal(&mut msg, n as u64);
    append_str(&mut msg, " MIDI devices");
    state.add_log(msg);
}

/// Takes the result of connecting to device `idx`: on success its name, on
/// failure the reason, which is also shown in an error dialog.
pub fn apply_connect_result(state: &mut AppState, idx: usize, result: Result<String, String>)
    ensures
        match result {
            Ok(name) => final(state)@ == with_log(
                AppStateView {
                    selected_device: Some(idx),
                    selected_device_name: Some(name@),
                    midi_connected: true,
                    ..old(state)@
                },
                "Connected to: "@ + name@,
            ),
            Err(e) => final(state)@ == (AppStateView {
                mode: AppModeView::ErrorDialog("MIDI connection failed: "@ + e@),
                ..with_log(
                    AppStateView { midi_connected: false, ..old(state)@ },
                    "Connection failed: "@ + e@,
                )
            }),
        },
{
    match result {
        Ok(name) => {
            let mut msg = owned("Connected to: ");
            append_str(&mut msg, name.as_str());
            state.selected_device = Some(idx);
            state.selected_device_name = Some(name);
            state.midi_connected = true;
            state.add_log(msg);
        },
        Err(e) => {
            state.midi_connected = false;
            let mut msg = owned("Connection failed: ");
            append_str(&mut msg, e.as_str());
            state.add_log(msg);
            let mut shown = owned("MIDI connection failed: ");
            append_str(&mut shown, e.as_str());
            state.mode = AppMode::ErrorDialog(shown);
        },
    }
}

/// A copy of the mappings.
pub fn clone_mappings(v: &Vec<Mapping>) -> (r: Vec<Mapping>)
    ensures
        mapping_views(r@) == mapping_views(v@),
{
    let mut r: Vec<Mapping> = Vec::new();
    let mut i: usize = 0;
    while i < v.len()
        invariant
            i <= v@.len(),
            mapping_views(r@) == mapping_views(v@).take(i as int),
        decreases v@.len() - i,
    {
        let m = v[i].clone();
        let ghost before = r@;
        r.push(m);
        assert(r@ == before.push(m));
        assert(mapping_views(v@)[i as int] == m@);
        assert(mapping_views(before.push(m)) =~= mapping_views(before).push(m@));
        assert(mapping_views(v@).take(i + 1) =~= mapping_views(v@).take(i as int).push(m@));
        i = i + 1;
    }
    assert(mapping_views(v@).take(i as int) =~= mapping_views(v@));
    r
}

/// The config to save: the current config version, the selected device's
/// name and the mappings.
pub fn config_snapshot(state: &AppState) -> (c: AppConfig)
    ensures
        c.version == 2,
        crate::app::state::opt_str(c.selected_device) == state@.selected_device_name,
        mapping_views(c.mappings@) == state@.mappings,
{
    AppConfig {
        version: crate::config::model::default_version(),
        selected_device: state.selected_device_name.clone(),
        mappings: clone_mappings(&state.mappings),
    }
}

/// Takes the result of saving the config to the file shown as `path`: success
/// clears the unsaved-changes flag; failure keeps it and shows the reason in
/// an error dialog.
pub fn apply_save_result(state: &mut AppState, path: &str, result: Result<(), String>)
    ensures
        match result {
            Ok(()) => final(state)@ == with_log(
                AppStateView { dirty: false, ..old(state)@ },
                "Config saved to "@ + path@,
            ),
            Err(e) => final(state)@ == (AppStateView {
                mode: AppModeView::ErrorDialog("Save failed: "@ + e@),
                ..with_log(old(state)@, "Failed to save config: "@ + e@)
            }),
        },
        result is Err ==> final(state)@.dirty == old(state)@.dirty,
{
    match result {
        Ok(()) => {
            state.dirty = false;
            let mut msg = owned("Config saved to ");
            append_str(&mut msg, path);
            state.add_log(msg);
        },
        Err(e) => {
            let mut msg = owned("Failed to save config: ");
            append_str(&mut msg, e.as_str());
            state.add_log(msg);
            let mut shown = owned("Save failed: ");
            append_str(&mut shown, e.as_str());
            state.mode = AppMode::ErrorDialog(shown);
        },
    }
}

/// Takes the mappings loaded at start-up, selecting the first one if any.
pub fn load_mappings(state: &mut AppState, mappings: Vec<Mapping>)
    ensures
        final(state)@ == (AppStateView {
            mappings: mapping_views(mappings@),
            selected_mapping: if mappings@.len() > 0 {
                Some(0usize)
            } else {
                old(state)@.selected_mapping
            },
            ..old(state)@
        }),
{
    state.mappings = mappings;
    if state.mappings.len() > 0 {
        state.selected_mapping = Some(0);
    }
}

/// The position of the first device whose name contains `name`.
pub fn find_device(devices: &Vec<MidiDeviceInfo>, name: &str) -> (r: Option<usize>)
    ensures
        match r {
            Some(i) => i < devices@.len() && contains_text(devices@[i as int].name@, name@)
                && forall|j: int| 0 <= j < i ==> !contains_text(#[trigger] devices@[j].name@, name@),
            None => forall|j: int|
                0 <= j < devices@.len() ==> !contains_text(#[trigger] devices@[j].name@, name@),
        },
{
    let mut i: usize = 0;
    while i < devices.len()
        invariant
            i <= devices@.len(),
            forall|j: int| 0 <= j < i ==> !contains_text(#[trigger] devices@[j].name@, name@),
        decreases devices@.len() - i,
    {
        if text_contains(devices[i].name.as_str(), name) {
            return Some(i);
        }
        i = i + 1;
    }
    None
}

/// Takes the result of connecting at start-up to the device `device`: on
/// success the connection and its port name, on failure the reason, logged.
pub fn apply_startup_connect(
    state: &mut AppState,
    device: &MidiDeviceInfo,
    result: Result<String, String>,
)
    ensures
        match result {
            Ok(port) => final(state)@ == with_log(
                AppStateView {
                    selected_device: Some(device.id),
                    selected_device_name: Some(port@),
                    midi_connected: true,
                    ..old(state)@
                },
                "Connected to: "@ + device.name@,
            ),
            Err(e) => final(state)@ == with_log(
                old(state)@,
                "Failed to connect to '"@ + device.name@ + "': "@ + e@,
            ),
        },
{
    match result {
        Ok(port) => {
            state.selected_device = Some(device.id);
            state.selected_device_name = Some(port);
            state.midi_connected = true;
            let mut msg = owned("Connected to: ");
            append_str(&mut msg, device.name.as_str());
            state.add_log(msg);
        },
        Err(e) => {
            let mut msg = owned("Failed to connect to '");
            append_str(&mut msg, device.name.as_str());
            append_str(&mut msg, "': ");
            append_str(&mut msg, e.as_str());
            state.add_log(msg);
        },
    }
}

/// Logs that no device matched `name` at start-up.
pub fn note_device_missing(state: &mut AppState, name: &str)
    ensures
        final(state)@ == with_log(old(state)@, "Device '"@ + name@ + "' not found"@),
{
    let mut msg = owned("Device '");
    append_str(&mut msg, name);
    append_str(&mut msg, "' not found");
    state.add_log(msg);
}

/// Enters run mode at start-up when it was asked for, not refused, and a
/// device is connected.
pub fn start_in_run_mode(state: &mut AppState, run: bool, no_run: bool)
    ensures
        if run && !no_run && old(state)@.midi_connected {
            final(state)@ == with_log(
                AppStateView { mode: AppModeView::Run, running: true, ..old(state)@ },
                "\u{25b6} Started in run mode (--run)"@,
            )
        } else {
            final(state)@ == old(state)@
        },
{
    if run && !no_run && state.midi_connected {
        state.mode = AppMode::Run;
        state.running = true;
        state.add_log(owned("\u{25b6} Started in run mode (--run)"));
    }
}

/// Logs a platform warning.
pub fn note_warning(state: &mut AppState, warning: &str)
    ensures
        final(state)@ == with_log(old(state)@, "\u{26a0} "@ + warning@),
{
    let mut msg = owned("\u{26a0} ");
    append_str(&mut msg, warning);
    state.add_log(msg);
}

/// Logs the start-up greeting.
pub fn note_started(state: &mut AppState)
    ensures
        final(state)@ == with_log(
            old(state)@,
            "keebmidi started. Press 'D' to select MIDI device, 'a' to add mapping."@,
        ),
{
    state.add_log(owned("keebmidi started. Press 'D' to select MIDI device, 'a' to add mapping."));
}

} // verus!
