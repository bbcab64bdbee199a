//! The application state machine: what each terminal key and MIDI event does.

use vstd::prelude::*;

use crate::actions::executor::{ActionCommand, ActionCommandView};
use crate::app::model::{
    action_menu_key, confirm_key, edit_menu_key, error_key, finalized, guessed_knob_mode,
    has_value_in, held_modifiers, key_in_range, key_spec_of, key_step, learn_action_key, learn_midi_key,
    no_effect, panic_stop_key, record_macro_key, captured, run_key, select_device_key, selected,
    setup_key, smooth_progression, text_input_key, to_action_menu, SideEffectView,
    fired_fit, midi_fits, shown, with_direction, apply_fired, apply_one, cc_key, debounced, elapsed_ms, fired, fired_effects,
    fired_line, fired_prefix, fires, knob_mode_for, learn_midi_event, learning_takes,
    match_step, midi_step, run_event, timer_index, timer_of, timer_set, value_unchanged,
};
use crate::app::state::{
    mapping_views_update, with_log, ActivePane, AppMode, AppModeView, AppState, AppStateView,
    LearnState, LearnStateView, TextInputPurpose, DebounceTimer, timer_views, str_views,
    ConfirmPurpose,
};
use crate::config::model::{
    action_text_fits, clone_keys, normalize_in_range, normalize_macro, step_views,
    text_preview_fits, KeySpec, KnobMode, MacroSpec, MacroStep, MacroStepView, Mapping,
    MappingOptions, OutputAction, PlaybackMode,
};
use crate::input::key_event::{KeyCode, KeyEvent};
use crate::midi::decode::{event_matches_trigger, detect_direction_relative, KnobDirection, MidiEvent};
use crate::midi::trigger::{KnobRotationDirection, MidiTrigger};
use crate::text::{
    append_str, chars_of, owned, parse_unsigned_exec, pop_char, push_bool, push_char,
    push_decimal, text_contains,
};

verus! {

/// Side effects that the reducer requests the app loop to perform.
#[derive(Debug)]
pub enum SideEffect {
    Quit,
    SaveConfig,
    ConnectDevice(usize),
    RefreshDevices,
    ExecuteAction(ActionCommand),
    Nothing,
}

impl View for SideEffect {
    type V = SideEffectView;

    open spec fn view(&self) -> SideEffectView {
        match self {
            SideEffect::Quit => SideEffectView::Quit,
            SideEffect::SaveConfig => SideEffectView::SaveConfig,
            SideEffect::ConnectDevice(i) => SideEffectView::ConnectDevice(*i),
            SideEffect::RefreshDevices => SideEffectView::RefreshDevices,
            SideEffect::ExecuteAction(c) => SideEffectView::ExecuteAction(c@),
            SideEffect::Nothing => SideEffectView::Nothing,
        }
    }
}

/// The mathematical value of a sequence of side effects.
pub open spec fn effect_views(s: Seq<SideEffect>) -> Seq<SideEffectView> {
    s.map_values(|e: SideEffect| e@)
}

fn nothing() -> (r: Vec<SideEffect>)
    ensures
        effect_views(r@) == no_effect(),
{
    let r = vec![SideEffect::Nothing];
    assert(effect_views(r@) =~= no_effect());
    r
}

fn one(e: SideEffect) -> (r: Vec<SideEffect>)
    ensures
        effect_views(r@) == seq![e@],
{
    let r = vec![e];
    assert(effect_views(r@) =~= seq![e@]);
    r
}

fn log_str(state: &mut AppState, msg: &str)
    ensures
        final(state)@ == with_log(old(state)@, msg@),
{
    state.add_log(owned(msg));
}

fn handle_panic_stop(state: &mut AppState) -> (r: Vec<SideEffect>)
    ensures
        (final(state)@, effect_views(r@)) == panic_stop_key(old(state)@),
{
    state.panic_stop = !state.panic_stop;
    if state.panic_stop {
        log_str(state, "\u{26a0} PANIC STOP: All mapping execution suspended");
    } else {
        log_str(state, "\u{2713} Panic stop released");
    }
    nothing()
}

#[verifier::rlimit(40)]
fn handle_setup_key(state: &mut AppState, key: KeyEvent) -> (r: Vec<SideEffect>)
    requires
        old(state).mode is Setup,
    ensures
        (final(state)@, effect_views(r@)) == setup_key(old(state)@, key),
{
    match key.code {
        KeyCode::Char(c) => {
            if c == 'q' {
                if state.dirty {
                    state.mode = AppMode::ConfirmDialog(owned("Unsaved changes. Quit anyway? (y/n)"));
                    state.confirm_purpose = Some(ConfirmPurpose::Quit);
                    nothing()
                } else {
                    state.should_quit = true;
                    one(SideEffect::Quit)
                }
            } else if c == 's' {
                one(SideEffect::SaveConfig)
            } else if c == 'a' {
                state.previous_mode = Some(AppMode::Setup);
                state.mode = AppMode::LearnMidi;
                state.learn_state = Some(LearnState::WaitingForMidi);
                state.learned_trigger = None;
                log_str(state, "Learn MIDI: press a pad/key/knob on your MIDI device...");
                nothing()
            } else if c == 'e' {
                if state.selected_mapping.is_some() {
                    state.mode = AppMode::EditMenu;
                    state.edit_menu_index = 0;
                    log_str(state, "Edit mapping: choose what to edit");
                }
                nothing()
            } else if c == 'd' {
                if let Some(idx) = state.selected_mapping {
                    if idx < state.mappings.len() {
                        let mut prompt = owned("Delete mapping '");
                        append_str(&mut prompt, state.mappings[idx].name.as_str());
                        append_str(&mut prompt, "'? (y/n)");
                        state.mode = AppMode::ConfirmDialog(prompt);
                        state.confirm_purpose = Some(ConfirmPurpose::DeleteMapping);
                    }
                }
                nothing()
            } else if c == 'l' {
                if state.selected_mapping.is_some() {
                    state.mode = AppMode::LearnMidi;
                    state.learn_state = Some(LearnState::WaitingForMidi);
                    log_str(state, "Learn MIDI trigger for selected mapping...");
                }
                nothing()
            } else if c == 'r' {
                if state.midi_connected {
                    state.mode = AppMode::Run;
                    state.running = true;
                    log_str(state, "\u{25b6} Run mode active");
                } else {
                    log_str(state, "Cannot enter run mode: no MIDI device connected");
                }
                nothing()
            } else if c == ' ' {
                if let Some(idx) = state.selected_mapping {
                    if idx < state.mappings.len() {
                        let mut m = state.mappings[idx].clone();
                        m.enabled = !m.enabled;
                        let mut msg = owned("Mapping '");
                        append_str(&mut msg, m.name.as_str());
                        append_str(&mut msg, "' ");
                        if m.enabled {
                            append_str(&mut msg, "enabled");
                        } else {
                            append_str(&mut msg, "disabled");
                        }
                        proof {
                            mapping_views_update(state.mappings@, idx as int, m);
                        }
                        state.mappings.set(idx, m);
                        state.dirty = true;
                        state.add_log(msg);
                    }
                }
                nothing()
            } else if c == 'D' {
                state.mode = AppMode::SelectDevice;
                state.device_list_index = 0;
                one(SideEffect::RefreshDevices)
            } else {
                nothing()
            }
        },
        KeyCode::Tab => {
            state.active_pane = match state.active_pane {
                ActivePane::MappingList => ActivePane::Details,
                ActivePane::Details => ActivePane::Log,
                ActivePane::Log => ActivePane::MappingList,
            };
            nothing()
        },
        KeyCode::Up => {
            if state.active_pane == ActivePane::MappingList {
                if let Some(idx) = state.selected_mapping {
                    if idx > 0 {
                        state.selected_mapping = Some(idx - 1);
                    }
                }
            }
            nothing()
        },
        KeyCode::Down => {
            if state.active_pane == ActivePane::MappingList {
                let max = if state.mappings.len() > 0 {
                    state.mappings.len() - 1
                } else {
                    0
                };
                if let Some(idx) = state.selected_mapping {
                    if idx < max {
                        state.selected_mapping = Some(idx + 1);
                    }
                } else if state.mappings.len() > 0 {
                    state.selected_mapping = Some(0);
                }
            }
            nothing()
        },
        _ => nothing(),
    }
}

fn handle_run_key(state: &mut AppState, key: KeyEvent) -> (r: Vec<SideEffect>)
    requires
        old(state).mode is Run,
    ensures
        (final(state)@, effect_views(r@)) == run_key(old(state)@, key),
{
    match key.code {
        KeyCode::Char('r') | KeyCode::Esc => {
            state.mode = AppMode::Setup;
            state.running = false;
            log_str(state, "\u{25a0} Run mode stopped");
            nothing()
        },
        KeyCode::Char('q') => {
            state.running = false;
            state.should_quit = true;
            one(SideEffect::Quit)
        },
        _ => nothing(),
    }
}


/// Whether `c` is a lower-case hexadecimal digit.
pub open spec fn lower_hex(c: char) -> bool {
    ('0' <= c <= '9') || ('a' <= c <= 'f')
}

/// The hyphenated text of a random (version 4, RFC 4122 variant) UUID:
/// 36 characters, hyphens at positions 8, 13, 18 and 23, lower-case
/// hexadecimal digits elsewhere, the version digit `4` at position 14 and
/// one of `8`, `9`, `a`, `b` at position 19.
pub open spec fn random_uuid_text(s: Seq<char>) -> bool {
    &&& s.len() == 36
    &&& forall|i: int|
        0 <= i < 36 ==> if i == 8 || i == 13 || i == 18 || i == 23 {
            #[trigger] s[i] == '-'
        } else {
            lower_hex(s[i])
        }
    &&& s[14] == '4'
    &&& (s[19] == '8' || s[19] == '9' || s[19] == 'a' || s[19] == 'b')
}

/// Calls `uuid::Uuid::new_v4` and renders the UUID as text (its `Display`
/// form, the lower-case hyphenated one): a fresh random id for a new mapping.
/// Claimed: the text has the shape `random_uuid_text` describes. Which id comes
/// out depends on the random number generator; the call panics if the
/// operating system cannot provide random bytes.
#[verifier::external_body]
fn new_mapping_id() -> (id: String)
    ensures
        random_uuid_text(id@),
{
    uuid::Uuid::new_v4().to_string()
}

/// Convert a terminal key to the key it stands for, if any.
pub fn crossterm_key_to_keyspec(key: &KeyEvent) -> (r: Option<KeySpec>)
    ensures
        r == key_spec_of(key.code),
{
    match key.code {
        KeyCode::Char(c) => Some(KeySpec::Char(c)),
        KeyCode::Enter => Some(KeySpec::Enter),
        KeyCode::Tab => Some(KeySpec::Tab),
        KeyCode::Esc => Some(KeySpec::Esc),
        KeyCode::Backspace => Some(KeySpec::Backspace),
        KeyCode::Up => Some(KeySpec::Up),
        KeyCode::Down => Some(KeySpec::Down),
        KeyCode::Left => Some(KeySpec::Left),
        KeyCode::Right => Some(KeySpec::Right),
        KeyCode::F(n) => Some(KeySpec::F(n)),
        KeyCode::Other => None,
    }
}

/// Heuristic to detect knob encoding mode from observed values.
pub fn detect_knob_mode(values: &[u8]) -> (r: KnobMode)
    ensures
        r == guessed_knob_mode(values@),
{
    if values.len() == 0 {
        return KnobMode::Absolute;
    }
    let mut has_low = false;
    let mut has_high = false;
    let mut smooth = true;
    let mut i: usize = 0;
    while i < values.len()
        invariant
            0 < values@.len(),
            i <= values@.len(),
            has_low == (exists|k: int| 0 <= k < i && 1 <= #[trigger] values@[k] <= 63),
            has_high == (exists|k: int| 0 <= k < i && 65 <= #[trigger] values@[k] <= 127),
            smooth == (forall|k: int|
                0 <= k < i - 1 ==> -5 <= (#[trigger] values@[k + 1]) - values@[k] <= 5),
        decreases values@.len() - i,
    {
        let v = values[i];
        if 1 <= v && v <= 63 {
            has_low = true;
        }
        if 65 <= v && v <= 127 {
            has_high = true;
        }
        if i > 0 {
            let prev = values[i - 1];
            let diff: i16 = v as i16 - prev as i16;
            if diff < -5 || diff > 5 {
                smooth = false;
                assert(!(-5 <= values@[(i - 1) + 1] - values@[i - 1] <= 5));
            }
        }
        i = i + 1;
    }
    if smooth && values.len() >= 2 {
        KnobMode::Absolute
    } else if has_low && has_high {
        KnobMode::Relative1
    } else {
        KnobMode::Absolute
    }
}

fn enter_action_menu(state: &mut AppState, msg: &str)
    ensures
        final(state)@ == to_action_menu(old(state)@, msg@),
{
    state.mode = AppMode::LearnAction;
    state.action_menu_open = true;
    state.action_menu_index = 0;
    state.learn_state = None;
    log_str(state, msg);
}

fn handle_learn_midi_key(state: &mut AppState, key: KeyEvent) -> (r: Vec<SideEffect>)
    requires
        old(state).mode is LearnMidi,
    ensures
        (final(state)@, effect_views(r@)) == learn_midi_key(old(state)@, key),
{
    match key.code {
        KeyCode::Esc => {
            state.mode = match state.previous_mode.take() {
                Some(m) => m,
                None => AppMode::Setup,
            };
            state.learn_state = None;
            state.learned_trigger = None;
            log_str(state, "Learn MIDI cancelled");
        },
        KeyCode::Char(c) => {
            if c == 'y' || c == 'Y' {
                let info = match &state.learn_state {
                    Some(LearnState::KnobDetected { channel, controller, values }) => Some(
                        (*channel, *controller, detect_knob_mode(values.as_slice())),
                    ),
                    _ => None,
                };
                if let Some((ch, ctrl, mode)) = info {
                    let mut msg = owned("Detected mode: ");
                    mode.push_text(&mut msg);
                    append_str(&mut msg, ". Turn the knob CLOCKWISE and press Enter\u{2026}");
                    state.add_log(msg);
                    state.learn_state = Some(
                        LearnState::KnobLearnCW { channel: ch, controller: ctrl, mode },
                    );
                }
            } else if c == 'n' || c == 'N' {
                let info = match &state.learn_state {
                    Some(LearnState::KnobDetected { channel, controller, .. }) => Some(
                        (*channel, *controller),
                    ),
                    _ => None,
                };
                if let Some((ch, ctrl)) = info {
                    let trigger = MidiTrigger::ControlChange {
                        channel: ch,
                        controller: ctrl,
                        min_value: None,
                        max_value: None,
                    };
                    state.learned_trigger = Some(trigger);
                    let mut msg = owned("Learned trigger: ");
                    trigger.push_text(&mut msg);
                    state.add_log(msg);
                    enter_action_menu(state, "Choose action type for this mapping");
                }
            }
        },
        KeyCode::Enter => {
            let info = match &state.learn_state {
                Some(LearnState::KnobLearnCW { channel, controller, mode }) => Some(
                    (*channel, *controller, *mode, true),
                ),
                Some(LearnState::KnobLearnCCW { channel, controller, mode }) => Some(
                    (*channel, *controller, *mode, false),
                ),
                _ => None,
            };
            if let Some((ch, ctrl, mode, cw)) = info {
                if cw {
                    state.learned_trigger = Some(
                        MidiTrigger::KnobRotation {
                            channel: ch,
                            controller: ctrl,
                            direction: KnobRotationDirection::Clockwise,
                            mode,
                        },
                    );
                    enter_action_menu(state, "Choose action for CW rotation");
                } else {
                    state.learned_trigger = Some(
                        MidiTrigger::KnobRotation {
                            channel: ch,
                            controller: ctrl,
                            direction: KnobRotationDirection::CounterClockwise,
                            mode,
                        },
                    );
                    enter_action_menu(state, "Choose action for CCW rotation");
                }
            }
        },
        _ => {},
    }
    nothing()
}

/// Store a learned action: as a new mapping when a trigger was learned, or as
/// the selected mapping's new action; then return to setup mode.
#[verifier::rlimit(50)]
fn finalize_action(state: &mut AppState, action: OutputAction, fresh_id: String)
    requires
        action_text_fits(action@),
        old(state)@.mappings.len() < usize::MAX,
    ensures
        final(state)@ == finalized(old(state)@, action@, fresh_id@),
{
    let desc = action.display_string();
    let pending = state.learned_trigger;
    if let Some(trigger) = state.learned_trigger {
        state.learned_trigger = None;
        let mut name = owned("Mapping ");
        push_decimal(&mut name, (state.mappings.len() + 1) as u64);
        let mut msg = owned("Created mapping: ");
        append_str(&mut msg, name.as_str());
        append_str(&mut msg, " -> ");
        append_str(&mut msg, desc.as_str());
        state.add_log(msg);
        let m = Mapping {
            id: fresh_id,
            name,
            enabled: true,
            trigger,
            action,
            options: MappingOptions::default(),
        };
        let ghost before = state.mappings@;
        state.mappings.push(m);
        assert(crate::config::model::mapping_views(state.mappings@) =~= crate::config::model::mapping_views(before).push(m@));
        state.selected_mapping = Some(state.mappings.len() - 1);
        state.dirty = true;
    } else if let Some(idx) = state.selected_mapping {
        if idx < state.mappings.len() {
            let mut m = state.mappings[idx].clone();
            let named = !m.name.as_str().is_empty();
            let mut msg = owned("Updated '");
            append_str(&mut msg, m.name.as_str());
            append_str(&mut msg, "' action: ");
            append_str(&mut msg, desc.as_str());
            m.action = action;
            proof {
                mapping_views_update(state.mappings@, idx as int, m);
            }
            state.mappings.set(idx, m);
            state.dirty = true;
            if named {
                state.add_log(msg);
            }
        }
    }
    match pending {
        Some(
            MidiTrigger::KnobRotation {
                channel,
                controller,
                direction: KnobRotationDirection::Clockwise,
                mode,
            },
        ) => {
            state.mode = AppMode::LearnMidi;
            state.learn_state = Some(LearnState::KnobLearnCCW { channel, controller, mode });
            log_str(state, "Now turn the knob COUNTER-CLOCKWISE and press Enter\u{2026}");
        },
        _ => {
            state.mode = AppMode::Setup;
            state.learn_state = None;
        },
    }
}

fn handle_action_menu_key(state: &mut AppState, key: KeyEvent, now_us: u64)
    ensures
        final(state)@ == action_menu_key(old(state)@, key, now_us),
{
    match key.code {
        KeyCode::Esc => {
            state.action_menu_open = false;
            state.mode = AppMode::Setup;
            state.learned_trigger = None;
            log_str(state, "Action selection cancelled");
        },
        KeyCode::Up => {
            if state.action_menu_index > 0 {
                state.action_menu_index = state.action_menu_index - 1;
            }
        },
        KeyCode::Down => {
            if state.action_menu_index < 2 {
                state.action_menu_index = state.action_menu_index + 1;
            }
        },
        KeyCode::Enter => {
            choose_action_kind(state, key, now_us);
        },
        _ => {},
    }
}

fn choose_action_kind(state: &mut AppState, key: KeyEvent, now_us: u64)
    requires
        key.code == KeyCode::Enter,
    ensures
        final(state)@ == action_menu_key(old(state)@, key, now_us),
{
    state.action_menu_open = false;
    if state.action_menu_index == 0 {
        state.learn_state = Some(LearnState::WaitingForSingleKey);
        log_str(state, "Press a key or chord...");
    } else if state.action_menu_index == 1 {
        state.mode = AppMode::TextInput;
        state.text_input_buffer = String::new();
        state.text_input_purpose = TextInputPurpose::TextAction;
        log_str(state, "Type text, press Enter to confirm...");
    } else if state.action_menu_index == 2 {
        state.mode = AppMode::RecordMacro;
        state.learn_state = Some(
            LearnState::RecordingMacro { started_at_us: now_us, last_at_us: now_us, steps: Vec::new() },
        );
        assert(step_views(Seq::<MacroStep>::empty()) =~= Seq::<MacroStepView>::empty());
        log_str(state, "Recording macro... Press Enter to stop, Esc to cancel");
    }
}

fn modifier_keys(key: &KeyEvent) -> (r: Vec<KeySpec>)
    ensures
        r@ == held_modifiers(*key),
{
    let mut keys: Vec<KeySpec> = Vec::new();
    if key.modifiers.control {
        keys.push(KeySpec::Ctrl);
    }
    if key.modifiers.alt {
        keys.push(KeySpec::Alt);
    }
    if key.modifiers.shift {
        keys.push(KeySpec::Shift);
    }
    if key.modifiers.super_key {
        keys.push(KeySpec::Meta);
    }
    assert(keys@ =~= held_modifiers(*key));
    keys
}

fn keys_contain(keys: &Vec<KeySpec>, k: KeySpec) -> (b: bool)
    ensures
        b == keys@.contains(k),
{
    let mut i: usize = 0;
    while i < keys.len()
        invariant
            i <= keys@.len(),
            forall|j: int| 0 <= j < i ==> keys@[j] != k,
        decreases keys@.len() - i,
    {
        if keys[i] == k {
            assert(keys@[i as int] == k);
            return true;
        }
        i = i + 1;
    }
    false
}

fn handle_learn_action_key(state: &mut AppState, key: KeyEvent, now_us: u64, fresh_id: String) -> (r:
    Vec<SideEffect>)
    requires
        old(state).mode is LearnAction,
        old(state)@.mappings.len() < usize::MAX,
    ensures
        (final(state)@, effect_views(r@)) == learn_action_key(old(state)@, key, now_us, fresh_id@),
{
    if state.action_menu_open {
        handle_action_menu_key(state, key, now_us);
        return nothing();
    }
    let single = matches!(state.learn_state, Some(LearnState::WaitingForSingleKey));
    let chord: Option<Vec<KeySpec>> = match &state.learn_state {
        Some(LearnState::WaitingForChord { pressed }) => Some(clone_keys(pressed.as_slice())),
        _ => None,
    };
    if single {
        if key.code == KeyCode::Esc {
            state.mode = AppMode::Setup;
            state.learn_state = None;
            state.learned_trigger = None;
            log_str(state, "Learn key cancelled");
            return nothing();
        }
        if let Some(k) = crossterm_key_to_keyspec(&key) {
            if k.is_modifier() {
                let pressed = vec![k];
                state.learn_state = Some(LearnState::WaitingForChord { pressed });
                assert(state.learn_state->0@ == LearnStateView::WaitingForChord { pressed: seq![k] });
                return nothing();
            }
            let mut keys = modifier_keys(&key);
            if keys.len() == 0 {
                finalize_action(state, OutputAction::KeyTap { key: k }, fresh_id);
            } else {
                keys.push(k);
                finalize_action(state, OutputAction::KeyChord { keys }, fresh_id);
            }
        }
        nothing()
    } else if let Some(pressed) = chord {
        if key.code == KeyCode::Esc {
            state.mode = AppMode::Setup;
            state.learn_state = None;
            state.learned_trigger = None;
            log_str(state, "Learn chord cancelled");
            return nothing();
        }
        if let Some(k) = crossterm_key_to_keyspec(&key) {
            let mut pressed = pressed;
            if !k.is_modifier() {
                pressed.push(k);
                finalize_action(state, OutputAction::KeyChord { keys: pressed }, fresh_id);
            } else if !keys_contain(&pressed, k) {
                pressed.push(k);
                state.learn_state = Some(LearnState::WaitingForChord { pressed });
            }
        }
        nothing()
    } else {
        if key.code == KeyCode::Esc {
            state.mode = AppMode::Setup;
            state.learn_state = None;
            state.learned_trigger = None;
        }
        nothing()
    }
}


/// Appends a tap of `k` captured at `now_us`, after a delay step for the
/// time since the last captured step (when there is one).
fn capture_tap(steps: Vec<MacroStep>, last_at_us: u64, now_us: u64, k: KeySpec) -> (r: Vec<MacroStep>)
    ensures
        step_views(r@) == captured(step_views(steps@), last_at_us, now_us, k),
{
    let mut steps = steps;
    let ghost before = steps@;
    if steps.len() > 0 {
        let delay: u64 = if now_us >= last_at_us {
            (now_us - last_at_us) / 1000
        } else {
            0
        };
        steps.push(MacroStep::DelayMs(delay));
    }
    steps.push(MacroStep::KeyTap(k));
    assert(step_views(steps@) =~= captured(step_views(before), last_at_us, now_us, k));
    steps
}

#[verifier::rlimit(40)]
fn handle_record_macro_key(state: &mut AppState, key: KeyEvent, now_us: u64, fresh_id: String) -> (r: Vec<
    SideEffect,
>)
    requires
        old(state).mode is RecordMacro,
        old(state)@.mappings.len() < usize::MAX,
        key.code == KeyCode::Enter ==> (old(state)@.learn_state matches Some(
            LearnStateView::RecordingMacro { steps, .. },
        ) ==> normalize_in_range(steps)),
    ensures
        (final(state)@, effect_views(r@)) == record_macro_key(old(state)@, key, now_us, fresh_id@),
{
    if key.code == KeyCode::Esc {
        state.mode = AppMode::Setup;
        state.learn_state = None;
        state.learned_trigger = None;
        log_str(state, "Macro recording cancelled");
        return nothing();
    }
    if key.code == KeyCode::Enter {
        let taken = state.learn_state.take();
        match taken {
            Some(LearnState::RecordingMacro { steps, .. }) => {
                let normalized = normalize_macro(steps.as_slice());
                if normalized.len() == 0 {
                    log_str(state, "Macro recording empty, discarded");
                } else {
                    let spec = MacroSpec {
                        steps: normalized,
                        playback_mode: PlaybackMode::FireAndForget,
                    };
                    finalize_action(state, OutputAction::Macro { spec }, fresh_id);
                    return nothing();
                }
            },
            _ => {},
        }
        state.mode = AppMode::Setup;
        return nothing();
    }
    let taken = state.learn_state.take();
    match taken {
        Some(LearnState::RecordingMacro { started_at_us, last_at_us, steps }) => {
            let mut steps = steps;
            let mut last = last_at_us;
            if let Some(k) = crossterm_key_to_keyspec(&key) {
                steps = capture_tap(steps, last_at_us, now_us, k);
                last = now_us;
            }
            state.learn_state = Some(LearnState::RecordingMacro { started_at_us, last_at_us: last, steps });
        },
        other => {
            state.learn_state = other;
        },
    }
    nothing()
}

fn handle_edit_menu_key(state: &mut AppState, key: KeyEvent) -> (r: Vec<SideEffect>)
    requires
        old(state).mode is EditMenu,
        key.code == KeyCode::Down ==> old(state).edit_menu_index < usize::MAX,
    ensures
        (final(state)@, effect_views(r@)) == edit_menu_key(old(state)@, key),
{
    match key.code {
        KeyCode::Esc => {
            state.mode = AppMode::Setup;
            log_str(state, "Edit menu closed");
        },
        KeyCode::Up => {
            if state.edit_menu_index > 0 {
                state.edit_menu_index = state.edit_menu_index - 1;
            }
        },
        KeyCode::Down => {
            if state.edit_menu_index + 1 < 6 {
                state.edit_menu_index = state.edit_menu_index + 1;
            }
        },
        KeyCode::Enter => {
            if state.edit_menu_index == 0 {
                state.mode = AppMode::TextInput;
                state.text_input_buffer = match state.selected_mapping_ref() {
                    Some(m) => m.name.clone(),
                    None => String::new(),
                };
                state.text_input_purpose = TextInputPurpose::MappingName;
                log_str(state, "Enter new mapping name...");
            } else if state.edit_menu_index == 1 {
                state.mode = AppMode::LearnAction;
                state.action_menu_open = true;
                state.action_menu_index = 0;
                log_str(state, "Edit mapping action: choose action type");
            } else if state.edit_menu_index == 2 {
                state.mode = AppMode::TextInput;
                state.text_input_buffer = match state.selected_mapping_ref() {
                    Some(m) => {
                        let mut t = String::new();
                        push_decimal(&mut t, m.options.debounce_ms);
                        assert(t@ =~= crate::text::decimal(m.options.debounce_ms as nat));
                        t
                    },
                    None => owned("50"),
                };
                state.text_input_purpose = TextInputPurpose::DebounceMs;
                log_str(state, "Enter debounce value in ms...");
            } else if 3 <= state.edit_menu_index && state.edit_menu_index <= 5 {
                toggle_option(state, state.edit_menu_index);
            }
        },
        _ => {},
    }
    nothing()
}

fn toggle_option(state: &mut AppState, which: usize)
    requires
        3 <= which <= 5,
    ensures
        final(state)@ == crate::app::model::toggled_option(old(state)@, which as int),
{
    if let Some(idx) = state.selected_mapping {
        if idx < state.mappings.len() {
            let mut m = state.mappings[idx].clone();
            let mut msg;
            if which == 3 {
                m.options.suppress_retrigger_while_held = !m.options.suppress_retrigger_while_held;
                msg = owned("Suppress retrigger: ");
                push_bool(&mut msg, m.options.suppress_retrigger_while_held);
            } else if which == 4 {
                m.options.trigger_on_value_change_only = !m.options.trigger_on_value_change_only;
                msg = owned("Trigger on value change only: ");
                push_bool(&mut msg, m.options.trigger_on_value_change_only);
            } else {
                m.options.allow_overlap = !m.options.allow_overlap;
                msg = owned("Allow overlap: ");
                push_bool(&mut msg, m.options.allow_overlap);
            }
            proof {
                mapping_views_update(state.mappings@, idx as int, m);
            }
            state.mappings.set(idx, m);
            state.dirty = true;
            state.add_log(msg);
        }
    }
}

#[verifier::rlimit(40)]
fn handle_text_input_key(state: &mut AppState, key: KeyEvent, fresh_id: String) -> (r: Vec<
    SideEffect,
>)
    requires
        old(state).mode is TextInput,
        old(state)@.mappings.len() < usize::MAX,
        key.code == KeyCode::Enter && old(state).text_input_purpose == TextInputPurpose::TextAction
            ==> text_preview_fits(old(state)@.text_input_buffer),
    ensures
        (final(state)@, effect_views(r@)) == text_input_key(old(state)@, key, fresh_id@),
{
    match key.code {
        KeyCode::Esc => {
            state.mode = AppMode::Setup;
            state.text_input_buffer = String::new();
            state.learned_trigger = None;
            log_str(state, "Text input cancelled");
        },
        KeyCode::Enter => {
            let text = state.text_input_buffer.clone();
            state.text_input_buffer = String::new();
            match state.text_input_purpose {
                TextInputPurpose::TextAction => {
                    if text.as_str().is_empty() {
                        log_str(state, "Empty text, discarded");
                        state.mode = AppMode::Setup;
                    } else {
                        finalize_action(state, OutputAction::Text { text }, fresh_id);
                    }
                },
                TextInputPurpose::MappingName => {
                    if !text.as_str().is_empty() {
                        if let Some(idx) = state.selected_mapping {
                            let old_name = if idx < state.mappings.len() {
                                state.mappings[idx].name.clone()
                            } else {
                                String::new()
                            };
                            if idx < state.mappings.len() {
                                let mut m = state.mappings[idx].clone();
                                m.name = text.clone();
                                proof {
                                    mapping_views_update(state.mappings@, idx as int, m);
                                }
                                state.mappings.set(idx, m);
                                state.dirty = true;
                            }
                            let mut msg = owned("Renamed '");
                            append_str(&mut msg, old_name.as_str());
                            append_str(&mut msg, "' -> '");
                            append_str(&mut msg, text.as_str());
                            append_str(&mut msg, "'");
                            state.add_log(msg);
                        }
                    } else {
                        log_str(state, "Empty name, keeping previous");
                    }
                    state.mode = AppMode::Setup;
                },
                TextInputPurpose::DebounceMs => {
                    let chars = chars_of(text.as_str());
                    match parse_unsigned_exec(&chars, u64::MAX) {
                        Some(ms) => {
                            if let Some(idx) = state.selected_mapping {
                                if idx < state.mappings.len() {
                                    let mut m = state.mappings[idx].clone();
                                    m.options.debounce_ms = ms;
                                    proof {
                                        mapping_views_update(state.mappings@, idx as int, m);
                                    }
                                    state.mappings.set(idx, m);
                                    state.dirty = true;
                                    let mut msg = owned("Debounce set to ");
                                    push_decimal(&mut msg, ms);
                                    append_str(&mut msg, "ms");
                                    state.add_log(msg);
                                }
                            }
                        },
                        None => {
                            log_str(state, "Invalid number, keeping previous debounce");
                        },
                    }
                    state.mode = AppMode::Setup;
                },
                TextInputPurpose::Idle => {
                    state.mode = AppMode::Setup;
                },
            }
        },
        KeyCode::Backspace => {
            pop_char(&mut state.text_input_buffer);
        },
        KeyCode::Char(c) => {
            push_char(&mut state.text_input_buffer, c);
        },
        _ => {},
    }
    nothing()
}

fn handle_select_device_key(state: &mut AppState, key: KeyEvent) -> (r: Vec<SideEffect>)
    requires
        old(state).mode is SelectDevice,
        key.code == KeyCode::Down ==> old(state).device_list_index < usize::MAX,
    ensures
        (final(state)@, effect_views(r@)) == select_device_key(old(state)@, key),
{
    match key.code {
        KeyCode::Esc => {
            state.mode = AppMode::Setup;
        },
        KeyCode::Up => {
            if state.device_list_index > 0 {
                state.device_list_index = state.device_list_index - 1;
            }
        },
        KeyCode::Down => {
            if state.device_list_index + 1 < state.midi_devices.len() {
                state.device_list_index = state.device_list_index + 1;
            }
        },
        KeyCode::Enter => {
            if state.midi_devices.len() > 0 {
                let idx = state.device_list_index;
                state.mode = AppMode::Setup;
                return one(SideEffect::ConnectDevice(idx));
            }
        },
        KeyCode::Char(c) => {
            if c == 'r' {
                return one(SideEffect::RefreshDevices);
            }
        },
        _ => {},
    }
    nothing()
}

fn handle_confirm_dialog_key(state: &mut AppState, key: KeyEvent) -> (r: Vec<SideEffect>)
    ensures
        (final(state)@, effect_views(r@)) == confirm_key(old(state)@, key),
{
    if key.code == KeyCode::Char('y') || key.code == KeyCode::Char('Y') {
        if state.confirm_purpose == Some(ConfirmPurpose::Quit) {
            state.should_quit = true;
            return one(SideEffect::Quit);
        }
        if state.confirm_purpose == Some(ConfirmPurpose::DeleteMapping) {
            if let Some(idx) = state.selected_mapping {
                if idx < state.mappings.len() {
                    let ghost before = state.mappings@;
                    let removed = state.mappings.remove(idx);
                    assert(crate::config::model::mapping_views(state.mappings@) =~= crate::config::model::mapping_views(before).remove(idx as int));
                    let mut line = owned("Deleted mapping '");
                    append_str(&mut line, removed.name.as_str());
                    append_str(&mut line, "'");
                    state.add_log(line);
                    state.dirty = true;
                    if state.mappings.len() == 0 {
                        state.selected_mapping = None;
                    } else if idx < state.mappings.len() - 1 {
                        state.selected_mapping = Some(idx);
                    } else {
                        state.selected_mapping = Some(state.mappings.len() - 1);
                    }
                }
            }
        }
        state.mode = AppMode::Setup;
        state.confirm_purpose = None;
        nothing()
    } else if key.code == KeyCode::Char('n') || key.code == KeyCode::Char('N') || key.code
        == KeyCode::Esc {
        state.mode = AppMode::Setup;
        state.confirm_purpose = None;
        nothing()
    } else {
        nothing()
    }
}

fn handle_error_dialog_key(state: &mut AppState, key: KeyEvent) -> (r: Vec<SideEffect>)
    requires
        old(state).mode is ErrorDialog,
    ensures
        (final(state)@, effect_views(r@)) == error_key(old(state)@, key),
{
    if key.code == KeyCode::Enter || key.code == KeyCode::Esc {
        state.mode = AppMode::Setup;
    }
    nothing()
}


/// Process a terminal key event and return the side effects it asks for.
/// The clock is read and a fresh random mapping id drawn; the result is what
/// `handle_key_event_at` gives for those values. F12 toggles the panic stop
/// in every mode and changes nothing else but the log.
pub fn handle_key_event(state: &mut AppState, key: KeyEvent) -> (r: Vec<SideEffect>)
    requires
        key_in_range(old(state)@, key),
    ensures
        exists|now_us: u64, fresh_id: Seq<char>|
            random_uuid_text(fresh_id) && (final(state)@, effect_views(r@)) == #[trigger] key_step(
                old(state)@,
                key,
                now_us,
                fresh_id,
            ),
        key.code == KeyCode::F(12) ==> {
            &&& final(state)@.panic_stop == !old(state)@.panic_stop
            &&& final(state)@.mode == old(state)@.mode
            &&& final(state)@.mappings == old(state)@.mappings
            &&& effect_views(r@) == no_effect()
        },
{
    let now_us = state.clock.elapsed_us();
    let fresh_id = new_mapping_id();
    let ghost id = fresh_id@;
    let r = handle_key_event_at(state, key, now_us, fresh_id);
    assert((final(state)@, effect_views(r@)) == key_step(old(state)@, key, now_us, id));
    r
}

/// Process a terminal key event at clock reading `now_us`; a mapping created
/// by it gets the id `fresh_id`.
pub fn handle_key_event_at(state: &mut AppState, key: KeyEvent, now_us: u64, fresh_id: String) -> (r:
    Vec<SideEffect>)
    requires
        key_in_range(old(state)@, key),
    ensures
        (final(state)@, effect_views(r@)) == key_step(old(state)@, key, now_us, fresh_id@),
{
    if key.code == KeyCode::F(12) {
        return handle_panic_stop(state);
    }
    match state.mode {
        AppMode::Setup => handle_setup_key(state, key),
        AppMode::Run => handle_run_key(state, key),
        AppMode::LearnMidi => handle_learn_midi_key(state, key),
        AppMode::LearnAction => handle_learn_action_key(state, key, now_us, fresh_id),
        AppMode::RecordMacro => handle_record_macro_key(state, key, now_us, fresh_id),
        AppMode::TextInput => handle_text_input_key(state, key, fresh_id),
        AppMode::SelectDevice => handle_select_device_key(state, key),
        AppMode::EditMenu => handle_edit_menu_key(state, key),
        AppMode::ConfirmDialog(_) => handle_confirm_dialog_key(state, key),
        AppMode::ErrorDialog(_) => handle_error_dialog_key(state, key),
    }
}


proof fn lemma_timer_index_extends(t: Seq<(Seq<char>, u64)>, id: Seq<char>, k: int)
    requires
        0 <= k <= t.len(),
        timer_index(t.take(k), id) is Some,
    ensures
        timer_index(t, id) == timer_index(t.take(k), id),
    decreases t.len() - k,
{
    if k < t.len() {
        assert(t.take(k + 1).drop_last() =~= t.take(k));
        lemma_timer_index_extends(t, id, k + 1);
    } else {
        assert(t.take(k) =~= t);
    }
}

proof fn lemma_timer_index_bound(t: Seq<(Seq<char>, u64)>, id: Seq<char>)
    ensures
        timer_index(t, id) matches Some(j) ==> 0 <= j < t.len() && t[j].0 == id,
    decreases t.len(),
{
    if t.len() > 0 {
        lemma_timer_index_bound(t.drop_last(), id);
    }
}

/// The position of the first timer of mapping `id`.
fn find_timer(timers: &Vec<DebounceTimer>, id: &String) -> (r: Option<usize>)
    ensures
        r matches Some(j) ==> timer_index(timer_views(timers@), id@) == Some(j as int) && j
            < timers@.len(),
        r is None ==> timer_index(timer_views(timers@), id@) is None,
{
    let ghost t = timer_views(timers@);
    let mut i: usize = 0;
    while i < timers.len()
        invariant
            t == timer_views(timers@),
            i <= timers@.len(),
            timer_index(t.take(i as int), id@) is None,
        decreases timers@.len() - i,
    {
        proof {
            assert(t.take(i + 1).drop_last() =~= t.take(i as int));
        }
        if timers[i].mapping_id == *id {
            proof {
                lemma_timer_index_extends(t, id@, i + 1);
            }
            return Some(i);
        }
        i = i + 1;
    }
    assert(t.take(i as int) =~= t);
    None
}

/// When mapping `id` last fired, if it has.
fn timer_lookup(timers: &Vec<DebounceTimer>, id: &String) -> (r: Option<u64>)
    ensures
        r == timer_of(timer_views(timers@), id@),
{
    proof {
        lemma_timer_index_bound(timer_views(timers@), id@);
    }
    match find_timer(timers, id) {
        Some(j) => {
            assert(timer_index(timer_views(timers@), id@) == Some(j as int));
            assert(timer_views(timers@)[j as int].1 == timers@[j as int].fired_at_us);
            Some(timers[j].fired_at_us)
        },
        None => None,
    }
}

/// Records that mapping `id` fired at `now_us`.
fn timer_record(timers: &mut Vec<DebounceTimer>, id: &String, now_us: u64)
    ensures
        timer_views(final(timers)@) == timer_set(timer_views(old(timers)@), id@, now_us),
{
    proof {
        lemma_timer_index_bound(timer_views(timers@), id@);
    }
    match find_timer(timers, id) {
        Some(j) => {
            timers.set(j, DebounceTimer { mapping_id: id.clone(), fired_at_us: now_us });
        },
        None => {
            timers.push(DebounceTimer { mapping_id: id.clone(), fired_at_us: now_us });
        },
    }
    assert(timer_views(timers@) =~= timer_set(timer_views(old(timers)@), id@, now_us));
}

proof fn lemma_knob_mode_extends(ms: Seq<crate::config::model::MappingView>, ch: u8, ctrl: u8, k: int)
    requires
        0 <= k <= ms.len(),
        knob_mode_for(ms.take(k), ch, ctrl) is Some,
    ensures
        knob_mode_for(ms, ch, ctrl) == knob_mode_for(ms.take(k), ch, ctrl),
    decreases ms.len() - k,
{
    if k < ms.len() {
        assert(ms.take(k + 1).drop_last() =~= ms.take(k));
        lemma_knob_mode_extends(ms, ch, ctrl, k + 1);
    } else {
        assert(ms.take(k) =~= ms);
    }
}

/// The mode of the first knob mapping on `(channel, controller)`.
fn knob_mode_lookup(mappings: &Vec<Mapping>, channel: u8, controller: u8) -> (r: Option<KnobMode>)
    ensures
        r == knob_mode_for(crate::config::model::mapping_views(mappings@), channel, controller),
{
    let ghost ms = crate::config::model::mapping_views(mappings@);
    let mut i: usize = 0;
    while i < mappings.len()
        invariant
            ms == crate::config::model::mapping_views(mappings@),
            i <= mappings@.len(),
            knob_mode_for(ms.take(i as int), channel, controller) is None,
        decreases mappings@.len() - i,
    {
        proof {
            assert(ms.take(i + 1).drop_last() =~= ms.take(i as int));
            assert(ms.take(i + 1).last() == mappings@[i as int]@);
        }
        match mappings[i].trigger {
            MidiTrigger::KnobRotation { channel: c, controller: k, mode, .. } => {
                if c == channel && k == controller {
                    proof {
                        lemma_knob_mode_extends(ms, channel, controller, i + 1);
                    }
                    return Some(mode);
                }
            },
            _ => {},
        }
        i = i + 1;
    }
    assert(ms.take(i as int) =~= ms);
    None
}

fn trigger_cc_key(t: &MidiTrigger) -> (r: Option<(u8, u8)>)
    ensures
        r == cc_key(*t),
{
    match *t {
        MidiTrigger::ControlChange { channel, controller, .. } => Some((channel, controller)),
        MidiTrigger::KnobRotation { channel, controller, .. } => Some((channel, controller)),
        _ => None,
    }
}

/// Whether mapping `i` fires for `event` at `now_us`.
fn mapping_fires(state: &AppState, i: usize, event: &MidiEvent, now_us: u64) -> (b: bool)
    requires
        i < state.mappings@.len(),
    ensures
        b == fires(
            state@.mappings[i as int],
            *event,
            state@.debounce_timers,
            state@.last_cc_values,
            now_us,
        ),
{
    let m = &state.mappings[i];
    if !m.enabled {
        return false;
    }
    if !event_matches_trigger(event, &m.trigger) {
        return false;
    }
    if m.options.debounce_ms > 0 {
        if let Some(last) = timer_lookup(&state.debounce_timers, &m.id) {
            let elapsed = if now_us >= last {
                (now_us - last) / 1000
            } else {
                0
            };
            if elapsed < m.options.debounce_ms {
                return false;
            }
        }
    }
    if m.options.trigger_on_value_change_only {
        if let Some((ch, ctrl)) = trigger_cc_key(&m.trigger) {
            if let Some(raw) = event.raw_value {
                if let Some(last) = state.last_cc_values.get(ch, ctrl) {
                    if last == raw {
                        return false;
                    }
                }
            }
        }
    }
    true
}

proof fn lemma_fired_stays(
    ms: Seq<crate::config::model::MappingView>,
    j: nat,
    k: nat,
    event: MidiEvent,
    timers: Seq<(Seq<char>, u64)>,
    cc: Map<(u8, u8), u8>,
    now_us: u64,
)
    requires
        j <= k <= ms.len(),
        fired_prefix(ms, j, event, timers, cc, now_us).len() > 0,
        !ms[fired_prefix(ms, j, event, timers, cc, now_us).last()].options.allow_overlap,
    ensures
        fired_prefix(ms, k, event, timers, cc, now_us) == fired_prefix(ms, j, event, timers, cc, now_us),
    decreases k - j,
{
    if j < k {
        lemma_fired_stays(ms, j, (k - 1) as nat, event, timers, cc, now_us);
    }
}

proof fn lemma_fired_bounds(
    ms: Seq<crate::config::model::MappingView>,
    k: nat,
    event: MidiEvent,
    timers: Seq<(Seq<char>, u64)>,
    cc: Map<(u8, u8), u8>,
    now_us: u64,
)
    requires
        k <= ms.len(),
    ensures
        forall|x: int|
            0 <= x < fired_prefix(ms, k, event, timers, cc, now_us).len() ==> 0 <= #[trigger] fired_prefix(
                ms,
                k,
                event,
                timers,
                cc,
                now_us,
            )[x] < k,
    decreases k,
{
    if k > 0 {
        lemma_fired_bounds(ms, (k - 1) as nat, event, timers, cc, now_us);
        let prev = fired_prefix(ms, (k - 1) as nat, event, timers, cc, now_us);
        let cur = fired_prefix(ms, k, event, timers, cc, now_us);
        assert forall|x: int| 0 <= x < cur.len() implies 0 <= #[trigger] cur[x] < k by {
            if x < prev.len() {
                assert(cur[x] == prev[x]);
            }
        }
    }
}

/// Finds the mappings that fire for `event`, in order, and the commands they
/// ask for.
fn find_fired(state: &AppState, event: &MidiEvent, now_us: u64) -> (r: (Vec<usize>, Vec<SideEffect>))
    ensures
        r.0@.map_values(|i: usize| i as int) == fired(state@, *event, now_us),
        effect_views(r.1@) == fired_effects(state@.mappings, fired(state@, *event, now_us)),
{
    let ghost ms = state@.mappings;
    let ghost timers = state@.debounce_timers;
    let ghost cc = state@.last_cc_values;
    let mut idxs: Vec<usize> = Vec::new();
    let mut effects: Vec<SideEffect> = Vec::new();
    let mut stop = false;
    let mut i: usize = 0;
    while i < state.mappings.len() && !stop
        invariant
            ms == state@.mappings,
            timers == state@.debounce_timers,
            cc == state@.last_cc_values,
            ms.len() == state.mappings@.len(),
            i <= ms.len(),
            idxs@.map_values(|x: usize| x as int) == fired_prefix(ms, i as nat, *event, timers, cc, now_us),
            effect_views(effects@) == fired_effects(ms, fired_prefix(ms, i as nat, *event, timers, cc, now_us)),
            stop == (idxs@.len() > 0 && !ms[idxs@.last() as int].options.allow_overlap),
        decreases ms.len() - i,
    {
        let ghost prev = fired_prefix(ms, i as nat, *event, timers, cc, now_us);
        proof {
            assert(prev.len() == idxs@.len());
            if idxs@.len() > 0 {
                assert(prev.last() == idxs@.last() as int);
            }
        }
        if mapping_fires(state, i, event, now_us) {
            let m = &state.mappings[i];
            let cmd = ActionCommand { mapping_id: m.id.clone(), action: m.action.clone() };
            let ghost cmd_view = cmd@;
            let ghost old_idxs = idxs@;
            let ghost old_effects = effects@;
            idxs.push(i);
            effects.push(SideEffect::ExecuteAction(cmd));
            proof {
                let next = fired_prefix(ms, (i + 1) as nat, *event, timers, cc, now_us);
                assert(next == prev.push(i as int));
                assert(idxs@.map_values(|x: usize| x as int) =~= next);
                assert(ms[i as int] == state.mappings@[i as int]@);
                assert(cmd_view == ActionCommandView { mapping_id: ms[i as int].id, action: ms[i as int].action });
                assert(effect_views(effects@) =~= effect_views(old_effects).push(SideEffectView::ExecuteAction(cmd_view)));
                assert(fired_effects(ms, next) =~= fired_effects(ms, prev).push(SideEffectView::ExecuteAction(cmd_view)));
            }
            if !m.options.allow_overlap {
                stop = true;
            }
        }
        i = i + 1;
    }
    proof {
        if stop {
            lemma_fired_stays(ms, i as nat, ms.len(), *event, timers, cc, now_us);
        }
    }
    (idxs, effects)
}

proof fn lemma_apply_fired_keeps_mappings(s: AppStateView, event: MidiEvent, idxs: Seq<int>, now_us: u64)
    ensures
        apply_fired(s, event, idxs, now_us).mappings == s.mappings,
    decreases idxs.len(),
{
    if idxs.len() > 0 {
        lemma_apply_fired_keeps_mappings(s, event, idxs.drop_last(), now_us);
    }
}

/// Fires mapping `i`: remembers its CC value if it is value-change-only,
/// sets its timer, and shows and logs it.
fn fire_mapping(state: &mut AppState, i: usize, event: &MidiEvent, now_us: u64)
    requires
        i < old(state).mappings@.len(),
        crate::config::model::action_text_fits(old(state)@.mappings[i as int].action),
    ensures
        final(state)@ == apply_one(old(state)@, *event, i as int, now_us),
{
    let mut line = state.mappings[i].name.clone();
    append_str(&mut line, ": ");
    state.mappings[i].action.push_text(&mut line);
    if state.mappings[i].options.trigger_on_value_change_only {
        if let Some((ch, ctrl)) = trigger_cc_key(&state.mappings[i].trigger) {
            if let Some(raw) = event.raw_value {
                state.last_cc_values.insert(ch, ctrl, raw);
            }
        }
    }
    let id = state.mappings[i].id.clone();
    timer_record(&mut state.debounce_timers, &id, now_us);
    let mut entry = owned("\u{25b6} ");
    append_str(&mut entry, line.as_str());
    state.last_action = Some(line);
    state.add_log(entry);
}

fn match_and_execute(state: &mut AppState, event: &MidiEvent, now_us: u64) -> (r: Vec<SideEffect>)
    requires
        fired_fit(old(state)@, *event, now_us),
    ensures
        (final(state)@, effect_views(r@)) == match_step(old(state)@, *event, now_us),
{
    let (idxs, effects) = find_fired(state, event, now_us);
    let ghost s0 = state@;
    let ghost all = fired(s0, *event, now_us);
    proof {
        lemma_fired_bounds(s0.mappings, s0.mappings.len(), *event, s0.debounce_timers, s0.last_cc_values, now_us);
    }
    let mut j: usize = 0;
    while j < idxs.len()
        invariant
            idxs@.map_values(|x: usize| x as int) == all,
            all == fired(s0, *event, now_us),
            fired_fit(s0, *event, now_us),
            forall|x: int| 0 <= x < all.len() ==> 0 <= #[trigger] all[x] < s0.mappings.len(),
            j <= idxs@.len(),
            state@ == apply_fired(s0, *event, all.take(j as int), now_us),
        decreases idxs@.len() - j,
    {
        proof {
            lemma_apply_fired_keeps_mappings(s0, *event, all.take(j as int), now_us);
            assert(all[j as int] == idxs@[j as int] as int);
            assert(action_text_fits(s0.mappings[all[j as int]].action));
            assert(all.take(j + 1).drop_last() =~= all.take(j as int));
        }
        fire_mapping(state, idxs[j], event, now_us);
        j = j + 1;
    }
    assert(all.take(j as int) =~= all);
    effects
}


/// Learn MIDI mode: takes the event as trigger, or collects knob values.
fn handle_learn_midi_event(state: &mut AppState, event: &MidiEvent, summary: String) -> (r: Vec<
    SideEffect,
>)
    requires
        summary@ == crate::midi::trigger::trigger_text(event.trigger),
    ensures
        (final(state)@, effect_views(r@)) == learn_midi_event(old(state)@, *event),
{
    let waiting = match state.learn_state {
        Some(LearnState::WaitingForMidi) => true,
        _ => false,
    };
    if waiting {
        match (event.trigger, event.raw_value) {
            (MidiTrigger::ControlChange { channel, controller, .. }, Some(val)) => {
                let values = vec![val];
                assert(values@ =~= seq![val]);
                state.learn_state = Some(LearnState::KnobDetected { channel, controller, values });
                let mut msg = owned("CC detected on ch=");
                push_decimal(&mut msg, channel as u64);
                append_str(&mut msg, " ctrl=");
                push_decimal(&mut msg, controller as u64);
                append_str(&mut msg, ". Knob detected. Configure as rotary knob? [Y/N]");
                state.add_log(msg);
                return nothing();
            },
            _ => {
                state.learned_trigger = Some(event.trigger);
                let mut msg = owned("Learned trigger: ");
                append_str(&mut msg, summary.as_str());
                state.add_log(msg);
                enter_action_menu(state, "Choose action type for this mapping");
                return nothing();
            },
        }
    }
    let mut pushed: Option<LearnState> = None;
    match &state.learn_state {
        Some(LearnState::KnobDetected { channel, controller, values }) => {
            match (event.trigger, event.raw_value) {
                (MidiTrigger::ControlChange { channel: ec, controller: ecc, .. }, Some(val)) => {
                    if ec == *channel && ecc == *controller {
                        let mut nv = values.clone();
                        nv.push(val);
                        pushed = Some(
                            LearnState::KnobDetected {
                                channel: *channel,
                                controller: *controller,
                                values: nv,
                            },
                        );
                    }
                },
                _ => {},
            }
        },
        _ => {},
    }
    if pushed.is_some() {
        state.learn_state = pushed;
    }
    nothing()
}

/// Gives a CC event on a knob mapping's controller its direction; an
/// absolute knob's value is remembered.
fn give_direction(state: &mut AppState, event: MidiEvent) -> (e: MidiEvent)
    ensures
        (final(state)@, e) == with_direction(old(state)@, event),
{
    let mut event = event;
    match (event.trigger, event.raw_value) {
        (MidiTrigger::ControlChange { channel, controller, .. }, Some(raw)) => {
            match knob_mode_lookup(&state.mappings, channel, controller) {
                Some(mode) => {
                    let direction = match mode {
                        KnobMode::Absolute => state.knob_state.detect_direction_absolute(
                            channel,
                            controller,
                            raw,
                        ),
                        _ => detect_direction_relative(raw, &mode),
                    };
                    event.knob_direction = direction;
                },
                None => {},
            }
        },
        _ => {},
    }
    event
}

/// The event as run mode matches it, with its knob direction.
fn direction_of(state: &AppState, event: MidiEvent) -> (e: MidiEvent)
    ensures
        e == with_direction(state@, event).1,
{
    let mut event = event;
    match (event.trigger, event.raw_value) {
        (MidiTrigger::ControlChange { channel, controller, .. }, Some(raw)) => {
            match knob_mode_lookup(&state.mappings, channel, controller) {
                Some(mode) => {
                    let direction = match mode {
                        KnobMode::Absolute => {
                            match state.knob_state.last_values.get(channel, controller) {
                                Some(p) => {
                                    if raw > p {
                                        Some(KnobDirection::Clockwise)
                                    } else if raw < p {
                                        Some(KnobDirection::CounterClockwise)
                                    } else {
                                        None
                                    }
                                },
                                None => None,
                            }
                        },
                        _ => detect_direction_relative(raw, &mode),
                    };
                    event.knob_direction = direction;
                },
                None => {},
            }
        },
        _ => {},
    }
    event
}

/// Process a MIDI event at clock reading `now_us` and return the side effects
/// it asks for.
pub fn handle_midi_event_at(state: &mut AppState, event: MidiEvent, now_us: u64) -> (r: Vec<
    SideEffect,
>)
    requires
        midi_fits(old(state)@, event, now_us),
    ensures
        (final(state)@, effect_views(r@)) == midi_step(old(state)@, event, now_us),
{
    let summary = event.trigger.display_string();
    state.last_midi_event = Some(summary.clone());
    let mut line = owned("MIDI: ");
    append_str(&mut line, summary.as_str());
    state.add_log(line);
    let takes = match state.learn_state {
        Some(LearnState::WaitingForMidi) => true,
        Some(LearnState::KnobDetected { .. }) => true,
        Some(LearnState::KnobLearnCW { .. }) => true,
        Some(LearnState::KnobLearnCCW { .. }) => true,
        _ => false,
    };
    let (learning, running) = match state.mode {
        AppMode::LearnMidi => (true, false),
        AppMode::Run => (false, true),
        _ => (false, false),
    };
    if learning && takes {
        return handle_learn_midi_event(state, &event, summary);
    }
    if running && !state.panic_stop {
        assert(state@ == shown(old(state)@, event));
        let e2 = give_direction(state, event);
        return match_and_execute(state, &e2, now_us);
    }
    nothing()
}

/// Process a MIDI event, reading the clock; the result is what
/// `handle_midi_event_at` gives for that reading.
pub fn handle_midi_event(state: &mut AppState, event: MidiEvent) -> (r: Vec<SideEffect>)
    requires
        forall|now_us: u64| #[trigger] midi_fits(old(state)@, event, now_us),
    ensures
        exists|now_us: u64| (final(state)@, effect_views(r@)) == #[trigger] midi_step(old(state)@, event, now_us),
{
    let now_us = state.clock.elapsed_us();
    assert(midi_fits(old(state)@, event, now_us));
    handle_midi_event_at(state, event, now_us)
}

/// Whether a MIDI event can be handled at `now_us` (`midi_fits`), as
/// `handle_midi_event_at` asks.
pub fn midi_event_fits(state: &AppState, event: &MidiEvent, now_us: u64) -> (b: bool)
    ensures
        b == midi_fits(state@, *event, now_us),
{
    let running = match state.mode {
        AppMode::Run => true,
        _ => false,
    };
    if !running || state.panic_stop {
        return true;
    }
    let e2 = direction_of(state, *event);
    let ghost s2 = with_direction(shown(state@, *event), *event).0;
    assert(e2 == with_direction(shown(state@, *event), *event).1);
    assert(fired(s2, e2, now_us) == fired(state@, e2, now_us));
    assert(s2.mappings == state@.mappings);
    let (idxs, _effects) = find_fired(state, &e2, now_us);
    let ghost all = fired(state@, e2, now_us);
    proof {
        lemma_fired_bounds(state@.mappings, state@.mappings.len(), e2, state@.debounce_timers, state@.last_cc_values, now_us);
    }
    let mut j: usize = 0;
    while j < idxs.len()
        invariant
            idxs@.map_values(|x: usize| x as int) == all,
            forall|x: int| 0 <= x < all.len() ==> 0 <= #[trigger] all[x] < state@.mappings.len(),
            j <= idxs@.len(),
            forall|x: int| 0 <= x < j ==> action_text_fits(#[trigger] state@.mappings[all[x]].action),
            all == fired(s2, e2, now_us),
            s2.mappings == state@.mappings,
            e2 == with_direction(shown(state@, *event), *event).1,
            s2 == with_direction(shown(state@, *event), *event).0,
            state@.mode is Run,
            !state@.panic_stop,
        decreases idxs@.len() - j,
    {
        assert(all[j as int] == idxs@[j as int] as int);
        let fits = match &state.mappings[idxs[j]].action {
            OutputAction::Text { text } => crate::config::model::preview_fits(text.as_str()),
            _ => true,
        };
        if !fits {
            assert(!action_text_fits(s2.mappings[fired(s2, e2, now_us)[j as int]].action));
            assert(!fired_fit(s2, e2, now_us));
            return false;
        }
        j = j + 1;
    }
    assert(idxs@.len() == all.len());
    assert(fired_fit(s2, e2, now_us));
    true
}

/// Whether `key` can be handled in `state` (`key_in_range`), as
/// `handle_key_event` asks.
pub fn key_acceptable(state: &AppState, key: &KeyEvent) -> (b: bool)
    ensures
        b == key_in_range(state@, *key),
{
    if state.mappings.len() == usize::MAX {
        return false;
    }
    if key.code == KeyCode::F(12) {
        return true;
    }
    match state.mode {
        AppMode::RecordMacro => {
            if key.code == KeyCode::Enter {
                match &state.learn_state {
                    Some(LearnState::RecordingMacro { steps, .. }) => {
                        return crate::config::model::macro_fits(steps.as_slice());
                    },
                    _ => {},
                }
            }
            true
        },
        AppMode::TextInput => {
            if key.code == KeyCode::Enter && state.text_input_purpose == TextInputPurpose::TextAction {
                return crate::config::model::preview_fits(state.text_input_buffer.as_str());
            }
            true
        },
        AppMode::EditMenu => !(key.code == KeyCode::Down && state.edit_menu_index == usize::MAX),
        AppMode::SelectDevice => !(key.code == KeyCode::Down && state.device_list_index
            == usize::MAX),
        _ => true,
    }
}

} // verus!
