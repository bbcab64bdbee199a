//! What the application state machine does, stated over the state's
//! mathematical value.

use vstd::prelude::*;

use crate::actions::executor::ActionCommandView;
use crate::app::state::{
    log_after, with_log, ActivePane, AppModeView, AppStateView, ConfirmPurpose, LearnStateView,
    TextInputPurpose,
};
use crate::config::model::{
    action_text, default_options, key_is_modifier, knob_mode_text, normalized, KeySpec, KnobMode,
    MacroSpecView, MacroStepView, MappingView, OutputActionView, PlaybackMode,
};
use crate::input::key_event::{KeyCode, KeyEvent};
use crate::midi::decode::{absolute_direction, event_matches, relative_direction, MidiEvent};
use crate::midi::trigger::{trigger_text, KnobRotationDirection, MidiTrigger};
use crate::text::{bool_text, contains_text, decimal, parse_unsigned};

verus! {

/// The mathematical value of a side effect.
pub enum SideEffectView {
    Quit,
    SaveConfig,
    ConnectDevice(usize),
    RefreshDevices,
    ExecuteAction(ActionCommandView),
    Nothing,
}

/// The answer to an event that asks for no side effect.
pub open spec fn no_effect() -> Seq<SideEffectView> {
    seq![SideEffectView::Nothing]
}

/// The key that a terminal key stands for, if any.
pub open spec fn key_spec_of(code: KeyCode) -> Option<KeySpec> {
    match code {
        KeyCode::Char(c) => Some(KeySpec::Char(c)),
        KeyCode::Enter => Some(KeySpec::Enter),
        KeyCode::Tab => Some(KeySpec::Tab),
        KeyCode::Esc => Some(KeySpec::Esc),
        KeyCode::Backspace => Some(KeySpec::Backspace),
        KeyCode::Up => Some(KeySpec::Up),
        KeyCode::Down => Some(KeySpec::Down),
        KeyCode::Left => Some(KeySpec::Left),
        KeyCode::Right => Some(KeySpec::Right),
        KeyCode::F(n) => Some(KeySpec::F(n)),
        KeyCode::Other => None,
    }
}

/// The state after an action is learned: a new mapping when a trigger was
/// learned (with the fresh id, a numbered name, and default options), or the
/// selected mapping's action replaced; then back to setup mode, except after
/// a clockwise knob mapping, when the counter-clockwise turn of the same knob
/// is learned next.
pub open spec fn finalized(s: AppStateView, action: OutputActionView, fresh_id: Seq<char>) -> AppStateView {
    let desc = action_text(action);
    let s1 = match s.learned_trigger {
        Some(trigger) => {
            let name = "Mapping "@ + decimal(s.mappings.len() + 1);
            let m = MappingView {
                id: fresh_id,
                name,
                enabled: true,
                trigger,
                action,
                options: default_options(),
            };
            let s2 = with_log(
                AppStateView { learned_trigger: None, ..s },
                "Created mapping: "@ + name + " -> "@ + desc,
            );
            AppStateView {
                mappings: s2.mappings.push(m),
                selected_mapping: Some(s.mappings.len() as usize),
                dirty: true,
                ..s2
            }
        },
        None => match s.selected_mapping {
            Some(idx) => if idx < s.mappings.len() {
                let old = s.mappings[idx as int];
                let s2 = AppStateView {
                    mappings: s.mappings.update(idx as int, MappingView { action, ..old }),
                    dirty: true,
                    ..s
                };
                if old.name.len() > 0 {
                    with_log(s2, "Updated '"@ + old.name + "' action: "@ + desc)
                } else {
                    s2
                }
            } else {
                s
            },
            None => s,
        },
    };
    match s.learned_trigger {
        Some(
            MidiTrigger::KnobRotation {
                channel,
                controller,
                direction: KnobRotationDirection::Clockwise,
                mode,
            },
        ) => with_log(
            AppStateView {
                mode: AppModeView::LearnMidi,
                learn_state: Some(LearnStateView::KnobLearnCCW { channel, controller, mode }),
                ..s1
            },
            "Now turn the knob COUNTER-CLOCKWISE and press Enter\u{2026}"@,
        ),
        _ => AppStateView { mode: AppModeView::Setup, learn_state: None, ..s1 },
    }
}

/// F12: toggle the panic stop, which suspends mapping execution.
pub open spec fn panic_stop_key(s: AppStateView) -> (AppStateView, Seq<SideEffectView>) {
    let s1 = AppStateView { panic_stop: !s.panic_stop, ..s };
    (
        with_log(
            s1,
            if s1.panic_stop {
                "\u{26a0} PANIC STOP: All mapping execution suspended"@
            } else {
                "\u{2713} Panic stop released"@
            },
        ),
        no_effect(),
    )
}

/// The next pane in focus order.
pub open spec fn next_pane(p: ActivePane) -> ActivePane {
    match p {
        ActivePane::MappingList => ActivePane::Details,
        ActivePane::Details => ActivePane::Log,
        ActivePane::Log => ActivePane::MappingList,
    }
}

/// Setup mode: the main keys of the mapping editor.
pub open spec fn setup_key(s: AppStateView, key: KeyEvent) -> (AppStateView, Seq<SideEffectView>) {
    match key.code {
        KeyCode::Char(c) => if c == 'q' {
            if s.dirty {
                (
                    AppStateView {
                        mode: AppModeView::ConfirmDialog("Unsaved changes. Quit anyway? (y/n)"@),
                        confirm_purpose: Some(ConfirmPurpose::Quit),
                        ..s
                    },
                    no_effect(),
                )
            } else {
                (AppStateView { should_quit: true, ..s }, seq![SideEffectView::Quit])
            }
        } else if c == 's' {
            (s, seq![SideEffectView::SaveConfig])
        } else if c == 'a' {
            (
                with_log(
                    AppStateView {
                        previous_mode: Some(AppModeView::Setup),
                        mode: AppModeView::LearnMidi,
                        learn_state: Some(LearnStateView::WaitingForMidi),
                        learned_trigger: None,
                        ..s
                    },
                    "Learn MIDI: press a pad/key/knob on your MIDI device..."@,
                ),
                no_effect(),
            )
        } else if c == 'e' {
            if s.selected_mapping is Some {
                (
                    with_log(
                        AppStateView { mode: AppModeView::EditMenu, edit_menu_index: 0, ..s },
                        "Edit mapping: choose what to edit"@,
                    ),
                    no_effect(),
                )
            } else {
                (s, no_effect())
            }
        } else if c == 'd' {
            match s.selected_mapping {
                Some(idx) => if idx < s.mappings.len() {
                    (
                        AppStateView {
                            mode: AppModeView::ConfirmDialog(
                                "Delete mapping '"@ + s.mappings[idx as int].name + "'? (y/n)"@,
                            ),
                            confirm_purpose: Some(ConfirmPurpose::DeleteMapping),
                            ..s
                        },
                        no_effect(),
                    )
                } else {
                    (s, no_effect())
                },
                None => (s, no_effect()),
            }
        } else if c == 'l' {
            if s.selected_mapping is Some {
                (
                    with_log(
                        AppStateView {
                            mode: AppModeView::LearnMidi,
                            learn_state: Some(LearnStateView::WaitingForMidi),
                            ..s
                        },
                        "Learn MIDI trigger for selected mapping..."@,
                    ),
                    no_effect(),
                )
            } else {
                (s, no_effect())
            }
        } else if c == 'r' {
            if s.midi_connected {
                (
                    with_log(
                        AppStateView { mode: AppModeView::Run, running: true, ..s },
                        "\u{25b6} Run mode active"@,
                    ),
                    no_effect(),
                )
            } else {
                (with_log(s, "Cannot enter run mode: no MIDI device connected"@), no_effect())
            }
        } else if c == ' ' {
            match s.selected_mapping {
                Some(idx) => if idx < s.mappings.len() {
                    let m = s.mappings[idx as int];
                    let m2 = MappingView { enabled: !m.enabled, ..m };
                    (
                        with_log(
                            AppStateView {
                                mappings: s.mappings.update(idx as int, m2),
                                dirty: true,
                                ..s
                            },
                            "Mapping '"@ + m.name + "' "@ + (if m2.enabled {
                                "enabled"@
                            } else {
                                "disabled"@
                            }),
                        ),
                        no_effect(),
                    )
                } else {
                    (s, no_effect())
                },
                None => (s, no_effect()),
            }
        } else if c == 'D' {
            (
                AppStateView { mode: AppModeView::SelectDevice, device_list_index: 0, ..s },
                seq![SideEffectView::RefreshDevices],
            )
        } else {
            (s, no_effect())
        },
        KeyCode::Tab => (AppStateView { active_pane: next_pane(s.active_pane), ..s }, no_effect()),
        KeyCode::Up => if s.active_pane == ActivePane::MappingList {
            match s.selected_mapping {
                Some(idx) => if idx > 0 {
                    (AppStateView { selected_mapping: Some((idx - 1) as usize), ..s }, no_effect())
                } else {
                    (s, no_effect())
                },
                None => (s, no_effect()),
            }
        } else {
            (s, no_effect())
        },
        KeyCode::Down => if s.active_pane == ActivePane::MappingList {
            let max: int = if s.mappings.len() > 0 {
                s.mappings.len() - 1
            } else {
                0
            };
            match s.selected_mapping {
                Some(idx) => if idx < max {
                    (AppStateView { selected_mapping: Some((idx + 1) as usize), ..s }, no_effect())
                } else {
                    (s, no_effect())
                },
                None => if s.mappings.len() > 0 {
                    (AppStateView { selected_mapping: Some(0), ..s }, no_effect())
                } else {
                    (s, no_effect())
                },
            }
        } else {
            (s, no_effect())
        },
        _ => (s, no_effect()),
    }
}

/// Run mode: stop, or quit.
pub open spec fn run_key(s: AppStateView, key: KeyEvent) -> (AppStateView, Seq<SideEffectView>) {
    if key.code == KeyCode::Char('r') || key.code == KeyCode::Esc {
        (
            with_log(
                AppStateView { mode: AppModeView::Setup, running: false, ..s },
                "\u{25a0} Run mode stopped"@,
            ),
            no_effect(),
        )
    } else if key.code == KeyCode::Char('q') {
        (AppStateView { running: false, should_quit: true, ..s }, seq![SideEffectView::Quit])
    } else {
        (s, no_effect())
    }
}

/// Whether some value lies in `lo..=hi`.
pub open spec fn has_value_in(values: Seq<u8>, lo: u8, hi: u8) -> bool {
    exists|i: int| 0 <= i < values.len() && lo <= #[trigger] values[i] <= hi
}

/// Whether consecutive values differ by at most 5.
pub open spec fn smooth_progression(values: Seq<u8>) -> bool {
    forall|i: int|
        0 <= i < values.len() - 1 ==> -5 <= (#[trigger] values[i + 1]) - values[i] <= 5
}

/// The knob mode guessed from observed CC values: relative (two's
/// complement) when the values jump and fall on both sides of the centre,
/// absolute otherwise.
pub open spec fn guessed_knob_mode(values: Seq<u8>) -> KnobMode {
    if values.len() == 0 {
        KnobMode::Absolute
    } else if smooth_progression(values) && values.len() >= 2 {
        KnobMode::Absolute
    } else if has_value_in(values, 1, 63) && has_value_in(values, 65, 127) {
        KnobMode::Relative1
    } else {
        KnobMode::Absolute
    }
}

/// After a trigger is learned: on to choosing its action.
pub open spec fn to_action_menu(s: AppStateView, msg: Seq<char>) -> AppStateView {
    with_log(
        AppStateView {
            mode: AppModeView::LearnAction,
            action_menu_open: true,
            action_menu_index: 0,
            learn_state: None,
            ..s
        },
        msg,
    )
}

/// Learn MIDI mode: cancel, or answer the knob prompts.
pub open spec fn learn_midi_key(s: AppStateView, key: KeyEvent) -> (AppStateView, Seq<SideEffectView>) {
    let s1 = match key.code {
        KeyCode::Esc => with_log(
            AppStateView {
                mode: match s.previous_mode {
                    Some(m) => m,
                    None => AppModeView::Setup,
                },
                previous_mode: None,
                learn_state: None,
                learned_trigger: None,
                ..s
            },
            "Learn MIDI cancelled"@,
        ),
        KeyCode::Char(c) => if c == 'y' || c == 'Y' {
            match s.learn_state {
                Some(LearnStateView::KnobDetected { channel, controller, values }) => {
                    let mode = guessed_knob_mode(values);
                    AppStateView {
                        learn_state: Some(LearnStateView::KnobLearnCW { channel, controller, mode }),
                        ..with_log(
                            s,
                            "Detected mode: "@ + knob_mode_text(mode)
                                + ". Turn the knob CLOCKWISE and press Enter\u{2026}"@,
                        )
                    }
                },
                _ => s,
            }
        } else if c == 'n' || c == 'N' {
            match s.learn_state {
                Some(LearnStateView::KnobDetected { channel, controller, .. }) => {
                    let trigger = MidiTrigger::ControlChange {
                        channel,
                        controller,
                        min_value: None,
                        max_value: None,
                    };
                    to_action_menu(
                        with_log(
                            AppStateView { learned_trigger: Some(trigger), ..s },
                            "Learned trigger: "@ + trigger_text(trigger),
                        ),
                        "Choose action type for this mapping"@,
                    )
                },
                _ => s,
            }
        } else {
            s
        },
        KeyCode::Enter => match s.learn_state {
            Some(LearnStateView::KnobLearnCW { channel, controller, mode }) => to_action_menu(
                AppStateView {
                    learned_trigger: Some(
                        MidiTrigger::KnobRotation {
                            channel,
                            controller,
                            direction: KnobRotationDirection::Clockwise,
                            mode,
                        },
                    ),
                    ..s
                },
                "Choose action for CW rotation"@,
            ),
            Some(LearnStateView::KnobLearnCCW { channel, controller, mode }) => to_action_menu(
                AppStateView {
                    learned_trigger: Some(
                        MidiTrigger::KnobRotation {
                            channel,
                            controller,
                            direction: KnobRotationDirection::CounterClockwise,
                            mode,
                        },
                    ),
                    ..s
                },
                "Choose action for CCW rotation"@,
            ),
            _ => s,
        },
        _ => s,
    };
    (s1, no_effect())
}

/// The modifier keys held in a key event, in the order Ctrl, Alt, Shift, Meta.
pub open spec fn held_modifiers(key: KeyEvent) -> Seq<KeySpec> {
    (if key.modifiers.control {
        seq![KeySpec::Ctrl]
    } else {
        Seq::empty()
    }) + (if key.modifiers.alt {
        seq![KeySpec::Alt]
    } else {
        Seq::empty()
    }) + (if key.modifiers.shift {
        seq![KeySpec::Shift]
    } else {
        Seq::empty()
    }) + (if key.modifiers.super_key {
        seq![KeySpec::Meta]
    } else {
        Seq::empty()
    })
}

/// The action menu of learn action mode.
pub open spec fn action_menu_key(s: AppStateView, key: KeyEvent, now_us: u64) -> AppStateView {
    match key.code {
        KeyCode::Esc => with_log(
            AppStateView {
                action_menu_open: false,
                mode: AppModeView::Setup,
                learned_trigger: None,
                ..s
            },
            "Action selection cancelled"@,
        ),
        KeyCode::Up => if s.action_menu_index > 0 {
            AppStateView { action_menu_index: (s.action_menu_index - 1) as usize, ..s }
        } else {
            s
        },
        KeyCode::Down => if s.action_menu_index < 2 {
            AppStateView { action_menu_index: (s.action_menu_index + 1) as usize, ..s }
        } else {
            s
        },
        KeyCode::Enter => {
            let s1 = AppStateView { action_menu_open: false, ..s };
            if s.action_menu_index == 0 {
                with_log(
                    AppStateView { learn_state: Some(LearnStateView::WaitingForSingleKey), ..s1 },
                    "Press a key or chord..."@,
                )
            } else if s.action_menu_index == 1 {
                with_log(
                    AppStateView {
                        mode: AppModeView::TextInput,
                        text_input_buffer: Seq::empty(),
                        text_input_purpose: TextInputPurpose::TextAction,
                        ..s1
                    },
                    "Type text, press Enter to confirm..."@,
                )
            } else if s.action_menu_index == 2 {
                with_log(
                    AppStateView {
                        mode: AppModeView::RecordMacro,
                        learn_state: Some(
                            LearnStateView::RecordingMacro {
                                started_at_us: now_us,
                                last_at_us: now_us,
                                steps: Seq::empty(),
                            },
                        ),
                        ..s1
                    },
                    "Recording macro... Press Enter to stop, Esc to cancel"@,
                )
            } else {
                s1
            }
        },
        _ => s,
    }
}

/// Learn action mode: the action menu, then key or chord capture.
pub open spec fn learn_action_key(
    s: AppStateView,
    key: KeyEvent,
    now_us: u64,
    fresh_id: Seq<char>,
) -> (AppStateView, Seq<SideEffectView>) {
    let s1 = if s.action_menu_open {
        action_menu_key(s, key, now_us)
    } else {
        match s.learn_state {
            Some(LearnStateView::WaitingForSingleKey) => if key.code == KeyCode::Esc {
                with_log(
                    AppStateView {
                        mode: AppModeView::Setup,
                        learn_state: None,
                        learned_trigger: None,
                        ..s
                    },
                    "Learn key cancelled"@,
                )
            } else {
                match key_spec_of(key.code) {
                    Some(k) => if key_is_modifier(k) {
                        AppStateView {
                            learn_state: Some(LearnStateView::WaitingForChord { pressed: seq![k] }),
                            ..s
                        }
                    } else if held_modifiers(key).len() == 0 {
                        finalized(s, OutputActionView::KeyTap { key: k }, fresh_id)
                    } else {
                        finalized(
                            s,
                            OutputActionView::KeyChord { keys: held_modifiers(key).push(k) },
                            fresh_id,
                        )
                    },
                    None => s,
                }
            },
            Some(LearnStateView::WaitingForChord { pressed }) => if key.code == KeyCode::Esc {
                with_log(
                    AppStateView {
                        mode: AppModeView::Setup,
                        learn_state: None,
                        learned_trigger: None,
                        ..s
                    },
                    "Learn chord cancelled"@,
                )
            } else {
                match key_spec_of(key.code) {
                    Some(k) => if !key_is_modifier(k) {
                        finalized(s, OutputActionView::KeyChord { keys: pressed.push(k) }, fresh_id)
                    } else if !pressed.contains(k) {
                        AppStateView {
                            learn_state: Some(
                                LearnStateView::WaitingForChord { pressed: pressed.push(k) },
                            ),
                            ..s
                        }
                    } else {
                        s
                    },
                    None => s,
                }
            },
            _ => if key.code == KeyCode::Esc {
                AppStateView {
                    mode: AppModeView::Setup,
                    learn_state: None,
                    learned_trigger: None,
                    ..s
                }
            } else {
                s
            },
        }
    };
    (s1, no_effect())
}

/// The steps after capturing a tap of `k` at `now_us`: after the first step,
/// a delay of the whole milliseconds since the last captured step comes
/// before it.
pub open spec fn captured(steps: Seq<MacroStepView>, last_at_us: u64, now_us: u64, k: KeySpec) -> Seq<
    MacroStepView,
> {
    if steps.len() == 0 {
        seq![MacroStepView::KeyTap(k)]
    } else {
        steps.push(MacroStepView::DelayMs(elapsed_ms(now_us, last_at_us) as u64)).push(
            MacroStepView::KeyTap(k),
        )
    }
}

/// Record macro mode: each mapped key is recorded as a tap, after a delay
/// step for the time since the previous one; Enter keeps the normalised macro
/// (if it is not empty), Esc discards it.
pub open spec fn record_macro_key(s: AppStateView, key: KeyEvent, now_us: u64, fresh_id: Seq<char>) -> (
    AppStateView,
    Seq<SideEffectView>,
) {
    let s1 = if key.code == KeyCode::Esc {
        with_log(
            AppStateView {
                mode: AppModeView::Setup,
                learn_state: None,
                learned_trigger: None,
                ..s
            },
            "Macro recording cancelled"@,
        )
    } else if key.code == KeyCode::Enter {
        match s.learn_state {
            Some(LearnStateView::RecordingMacro { steps, .. }) => {
                let s2 = AppStateView { learn_state: None, ..s };
                let kept = normalized(steps);
                if kept.len() == 0 {
                    AppStateView {
                        mode: AppModeView::Setup,
                        ..with_log(s2, "Macro recording empty, discarded"@)
                    }
                } else {
                    finalized(
                        s2,
                        OutputActionView::Macro {
                            spec: MacroSpecView {
                                steps: kept,
                                playback_mode: PlaybackMode::FireAndForget,
                            },
                        },
                        fresh_id,
                    )
                }
            },
            _ => AppStateView { mode: AppModeView::Setup, learn_state: None, ..s },
        }
    } else {
        match s.learn_state {
            Some(LearnStateView::RecordingMacro { started_at_us, last_at_us, steps }) => match key_spec_of(
                key.code,
            ) {
                Some(k) => AppStateView {
                    learn_state: Some(
                        LearnStateView::RecordingMacro {
                            started_at_us,
                            last_at_us: now_us,
                            steps: captured(steps, last_at_us, now_us, k),
                        },
                    ),
                    ..s
                },
                None => s,
            },
            _ => s,
        }
    };
    (s1, no_effect())
}

/// The number of edit menu entries.
pub open spec fn edit_menu_items() -> int {
    6
}

/// The state after toggling one option of the selected mapping.
pub open spec fn toggled_option(s: AppStateView, which: int) -> AppStateView {
    match s.selected_mapping {
        Some(idx) => if idx < s.mappings.len() {
            let m = s.mappings[idx as int];
            let o = m.options;
            let o2 = if which == 3 {
                crate::config::model::MappingOptions {
                    suppress_retrigger_while_held: !o.suppress_retrigger_while_held,
                    ..o
                }
            } else if which == 4 {
                crate::config::model::MappingOptions {
                    trigger_on_value_change_only: !o.trigger_on_value_change_only,
                    ..o
                }
            } else {
                crate::config::model::MappingOptions { allow_overlap: !o.allow_overlap, ..o }
            };
            let label = if which == 3 {
                "Suppress retrigger: "@ + bool_text(o2.suppress_retrigger_while_held)
            } else if which == 4 {
                "Trigger on value change only: "@ + bool_text(o2.trigger_on_value_change_only)
            } else {
                "Allow overlap: "@ + bool_text(o2.allow_overlap)
            };
            with_log(
                AppStateView {
                    mappings: s.mappings.update(idx as int, MappingView { options: o2, ..m }),
                    dirty: true,
                    ..s
                },
                label,
            )
        } else {
            s
        },
        None => s,
    }
}

/// The selected mapping, if the selection is within the list.
pub open spec fn selected(s: AppStateView) -> Option<MappingView> {
    match s.selected_mapping {
        Some(i) => if i < s.mappings.len() {
            Some(s.mappings[i as int])
        } else {
            None
        },
        None => None,
    }
}

/// Edit menu mode: rename, change action, debounce, and option toggles.
pub open spec fn edit_menu_key(s: AppStateView, key: KeyEvent) -> (AppStateView, Seq<SideEffectView>) {
    let s1 = match key.code {
        KeyCode::Esc => with_log(AppStateView { mode: AppModeView::Setup, ..s }, "Edit menu closed"@),
        KeyCode::Up => if s.edit_menu_index > 0 {
            AppStateView { edit_menu_index: (s.edit_menu_index - 1) as usize, ..s }
        } else {
            s
        },
        KeyCode::Down => if s.edit_menu_index + 1 < edit_menu_items() {
            AppStateView { edit_menu_index: (s.edit_menu_index + 1) as usize, ..s }
        } else {
            s
        },
        KeyCode::Enter => if s.edit_menu_index == 0 {
            with_log(
                AppStateView {
                    mode: AppModeView::TextInput,
                    text_input_buffer: match selected(s) {
                        Some(m) => m.name,
                        None => Seq::empty(),
                    },
                    text_input_purpose: TextInputPurpose::MappingName,
                    ..s
                },
                "Enter new mapping name..."@,
            )
        } else if s.edit_menu_index == 1 {
            with_log(
                AppStateView {
                    mode: AppModeView::LearnAction,
                    action_menu_open: true,
                    action_menu_index: 0,
                    ..s
                },
                "Edit mapping action: choose action type"@,
            )
        } else if s.edit_menu_index == 2 {
            with_log(
                AppStateView {
                    mode: AppModeView::TextInput,
                    text_input_buffer: match selected(s) {
                        Some(m) => decimal(m.options.debounce_ms as nat),
                        None => "50"@,
                    },
                    text_input_purpose: TextInputPurpose::DebounceMs,
                    ..s
                },
                "Enter debounce value in ms..."@,
            )
        } else if 3 <= s.edit_menu_index <= 5 {
            toggled_option(s, s.edit_menu_index as int)
        } else {
            s
        },
        _ => s,
    };
    (s1, no_effect())
}

/// Text input mode: typing, and what Enter does with the text for each purpose.
pub open spec fn text_input_key(s: AppStateView, key: KeyEvent, fresh_id: Seq<char>) -> (
    AppStateView,
    Seq<SideEffectView>,
) {
    let s1 = match key.code {
        KeyCode::Esc => with_log(
            AppStateView {
                mode: AppModeView::Setup,
                text_input_buffer: Seq::empty(),
                learned_trigger: None,
                ..s
            },
            "Text input cancelled"@,
        ),
        KeyCode::Enter => {
            let text = s.text_input_buffer;
            let s2 = AppStateView { text_input_buffer: Seq::empty(), ..s };
            match s.text_input_purpose {
                TextInputPurpose::TextAction => if text.len() == 0 {
                    AppStateView {
                        mode: AppModeView::Setup,
                        ..with_log(s2, "Empty text, discarded"@)
                    }
                } else {
                    finalized(s2, OutputActionView::Text { text }, fresh_id)
                },
                TextInputPurpose::MappingName => AppStateView {
                    mode: AppModeView::Setup,
                    ..if text.len() > 0 {
                        match s2.selected_mapping {
                            Some(idx) => {
                                let old_name = if idx < s2.mappings.len() {
                                    s2.mappings[idx as int].name
                                } else {
                                    Seq::empty()
                                };
                                let s3 = if idx < s2.mappings.len() {
                                    AppStateView {
                                        mappings: s2.mappings.update(
                                            idx as int,
                                            MappingView { name: text, ..s2.mappings[idx as int] },
                                        ),
                                        dirty: true,
                                        ..s2
                                    }
                                } else {
                                    s2
                                };
                                with_log(s3, "Renamed '"@ + old_name + "' -> '"@ + text + "'"@)
                            },
                            None => s2,
                        }
                    } else {
                        with_log(s2, "Empty name, keeping previous"@)
                    }
                },
                TextInputPurpose::DebounceMs => AppStateView {
                    mode: AppModeView::Setup,
                    ..match parse_unsigned(text, u64::MAX as nat) {
                        Some(ms) => match s2.selected_mapping {
                            Some(idx) => if idx < s2.mappings.len() {
                                let m = s2.mappings[idx as int];
                                with_log(
                                    AppStateView {
                                        mappings: s2.mappings.update(
                                            idx as int,
                                            MappingView {
                                                options: crate::config::model::MappingOptions {
                                                    debounce_ms: ms as u64,
                                                    ..m.options
                                                },
                                                ..m
                                            },
                                        ),
                                        dirty: true,
                                        ..s2
                                    },
                                    "Debounce set to "@ + decimal(ms) + "ms"@,
                                )
                            } else {
                                s2
                            },
                            None => s2,
                        },
                        None => with_log(s2, "Invalid number, keeping previous debounce"@),
                    }
                },
                TextInputPurpose::Idle => AppStateView { mode: AppModeView::Setup, ..s2 },
            }
        },
        KeyCode::Backspace => AppStateView {
            text_input_buffer: if s.text_input_buffer.len() > 0 {
                s.text_input_buffer.drop_last()
            } else {
                s.text_input_buffer
            },
            ..s
        },
        KeyCode::Char(c) => AppStateView { text_input_buffer: s.text_input_buffer.push(c), ..s },
        _ => s,
    };
    (s1, no_effect())
}

/// Device selection mode.
pub open spec fn select_device_key(s: AppStateView, key: KeyEvent) -> (AppStateView, Seq<SideEffectView>) {
    match key.code {
        KeyCode::Esc => (AppStateView { mode: AppModeView::Setup, ..s }, no_effect()),
        KeyCode::Up => if s.device_list_index > 0 {
            (AppStateView { device_list_index: (s.device_list_index - 1) as usize, ..s }, no_effect())
        } else {
            (s, no_effect())
        },
        KeyCode::Down => if s.device_list_index + 1 < s.midi_devices.len() {
            (AppStateView { device_list_index: (s.device_list_index + 1) as usize, ..s }, no_effect())
        } else {
            (s, no_effect())
        },
        KeyCode::Enter => if s.midi_devices.len() > 0 {
            (
                AppStateView { mode: AppModeView::Setup, ..s },
                seq![SideEffectView::ConnectDevice(s.device_list_index)],
            )
        } else {
            (s, no_effect())
        },
        KeyCode::Char(c) => if c == 'r' {
            (s, seq![SideEffectView::RefreshDevices])
        } else {
            (s, no_effect())
        },
        _ => (s, no_effect()),
    }
}

/// Confirmation dialogs: `y` carries out what the dialog was opened for
/// (quit, or delete the selected mapping), `n` or Esc dismisses it.
pub open spec fn confirm_key(s: AppStateView, key: KeyEvent) -> (AppStateView, Seq<SideEffectView>) {
    if key.code == KeyCode::Char('y') || key.code == KeyCode::Char('Y') {
        if s.confirm_purpose == Some(ConfirmPurpose::Quit) {
            (AppStateView { should_quit: true, ..s }, seq![SideEffectView::Quit])
        } else {
            let s1 = if s.confirm_purpose == Some(ConfirmPurpose::DeleteMapping) {
                match s.selected_mapping {
                    Some(idx) => if idx < s.mappings.len() {
                        let removed = s.mappings[idx as int];
                        let rest = s.mappings.remove(idx as int);
                        AppStateView {
                            mappings: rest,
                            dirty: true,
                            selected_mapping: if rest.len() == 0 {
                                None
                            } else if idx < rest.len() - 1 {
                                Some(idx)
                            } else {
                                Some((rest.len() - 1) as usize)
                            },
                            ..with_log(s, "Deleted mapping '"@ + removed.name + "'"@)
                        }
                    } else {
                        s
                    },
                    None => s,
                }
            } else {
                s
            };
            (AppStateView { mode: AppModeView::Setup, confirm_purpose: None, ..s1 }, no_effect())
        }
    } else if key.code == KeyCode::Char('n') || key.code == KeyCode::Char('N') || key.code
        == KeyCode::Esc {
        (AppStateView { mode: AppModeView::Setup, confirm_purpose: None, ..s }, no_effect())
    } else {
        (s, no_effect())
    }
}

/// Error dialogs: Enter or Esc dismisses.
pub open spec fn error_key(s: AppStateView, key: KeyEvent) -> (AppStateView, Seq<SideEffectView>) {
    if key.code == KeyCode::Enter || key.code == KeyCode::Esc {
        (AppStateView { mode: AppModeView::Setup, ..s }, no_effect())
    } else {
        (s, no_effect())
    }
}

/// The inputs on which a terminal key can be handled without an arithmetic
/// overflow: the mapping list is shorter than the largest index, a recorded
/// macro that Enter finishes normalises within range, a text action that
/// Enter finishes has a summary that can be cut, and Down does not move a
/// menu selection past the largest index.
pub open spec fn key_in_range(s: AppStateView, key: KeyEvent) -> bool {
    &&& s.mappings.len() < usize::MAX
    &&& key.code != KeyCode::F(12) ==> {
        &&& (s.mode is RecordMacro && key.code == KeyCode::Enter) ==> (s.learn_state matches Some(
            LearnStateView::RecordingMacro { steps, .. },
        ) ==> crate::config::model::normalize_in_range(steps))
        &&& (s.mode is TextInput && key.code == KeyCode::Enter && s.text_input_purpose
            == TextInputPurpose::TextAction) ==> crate::config::model::text_preview_fits(
            s.text_input_buffer,
        )
        &&& (s.mode is EditMenu && key.code == KeyCode::Down) ==> s.edit_menu_index < usize::MAX
        &&& (s.mode is SelectDevice && key.code == KeyCode::Down) ==> s.device_list_index
            < usize::MAX
    }
}

/// What a terminal key does: F12 toggles the panic stop in every mode;
/// otherwise the key goes to the current mode. `now_us` is the clock reading
/// and `fresh_id` the id that a newly created mapping gets.
pub open spec fn key_step(s: AppStateView, key: KeyEvent, now_us: u64, fresh_id: Seq<char>) -> (
    AppStateView,
    Seq<SideEffectView>,
) {
    if key.code == KeyCode::F(12) {
        panic_stop_key(s)
    } else {
        match s.mode {
            AppModeView::Setup => setup_key(s, key),
            AppModeView::Run => run_key(s, key),
            AppModeView::LearnMidi => learn_midi_key(s, key),
            AppModeView::LearnAction => learn_action_key(s, key, now_us, fresh_id),
            AppModeView::RecordMacro => record_macro_key(s, key, now_us, fresh_id),
            AppModeView::TextInput => text_input_key(s, key, fresh_id),
            AppModeView::SelectDevice => select_device_key(s, key),
            AppModeView::EditMenu => edit_menu_key(s, key),
            AppModeView::ConfirmDialog(_) => confirm_key(s, key),
            AppModeView::ErrorDialog(_) => error_key(s, key),
        }
    }
}


/// The position of the first debounce timer of mapping `id`, if any.
pub open spec fn timer_index(t: Seq<(Seq<char>, u64)>, id: Seq<char>) -> Option<int>
    decreases t.len(),
{
    if t.len() == 0 {
        None
    } else {
        match timer_index(t.drop_last(), id) {
            Some(j) => Some(j),
            None => if t.last().0 == id {
                Some(t.len() - 1)
            } else {
                None
            },
        }
    }
}

/// When mapping `id` last fired, if it has.
pub open spec fn timer_of(t: Seq<(Seq<char>, u64)>, id: Seq<char>) -> Option<u64> {
    match timer_index(t, id) {
        Some(j) => Some(t[j].1),
        None => None,
    }
}

/// The timers after recording that mapping `id` fired at `now_us`.
pub open spec fn timer_set(t: Seq<(Seq<char>, u64)>, id: Seq<char>, now_us: u64) -> Seq<
    (Seq<char>, u64),
> {
    match timer_index(t, id) {
        Some(j) => t.update(j, (id, now_us)),
        None => t.push((id, now_us)),
    }
}

/// Whole milliseconds from `last_us` to `now_us` (zero if the clock went back).
pub open spec fn elapsed_ms(now_us: u64, last_us: u64) -> nat {
    if now_us >= last_us {
        ((now_us - last_us) / 1000) as nat
    } else {
        0
    }
}

/// The (channel, controller) pair of a CC or knob trigger.
pub open spec fn cc_key(t: MidiTrigger) -> Option<(u8, u8)> {
    match t {
        MidiTrigger::ControlChange { channel, controller, .. } => Some((channel, controller)),
        MidiTrigger::KnobRotation { channel, controller, .. } => Some((channel, controller)),
        _ => None,
    }
}

/// Whether a mapping is held back by its debounce window.
pub open spec fn debounced(m: MappingView, timers: Seq<(Seq<char>, u64)>, now_us: u64) -> bool {
    m.options.debounce_ms > 0 && match timer_of(timers, m.id) {
        Some(last) => elapsed_ms(now_us, last) < m.options.debounce_ms,
        None => false,
    }
}

/// Whether a value-change-only mapping sees the same CC value as last time.
pub open spec fn value_unchanged(m: MappingView, event: MidiEvent, cc: Map<(u8, u8), u8>) -> bool {
    m.options.trigger_on_value_change_only && match (cc_key(m.trigger), event.raw_value) {
        (Some(k), Some(raw)) => cc.get(k) == Some(raw),
        _ => false,
    }
}

/// Whether a mapping fires for an event: enabled, matching, not debounced,
/// and not held back by an unchanged value.
pub open spec fn fires(
    m: MappingView,
    event: MidiEvent,
    timers: Seq<(Seq<char>, u64)>,
    cc: Map<(u8, u8), u8>,
    now_us: u64,
) -> bool {
    m.enabled && event_matches(event, m.trigger) && !debounced(m, timers, now_us) && !value_unchanged(
        m,
        event,
        cc,
    )
}

/// The positions among the first `k` mappings that fire, in order; after a
/// firing mapping that does not allow overlap, no later mapping fires.
pub open spec fn fired_prefix(
    ms: Seq<MappingView>,
    k: nat,
    event: MidiEvent,
    timers: Seq<(Seq<char>, u64)>,
    cc: Map<(u8, u8), u8>,
    now_us: u64,
) -> Seq<int>
    decreases k,
{
    if k == 0 || k > ms.len() {
        Seq::empty()
    } else {
        let prev = fired_prefix(ms, (k - 1) as nat, event, timers, cc, now_us);
        if prev.len() > 0 && !ms[prev.last()].options.allow_overlap {
            prev
        } else if fires(ms[k - 1], event, timers, cc, now_us) {
            prev.push(k - 1)
        } else {
            prev
        }
    }
}

/// The positions of the mappings that fire for an event.
pub open spec fn fired(s: AppStateView, event: MidiEvent, now_us: u64) -> Seq<int> {
    fired_prefix(s.mappings, s.mappings.len(), event, s.debounce_timers, s.last_cc_values, now_us)
}

/// `name: action` for a mapping.
pub open spec fn fired_line(m: MappingView) -> Seq<char> {
    m.name + ": "@ + action_text(m.action)
}

/// The state after mapping `i` fires: its CC value remembered (for
/// value-change-only mappings), its timer set, its summary shown as the last
/// action, and a log line.
pub open spec fn apply_one(s: AppStateView, event: MidiEvent, i: int, now_us: u64) -> AppStateView {
    let m = s.mappings[i];
    AppStateView {
        last_cc_values: match (cc_key(m.trigger), event.raw_value) {
            (Some(k), Some(raw)) => if m.options.trigger_on_value_change_only {
                s.last_cc_values.insert(k, raw)
            } else {
                s.last_cc_values
            },
            _ => s.last_cc_values,
        },
        debounce_timers: timer_set(s.debounce_timers, m.id, now_us),
        last_action: Some(fired_line(m)),
        log_lines: log_after(s.log_lines, "\u{25b6} "@ + fired_line(m)),
        ..s
    }
}

/// The state after the mappings at `idxs` fire, in order.
pub open spec fn apply_fired(s: AppStateView, event: MidiEvent, idxs: Seq<int>, now_us: u64) -> AppStateView
    decreases idxs.len(),
{
    if idxs.len() == 0 {
        s
    } else {
        apply_one(apply_fired(s, event, idxs.drop_last(), now_us), event, idxs.last(), now_us)
    }
}

/// The commands that the firing mappings ask to execute.
pub open spec fn fired_effects(ms: Seq<MappingView>, idxs: Seq<int>) -> Seq<SideEffectView> {
    idxs.map_values(
        |i: int|
            SideEffectView::ExecuteAction(
                ActionCommandView { mapping_id: ms[i].id, action: ms[i].action },
            ),
    )
}

/// Matching an event against the mappings and firing those that fire.
pub open spec fn match_step(s: AppStateView, event: MidiEvent, now_us: u64) -> (
    AppStateView,
    Seq<SideEffectView>,
) {
    let idxs = fired(s, event, now_us);
    (apply_fired(s, event, idxs, now_us), fired_effects(s.mappings, idxs))
}

/// The mode of the first knob mapping on `(channel, controller)`, if any.
pub open spec fn knob_mode_for(ms: Seq<MappingView>, channel: u8, controller: u8) -> Option<KnobMode>
    decreases ms.len(),
{
    if ms.len() == 0 {
        None
    } else {
        match knob_mode_for(ms.drop_last(), channel, controller) {
            Some(m) => Some(m),
            None => match ms.last().trigger {
                MidiTrigger::KnobRotation { channel: c, controller: k, mode, .. } => if c == channel
                    && k == controller {
                    Some(mode)
                } else {
                    None
                },
                _ => None,
            },
        }
    }
}

/// The state and event that run mode matches: a CC event on a knob mapping's
/// controller gets a direction (absolute knobs compare with the last value,
/// which is then remembered); any other event is matched as it is.
pub open spec fn with_direction(s: AppStateView, event: MidiEvent) -> (AppStateView, MidiEvent) {
    match (event.trigger, event.raw_value) {
        (MidiTrigger::ControlChange { channel, controller, .. }, Some(raw)) => match knob_mode_for(
            s.mappings,
            channel,
            controller,
        ) {
            Some(mode) => if mode == KnobMode::Absolute {
                (
                    AppStateView {
                        knob_values: s.knob_values.insert((channel, controller), raw),
                        ..s
                    },
                    MidiEvent {
                        knob_direction: absolute_direction(
                            s.knob_values.get((channel, controller)),
                            raw,
                        ),
                        ..event
                    },
                )
            } else {
                (s, MidiEvent { knob_direction: relative_direction(raw, mode), ..event })
            },
            None => (s, event),
        },
        _ => (s, event),
    }
}

/// Run mode: the event, with its knob direction, is matched.
pub open spec fn run_event(s: AppStateView, event: MidiEvent, now_us: u64) -> (
    AppStateView,
    Seq<SideEffectView>,
) {
    match_step(with_direction(s, event).0, with_direction(s, event).1, now_us)
}

/// Learn MIDI mode: the first event is the trigger, except that a CC event
/// starts knob detection; further values of that controller are collected.
pub open spec fn learn_midi_event(s: AppStateView, event: MidiEvent) -> (
    AppStateView,
    Seq<SideEffectView>,
) {
    let summary = trigger_text(event.trigger);
    match s.learn_state {
        Some(LearnStateView::WaitingForMidi) => match (event.trigger, event.raw_value) {
            (MidiTrigger::ControlChange { channel, controller, .. }, Some(val)) => (
                with_log(
                    AppStateView {
                        learn_state: Some(
                            LearnStateView::KnobDetected { channel, controller, values: seq![val] },
                        ),
                        ..s
                    },
                    "CC detected on ch="@ + decimal(channel as nat) + " ctrl="@ + decimal(
                        controller as nat,
                    ) + ". Knob detected. Configure as rotary knob? [Y/N]"@,
                ),
                no_effect(),
            ),
            _ => (
                to_action_menu(
                    with_log(
                        AppStateView { learned_trigger: Some(event.trigger), ..s },
                        "Learned trigger: "@ + summary,
                    ),
                    "Choose action type for this mapping"@,
                ),
                no_effect(),
            ),
        },
        Some(LearnStateView::KnobDetected { channel, controller, values }) => (
            match (event.trigger, event.raw_value) {
                (MidiTrigger::ControlChange { channel: ec, controller: ecc, .. }, Some(val)) => if ec
                    == channel && ecc == controller {
                    AppStateView {
                        learn_state: Some(
                            LearnStateView::KnobDetected {
                                channel,
                                controller,
                                values: values.push(val),
                            },
                        ),
                        ..s
                    }
                } else {
                    s
                },
                _ => s,
            },
            no_effect(),
        ),
        _ => (s, no_effect()),
    }
}

/// Whether learn MIDI mode takes the event.
pub open spec fn learning_takes(l: Option<LearnStateView>) -> bool {
    match l {
        Some(LearnStateView::WaitingForMidi) => true,
        Some(LearnStateView::KnobDetected { .. }) => true,
        Some(LearnStateView::KnobLearnCW { .. }) => true,
        Some(LearnStateView::KnobLearnCCW { .. }) => true,
        _ => false,
    }
}

/// The state after a MIDI event is shown and logged.
pub open spec fn shown(s: AppStateView, event: MidiEvent) -> AppStateView {
    let summary = trigger_text(event.trigger);
    with_log(AppStateView { last_midi_event: Some(summary), ..s }, "MIDI: "@ + summary)
}

/// What a MIDI event does: it is shown and logged; in learn MIDI mode it is
/// learned; in run mode (unless the panic stop is on) it fires the mappings
/// it matches.
pub open spec fn midi_step(s: AppStateView, event: MidiEvent, now_us: u64) -> (
    AppStateView,
    Seq<SideEffectView>,
) {
    let s1 = shown(s, event);
    if s.mode is LearnMidi && learning_takes(s.learn_state) {
        learn_midi_event(s1, event)
    } else if s.mode is Run && !s.panic_stop {
        run_event(s1, event, now_us)
    } else {
        (s1, no_effect())
    }
}

/// Whether the action summaries of the mappings that fire can be formed.
pub open spec fn fired_fit(s: AppStateView, event: MidiEvent, now_us: u64) -> bool {
    forall|x: int|
        0 <= x < fired(s, event, now_us).len() ==> crate::config::model::action_text_fits(
            #[trigger] s.mappings[fired(s, event, now_us)[x]].action,
        )
}

/// Whether a MIDI event can be handled at `now_us`: in run mode with the
/// panic stop off, the action summaries of the mappings that fire can be
/// formed (their log lines show them).
pub open spec fn midi_fits(s: AppStateView, event: MidiEvent, now_us: u64) -> bool {
    (s.mode is Run && !s.panic_stop) ==> fired_fit(
        with_direction(shown(s, event), event).0,
        with_direction(shown(s, event), event).1,
        now_us,
    )
}


} // verus!
