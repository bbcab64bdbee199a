//! The content of the modal windows drawn over the main screen.

use vstd::prelude::*;

use crate::app::model::selected;
use crate::app::state::{AppMode, AppModeView, AppState, AppStateView, LearnState, LearnStateView};
use crate::midi::trigger::trigger_text;
use crate::text::{append_str, decimal, owned, push_decimal};
use crate::ui::view::{
    blank, bold, bold_in, colored, in_color, line_view, lines_view, one, plain, plain_look,
    push_blank, push_line, push_one, push_span, sp, span, span_of, Color, Look, SpanView,
    TextSpan,
};

verus! {

/// How a modal's lines are laid out.
#[derive(Debug, Clone, Copy, PartialEq, Eq, Structural)]
pub enum BodyKind {
    /// Lines as they are.
    Text,
    /// Lines wrapped to the width.
    Wrapped,
    /// A list of entries.
    List,
}

/// A modal window: title (empty for none), border colour, size, and lines.
#[derive(Debug, Clone, PartialEq)]
pub struct Modal {
    pub title: String,
    pub border: Color,
    pub width: u16,
    pub height: u16,
    pub kind: BodyKind,
    pub lines: Vec<Vec<TextSpan>>,
}

/// The mathematical value of a modal window.
pub struct ModalView {
    pub title: Seq<char>,
    pub border: Color,
    pub width: u16,
    pub height: u16,
    pub kind: BodyKind,
    pub lines: Seq<Seq<SpanView>>,
}

impl View for Modal {
    type V = ModalView;

    open spec fn view(&self) -> ModalView {
        ModalView {
            title: self.title@,
            border: self.border,
            width: self.width,
            height: self.height,
            kind: self.kind,
            lines: lines_view(self.lines@),
        }
    }
}

/// A modal window's value from its parts.
pub open spec fn modal_of(
    title: Seq<char>,
    border: Color,
    width: u16,
    height: u16,
    kind: BodyKind,
    lines: Seq<Seq<SpanView>>,
) -> ModalView {
    ModalView { title, border, width, height, kind, lines }
}

/// The learn MIDI window: the knob prompts while a knob is being learned,
/// otherwise the wait for input and the trigger captured, if any.
pub open spec fn learn_midi_lines(s: AppStateView) -> Seq<Seq<SpanView>> {
    match s.learn_state {
        Some(LearnStateView::KnobDetected { channel, controller, .. }) => seq![
            blank(),
            one(
                "  Knob detected on CC "@ + decimal(controller as nat) + " (ch="@ + decimal(
                    channel as nat,
                ) + ")."@,
                bold_in(Color::Yellow),
            ),
            one("  Configure as rotary knob?"@, plain_look()),
            blank(),
            one("  [Y] Yes  [N] No  [Esc] Cancel"@, plain_look()),
        ],
        Some(LearnStateView::KnobLearnCW { .. }) => seq![
            blank(),
            one("  Turn the knob CLOCKWISE"@, bold_in(Color::Green)),
            one("  and press Enter\u{2026}"@, plain_look()),
            blank(),
            one("  [Enter] Confirm  [Esc] Cancel"@, plain_look()),
        ],
        Some(LearnStateView::KnobLearnCCW { .. }) => seq![
            blank(),
            one("  Turn the knob COUNTER-CLOCKWISE"@, bold_in(Color::Cyan)),
            one("  and press Enter\u{2026}"@, plain_look()),
            blank(),
            one("  [Enter] Confirm  [Esc] Cancel"@, plain_look()),
        ],
        _ => seq![
            blank(),
            one("  Waiting for MIDI input\u{2026}"@, bold_in(Color::Yellow)),
            blank(),
            one("  Press a pad, key, knob, or pedal"@, plain_look()),
            one("  on your MIDI device."@, plain_look()),
        ] + match s.learned_trigger {
            Some(t) => seq![blank(), one("  Captured: "@ + trigger_text(t), colored(Color::Green))],
            None => Seq::empty(),
        },
    }
}

fn push_text(lines: &mut Vec<Vec<TextSpan>>, t: &str)
    ensures
        lines_view(final(lines)@) == lines_view(old(lines)@).push(one(t@, plain_look())),
{
    push_one(lines, span(t, plain()));
}

fn learn_midi_window(state: &AppState) -> (m: Modal)
    ensures
        m@ == modal_of(" Learn MIDI "@, Color::Yellow, 50, 7, BodyKind::Wrapped, learn_midi_lines(state@)),
{
    let mut lines: Vec<Vec<TextSpan>> = Vec::new();
    match &state.learn_state {
        Some(LearnState::KnobDetected { channel, controller, .. }) => {
            push_blank(&mut lines);
            let mut t = owned("  Knob detected on CC ");
            push_decimal(&mut t, *controller as u64);
            append_str(&mut t, " (ch=");
            push_decimal(&mut t, *channel as u64);
            append_str(&mut t, ").");
            push_one(&mut lines, span_of(t, bold(Color::Yellow)));
            push_text(&mut lines, "  Configure as rotary knob?");
            push_blank(&mut lines);
            push_text(&mut lines, "  [Y] Yes  [N] No  [Esc] Cancel");
        },
        Some(LearnState::KnobLearnCW { .. }) => {
            push_blank(&mut lines);
            push_one(&mut lines, span("  Turn the knob CLOCKWISE", bold(Color::Green)));
            push_text(&mut lines, "  and press Enter\u{2026}");
            push_blank(&mut lines);
            push_text(&mut lines, "  [Enter] Confirm  [Esc] Cancel");
        },
        Some(LearnState::KnobLearnCCW { .. }) => {
            push_blank(&mut lines);
            push_one(&mut lines, span("  Turn the knob COUNTER-CLOCKWISE", bold(Color::Cyan)));
            push_text(&mut lines, "  and press Enter\u{2026}");
            push_blank(&mut lines);
            push_text(&mut lines, "  [Enter] Confirm  [Esc] Cancel");
        },
        _ => {
            push_blank(&mut lines);
            push_one(&mut lines, span("  Waiting for MIDI input\u{2026}", bold(Color::Yellow)));
            push_blank(&mut lines);
            push_text(&mut lines, "  Press a pad, key, knob, or pedal");
            push_text(&mut lines, "  on your MIDI device.");
            match &state.learned_trigger {
                Some(t) => {
                    push_blank(&mut lines);
                    let mut c = owned("  Captured: ");
                    let tt = t.display_string();
                    append_str(&mut c, tt.as_str());
                    push_one(&mut lines, span_of(c, in_color(Color::Green)));
                },
                None => {},
            }
        },
    }
    assert(lines_view(lines@) =~= learn_midi_lines(state@));
    Modal {
        title: owned(" Learn MIDI "),
        border: Color::Yellow,
        width: 50,
        height: 7,
        kind: BodyKind::Wrapped,
        lines,
    }
}

/// A menu entry: a marker and the label, highlighted when selected.
pub open spec fn menu_entry(label: Seq<char>, is_selected: bool) -> Seq<SpanView> {
    if is_selected {
        one("\u{25b8} "@ + label, bold_in(Color::Cyan))
    } else {
        one("  "@ + label, plain_look())
    }
}

/// Menu entries with the `index`-th selected.
pub open spec fn menu_entries(labels: Seq<Seq<char>>, index: usize) -> Seq<Seq<SpanView>> {
    Seq::new(labels.len(), |i: int| menu_entry(labels[i], i == index))
}

fn push_entry(lines: &mut Vec<Vec<TextSpan>>, label: &str, is_selected: bool)
    ensures
        lines_view(final(lines)@) == lines_view(old(lines)@).push(menu_entry(label@, is_selected)),
{
    if is_selected {
        let mut t = owned("\u{25b8} ");
        append_str(&mut t, label);
        push_one(lines, span_of(t, bold(Color::Cyan)));
    } else {
        let mut t = owned("  ");
        append_str(&mut t, label);
        push_one(lines, span_of(t, plain()));
    }
}

fn menu(labels: &Vec<String>, index: usize) -> (lines: Vec<Vec<TextSpan>>)
    ensures
        lines_view(lines@) == menu_entries(labels@.map_values(|l: String| l@), index),
{
    let ghost ls = labels@.map_values(|l: String| l@);
    let mut lines: Vec<Vec<TextSpan>> = Vec::new();
    let mut i: usize = 0;
    while i < labels.len()
        invariant
            ls == labels@.map_values(|l: String| l@),
            i <= labels@.len(),
            lines_view(lines@) == menu_entries(ls, index).take(i as int),
        decreases labels@.len() - i,
    {
        push_entry(&mut lines, labels[i].as_str(), i == index);
        assert(menu_entries(ls, index).take(i + 1) =~= menu_entries(ls, index).take(i as int).push(
            menu_entry(ls[i as int], i == index),
        ));
        i = i + 1;
    }
    assert(menu_entries(ls, index).take(i as int) =~= menu_entries(ls, index));
    lines
}

/// The labels of the action menu.
pub open spec fn action_menu_labels() -> Seq<Seq<char>> {
    seq!["Key / Chord"@, "Type Text"@, "Record Macro"@]
}

fn action_menu_window(state: &AppState) -> (m: Modal)
    ensures
        m@ == modal_of(
            " Choose Action Type "@,
            Color::Yellow,
            40,
            9,
            BodyKind::List,
            menu_entries(action_menu_labels(), state@.action_menu_index),
        ),
{
    let labels = vec![owned("Key / Chord"), owned("Type Text"), owned("Record Macro")];
    assert(labels@.map_values(|l: String| l@) =~= action_menu_labels());
    let lines = menu(&labels, state.action_menu_index);
    Modal {
        title: owned(" Choose Action Type "),
        border: Color::Yellow,
        width: 40,
        height: 9,
        kind: BodyKind::List,
        lines,
    }
}

/// The prompt of the key capture window.
pub open spec fn learn_key_prompt(l: Option<LearnStateView>) -> Seq<char> {
    match l {
        Some(LearnStateView::WaitingForSingleKey) => "Press a key or chord\u{2026}"@,
        Some(LearnStateView::WaitingForChord { .. }) => "Hold modifiers, then press a key\u{2026}"@,
        _ => "Waiting\u{2026}"@,
    }
}

/// The key capture window's lines.
pub open spec fn learn_key_lines(s: AppStateView) -> Seq<Seq<SpanView>> {
    seq![
        blank(),
        one("  "@ + learn_key_prompt(s.learn_state), bold_in(Color::Yellow)),
        blank(),
        one("  Esc to cancel"@, plain_look()),
    ]
}

fn learn_key_window(state: &AppState) -> (m: Modal)
    ensures
        m@ == modal_of(" Learn Key/Chord "@, Color::Yellow, 50, 7, BodyKind::Text, learn_key_lines(state@)),
{
    let msg = match &state.learn_state {
        Some(LearnState::WaitingForSingleKey) => "Press a key or chord\u{2026}",
        Some(LearnState::WaitingForChord { .. }) => "Hold modifiers, then press a key\u{2026}",
        _ => "Waiting\u{2026}",
    };
    let mut lines: Vec<Vec<TextSpan>> = Vec::new();
    push_blank(&mut lines);
    let mut t = owned("  ");
    append_str(&mut t, msg);
    push_one(&mut lines, span_of(t, bold(Color::Yellow)));
    push_blank(&mut lines);
    push_text(&mut lines, "  Esc to cancel");
    assert(lines_view(lines@) =~= learn_key_lines(state@));
    Modal {
        title: owned(" Learn Key/Chord "),
        border: Color::Yellow,
        width: 50,
        height: 7,
        kind: BodyKind::Text,
        lines,
    }
}

/// The number of steps recorded so far.
pub open spec fn recorded_steps(l: Option<LearnStateView>) -> nat {
    match l {
        Some(LearnStateView::RecordingMacro { steps, .. }) => steps.len(),
        _ => 0,
    }
}

/// The macro recording window's lines.
pub open spec fn record_macro_lines(s: AppStateView) -> Seq<Seq<SpanView>> {
    seq![
        blank(),
        one("  \u{25cf} Recording Macro\u{2026}"@, bold_in(Color::Red)),
        blank(),
        one("  Steps recorded: "@ + decimal(recorded_steps(s.learn_state)), plain_look()),
        blank(),
        one("  Press keys to record them."@, plain_look()),
        one("  Enter = stop recording"@, plain_look()),
        one("  Esc = cancel"@, plain_look()),
    ]
}

fn record_macro_window(state: &AppState) -> (m: Modal)
    ensures
        m@ == modal_of(" Record Macro "@, Color::Red, 50, 10, BodyKind::Text, record_macro_lines(state@)),
{
    let count: usize = match &state.learn_state {
        Some(LearnState::RecordingMacro { steps, .. }) => steps.len(),
        _ => 0,
    };
    assert(count == recorded_steps(state@.learn_state)) by {
        match state.learn_state {
            Some(LearnState::RecordingMacro { steps, .. }) => {
                assert(crate::config::model::step_views(steps@).len() == steps@.len());
            },
            _ => {},
        }
    }
    let mut lines: Vec<Vec<TextSpan>> = Vec::new();
    push_blank(&mut lines);
    push_one(&mut lines, span("  \u{25cf} Recording Macro\u{2026}", bold(Color::Red)));
    push_blank(&mut lines);
    let mut t = owned("  Steps recorded: ");
    push_decimal(&mut t, count as u64);
    push_one(&mut lines, span_of(t, plain()));
    push_blank(&mut lines);
    push_text(&mut lines, "  Press keys to record them.");
    push_text(&mut lines, "  Enter = stop recording");
    push_text(&mut lines, "  Esc = cancel");
    assert(lines_view(lines@) =~= record_macro_lines(state@));
    Modal {
        title: owned(" Record Macro "),
        border: Color::Red,
        width: 50,
        height: 10,
        kind: BodyKind::Text,
        lines,
    }
}

/// The text input window's lines: the text typed so far, with a cursor.
pub open spec fn text_input_lines(s: AppStateView) -> Seq<Seq<SpanView>> {
    seq![
        blank(),
        one("  Type text, then press Enter:"@, plain_look()),
        blank(),
        one("  > "@ + s.text_input_buffer + "_"@, colored(Color::Cyan)),
        blank(),
    ]
}

fn text_input_window(state: &AppState) -> (m: Modal)
    ensures
        m@ == modal_of(" Text Input "@, Color::Yellow, 50, 7, BodyKind::Text, text_input_lines(state@)),
{
    let mut lines: Vec<Vec<TextSpan>> = Vec::new();
    push_blank(&mut lines);
    push_text(&mut lines, "  Type text, then press Enter:");
    push_blank(&mut lines);
    let mut t = owned("  > ");
    append_str(&mut t, state.text_input_buffer.as_str());
    append_str(&mut t, "_");
    push_one(&mut lines, span_of(t, in_color(Color::Cyan)));
    push_blank(&mut lines);
    assert(lines_view(lines@) =~= text_input_lines(state@));
    Modal {
        title: owned(" Text Input "),
        border: Color::Yellow,
        width: 50,
        height: 7,
        kind: BodyKind::Text,
        lines,
    }
}

/// `ON` or `OFF`.
pub open spec fn on_off(b: bool) -> Seq<char> {
    if b {
        "ON"@
    } else {
        "OFF"@
    }
}

/// The labels of the edit menu for the selected mapping.
pub open spec fn edit_menu_labels(s: AppStateView) -> Seq<Seq<char>> {
    match selected(s) {
        Some(m) => seq![
            "Rename"@,
            "Change Action"@,
            "Debounce: "@ + decimal(m.options.debounce_ms as nat) + "ms"@,
            "Suppress Retrigger: "@ + on_off(m.options.suppress_retrigger_while_held),
            "Value Change Only: "@ + on_off(m.options.trigger_on_value_change_only),
            "Allow Overlap: "@ + on_off(m.options.allow_overlap),
        ],
        None => seq!["No mapping selected"@],
    }
}

fn labeled_switch(label: &str, b: bool) -> (s: String)
    ensures
        s@ == label@ + on_off(b),
{
    let mut s = owned(label);
    if b {
        append_str(&mut s, "ON");
    } else {
        append_str(&mut s, "OFF");
    }
    s
}

fn edit_menu_window(state: &AppState) -> (m: Modal)
    ensures
        m@ == modal_of(
            " Edit Mapping "@,
            Color::Yellow,
            44,
            12,
            BodyKind::List,
            menu_entries(edit_menu_labels(state@), state@.edit_menu_index),
        ),
{
    let labels: Vec<String> = match state.selected_mapping_ref() {
        Some(m) => {
            let mut d = owned("Debounce: ");
            push_decimal(&mut d, m.options.debounce_ms);
            append_str(&mut d, "ms");
            let v = vec![
                owned("Rename"),
                owned("Change Action"),
                d,
                labeled_switch("Suppress Retrigger: ", m.options.suppress_retrigger_while_held),
                labeled_switch("Value Change Only: ", m.options.trigger_on_value_change_only),
                labeled_switch("Allow Overlap: ", m.options.allow_overlap),
            ];
            assert(v@.map_values(|l: String| l@) =~= edit_menu_labels(state@));
            v
        },
        None => {
            let v = vec![owned("No mapping selected")];
            assert(v@.map_values(|l: String| l@) =~= edit_menu_labels(state@));
            v
        },
    };
    let lines = menu(&labels, state.edit_menu_index);
    Modal {
        title: owned(" Edit Mapping "),
        border: Color::Yellow,
        width: 44,
        height: 12,
        kind: BodyKind::List,
        lines,
    }
}

/// The height of the device window: room for every device and the frame,
/// 20 rows at most.
pub open spec fn device_window_height(n: nat) -> u16 {
    if n + 5 < 20 {
        (n + 5) as u16
    } else {
        20
    }
}

/// The device window: the devices, or a hint when there are none.
pub open spec fn device_window(s: AppStateView) -> ModalView {
    if s.midi_devices.len() == 0 {
        modal_of(
            " Select MIDI Device "@,
            Color::Yellow,
            50,
            5,
            BodyKind::Text,
            seq![
                blank(),
                one("  No MIDI devices found."@, colored(Color::Red)),
                blank(),
                one("  Press 'r' to refresh, Esc to cancel"@, plain_look()),
            ],
        )
    } else {
        modal_of(
            " Select MIDI Device "@,
            Color::Yellow,
            50,
            device_window_height(s.midi_devices.len()),
            BodyKind::List,
            menu_entries(s.midi_devices.map_values(|d: crate::app::state::MidiDeviceView| d.name), s.device_list_index),
        )
    }
}

fn device_select_window(state: &AppState) -> (m: Modal)
    ensures
        m@ == device_window(state@),
{
    let n = state.midi_devices.len();
    if n == 0 {
        let mut lines: Vec<Vec<TextSpan>> = Vec::new();
        push_blank(&mut lines);
        push_one(&mut lines, span("  No MIDI devices found.", in_color(Color::Red)));
        push_blank(&mut lines);
        push_text(&mut lines, "  Press 'r' to refresh, Esc to cancel");
        assert(lines_view(lines@) =~= device_window(state@).lines);
        return Modal {
            title: owned(" Select MIDI Device "),
            border: Color::Yellow,
            width: 50,
            height: 5,
            kind: BodyKind::Text,
            lines,
        };
    }
    let mut names: Vec<String> = Vec::new();
    let mut i: usize = 0;
    while i < n
        invariant
            n == state.midi_devices@.len(),
            i <= n,
            names@.map_values(|l: String| l@) == state@.midi_devices.map_values(
                |d: crate::app::state::MidiDeviceView| d.name,
            ).take(i as int),
        decreases n - i,
    {
        let name = state.midi_devices[i].name.clone();
        let ghost before = names@;
        let ghost name_view = name;
        names.push(name);
        proof {
            let all = state@.midi_devices.map_values(|d: crate::app::state::MidiDeviceView| d.name);
            assert(state@.midi_devices[i as int] == state.midi_devices@[i as int]@);
            assert(before.map_values(|l: String| l@).len() == before.len());
            assert(before.len() == i);
            assert(names@ == before.push(name_view));
            assert(all[i as int] == names@[i as int]@);
            assert(names@.map_values(|l: String| l@) =~= before.map_values(|l: String| l@).push(
                all[i as int],
            ));
            assert(all.take(i + 1) =~= all.take(i as int).push(all[i as int]));
        }
        i = i + 1;
    }
    assert(state@.midi_devices.map_values(|d: crate::app::state::MidiDeviceView| d.name).take(
        i as int,
    ) =~= state@.midi_devices.map_values(|d: crate::app::state::MidiDeviceView| d.name));
    let lines = menu(&names, state.device_list_index);
    let height: u16 = if n < 15 {
        (n + 5) as u16
    } else {
        20
    };
    Modal {
        title: owned(" Select MIDI Device "),
        border: Color::Yellow,
        width: 50,
        height,
        kind: BodyKind::List,
        lines,
    }
}

/// A dialog showing `message` in `color`.
pub open spec fn dialog_window(message: Seq<char>, color: Color) -> ModalView {
    modal_of(
        ""@,
        color,
        50,
        5,
        BodyKind::Wrapped,
        seq![blank(), one("  "@ + message, colored(color)), blank()],
    )
}

fn dialog(message: &str, color: Color) -> (m: Modal)
    ensures
        m@ == dialog_window(message@, color),
{
    let mut lines: Vec<Vec<TextSpan>> = Vec::new();
    push_blank(&mut lines);
    let mut t = owned("  ");
    append_str(&mut t, message);
    push_one(&mut lines, span_of(t, in_color(color)));
    push_blank(&mut lines);
    assert(lines_view(lines@) =~= dialog_window(message@, color).lines);
    Modal { title: owned(""), border: color, width: 50, height: 5, kind: BodyKind::Wrapped, lines }
}

/// The modal window of a mode: none in setup and run mode.
pub open spec fn modal_view(s: AppStateView) -> Option<ModalView> {
    match s.mode {
        AppModeView::LearnMidi => Some(
            modal_of(" Learn MIDI "@, Color::Yellow, 50, 7, BodyKind::Wrapped, learn_midi_lines(s)),
        ),
        AppModeView::LearnAction => if s.action_menu_open {
            Some(
                modal_of(
                    " Choose Action Type "@,
                    Color::Yellow,
                    40,
                    9,
                    BodyKind::List,
                    menu_entries(action_menu_labels(), s.action_menu_index),
                ),
            )
        } else {
            Some(modal_of(" Learn Key/Chord "@, Color::Yellow, 50, 7, BodyKind::Text, learn_key_lines(s)))
        },
        AppModeView::RecordMacro => Some(
            modal_of(" Record Macro "@, Color::Red, 50, 10, BodyKind::Text, record_macro_lines(s)),
        ),
        AppModeView::TextInput => Some(
            modal_of(" Text Input "@, Color::Yellow, 50, 7, BodyKind::Text, text_input_lines(s)),
        ),
        AppModeView::SelectDevice => Some(device_window(s)),
        AppModeView::EditMenu => Some(
            modal_of(
                " Edit Mapping "@,
                Color::Yellow,
                44,
                12,
                BodyKind::List,
                menu_entries(edit_menu_labels(s), s.edit_menu_index),
            ),
        ),
        AppModeView::ConfirmDialog(msg) => Some(dialog_window(msg, Color::Yellow)),
        AppModeView::ErrorDialog(msg) => Some(dialog_window(msg, Color::Red)),
        _ => None,
    }
}

/// The modal window to draw over the main screen, if any.
pub fn modal_window(state: &AppState) -> (m: Option<Modal>)
    ensures
        match m {
            Some(w) => modal_view(state@) == Some(w@),
            None => modal_view(state@) is None,
        },
{
    match &state.mode {
        AppMode::LearnMidi => Some(learn_midi_window(state)),
        AppMode::LearnAction => {
            if state.action_menu_open {
                Some(action_menu_window(state))
            } else {
                Some(learn_key_window(state))
            }
        },
        AppMode::RecordMacro => Some(record_macro_window(state)),
        AppMode::TextInput => Some(text_input_window(state)),
        AppMode::SelectDevice => Some(device_select_window(state)),
        AppMode::EditMenu => Some(edit_menu_window(state)),
        AppMode::ConfirmDialog(msg) => Some(dialog(msg.as_str(), Color::Yellow)),
        AppMode::ErrorDialog(msg) => Some(dialog(msg.as_str(), Color::Red)),
        _ => None,
    }
}

} // verus!
