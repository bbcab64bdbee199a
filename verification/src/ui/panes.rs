//! The content of the main screen: status bar, mapping list, details pane,
//! log pane and footer.

use vstd::prelude::*;

use crate::app::model::selected;
use crate::app::state::{ActivePane, AppMode, AppModeView, AppState, AppStateView};
use crate::config::model::{
    action_text, action_text_fits, macro_step_text, MacroStepView, MappingView, OutputAction,
    OutputActionView,
};
use crate::midi::trigger::trigger_text;
use crate::text::{
    append_str, bool_text, contains_text, decimal, owned, push_bool, push_decimal,
    starts_with_text, text_contains, text_starts_with,
};
use crate::ui::view::{
    blank, bold, bold_in, colored, in_color, line_view, lines_view, one, plain, plain_look,
    push_blank, push_line, push_one, push_span, sp, span, span_of, Color, Look, SpanView,
    TextSpan,
};

verus! {

/// The name of a mode in the status bar.
pub open spec fn mode_label(m: AppModeView) -> Seq<char> {
    match m {
        AppModeView::Setup => "SETUP"@,
        AppModeView::Run => "\u{25b6} RUN"@,
        AppModeView::LearnMidi => "LEARN MIDI"@,
        AppModeView::LearnAction => "LEARN ACTION"@,
        AppModeView::RecordMacro => "REC MACRO"@,
        AppModeView::TextInput => "TEXT INPUT"@,
        AppModeView::SelectDevice => "SELECT DEVICE"@,
        AppModeView::EditMenu => "EDIT MAPPING"@,
        AppModeView::ConfirmDialog(_) => "CONFIRM"@,
        AppModeView::ErrorDialog(_) => "ERROR"@,
    }
}

/// The colour of a mode in the status bar: green when running, yellow while
/// learning, red while recording or on an error.
pub open spec fn mode_color(m: AppModeView) -> Color {
    match m {
        AppModeView::Run => Color::Green,
        AppModeView::LearnMidi | AppModeView::LearnAction => Color::Yellow,
        AppModeView::RecordMacro => Color::Red,
        AppModeView::ErrorDialog(_) => Color::Red,
        _ => Color::Cyan,
    }
}

/// The status bar: name, mode, device, connection, panic stop and unsaved
/// changes.
pub open spec fn status_spans(s: AppStateView) -> Seq<SpanView> {
    seq![
        sp(" keebmidi "@, bold_in(Color::White)),
        sp("\u{2502} "@, plain_look()),
        sp(mode_label(s.mode), bold_in(mode_color(s.mode))),
        sp(" \u{2502} "@, plain_look()),
        sp(
            match s.selected_device_name {
                Some(n) => n,
                None => "No device"@,
            },
            colored(Color::White),
        ),
        if s.midi_connected {
            sp(" \u{25cf} Connected"@, colored(Color::Green))
        } else {
            sp(" \u{25cb} Disconnected"@, colored(Color::Red))
        },
        if s.panic_stop {
            sp(" \u{26a0} STOPPED"@, Look { color: Color::Red, bold: true, blink: true })
        } else {
            sp(""@, plain_look())
        },
        if s.dirty {
            sp(" [modified]"@, colored(Color::Yellow))
        } else {
            sp(""@, plain_look())
        },
    ]
}

fn mode_span(mode: &AppMode) -> (r: TextSpan)
    ensures
        r@ == sp(mode_label(mode@), bold_in(mode_color(mode@))),
{
    match mode {
        AppMode::Setup => span("SETUP", bold(Color::Cyan)),
        AppMode::Run => span("\u{25b6} RUN", bold(Color::Green)),
        AppMode::LearnMidi => span("LEARN MIDI", bold(Color::Yellow)),
        AppMode::LearnAction => span("LEARN ACTION", bold(Color::Yellow)),
        AppMode::RecordMacro => span("REC MACRO", bold(Color::Red)),
        AppMode::TextInput => span("TEXT INPUT", bold(Color::Cyan)),
        AppMode::SelectDevice => span("SELECT DEVICE", bold(Color::Cyan)),
        AppMode::EditMenu => span("EDIT MAPPING", bold(Color::Cyan)),
        AppMode::ConfirmDialog(_) => span("CONFIRM", bold(Color::Cyan)),
        AppMode::ErrorDialog(_) => span("ERROR", bold(Color::Red)),
    }
}

/// The status bar line.
pub fn status_line(state: &AppState) -> (l: Vec<TextSpan>)
    ensures
        line_view(l@) == status_spans(state@),
{
    let mut l: Vec<TextSpan> = Vec::new();
    push_span(&mut l, span(" keebmidi ", bold(Color::White)));
    push_span(&mut l, span("\u{2502} ", plain()));
    push_span(&mut l, mode_span(&state.mode));
    push_span(&mut l, span(" \u{2502} ", plain()));
    match &state.selected_device_name {
        Some(n) => push_span(&mut l, span_of(n.clone(), in_color(Color::White))),
        None => push_span(&mut l, span("No device", in_color(Color::White))),
    }
    if state.midi_connected {
        push_span(&mut l, span(" \u{25cf} Connected", in_color(Color::Green)));
    } else {
        push_span(&mut l, span(" \u{25cb} Disconnected", in_color(Color::Red)));
    }
    if state.panic_stop {
        push_span(
            &mut l,
            span(" \u{26a0} STOPPED", Look { color: Color::Red, bold: true, blink: true }),
        );
    } else {
        push_span(&mut l, span("", plain()));
    }
    if state.dirty {
        push_span(&mut l, span(" [modified]", in_color(Color::Yellow)));
    } else {
        push_span(&mut l, span("", plain()));
    }
    assert(line_view(l@) =~= status_spans(state@));
    l
}

/// The border colour of a pane: cyan when it has the focus.
pub open spec fn border_color(focused: bool) -> Color {
    if focused {
        Color::Cyan
    } else {
        Color::DarkGray
    }
}

/// The border colour of a pane.
pub fn pane_border(state: &AppState, pane: ActivePane) -> (c: Color)
    ensures
        c == border_color(state@.active_pane == pane),
{
    if state.active_pane == pane {
        Color::Cyan
    } else {
        Color::DarkGray
    }
}

/// One entry of the mapping list: selection marker, enabled marker and name.
pub open spec fn mapping_item(m: MappingView, is_selected: bool) -> Seq<SpanView> {
    seq![
        sp(if is_selected { "\u{25b8} "@ } else { "  "@ }, plain_look()),
        sp(
            if m.enabled { "\u{2713}"@ } else { "\u{25cb}"@ },
            colored(if m.enabled { Color::Green } else { Color::DarkGray }),
        ),
        sp(" "@, plain_look()),
        sp(m.name, colored(if m.enabled { Color::White } else { Color::DarkGray })),
    ]
}

/// The entries of the mapping list.
pub open spec fn mapping_items_view(s: AppStateView) -> Seq<Seq<SpanView>> {
    Seq::new(
        s.mappings.len(),
        |i: int| mapping_item(s.mappings[i], s.selected_mapping == Some(i as usize)),
    )
}

/// The entries of the mapping list.
pub fn mapping_items(state: &AppState) -> (items: Vec<Vec<TextSpan>>)
    ensures
        lines_view(items@) == mapping_items_view(state@),
{
    let mut items: Vec<Vec<TextSpan>> = Vec::new();
    let mut i: usize = 0;
    while i < state.mappings.len()
        invariant
            i <= state.mappings@.len(),
            lines_view(items@) == mapping_items_view(state@).take(i as int),
        decreases state.mappings@.len() - i,
    {
        let m = &state.mappings[i];
        let is_selected = match state.selected_mapping {
            Some(j) => j == i,
            None => false,
        };
        let mut l: Vec<TextSpan> = Vec::new();
        if is_selected {
            push_span(&mut l, span("\u{25b8} ", plain()));
        } else {
            push_span(&mut l, span("  ", plain()));
        }
        if m.enabled {
            push_span(&mut l, span("\u{2713}", in_color(Color::Green)));
        } else {
            push_span(&mut l, span("\u{25cb}", in_color(Color::DarkGray)));
        }
        push_span(&mut l, span(" ", plain()));
        let name_color = if m.enabled {
            Color::White
        } else {
            Color::DarkGray
        };
        push_span(&mut l, span_of(m.name.clone(), in_color(name_color)));
        proof {
            assert(state@.mappings[i as int] == state.mappings@[i as int]@);
            assert(line_view(l@) =~= mapping_item(state@.mappings[i as int], is_selected));
            assert(mapping_items_view(state@).take(i + 1) =~= mapping_items_view(state@).take(
                i as int,
            ).push(line_view(l@)));
        }
        push_line(&mut items, l);
        i = i + 1;
    }
    assert(mapping_items_view(state@).take(i as int) =~= mapping_items_view(state@));
    items
}

/// The title of the mapping list.
pub fn mapping_list_title(state: &AppState) -> (t: String)
    ensures
        t@ == " Mappings ("@ + decimal(state@.mappings.len()) + ") "@,
{
    let mut t = owned(" Mappings (");
    push_decimal(&mut t, state.mappings.len() as u64);
    append_str(&mut t, ") ");
    t
}

/// The lines that list a macro's steps, numbered from 1.
pub open spec fn step_lines(steps: Seq<MacroStepView>) -> Seq<Seq<SpanView>> {
    Seq::new(
        steps.len(),
        |i: int| one("  "@ + decimal((i + 1) as nat) + ": "@ + macro_step_text(steps[i]), plain_look()),
    )
}

/// The details of a mapping: name, id, state, trigger, action, macro steps
/// and options.
pub open spec fn mapping_details(m: MappingView) -> Seq<Seq<SpanView>> {
    seq![
        seq![sp("Name: "@, colored(Color::Yellow)), sp(m.name, plain_look())],
        seq![sp("ID: "@, colored(Color::DarkGray)), sp(m.id, colored(Color::DarkGray))],
        seq![
            sp("Enabled: "@, colored(Color::Yellow)),
            sp(
                if m.enabled { "Yes"@ } else { "No"@ },
                colored(if m.enabled { Color::Green } else { Color::Red }),
            ),
        ],
        blank(),
        seq![sp("Trigger: "@, colored(Color::Yellow)), sp(trigger_text(m.trigger), plain_look())],
        blank(),
        seq![sp("Action: "@, colored(Color::Yellow)), sp(action_text(m.action), plain_look())],
    ] + match m.action {
        OutputActionView::Macro { spec } => seq![blank(), one("Macro Steps:"@, colored(Color::Yellow))]
            + step_lines(spec.steps),
        _ => Seq::empty(),
    } + seq![
        blank(),
        one("Options: "@, colored(Color::Yellow)),
        one("  Debounce: "@ + decimal(m.options.debounce_ms as nat) + "ms"@, plain_look()),
        one(
            "  Suppress retrigger: "@ + bool_text(m.options.suppress_retrigger_while_held),
            plain_look(),
        ),
        one(
            "  Value change only: "@ + bool_text(m.options.trigger_on_value_change_only),
            plain_look(),
        ),
        one("  Allow overlap: "@ + bool_text(m.options.allow_overlap), plain_look()),
    ]
}

/// The details pane: the selected mapping's details, or a hint.
pub open spec fn details_view(s: AppStateView) -> Seq<Seq<SpanView>> {
    match selected(s) {
        Some(m) => mapping_details(m),
        None => seq![
            blank(),
            one("  No mapping selected"@, colored(Color::DarkGray)),
            blank(),
            one("  Press 'a' to add a new mapping"@, colored(Color::DarkGray)),
        ],
    }
}

fn push_labeled(lines: &mut Vec<Vec<TextSpan>>, label: &str, label_color: Color, value: String, value_look: Look)
    ensures
        lines_view(final(lines)@) == lines_view(old(lines)@).push(
            seq![sp(label@, colored(label_color)), sp(value@, value_look)],
        ),
{
    let mut l: Vec<TextSpan> = Vec::new();
    push_span(&mut l, span(label, in_color(label_color)));
    push_span(&mut l, span_of(value, value_look));
    assert(line_view(l@) =~= seq![sp(label@, colored(label_color)), sp(value@, value_look)]);
    push_line(lines, l);
}

fn push_flag(lines: &mut Vec<Vec<TextSpan>>, label: &str, b: bool)
    ensures
        lines_view(final(lines)@) == lines_view(old(lines)@).push(one(label@ + bool_text(b), plain_look())),
{
    let mut t = owned(label);
    push_bool(&mut t, b);
    push_one(lines, span_of(t, plain()));
}

/// The lines of the details pane.
pub fn details_lines(state: &AppState) -> (lines: Vec<Vec<TextSpan>>)
    requires
        selected(state@) matches Some(m) ==> action_text_fits(m.action),
    ensures
        lines_view(lines@) == details_view(state@),
{
    let mut lines: Vec<Vec<TextSpan>> = Vec::new();
    match state.selected_mapping_ref() {
        Some(m) => {
            let ghost mv = m@;
            assert(selected(state@) == Some(mv));
            push_labeled(&mut lines, "Name: ", Color::Yellow, m.name.clone(), plain());
            push_labeled(&mut lines, "ID: ", Color::DarkGray, m.id.clone(), in_color(Color::DarkGray));
            if m.enabled {
                push_labeled(&mut lines, "Enabled: ", Color::Yellow, owned("Yes"), in_color(Color::Green));
            } else {
                push_labeled(&mut lines, "Enabled: ", Color::Yellow, owned("No"), in_color(Color::Red));
            }
            push_blank(&mut lines);
            push_labeled(&mut lines, "Trigger: ", Color::Yellow, m.trigger.display_string(), plain());
            push_blank(&mut lines);
            push_labeled(&mut lines, "Action: ", Color::Yellow, m.action.display_string(), plain());
            let ghost head = lines_view(lines@);
            match &m.action {
                OutputAction::Macro { spec } => {
                    push_blank(&mut lines);
                    push_one(&mut lines, span("Macro Steps:", in_color(Color::Yellow)));
                    let ghost before = lines_view(lines@);
                    let mut i: usize = 0;
                    while i < spec.steps.len()
                        invariant
                            i <= spec.steps@.len(),
                            lines_view(lines@) == before + step_lines(spec@.steps).take(i as int),
                        decreases spec.steps@.len() - i,
                    {
                        let mut t = owned("  ");
                        push_decimal(&mut t, (i + 1) as u64);
                        append_str(&mut t, ": ");
                        let st = spec.steps[i].display_string();
                        append_str(&mut t, st.as_str());
                        proof {
                            assert(spec@.steps[i as int] == spec.steps@[i as int]@);
                            assert(step_lines(spec@.steps).take(i + 1) =~= step_lines(spec@.steps).take(
                                i as int,
                            ).push(one(t@, plain_look())));
                        }
                        push_one(&mut lines, span_of(t, plain()));
                        i = i + 1;
                    }
                    assert(step_lines(spec@.steps).take(i as int) =~= step_lines(spec@.steps));
                },
                _ => {},
            }
            let ghost mid = lines_view(lines@);
            push_blank(&mut lines);
            push_one(&mut lines, span("Options: ", in_color(Color::Yellow)));
            let mut t = owned("  Debounce: ");
            push_decimal(&mut t, m.options.debounce_ms);
            append_str(&mut t, "ms");
            push_one(&mut lines, span_of(t, plain()));
            push_flag(&mut lines, "  Suppress retrigger: ", m.options.suppress_retrigger_while_held);
            push_flag(&mut lines, "  Value change only: ", m.options.trigger_on_value_change_only);
            push_flag(&mut lines, "  Allow overlap: ", m.options.allow_overlap);
            assert(lines_view(lines@) =~= details_view(state@));
        },
        None => {
            push_blank(&mut lines);
            push_one(&mut lines, span("  No mapping selected", in_color(Color::DarkGray)));
            push_blank(&mut lines);
            push_one(&mut lines, span("  Press 'a' to add a new mapping", in_color(Color::DarkGray)));
            assert(lines_view(lines@) =~= details_view(state@));
        },
    }
    lines
}

/// The colour of a log line: green for fired mappings, yellow for warnings
/// and MIDI input, red for errors and failures, grey otherwise.
pub open spec fn log_color(line: Seq<char>) -> Color {
    if starts_with_text(line, "\u{25b6}"@) {
        Color::Green
    } else if starts_with_text(line, "\u{26a0}"@) || starts_with_text(line, "MIDI:"@) {
        Color::Yellow
    } else if contains_text(line, "error"@) || contains_text(line, "Error"@) || contains_text(
        line,
        "failed"@,
    ) {
        Color::Red
    } else {
        Color::DarkGray
    }
}

/// The colour of a log line.
pub fn log_line_color(line: &str) -> (c: Color)
    ensures
        c == log_color(line@),
{
    if text_starts_with(line, "\u{25b6}") {
        Color::Green
    } else if text_starts_with(line, "\u{26a0}") || text_starts_with(line, "MIDI:") {
        Color::Yellow
    } else if text_contains(line, "error") || text_contains(line, "Error") || text_contains(
        line,
        "failed",
    ) {
        Color::Red
    } else {
        Color::DarkGray
    }
}

/// The newest `visible` log lines (all of them if there are fewer), each in
/// its colour.
pub open spec fn log_view(s: AppStateView, visible: usize) -> Seq<Seq<SpanView>> {
    let start: int = if s.log_lines.len() > visible {
        s.log_lines.len() - visible
    } else {
        0
    };
    Seq::new(
        (s.log_lines.len() - start) as nat,
        |i: int| one(s.log_lines[start + i], colored(log_color(s.log_lines[start + i]))),
    )
}

/// The lines of the log pane when `visible` lines fit.
pub fn log_pane_lines(state: &AppState, visible: usize) -> (lines: Vec<Vec<TextSpan>>)
    ensures
        lines_view(lines@) == log_view(state@, visible),
{
    let n = state.log_lines.len();
    let start: usize = if n > visible {
        n - visible
    } else {
        0
    };
    let mut lines: Vec<Vec<TextSpan>> = Vec::new();
    let mut i: usize = start;
    while i < n
        invariant
            n == state.log_lines@.len(),
            start <= i <= n,
            start == (if n > visible { n - visible } else { 0 }),
            lines_view(lines@) == log_view(state@, visible).take(i - start),
        decreases n - i,
    {
        let text = state.log_lines[i].clone();
        let c = log_line_color(text.as_str());
        proof {
            assert(state@.log_lines[i as int] == state.log_lines@[i as int]@);
            assert(log_view(state@, visible).take(i - start + 1) =~= log_view(state@, visible).take(
                i - start,
            ).push(one(text@, colored(c))));
        }
        push_one(&mut lines, span_of(text, in_color(c)));
        i = i + 1;
    }
    assert(log_view(state@, visible).take(i - start) =~= log_view(state@, visible));
    lines
}

/// The title of the log pane: the last MIDI event and the last action, when
/// there are.
pub open spec fn log_title_view(s: AppStateView) -> Seq<SpanView> {
    seq![sp(" Log "@, plain_look())] + match s.last_midi_event {
        Some(m) => seq![sp("\u{2502} MIDI: "@ + m + " "@, colored(Color::Yellow))],
        None => Seq::empty(),
    } + match s.last_action {
        Some(a) => seq![sp("\u{2502} Last: "@ + a + " "@, colored(Color::Green))],
        None => Seq::empty(),
    }
}

/// The title of the log pane.
pub fn log_title(state: &AppState) -> (l: Vec<TextSpan>)
    ensures
        line_view(l@) == log_title_view(state@),
{
    let mut l: Vec<TextSpan> = Vec::new();
    push_span(&mut l, span(" Log ", plain()));
    match &state.last_midi_event {
        Some(m) => {
            let mut t = owned("\u{2502} MIDI: ");
            append_str(&mut t, m.as_str());
            append_str(&mut t, " ");
            push_span(&mut l, span_of(t, in_color(Color::Yellow)));
        },
        None => {},
    }
    match &state.last_action {
        Some(a) => {
            let mut t = owned("\u{2502} Last: ");
            append_str(&mut t, a.as_str());
            append_str(&mut t, " ");
            push_span(&mut l, span_of(t, in_color(Color::Green)));
        },
        None => {},
    }
    assert(line_view(l@) =~= log_title_view(state@));
    l
}

/// The key bindings shown in the footer for a mode.
pub open spec fn key_binds(m: AppModeView) -> Seq<char> {
    match m {
        AppModeView::Setup => "q:Quit  s:Save  a:Add  e:Edit  d:Delete  l:LearnMIDI  r:Run  Space:Toggle  D:Device  Tab:Pane  F12:Stop"@,
        AppModeView::Run => "r/Esc:Stop  q:Quit  F12:PanicStop"@,
        AppModeView::LearnMidi => "Esc:Cancel"@,
        AppModeView::LearnAction => "\u{2191}\u{2193}:Select  Enter:Confirm  Esc:Cancel"@,
        AppModeView::RecordMacro => "Enter:Stop  Esc:Cancel"@,
        AppModeView::TextInput => "Enter:Confirm  Esc:Cancel  Backspace:Delete"@,
        AppModeView::SelectDevice => "\u{2191}\u{2193}:Select  Enter:Connect  r:Refresh  Esc:Cancel"@,
        AppModeView::EditMenu => "\u{2191}\u{2193}:Select  Enter:Confirm/Toggle  Esc:Cancel"@,
        AppModeView::ConfirmDialog(_) => "y:Yes  n:No  Esc:Cancel"@,
        AppModeView::ErrorDialog(_) => "Enter/Esc:Dismiss"@,
    }
}

/// The footer: the key bindings of the current mode, in grey.
pub fn footer_line(state: &AppState) -> (s: TextSpan)
    ensures
        s@ == sp(" "@ + key_binds(state@.mode), colored(Color::DarkGray)),
{
    let binds = match &state.mode {
        AppMode::Setup => "q:Quit  s:Save  a:Add  e:Edit  d:Delete  l:LearnMIDI  r:Run  Space:Toggle  D:Device  Tab:Pane  F12:Stop",
        AppMode::Run => "r/Esc:Stop  q:Quit  F12:PanicStop",
        AppMode::LearnMidi => "Esc:Cancel",
        AppMode::LearnAction => "\u{2191}\u{2193}:Select  Enter:Confirm  Esc:Cancel",
        AppMode::RecordMacro => "Enter:Stop  Esc:Cancel",
        AppMode::TextInput => "Enter:Confirm  Esc:Cancel  Backspace:Delete",
        AppMode::SelectDevice => "\u{2191}\u{2193}:Select  Enter:Connect  r:Refresh  Esc:Cancel",
        AppMode::EditMenu => "\u{2191}\u{2193}:Select  Enter:Confirm/Toggle  Esc:Cancel",
        AppMode::ConfirmDialog(_) => "y:Yes  n:No  Esc:Cancel",
        AppMode::ErrorDialog(_) => "Enter/Esc:Dismiss",
    };
    let mut t = owned(" ");
    append_str(&mut t, binds);
    span_of(t, in_color(Color::DarkGray))
}

} // verus!
