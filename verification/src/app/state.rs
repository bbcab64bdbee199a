//! The application state.

use vstd::prelude::*;

use crate::config::model::{
    mapping_views, step_views, KeySpec, KnobMode, MacroStep, MacroStepView, Mapping, MappingView,
};
use crate::midi::cc_table::CcTable;
use crate::midi::decode::KnobState;
use crate::midi::trigger::MidiTrigger;

verus! {

/// The modes of the application.
#[derive(Debug, Clone, PartialEq)]
pub enum AppMode {
    Setup,
    Run,
    LearnMidi,
    LearnAction,
    RecordMacro,
    ConfirmDialog(String),
    ErrorDialog(String),
    TextInput,
    SelectDevice,
    EditMenu,
}

/// The mathematical value of a mode.
pub enum AppModeView {
    Setup,
    Run,
    LearnMidi,
    LearnAction,
    RecordMacro,
    ConfirmDialog(Seq<char>),
    ErrorDialog(Seq<char>),
    TextInput,
    SelectDevice,
    EditMenu,
}

impl View for AppMode {
    type V = AppModeView;

    open spec fn view(&self) -> AppModeView {
        match self {
            AppMode::Setup => AppModeView::Setup,
            AppMode::Run => AppModeView::Run,
            AppMode::LearnMidi => AppModeView::LearnMidi,
            AppMode::LearnAction => AppModeView::LearnAction,
            AppMode::RecordMacro => AppModeView::RecordMacro,
            AppMode::ConfirmDialog(m) => AppModeView::ConfirmDialog(m@),
            AppMode::ErrorDialog(m) => AppModeView::ErrorDialog(m@),
            AppMode::TextInput => AppModeView::TextInput,
            AppMode::SelectDevice => AppModeView::SelectDevice,
            AppMode::EditMenu => AppModeView::EditMenu,
        }
    }
}

/// The mathematical value of an optional mode.
pub open spec fn opt_mode_view(m: Option<AppMode>) -> Option<AppModeView> {
    match m {
        Some(x) => Some(x@),
        None => None,
    }
}

/// What a learn flow is waiting for.
#[derive(Debug, Clone, PartialEq)]
pub enum LearnState {
    WaitingForMidi,
    WaitingForSingleKey,
    WaitingForChord { pressed: Vec<KeySpec> },
    WaitingForText { buffer: String },
    /// Recording a macro: when recording began, when the last step was
    /// captured, and the steps so far.
    RecordingMacro { started_at_us: u64, last_at_us: u64, steps: Vec<MacroStep> },
    /// A CC controller was seen; its values are collected to guess the knob mode.
    KnobDetected { channel: u8, controller: u8, values: Vec<u8> },
    KnobLearnCW { channel: u8, controller: u8, mode: KnobMode },
    KnobLearnCCW { channel: u8, controller: u8, mode: KnobMode },
}

/// The mathematical value of a learn state.
pub enum LearnStateView {
    WaitingForMidi,
    WaitingForSingleKey,
    WaitingForChord { pressed: Seq<KeySpec> },
    WaitingForText { buffer: Seq<char> },
    RecordingMacro { started_at_us: u64, last_at_us: u64, steps: Seq<MacroStepView> },
    KnobDetected { channel: u8, controller: u8, values: Seq<u8> },
    KnobLearnCW { channel: u8, controller: u8, mode: KnobMode },
    KnobLearnCCW { channel: u8, controller: u8, mode: KnobMode },
}

impl View for LearnState {
    type V = LearnStateView;

    open spec fn view(&self) -> LearnStateView {
        match self {
            LearnState::WaitingForMidi => LearnStateView::WaitingForMidi,
            LearnState::WaitingForSingleKey => LearnStateView::WaitingForSingleKey,
            LearnState::WaitingForChord { pressed } => LearnStateView::WaitingForChord {
                pressed: pressed@,
            },
            LearnState::WaitingForText { buffer } => LearnStateView::WaitingForText {
                buffer: buffer@,
            },
            LearnState::RecordingMacro { started_at_us, last_at_us, steps } => LearnStateView::RecordingMacro {
                started_at_us: *started_at_us,
                last_at_us: *last_at_us,
                steps: step_views(steps@),
            },
            LearnState::KnobDetected { channel, controller, values } => LearnStateView::KnobDetected {
                channel: *channel,
                controller: *controller,
                values: values@,
            },
            LearnState::KnobLearnCW { channel, controller, mode } => LearnStateView::KnobLearnCW {
                channel: *channel,
                controller: *controller,
                mode: *mode,
            },
            LearnState::KnobLearnCCW { channel, controller, mode } => LearnStateView::KnobLearnCCW {
                channel: *channel,
                controller: *controller,
                mode: *mode,
            },
        }
    }
}

/// The mathematical value of an optional learn state.
pub open spec fn opt_learn_view(l: Option<LearnState>) -> Option<LearnStateView> {
    match l {
        Some(x) => Some(x@),
        None => None,
    }
}

/// The pane that has keyboard focus.
#[derive(Debug, Clone, Copy, PartialEq, Eq, Structural)]
pub enum ActivePane {
    MappingList,
    Details,
    Log,
}

/// What the text input is for.
#[derive(Debug, Clone, Copy, PartialEq, Eq, Structural)]
pub enum TextInputPurpose {
    MappingName,
    TextAction,
    DebounceMs,
    Idle,
}

/// What a confirmation dialog asks to confirm.
#[derive(Debug, Clone, Copy, PartialEq, Eq, Structural)]
pub enum ConfirmPurpose {
    Quit,
    DeleteMapping,
}

/// A MIDI input device.
#[derive(Debug, Clone, PartialEq)]
pub struct MidiDeviceInfo {
    pub id: usize,
    pub name: String,
}

/// The mathematical value of a device description.
pub struct MidiDeviceView {
    pub id: usize,
    pub name: Seq<char>,
}

impl View for MidiDeviceInfo {
    type V = MidiDeviceView;

    open spec fn view(&self) -> MidiDeviceView {
        MidiDeviceView { id: self.id, name: self.name@ }
    }
}

/// The mathematical value of a sequence of device descriptions.
pub open spec fn device_views(s: Seq<MidiDeviceInfo>) -> Seq<MidiDeviceView> {
    s.map_values(|d: MidiDeviceInfo| d@)
}

/// When a mapping last fired.
#[derive(Debug, Clone, PartialEq)]
pub struct DebounceTimer {
    pub mapping_id: String,
    pub fired_at_us: u64,
}

/// The mathematical value of a sequence of debounce timers: pairs of mapping
/// id and firing time.
pub open spec fn timer_views(s: Seq<DebounceTimer>) -> Seq<(Seq<char>, u64)> {
    s.map_values(|t: DebounceTimer| (t.mapping_id@, t.fired_at_us))
}

/// The mathematical value of an optional string.
pub open spec fn opt_str(s: Option<String>) -> Option<Seq<char>> {
    match s {
        Some(x) => Some(x@),
        None => None,
    }
}

/// The mathematical value of a sequence of strings.
pub open spec fn str_views(s: Seq<String>) -> Seq<Seq<char>> {
    s.map_values(|x: String| x@)
}

#[verifier::external_type_specification]
#[verifier::external_body]
pub struct ExInstant(std::time::Instant);

/// A monotonic clock, measured from the moment it was started.
#[derive(Debug)]
pub struct Clock {
    origin: std::time::Instant,
}

impl Clock {
    /// Calls `Instant::now` to start a clock.
    #[verifier::external_body]
    pub(crate) fn start() -> Clock {
        Clock { origin: std::time::Instant::now() }
    }

    /// Calls `Instant::elapsed`: the time since the clock was started.
    /// Nothing is claimed of the value, which depends on time.
    #[verifier::external_body]
    fn since_start(&self) -> std::time::Duration {
        self.origin.elapsed()
    }

    /// Calls `Duration::as_micros`: the whole microseconds in `d`. The
    /// duration is opaque here, so nothing is claimed of the count.
    #[verifier::external_body]
    fn micros(d: std::time::Duration) -> u128 {
        d.as_micros()
    }

    /// Microseconds since the clock was started, held at `u64::MAX` past it.
    pub(crate) fn elapsed_us(&self) -> u64 {
        let m = Self::micros(self.since_start());
        if m > u64::MAX as u128 {
            u64::MAX
        } else {
            m as u64
        }
    }
}

/// The application state.
#[derive(Debug)]
pub struct AppState {
    pub mode: AppMode,
    pub previous_mode: Option<AppMode>,
    pub midi_devices: Vec<MidiDeviceInfo>,
    pub selected_device: Option<usize>,
    pub selected_device_name: Option<String>,
    pub midi_connected: bool,
    pub mappings: Vec<Mapping>,
    pub selected_mapping: Option<usize>,
    pub learn_state: Option<LearnState>,
    pub learned_trigger: Option<MidiTrigger>,
    pub log_lines: Vec<String>,
    pub dirty: bool,
    pub running: bool,
    pub should_quit: bool,
    pub active_pane: ActivePane,
    pub last_midi_event: Option<String>,
    pub last_action: Option<String>,
    pub status_message: Option<String>,
    pub debounce_timers: Vec<DebounceTimer>,
    pub last_cc_values: CcTable,
    pub panic_stop: bool,
    pub device_list_index: usize,
    pub text_input_buffer: String,
    pub text_input_purpose: TextInputPurpose,
    pub action_menu_open: bool,
    pub action_menu_index: usize,
    pub edit_menu_index: usize,
    pub confirm_purpose: Option<ConfirmPurpose>,
    pub knob_state: KnobState,
    pub clock: Clock,
}

/// The mathematical value of the application state (all but the clock).
pub struct AppStateView {
    pub mode: AppModeView,
    pub previous_mode: Option<AppModeView>,
    pub midi_devices: Seq<MidiDeviceView>,
    pub selected_device: Option<usize>,
    pub selected_device_name: Option<Seq<char>>,
    pub midi_connected: bool,
    pub mappings: Seq<MappingView>,
    pub selected_mapping: Option<usize>,
    pub learn_state: Option<LearnStateView>,
    pub learned_trigger: Option<MidiTrigger>,
    pub log_lines: Seq<Seq<char>>,
    pub dirty: bool,
    pub running: bool,
    pub should_quit: bool,
    pub active_pane: ActivePane,
    pub last_midi_event: Option<Seq<char>>,
    pub last_action: Option<Seq<char>>,
    pub status_message: Option<Seq<char>>,
    pub debounce_timers: Seq<(Seq<char>, u64)>,
    pub last_cc_values: Map<(u8, u8), u8>,
    pub panic_stop: bool,
    pub device_list_index: usize,
    pub text_input_buffer: Seq<char>,
    pub text_input_purpose: TextInputPurpose,
    pub action_menu_open: bool,
    pub action_menu_index: usize,
    pub edit_menu_index: usize,
    pub confirm_purpose: Option<ConfirmPurpose>,
    pub knob_values: Map<(u8, u8), u8>,
}

impl View for AppState {
    type V = AppStateView;

    open spec fn view(&self) -> AppStateView {
        AppStateView {
            mode: self.mode@,
            previous_mode: opt_mode_view(self.previous_mode),
            midi_devices: device_views(self.midi_devices@),
            selected_device: self.selected_device,
            selected_device_name: opt_str(self.selected_device_name),
            midi_connected: self.midi_connected,
            mappings: mapping_views(self.mappings@),
            selected_mapping: self.selected_mapping,
            learn_state: opt_learn_view(self.learn_state),
            learned_trigger: self.learned_trigger,
            log_lines: str_views(self.log_lines@),
            dirty: self.dirty,
            running: self.running,
            should_quit: self.should_quit,
            active_pane: self.active_pane,
            last_midi_event: opt_str(self.last_midi_event),
            last_action: opt_str(self.last_action),
            status_message: opt_str(self.status_message),
            debounce_timers: timer_views(self.debounce_timers@),
            last_cc_values: self.last_cc_values@,
            panic_stop: self.panic_stop,
            device_list_index: self.device_list_index,
            text_input_buffer: self.text_input_buffer@,
            text_input_purpose: self.text_input_purpose,
            action_menu_open: self.action_menu_open,
            action_menu_index: self.action_menu_index,
            edit_menu_index: self.edit_menu_index,
            confirm_purpose: self.confirm_purpose,
            knob_values: self.knob_state@,
        }
    }
}

/// Most log lines kept; past this the oldest `LOG_DROP` are dropped.
pub const LOG_LIMIT: usize = 200;

/// Number of oldest log lines dropped when the log passes `LOG_LIMIT`.
pub const LOG_DROP: usize = 50;

/// The log after appending `msg`, bounded.
pub open spec fn log_after(lines: Seq<Seq<char>>, msg: Seq<char>) -> Seq<Seq<char>> {
    let l = lines.push(msg);
    if l.len() > LOG_LIMIT {
        l.skip(LOG_DROP as int)
    } else {
        l
    }
}

/// The state after logging `msg`.
pub open spec fn with_log(s: AppStateView, msg: Seq<char>) -> AppStateView {
    AppStateView { log_lines: log_after(s.log_lines, msg), ..s }
}

/// The log never grows past `LOG_LIMIT` lines, and a logged line is the
/// newest one.
pub proof fn log_stays_bounded(lines: Seq<Seq<char>>, msg: Seq<char>)
    requires
        lines.len() <= LOG_LIMIT,
    ensures
        log_after(lines, msg).len() <= LOG_LIMIT,
        log_after(lines, msg).len() > 0,
        log_after(lines, msg).last() == msg,
{
}

/// The initial state: setup mode with nothing learned, selected or logged.
pub open spec fn initial_state(s: AppStateView) -> bool {
    &&& s.mode is Setup
    &&& s.previous_mode is None
    &&& s.midi_devices.len() == 0
    &&& s.selected_device is None
    &&& s.selected_device_name is None
    &&& !s.midi_connected
    &&& s.mappings.len() == 0
    &&& s.selected_mapping is None
    &&& s.learn_state is None
    &&& s.learned_trigger is None
    &&& s.log_lines.len() == 0
    &&& !s.dirty
    &&& !s.running
    &&& !s.should_quit
    &&& s.active_pane == ActivePane::MappingList
    &&& s.last_midi_event is None
    &&& s.last_action is None
    &&& s.status_message is None
    &&& s.debounce_timers.len() == 0
    &&& s.last_cc_values == Map::<(u8, u8), u8>::empty()
    &&& !s.panic_stop
    &&& s.device_list_index == 0
    &&& s.text_input_buffer.len() == 0
    &&& s.text_input_purpose == TextInputPurpose::Idle
    &&& !s.action_menu_open
    &&& s.action_menu_index == 0
    &&& s.edit_menu_index == 0
    &&& s.confirm_purpose is None
    &&& s.knob_values == Map::<(u8, u8), u8>::empty()
}

/// Replacing one mapping changes the mappings' value at that position only.
pub proof fn mapping_views_update(v: Seq<Mapping>, i: int, m: Mapping)
    requires
        0 <= i < v.len(),
    ensures
        mapping_views(v.update(i, m)) == mapping_views(v).update(i, m@),
{
    assert(mapping_views(v.update(i, m)) =~= mapping_views(v).update(i, m@));
}

impl Default for AppState {
    fn default() -> (s: Self)
        ensures
            initial_state(s@),
    {
        AppState {
            mode: AppMode::Setup,
            previous_mode: None,
            midi_devices: Vec::new(),
            selected_device: None,
            selected_device_name: None,
            midi_connected: false,
            mappings: Vec::new(),
            selected_mapping: None,
            learn_state: None,
            learned_trigger: None,
            log_lines: Vec::new(),
            dirty: false,
            running: false,
            should_quit: false,
            active_pane: ActivePane::MappingList,
            last_midi_event: None,
            last_action: None,
            status_message: None,
            debounce_timers: Vec::new(),
            last_cc_values: CcTable::new(),
            panic_stop: false,
            device_list_index: 0,
            text_input_buffer: String::new(),
            text_input_purpose: TextInputPurpose::Idle,
            action_menu_open: false,
            action_menu_index: 0,
            edit_menu_index: 0,
            confirm_purpose: None,
            knob_state: KnobState::new(),
            clock: Clock::start(),
        }
    }
}

impl AppState {
    /// Append a line to the log, dropping the oldest lines when it grows past
    /// its limit.
    pub fn add_log(&mut self, msg: String)
        ensures
            final(self)@ == with_log(old(self)@, msg@),
    {
        self.log_lines.push(msg);
        if self.log_lines.len() > LOG_LIMIT {
            let rest = self.log_lines.split_off(LOG_DROP);
            self.log_lines = rest;
        }
        assert(str_views(self.log_lines@) =~= log_after(str_views(old(self).log_lines@), msg@));
    }

    /// The clock reading, in microseconds since the state was made. Nothing is
    /// claimed of the value, which depends on time.
    pub fn now_us(&self) -> u64 {
        self.clock.elapsed_us()
    }

    /// The selected mapping, if the selection is within the list.
    pub fn selected_mapping_ref(&self) -> (r: Option<&Mapping>)
        ensures
            r == (match self.selected_mapping {
                Some(i) => if i < self.mappings@.len() {
                    Some(&self.mappings@[i as int])
                } else {
                    None
                },
                None => None,
            }),
    {
        match self.selected_mapping {
            Some(i) => {
                if i < self.mappings.len() {
                    Some(&self.mappings[i])
                } else {
                    None
                }
            },
            None => None,
        }
    }
}

} // verus!
