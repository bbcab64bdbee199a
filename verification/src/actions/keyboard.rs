//! Keyboard output: the sink abstraction, a recording sink for tests, and the
//! system commands that carry out media keys.

use vstd::prelude::*;

use crate::config::model::KeySpec;
use crate::text::owned;

verus! {

/// Why a keyboard sink could not send an event.
#[derive(Debug, Clone, PartialEq)]
pub struct SinkError {
    pub message: String,
}

/// An event that a sink is asked to send.
pub enum SinkEvent {
    KeyDown(KeySpec),
    KeyUp(KeySpec),
    KeyTap(KeySpec),
    Text(Seq<char>),
    Pause(u64),
}

/// Abstraction over keyboard injection for testability and platform fallbacks.
///
/// `sent` is the sequence of events that the sink has sent so far. A call
/// that succeeds appends its event; a call that fails sends nothing. A sink
/// that declares itself `infallible` succeeds in every call.
pub trait KeyboardSink: Send {
    /// The events sent so far.
    spec fn sent(&self) -> Seq<SinkEvent>;

    /// Whether every call of this sink succeeds.
    spec fn infallible(&self) -> bool;

    /// Press `key` and keep it held.
    fn key_down(&mut self, key: &KeySpec) -> (r: Result<(), SinkError>)
        ensures
            r is Ok ==> final(self).sent() == old(self).sent().push(SinkEvent::KeyDown(*key)),
            r is Err ==> final(self).sent() == old(self).sent(),
            old(self).infallible() ==> r is Ok,
            final(self).infallible() == old(self).infallible(),
    ;

    /// Release `key`.
    fn key_up(&mut self, key: &KeySpec) -> (r: Result<(), SinkError>)
        ensures
            r is Ok ==> final(self).sent() == old(self).sent().push(SinkEvent::KeyUp(*key)),
            r is Err ==> final(self).sent() == old(self).sent(),
            old(self).infallible() ==> r is Ok,
            final(self).infallible() == old(self).infallible(),
    ;

    /// Press and release `key`.
    fn key_tap(&mut self, key: &KeySpec) -> (r: Result<(), SinkError>)
        ensures
            r is Ok ==> final(self).sent() == old(self).sent().push(SinkEvent::KeyTap(*key)),
            r is Err ==> final(self).sent() == old(self).sent(),
            old(self).infallible() ==> r is Ok,
            final(self).infallible() == old(self).infallible(),
    ;

    /// Type `text`.
    fn text(&mut self, text: &str) -> (r: Result<(), SinkError>)
        ensures
            r is Ok ==> final(self).sent() == old(self).sent().push(SinkEvent::Text(text@)),
            r is Err ==> final(self).sent() == old(self).sent(),
            old(self).infallible() ==> r is Ok,
            final(self).infallible() == old(self).infallible(),
    ;

    /// Wait `ms` milliseconds before the next event.
    fn pause(&mut self, ms: u64)
        ensures
            final(self).sent() == old(self).sent().push(SinkEvent::Pause(ms)),
            final(self).infallible() == old(self).infallible(),
    ;
}

/// A keyboard backend as the platform provides it: each call presses,
/// releases, taps, types or waits, and reports whether it worked. Wrapped in a
/// `BackendSink`, it serves as a `KeyboardSink`.
pub trait KeyboardBackend: Send {
    /// Press `key` and keep it held.
    fn key_down(&mut self, key: &KeySpec) -> Result<(), SinkError>;

    /// Release `key`.
    fn key_up(&mut self, key: &KeySpec) -> Result<(), SinkError>;

    /// Press and release `key`.
    fn key_tap(&mut self, key: &KeySpec) -> Result<(), SinkError>;

    /// Type `text`.
    fn text(&mut self, text: &str) -> Result<(), SinkError>;

    /// Wait `ms` milliseconds.
    fn pause(&mut self, ms: u64);
}

/// A keyboard sink over a backend: forwards every call and keeps, as ghost
/// records, the calls handed to the backend and those it reported as done.
pub struct BackendSink<B: KeyboardBackend> {
    pub backend: B,
    done: Ghost<Seq<SinkEvent>>,
    asked: Ghost<Seq<SinkEvent>>,
}

impl<B: KeyboardBackend> BackendSink<B> {
    /// A sink over `backend` that has sent nothing yet.
    pub fn new(backend: B) -> (s: Self)
        ensures
            s.sent() == Seq::<SinkEvent>::empty(),
            s.requested() == Seq::<SinkEvent>::empty(),
    {
        BackendSink { backend, done: Ghost(Seq::empty()), asked: Ghost(Seq::empty()) }
    }

    /// The calls handed to the backend so far, whatever it answered.
    pub closed spec fn requested(&self) -> Seq<SinkEvent> {
        self.asked@
    }
}

impl<B: KeyboardBackend> KeyboardSink for BackendSink<B> {
    closed spec fn sent(&self) -> Seq<SinkEvent> {
        self.done@
    }

    /// Whether the backend succeeds is its own affair: nothing is promised.
    open spec fn infallible(&self) -> bool {
        false
    }

    fn key_down(&mut self, key: &KeySpec) -> (r: Result<(), SinkError>)
        ensures
            final(self).requested() == old(self).requested().push(SinkEvent::KeyDown(*key)),
    {
        let r = self.backend.key_down(key);
        self.asked = Ghost(self.asked@.push(SinkEvent::KeyDown(*key)));
        if r.is_ok() {
            self.done = Ghost(self.done@.push(SinkEvent::KeyDown(*key)));
        }
        r
    }

    fn key_up(&mut self, key: &KeySpec) -> (r: Result<(), SinkError>)
        ensures
            final(self).requested() == old(self).requested().push(SinkEvent::KeyUp(*key)),
    {
        let r = self.backend.key_up(key);
        self.asked = Ghost(self.asked@.push(SinkEvent::KeyUp(*key)));
        if r.is_ok() {
            self.done = Ghost(self.done@.push(SinkEvent::KeyUp(*key)));
        }
        r
    }

    fn key_tap(&mut self, key: &KeySpec) -> (r: Result<(), SinkError>)
        ensures
            final(self).requested() == old(self).requested().push(SinkEvent::KeyTap(*key)),
    {
        let r = self.backend.key_tap(key);
        self.asked = Ghost(self.asked@.push(SinkEvent::KeyTap(*key)));
        if r.is_ok() {
            self.done = Ghost(self.done@.push(SinkEvent::KeyTap(*key)));
        }
        r
    }

    fn text(&mut self, text: &str) -> (r: Result<(), SinkError>)
        ensures
            final(self).requested() == old(self).requested().push(SinkEvent::Text(text@)),
    {
        let r = self.backend.text(text);
        self.asked = Ghost(self.asked@.push(SinkEvent::Text(text@)));
        if r.is_ok() {
            self.done = Ghost(self.done@.push(SinkEvent::Text(text@)));
        }
        r
    }

    fn pause(&mut self, ms: u64)
        ensures
            final(self).requested() == old(self).requested().push(SinkEvent::Pause(ms)),
    {
        self.backend.pause(ms);
        self.asked = Ghost(self.asked@.push(SinkEvent::Pause(ms)));
        self.done = Ghost(self.done@.push(SinkEvent::Pause(ms)));
    }
}

/// An event recorded by the mock sink.
#[derive(Debug, Clone, PartialEq)]
pub enum MockKeyEvent {
    KeyDown(KeySpec),
    KeyUp(KeySpec),
    KeyTap(KeySpec),
    Text(String),
}

impl View for MockKeyEvent {
    type V = SinkEvent;

    open spec fn view(&self) -> SinkEvent {
        match self {
            MockKeyEvent::KeyDown(k) => SinkEvent::KeyDown(*k),
            MockKeyEvent::KeyUp(k) => SinkEvent::KeyUp(*k),
            MockKeyEvent::KeyTap(k) => SinkEvent::KeyTap(*k),
            MockKeyEvent::Text(t) => SinkEvent::Text(t@),
        }
    }
}

/// Mock keyboard sink for testing: records every key and text event (a pause
/// is not recorded, and does not wait) and never fails. Besides the recorded
/// events it keeps, as a ghost record, every call in order, pauses included.
pub struct MockKeyboardSink {
    pub events: Vec<MockKeyEvent>,
    pub calls: Ghost<Seq<SinkEvent>>,
}

impl Default for MockKeyboardSink {
    fn default() -> (s: Self)
        ensures
            s.events@.len() == 0,
            s.sent() == Seq::<SinkEvent>::empty(),
    {
        MockKeyboardSink { events: Vec::new(), calls: Ghost(Seq::empty()) }
    }
}

impl MockKeyboardSink {
    fn record(&mut self, e: MockKeyEvent)
        ensures
            final(self).events@ == old(self).events@.push(e),
            final(self).sent() == old(self).sent().push(e@),
    {
        self.calls = Ghost(self.calls@.push(e@));
        self.events.push(e);
    }
}

impl KeyboardSink for MockKeyboardSink {
    closed spec fn sent(&self) -> Seq<SinkEvent> {
        self.calls@
    }

    open spec fn infallible(&self) -> bool {
        true
    }

    fn key_down(&mut self, key: &KeySpec) -> (r: Result<(), SinkError>)
        ensures
            r is Ok,
            final(self).events@ == old(self).events@.push(MockKeyEvent::KeyDown(*key)),
    {
        self.record(MockKeyEvent::KeyDown(*key));
        Ok(())
    }

    fn key_up(&mut self, key: &KeySpec) -> (r: Result<(), SinkError>)
        ensures
            r is Ok,
            final(self).events@ == old(self).events@.push(MockKeyEvent::KeyUp(*key)),
    {
        self.record(MockKeyEvent::KeyUp(*key));
        Ok(())
    }

    fn key_tap(&mut self, key: &KeySpec) -> (r: Result<(), SinkError>)
        ensures
            r is Ok,
            final(self).events@ == old(self).events@.push(MockKeyEvent::KeyTap(*key)),
    {
        self.record(MockKeyEvent::KeyTap(*key));
        Ok(())
    }

    fn text(&mut self, text: &str) -> (r: Result<(), SinkError>)
        ensures
            r is Ok,
            final(self).events@.len() == old(self).events@.len() + 1,
            final(self).events@.last()@ == SinkEvent::Text(text@),
            final(self).events@.drop_last() == old(self).events@,
    {
        self.record(MockKeyEvent::Text(owned(text)));
        Ok(())
    }

    fn pause(&mut self, ms: u64)
        ensures
            final(self).events@ == old(self).events@,
    {
        self.calls = Ghost(self.calls@.push(SinkEvent::Pause(ms)));
    }
}

/// Whether `key` is a media key, which is carried out by a system command
/// rather than by keyboard injection.
pub open spec fn media_key(key: KeySpec) -> bool {
    match key {
        KeySpec::VolumeUp | KeySpec::VolumeDown | KeySpec::VolumeMute | KeySpec::MediaPlayPause
        | KeySpec::MediaNextTrack | KeySpec::MediaPrevTrack | KeySpec::MediaStop
        | KeySpec::BrightnessUp | KeySpec::BrightnessDown => true,
        _ => false,
    }
}

/// Returns `true` if the given key is a media key that should be handled via
/// system commands rather than keyboard injection.
pub fn is_media_key(key: &KeySpec) -> (b: bool)
    ensures
        b == media_key(*key),
{
    match key {
        KeySpec::VolumeUp | KeySpec::VolumeDown | KeySpec::VolumeMute | KeySpec::MediaPlayPause
        | KeySpec::MediaNextTrack | KeySpec::MediaPrevTrack | KeySpec::MediaStop
        | KeySpec::BrightnessUp | KeySpec::BrightnessDown => true,
        _ => false,
    }
}

/// A system command: a program and its arguments.
#[derive(Debug, Clone, PartialEq)]
pub struct MediaCommand {
    pub program: String,
    pub args: Vec<String>,
}

/// The mathematical value of a system command.
pub struct MediaCommandView {
    pub program: Seq<char>,
    pub args: Seq<Seq<char>>,
}

impl View for MediaCommand {
    type V = MediaCommandView;

    open spec fn view(&self) -> MediaCommandView {
        MediaCommandView {
            program: self.program@,
            args: self.args@.map_values(|a: String| a@),
        }
    }
}

/// How a media key is carried out: a command, and the command to run instead
/// when the first one fails. Without a fallback the first command's failure
/// is the key's failure.
#[derive(Debug, Clone, PartialEq)]
pub struct MediaDispatch {
    pub primary: MediaCommand,
    pub fallback: Option<MediaCommand>,
}

/// The mathematical value of a media key dispatch.
pub struct MediaDispatchView {
    pub primary: MediaCommandView,
    pub fallback: Option<MediaCommandView>,
}

impl View for MediaDispatch {
    type V = MediaDispatchView;

    open spec fn view(&self) -> MediaDispatchView {
        MediaDispatchView {
            primary: self.primary@,
            fallback: match self.fallback {
                Some(c) => Some(c@),
                None => None,
            },
        }
    }
}

/// A command from a program name and its arguments.
pub open spec fn command_of(program: Seq<char>, args: Seq<Seq<char>>) -> MediaCommandView {
    MediaCommandView { program, args }
}

/// Raising the volume: PipeWire's `wpctl`, else PulseAudio's `pactl`, by 5%.
pub open spec fn volume_up_dispatch() -> MediaDispatchView {
    MediaDispatchView {
        primary: command_of("wpctl"@, seq!["set-volume"@, "@DEFAULT_AUDIO_SINK@"@, "5%+"@]),
        fallback: Some(command_of("pactl"@, seq!["set-sink-volume"@, "@DEFAULT_SINK@"@, "+5%"@])),
    }
}

/// Lowering the volume: `wpctl`, else `pactl`, by 5%.
pub open spec fn volume_down_dispatch() -> MediaDispatchView {
    MediaDispatchView {
        primary: command_of("wpctl"@, seq!["set-volume"@, "@DEFAULT_AUDIO_SINK@"@, "5%-"@]),
        fallback: Some(command_of("pactl"@, seq!["set-sink-volume"@, "@DEFAULT_SINK@"@, "-5%"@])),
    }
}

/// Toggling mute: `wpctl`, else `pactl`.
pub open spec fn volume_mute_dispatch() -> MediaDispatchView {
    MediaDispatchView {
        primary: command_of("wpctl"@, seq!["set-mute"@, "@DEFAULT_AUDIO_SINK@"@, "toggle"@]),
        fallback: Some(command_of("pactl"@, seq!["set-sink-mute"@, "@DEFAULT_SINK@"@, "toggle"@])),
    }
}

/// A `playerctl` action, with no fallback.
pub open spec fn playerctl_dispatch(action: Seq<char>) -> MediaDispatchView {
    MediaDispatchView { primary: command_of("playerctl"@, seq![action]), fallback: None }
}

/// A `brightnessctl set` change, with no fallback.
pub open spec fn brightness_dispatch(change: Seq<char>) -> MediaDispatchView {
    MediaDispatchView { primary: command_of("brightnessctl"@, seq!["set"@, change]), fallback: None }
}

/// How each media key is carried out.
pub open spec fn media_dispatch(key: KeySpec) -> Option<MediaDispatchView> {
    match key {
        KeySpec::VolumeUp => Some(volume_up_dispatch()),
        KeySpec::VolumeDown => Some(volume_down_dispatch()),
        KeySpec::VolumeMute => Some(volume_mute_dispatch()),
        KeySpec::MediaPlayPause => Some(playerctl_dispatch("play-pause"@)),
        KeySpec::MediaNextTrack => Some(playerctl_dispatch("next"@)),
        KeySpec::MediaPrevTrack => Some(playerctl_dispatch("previous"@)),
        KeySpec::MediaStop => Some(playerctl_dispatch("stop"@)),
        KeySpec::BrightnessUp => Some(brightness_dispatch("5%+"@)),
        KeySpec::BrightnessDown => Some(brightness_dispatch("5%-"@)),
        _ => None,
    }
}

proof fn lemma_dispatch_tag(k: KeySpec)
    requires
        media_key(k),
    ensures
        k is VolumeUp ==> (media_dispatch(k)->0.primary.program == "wpctl"@ && media_dispatch(k)->0.primary.args.last() == "5%+"@),
        k is VolumeDown ==> (media_dispatch(k)->0.primary.program == "wpctl"@ && media_dispatch(k)->0.primary.args.last() == "5%-"@),
        k is VolumeMute ==> (media_dispatch(k)->0.primary.program == "wpctl"@ && media_dispatch(k)->0.primary.args.last() == "toggle"@),
        k is MediaPlayPause ==> (media_dispatch(k)->0.primary.program == "playerctl"@ && media_dispatch(k)->0.primary.args.last() == "play-pause"@),
        k is MediaNextTrack ==> (media_dispatch(k)->0.primary.program == "playerctl"@ && media_dispatch(k)->0.primary.args.last() == "next"@),
        k is MediaPrevTrack ==> (media_dispatch(k)->0.primary.program == "playerctl"@ && media_dispatch(k)->0.primary.args.last() == "previous"@),
        k is MediaStop ==> (media_dispatch(k)->0.primary.program == "playerctl"@ && media_dispatch(k)->0.primary.args.last() == "stop"@),
        k is BrightnessUp ==> (media_dispatch(k)->0.primary.program == "brightnessctl"@ && media_dispatch(k)->0.primary.args.last() == "5%+"@),
        k is BrightnessDown ==> (media_dispatch(k)->0.primary.program == "brightnessctl"@ && media_dispatch(k)->0.primary.args.last() == "5%-"@),
{
}

/// Media key commands: exactly the media keys have commands, and no two media
/// keys share one. The track keys go to `playerctl`: Next Track asks for
/// `next`, Previous Track for `previous`, Play/Pause for `play-pause`, and
/// Media Stop for `stop`, none with a fallback. Volume keys go to `wpctl`
/// with `pactl` as fallback, brightness keys to `brightnessctl`; the Up keys
/// raise (`+`) and the Down keys lower (`-`).
pub proof fn media_keys_dispatch_distinctly(a: KeySpec, b: KeySpec)
    ensures
        media_key(a) <==> media_dispatch(a) is Some,
        (media_key(a) && media_key(b) && a != b) ==> media_dispatch(a) != media_dispatch(b),
        a is MediaNextTrack ==> media_dispatch(a)->0.primary.program == "playerctl"@
            && media_dispatch(a)->0.primary.args == seq!["next"@] && media_dispatch(a)->0.fallback
            is None,
        a is MediaPrevTrack ==> media_dispatch(a)->0.primary.program == "playerctl"@
            && media_dispatch(a)->0.primary.args == seq!["previous"@] && media_dispatch(a)->0.fallback
            is None,
        a is MediaPlayPause ==> media_dispatch(a)->0.primary.program == "playerctl"@
            && media_dispatch(a)->0.primary.args == seq!["play-pause"@]
            && media_dispatch(a)->0.fallback is None,
        a is MediaStop ==> media_dispatch(a)->0.primary.program == "playerctl"@
            && media_dispatch(a)->0.primary.args == seq!["stop"@] && media_dispatch(a)->0.fallback
            is None,
        (a is VolumeUp || a is VolumeDown || a is VolumeMute) ==> (media_dispatch(a)->0.primary.program
            == "wpctl"@ && media_dispatch(a)->0.fallback is Some
            && media_dispatch(a)->0.fallback->0.program == "pactl"@),
        (a is BrightnessUp || a is BrightnessDown) ==> media_dispatch(a)->0.primary.program
            == "brightnessctl"@ && media_dispatch(a)->0.fallback is None,
        a is VolumeUp ==> media_dispatch(a)->0.primary.args.last() == "5%+"@,
        a is VolumeDown ==> media_dispatch(a)->0.primary.args.last() == "5%-"@,
        a is BrightnessUp ==> media_dispatch(a)->0.primary.args.last() == "5%+"@,
        a is BrightnessDown ==> media_dispatch(a)->0.primary.args.last() == "5%-"@,
{
    reveal_strlit("wpctl");
    reveal_strlit("pactl");
    reveal_strlit("playerctl");
    reveal_strlit("brightnessctl");
    reveal_strlit("set-volume");
    reveal_strlit("set-mute");
    reveal_strlit("set-sink-volume");
    reveal_strlit("set-sink-mute");
    reveal_strlit("@DEFAULT_AUDIO_SINK@");
    reveal_strlit("@DEFAULT_SINK@");
    reveal_strlit("5%+");
    reveal_strlit("5%-");
    reveal_strlit("+5%");
    reveal_strlit("-5%");
    reveal_strlit("toggle");
    reveal_strlit("play-pause");
    reveal_strlit("next");
    reveal_strlit("previous");
    reveal_strlit("stop");
    reveal_strlit("set");
    if media_key(a) && media_key(b) && a != b && media_dispatch(a) == media_dispatch(b) {
        lemma_dispatch_tag(a);
        lemma_dispatch_tag(b);
        let pa = media_dispatch(a)->0.primary;
        let pb = media_dispatch(b)->0.primary;
        assert(pa.program == pb.program);
        assert(pa.args.last() == pb.args.last());
        assert(pa.program.len() == pb.program.len());
        let la = pa.args.last();
        let lb = pb.args.last();
        assert(la.len() == lb.len());
        assert(la[0] == lb[0] && la[1] == lb[1] && la[2] == lb[2]);
        assert(false);
    }
}

fn command(program: &str, first: &str) -> (c: MediaCommand)
    ensures
        c@ == command_of(program@, seq![first@]),
{
    let args = vec![owned(first)];
    assert(args@.map_values(|a: String| a@) =~= seq![first@]);
    MediaCommand { program: owned(program), args }
}

fn with_arg(c: MediaCommand, arg: &str) -> (r: MediaCommand)
    ensures
        r@ == command_of(c@.program, c@.args.push(arg@)),
{
    let mut c = c;
    let ghost before = c.args@;
    c.args.push(owned(arg));
    assert(c.args@.map_values(|a: String| a@) =~= before.map_values(|a: String| a@).push(arg@));
    c
}

fn command2(program: &str, a: &str, b: &str) -> (c: MediaCommand)
    ensures
        c@ == command_of(program@, seq![a@, b@]),
{
    let c = with_arg(command(program, a), b);
    assert(c@.args =~= seq![a@, b@]);
    c
}

fn command3(program: &str, a: &str, b: &str, x: &str) -> (c: MediaCommand)
    ensures
        c@ == command_of(program@, seq![a@, b@, x@]),
{
    let c = with_arg(command2(program, a, b), x);
    assert(c@.args =~= seq![a@, b@, x@]);
    c
}

/// The commands that raise the volume.
pub fn volume_up() -> (d: MediaDispatch)
    ensures
        d@ == volume_up_dispatch(),
{
    MediaDispatch {
        primary: command3("wpctl", "set-volume", "@DEFAULT_AUDIO_SINK@", "5%+"),
        fallback: Some(command3("pactl", "set-sink-volume", "@DEFAULT_SINK@", "+5%")),
    }
}

/// The commands that lower the volume.
pub fn volume_down() -> (d: MediaDispatch)
    ensures
        d@ == volume_down_dispatch(),
{
    MediaDispatch {
        primary: command3("wpctl", "set-volume", "@DEFAULT_AUDIO_SINK@", "5%-"),
        fallback: Some(command3("pactl", "set-sink-volume", "@DEFAULT_SINK@", "-5%")),
    }
}

/// The commands that toggle mute.
pub fn volume_mute_toggle() -> (d: MediaDispatch)
    ensures
        d@ == volume_mute_dispatch(),
{
    MediaDispatch {
        primary: command3("wpctl", "set-mute", "@DEFAULT_AUDIO_SINK@", "toggle"),
        fallback: Some(command3("pactl", "set-sink-mute", "@DEFAULT_SINK@", "toggle")),
    }
}

/// The command for a media playback action.
pub fn playerctl(action: &str) -> (d: MediaDispatch)
    ensures
        d@ == playerctl_dispatch(action@),
{
    MediaDispatch { primary: command("playerctl", action), fallback: None }
}

/// The command that raises the screen brightness.
pub fn brightness_up() -> (d: MediaDispatch)
    ensures
        d@ == brightness_dispatch("5%+"@),
{
    MediaDispatch { primary: command2("brightnessctl", "set", "5%+"), fallback: None }
}

/// The command that lowers the screen brightness.
pub fn brightness_down() -> (d: MediaDispatch)
    ensures
        d@ == brightness_dispatch("5%-"@),
{
    MediaDispatch { primary: command2("brightnessctl", "set", "5%-"), fallback: None }
}

/// The commands that carry out a media key tap.
pub fn send_media_key(key: &KeySpec) -> (d: MediaDispatch)
    requires
        media_key(*key),
    ensures
        media_dispatch(*key) == Some(d@),
{
    match key {
        KeySpec::VolumeUp => volume_up(),
        KeySpec::VolumeDown => volume_down(),
        KeySpec::VolumeMute => volume_mute_toggle(),
        KeySpec::MediaPlayPause => playerctl("play-pause"),
        KeySpec::MediaNextTrack => playerctl("next"),
        KeySpec::MediaPrevTrack => playerctl("previous"),
        KeySpec::MediaStop => playerctl("stop"),
        KeySpec::BrightnessUp => brightness_up(),
        _ => brightness_down(),
    }
}

/// Whether a key event presses, releases, or taps the key.
#[derive(Debug, Clone, Copy, PartialEq, Eq, Structural)]
pub enum KeyPhase {
    Press,
    Release,
    Click,
}

/// How a key event is carried out where media keys go through system commands.
#[derive(Debug, Clone, PartialEq)]
pub enum KeyRoute {
    /// Run these commands.
    Command(MediaDispatch),
    /// Nothing to do: the release of a media key.
    Skip,
    /// Inject the key through the keyboard.
    Inject,
}

/// Routes a key event: a media key fires its command on press or tap and is
/// skipped on release (so a press and release do not fire twice); other keys
/// are injected.
pub fn route_key(key: &KeySpec, phase: KeyPhase) -> (r: KeyRoute)
    ensures
        match r {
            KeyRoute::Command(d) => media_key(*key) && phase != KeyPhase::Release && media_dispatch(
                *key,
            ) == Some(d@),
            KeyRoute::Skip => media_key(*key) && phase == KeyPhase::Release,
            KeyRoute::Inject => !media_key(*key),
        },
{
    if is_media_key(key) {
        match phase {
            KeyPhase::Release => KeyRoute::Skip,
            _ => KeyRoute::Command(send_media_key(key)),
        }
    } else {
        KeyRoute::Inject
    }
}

} // verus!
