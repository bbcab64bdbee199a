use keebmidi::actions::executor::{action_outcome, execute_action};
use keebmidi::app::events::AppEvent;
use keebmidi::actions::keyboard::{
    is_media_key, route_key, send_media_key, BackendSink, KeyPhase, KeyRoute, KeyboardBackend,
    KeyboardSink, MediaCommand, MockKeyEvent, MockKeyboardSink, SinkError,
};
use keebmidi::actions::macro_runner::run_macro;
use keebmidi::config::model::{KeySpec, MacroSpec, MacroStep, OutputAction, PlaybackMode};

#[test]
fn test_execute_key_tap() {
    let mut sink = MockKeyboardSink::default();
    let action = OutputAction::KeyTap { key: KeySpec::Space };
    execute_action(&action, &mut sink).unwrap();
    assert_eq!(sink.events, vec![MockKeyEvent::KeyTap(KeySpec::Space)]);
}

#[test]
fn test_execute_key_chord() {
    let mut sink = MockKeyboardSink::default();
    let action = OutputAction::KeyChord { keys: vec![KeySpec::Ctrl, KeySpec::Char('c')] };
    execute_action(&action, &mut sink).unwrap();
    assert_eq!(
        sink.events,
        vec![
            MockKeyEvent::KeyDown(KeySpec::Ctrl),
            MockKeyEvent::KeyDown(KeySpec::Char('c')),
            MockKeyEvent::KeyUp(KeySpec::Char('c')),
            MockKeyEvent::KeyUp(KeySpec::Ctrl),
        ]
    );
}

#[test]
fn test_execute_text() {
    let mut sink = MockKeyboardSink::default();
    let action = OutputAction::Text { text: "hello".to_string() };
    execute_action(&action, &mut sink).unwrap();
    assert_eq!(sink.events, vec![MockKeyEvent::Text("hello".to_string())]);
}

#[test]
fn test_is_media_key() {
    assert!(is_media_key(&KeySpec::VolumeUp));
    assert!(is_media_key(&KeySpec::VolumeDown));
    assert!(is_media_key(&KeySpec::VolumeMute));
    assert!(is_media_key(&KeySpec::MediaPlayPause));
    assert!(is_media_key(&KeySpec::MediaNextTrack));
    assert!(is_media_key(&KeySpec::MediaPrevTrack));
    assert!(is_media_key(&KeySpec::MediaStop));
    assert!(is_media_key(&KeySpec::BrightnessUp));
    assert!(is_media_key(&KeySpec::BrightnessDown));
}

#[test]
fn test_non_media_keys() {
    assert!(!is_media_key(&KeySpec::Space));
    assert!(!is_media_key(&KeySpec::Enter));
    assert!(!is_media_key(&KeySpec::F(1)));
    assert!(!is_media_key(&KeySpec::Char('a')));
    assert!(!is_media_key(&KeySpec::Ctrl));
    assert!(!is_media_key(&KeySpec::Alt));
}

#[test]
fn test_mock_keyboard_sink() {
    let mut sink = MockKeyboardSink::default();
    sink.key_tap(&KeySpec::Space).unwrap();
    sink.key_down(&KeySpec::Ctrl).unwrap();
    sink.key_tap(&KeySpec::Char('c')).unwrap();
    sink.key_up(&KeySpec::Ctrl).unwrap();
    sink.text("hello").unwrap();

    assert_eq!(sink.events.len(), 5);
    assert_eq!(sink.events[0], MockKeyEvent::KeyTap(KeySpec::Space));
    assert_eq!(sink.events[1], MockKeyEvent::KeyDown(KeySpec::Ctrl));
    assert_eq!(sink.events[2], MockKeyEvent::KeyTap(KeySpec::Char('c')));
    assert_eq!(sink.events[3], MockKeyEvent::KeyUp(KeySpec::Ctrl));
    assert_eq!(sink.events[4], MockKeyEvent::Text("hello".to_string()));
}

#[test]
fn test_run_macro_basic() {
    let spec = MacroSpec {
        steps: vec![
            MacroStep::KeyDown(KeySpec::Ctrl),
            MacroStep::KeyTap(KeySpec::Char('k')),
            MacroStep::KeyUp(KeySpec::Ctrl),
        ],
        playback_mode: PlaybackMode::FireAndForget,
    };
    let mut sink = MockKeyboardSink::default();
    run_macro(&spec, &mut sink).unwrap();
    assert_eq!(sink.events.len(), 3);
    assert_eq!(sink.events[0], MockKeyEvent::KeyDown(KeySpec::Ctrl));
    assert_eq!(sink.events[1], MockKeyEvent::KeyTap(KeySpec::Char('k')));
    assert_eq!(sink.events[2], MockKeyEvent::KeyUp(KeySpec::Ctrl));
}

#[test]
fn test_run_macro_with_text() {
    let spec = MacroSpec {
        steps: vec![MacroStep::Text("hello".to_string()), MacroStep::KeyTap(KeySpec::Enter)],
        playback_mode: PlaybackMode::FireAndForget,
    };
    let mut sink = MockKeyboardSink::default();
    run_macro(&spec, &mut sink).unwrap();
    assert_eq!(sink.events.len(), 2);
    assert_eq!(sink.events[0], MockKeyEvent::Text("hello".to_string()));
    assert_eq!(sink.events[1], MockKeyEvent::KeyTap(KeySpec::Enter));
}

#[test]
fn macro_delays_become_pauses() {
    let spec = MacroSpec {
        steps: vec![
            MacroStep::KeyTap(KeySpec::Char('a')),
            MacroStep::DelayMs(120),
            MacroStep::KeyTap(KeySpec::Char('b')),
        ],
        playback_mode: PlaybackMode::FireAndForget,
    };
    let mut sink = MockKeyboardSink::default();
    execute_action(&OutputAction::Macro { spec }, &mut sink).unwrap();
    assert_eq!(
        sink.events,
        vec![MockKeyEvent::KeyTap(KeySpec::Char('a')), MockKeyEvent::KeyTap(KeySpec::Char('b'))]
    );
}

/// A sink that refuses key releases.
struct StuckKeys {
    sent: Vec<MockKeyEvent>,
    paused: Vec<u64>,
}

impl KeyboardBackend for StuckKeys {
    fn key_down(&mut self, key: &KeySpec) -> Result<(), SinkError> {
        self.sent.push(MockKeyEvent::KeyDown(*key));
        Ok(())
    }
    fn key_up(&mut self, _key: &KeySpec) -> Result<(), SinkError> {
        Err(SinkError { message: "stuck".to_string() })
    }
    fn key_tap(&mut self, key: &KeySpec) -> Result<(), SinkError> {
        self.sent.push(MockKeyEvent::KeyTap(*key));
        Ok(())
    }
    fn text(&mut self, text: &str) -> Result<(), SinkError> {
        self.sent.push(MockKeyEvent::Text(text.to_string()));
        Ok(())
    }
    fn pause(&mut self, ms: u64) {
        self.paused.push(ms);
    }
}

#[test]
fn chord_stops_at_first_failure() {
    let mut sink = BackendSink::new(StuckKeys { sent: Vec::new(), paused: Vec::new() });
    let action = OutputAction::KeyChord { keys: vec![KeySpec::Ctrl, KeySpec::Char('c')] };
    let r = execute_action(&action, &mut sink);
    assert_eq!(r, Err(SinkError { message: "stuck".to_string() }));
    assert_eq!(
        sink.backend.sent,
        vec![MockKeyEvent::KeyDown(KeySpec::Ctrl), MockKeyEvent::KeyDown(KeySpec::Char('c'))]
    );
}

fn cmd(program: &str, args: &[&str]) -> MediaCommand {
    MediaCommand {
        program: program.to_string(),
        args: args.iter().map(|a| a.to_string()).collect(),
    }
}

#[test]
fn backend_sink_forwards_every_call() {
    let mut sink = BackendSink::new(StuckKeys { sent: Vec::new(), paused: Vec::new() });
    let action = OutputAction::Text { text: "hi".to_string() };
    assert_eq!(execute_action(&action, &mut sink), Ok(()));
    sink.pause(5);
    assert_eq!(sink.backend.sent, vec![MockKeyEvent::Text("hi".to_string())]);
    assert_eq!(sink.backend.paused, vec![5]);
}

#[test]
fn media_keys_map_to_commands() {
    let d = send_media_key(&KeySpec::VolumeUp);
    assert_eq!(d.primary, cmd("wpctl", &["set-volume", "@DEFAULT_AUDIO_SINK@", "5%+"]));
    assert_eq!(d.fallback, Some(cmd("pactl", &["set-sink-volume", "@DEFAULT_SINK@", "+5%"])));
    let d = send_media_key(&KeySpec::VolumeMute);
    assert_eq!(d.primary, cmd("wpctl", &["set-mute", "@DEFAULT_AUDIO_SINK@", "toggle"]));
    let d = send_media_key(&KeySpec::MediaPrevTrack);
    assert_eq!(d.primary, cmd("playerctl", &["previous"]));
    assert_eq!(d.fallback, None);
    let d = send_media_key(&KeySpec::BrightnessDown);
    assert_eq!(d.primary, cmd("brightnessctl", &["set", "5%-"]));
}

#[test]
fn media_keys_fire_once_per_press_and_release() {
    assert!(matches!(route_key(&KeySpec::MediaStop, KeyPhase::Press), KeyRoute::Command(_)));
    assert!(matches!(route_key(&KeySpec::MediaStop, KeyPhase::Release), KeyRoute::Skip));
    assert!(matches!(route_key(&KeySpec::MediaStop, KeyPhase::Click), KeyRoute::Command(_)));
    assert!(matches!(route_key(&KeySpec::Char('a'), KeyPhase::Release), KeyRoute::Inject));
}

#[test]
fn media_key_actions_reach_the_sink() {
    let mut sink = MockKeyboardSink::default();
    execute_action(&OutputAction::KeyTap { key: KeySpec::VolumeUp }, &mut sink).unwrap();
    execute_action(&OutputAction::KeyTap { key: KeySpec::BrightnessDown }, &mut sink).unwrap();
    assert_eq!(
        sink.events,
        vec![MockKeyEvent::KeyTap(KeySpec::VolumeUp), MockKeyEvent::KeyTap(KeySpec::BrightnessDown)]
    );
}

#[test]
fn action_outcomes_become_events() {
    match action_outcome("test_01".to_string(), Ok(())) {
        AppEvent::ActionCompleted(id) => assert_eq!(id, "test_01"),
        _ => panic!("expected ActionCompleted"),
    }
    match action_outcome("m".to_string(), Err(SinkError { message: "boom".to_string() })) {
        AppEvent::ActionFailed(id, msg) => {
            assert_eq!(id, "m");
            assert_eq!(msg, "boom");
        }
        _ => panic!("expected ActionFailed"),
    }
}
