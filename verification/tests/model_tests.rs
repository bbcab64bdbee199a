use keebmidi::config::model::{
    normalize_macro, AppConfig, KeySpec, KnobMode, MacroSpec, MacroStep, MappingOptions,
    OutputAction, PlaybackMode,
};

#[test]
fn test_keyspec_from_name() {
    assert_eq!(KeySpec::from_name("Enter"), Some(KeySpec::Enter));
    assert_eq!(KeySpec::from_name("ctrl"), Some(KeySpec::Ctrl));
    assert_eq!(KeySpec::from_name("F1"), Some(KeySpec::F(1)));
    assert_eq!(KeySpec::from_name("f12"), Some(KeySpec::F(12)));
    assert_eq!(KeySpec::from_name("a"), Some(KeySpec::Char('a')));
    assert_eq!(KeySpec::from_name("Space"), Some(KeySpec::Space));
    assert_eq!(KeySpec::from_name("Meta"), Some(KeySpec::Meta));
    assert_eq!(KeySpec::from_name("cmd"), Some(KeySpec::Meta));
}

#[test]
fn test_keyspec_is_modifier() {
    assert!(KeySpec::Ctrl.is_modifier());
    assert!(KeySpec::Alt.is_modifier());
    assert!(KeySpec::Shift.is_modifier());
    assert!(KeySpec::Meta.is_modifier());
    assert!(!KeySpec::Enter.is_modifier());
    assert!(!KeySpec::Char('a').is_modifier());
}

#[test]
fn test_normalize_macro_drops_zero_delays() {
    let steps = vec![
        MacroStep::KeyTap(KeySpec::Char('a')),
        MacroStep::DelayMs(0),
        MacroStep::KeyTap(KeySpec::Char('b')),
    ];
    let normalized = normalize_macro(&steps);
    assert_eq!(normalized.len(), 2);
    assert_eq!(normalized[0], MacroStep::KeyTap(KeySpec::Char('a')));
    assert_eq!(normalized[1], MacroStep::KeyTap(KeySpec::Char('b')));
}

#[test]
fn test_normalize_macro_clamps_small_delays() {
    let steps = vec![
        MacroStep::KeyTap(KeySpec::Char('a')),
        MacroStep::DelayMs(5), // below minimum
        MacroStep::KeyTap(KeySpec::Char('b')),
    ];
    let normalized = normalize_macro(&steps);
    assert_eq!(normalized[1], MacroStep::DelayMs(15));
}

#[test]
fn test_normalize_macro_caps_total_duration() {
    let steps = vec![
        MacroStep::DelayMs(25_000),
        MacroStep::KeyTap(KeySpec::Char('a')),
        MacroStep::DelayMs(25_000), // would exceed 30s
    ];
    let normalized = normalize_macro(&steps);
    // First delay passes (25s), key tap passes, second delay capped
    assert_eq!(normalized.len(), 3);
    match &normalized[2] {
        MacroStep::DelayMs(ms) => assert!(*ms <= 5_000),
        _ => panic!("expected delay"),
    }
}

#[test]
fn test_output_action_display() {
    let tap = OutputAction::KeyTap {
        key: KeySpec::Space,
    };
    assert_eq!(tap.display_string(), "Key: Space");

    let chord = OutputAction::KeyChord {
        keys: vec![KeySpec::Ctrl, KeySpec::Shift, KeySpec::Char('p')],
    };
    assert_eq!(chord.display_string(), "Chord: Ctrl+Shift+p");
}

#[test]
fn test_mapping_options_default() {
    let opts = MappingOptions::default();
    assert_eq!(opts.debounce_ms, 50);
    assert!(!opts.suppress_retrigger_while_held);
    assert!(!opts.trigger_on_value_change_only);
    assert!(opts.allow_overlap);
}

#[test]
fn keyspec_from_name_media_keys() {
    assert_eq!(KeySpec::from_name("volume_up"), Some(KeySpec::VolumeUp));
    assert_eq!(KeySpec::from_name("VolumeDown"), Some(KeySpec::VolumeDown));
    assert_eq!(KeySpec::from_name("mute"), Some(KeySpec::VolumeMute));
    assert_eq!(KeySpec::from_name("media_play_pause"), Some(KeySpec::MediaPlayPause));
    assert_eq!(KeySpec::from_name("mediastop"), Some(KeySpec::MediaStop));
    assert_eq!(KeySpec::from_name("media_next"), Some(KeySpec::MediaNextTrack));
    assert_eq!(KeySpec::from_name("media_previous"), Some(KeySpec::MediaPrevTrack));
    assert_eq!(KeySpec::from_name("brightness_up"), Some(KeySpec::BrightnessUp));
    assert_eq!(KeySpec::from_name("BRIGHTNESSDOWN"), Some(KeySpec::BrightnessDown));
}

#[test]
fn keyspec_from_name_edge_cases() {
    // A lone "f" is taken for a function key and has no number.
    assert_eq!(KeySpec::from_name("f"), None);
    assert_eq!(KeySpec::from_name("F+5"), Some(KeySpec::F(5)));
    assert_eq!(KeySpec::from_name("f99"), Some(KeySpec::F(99)));
    assert_eq!(KeySpec::from_name("fx"), None);
    assert_eq!(KeySpec::from_name("A"), Some(KeySpec::Char('a')));
    assert_eq!(KeySpec::from_name("é"), None);
    assert_eq!(KeySpec::from_name(""), None);
    assert_eq!(KeySpec::from_name("unknown"), None);
}

#[test]
fn keyspec_display_media_keys() {
    assert_eq!(KeySpec::VolumeUp.display_string(), "Volume Up");
    assert_eq!(KeySpec::MediaPlayPause.display_string(), "Play/Pause");
    assert_eq!(KeySpec::MediaPrevTrack.display_string(), "Previous Track");
    assert_eq!(KeySpec::F(7).display_string(), "F7");
    assert_eq!(KeySpec::Char('x').display_string(), "x");
}

#[test]
fn output_action_display_text_and_macro() {
    let short = OutputAction::Text { text: "hello".to_string() };
    assert_eq!(short.display_string(), "Text: \"hello\"");
    let long = OutputAction::Text { text: "abcdefghijklmnopqrstuvwxyz".to_string() };
    assert_eq!(long.display_string(), "Text: \"abcdefghijklmnopqrst\u{2026}\"");
    let mac = OutputAction::Macro {
        spec: MacroSpec {
            steps: vec![MacroStep::KeyTap(KeySpec::Enter), MacroStep::DelayMs(20)],
            playback_mode: PlaybackMode::FireAndForget,
        },
    };
    assert_eq!(mac.display_string(), "Macro: 2 steps");
}

#[test]
fn macro_step_display() {
    assert_eq!(MacroStep::KeyDown(KeySpec::Ctrl).display_string(), "Ctrl down");
    assert_eq!(MacroStep::KeyUp(KeySpec::Ctrl).display_string(), "Ctrl up");
    assert_eq!(MacroStep::KeyTap(KeySpec::Char('k')).display_string(), "k tap");
    assert_eq!(MacroStep::Text("hi".to_string()).display_string(), "Text \"hi\"");
    assert_eq!(MacroStep::DelayMs(120).display_string(), "Delay 120ms");
}

#[test]
fn normalize_macro_exact_cap() {
    // Reaching exactly the cap keeps the delay; the next delay finds nothing left.
    let steps = vec![
        MacroStep::DelayMs(30_000),
        MacroStep::KeyTap(KeySpec::Enter),
        MacroStep::DelayMs(20),
        MacroStep::KeyTap(KeySpec::Tab),
    ];
    let normalized = normalize_macro(&steps);
    assert_eq!(
        normalized,
        vec![MacroStep::DelayMs(30_000), MacroStep::KeyTap(KeySpec::Enter)]
    );
}

#[test]
fn normalize_macro_remainder_too_small() {
    // 29_990 ms is kept; 20 more would pass the cap, and the 10 ms left are
    // under the minimum, so the rest is dropped.
    let steps = vec![
        MacroStep::DelayMs(29_990),
        MacroStep::DelayMs(20),
        MacroStep::KeyTap(KeySpec::Enter),
    ];
    let normalized = normalize_macro(&steps);
    assert_eq!(normalized, vec![MacroStep::DelayMs(29_990)]);
}

#[test]
fn app_config_default_is_version_two() {
    let config = AppConfig::default();
    assert_eq!(config.version, 2);
    assert!(config.selected_device.is_none());
    assert!(config.mappings.is_empty());
}

#[test]
fn knob_mode_default_is_absolute() {
    assert_eq!(KnobMode::default(), KnobMode::Absolute);
    assert_eq!(PlaybackMode::default(), PlaybackMode::FireAndForget);
}

#[test]
fn normalizing_twice_changes_nothing() {
    let steps = vec![
        MacroStep::DelayMs(5),
        MacroStep::KeyTap(KeySpec::Char('a')),
        MacroStep::DelayMs(0),
        MacroStep::DelayMs(29_000),
        MacroStep::KeyTap(KeySpec::Char('b')),
        MacroStep::DelayMs(2_000),
        MacroStep::KeyTap(KeySpec::Char('c')),
    ];
    let once = normalize_macro(&steps);
    let twice = normalize_macro(&once);
    assert_eq!(once, twice);
    assert_eq!(
        once,
        vec![
            MacroStep::DelayMs(15),
            MacroStep::KeyTap(KeySpec::Char('a')),
            MacroStep::DelayMs(29_000),
            MacroStep::KeyTap(KeySpec::Char('b')),
            MacroStep::DelayMs(985),
        ]
    );
}

#[test]
fn normalize_macro_collapses_modifier_noise() {
    let steps = vec![
        MacroStep::KeyDown(KeySpec::Ctrl),
        MacroStep::KeyDown(KeySpec::Ctrl),
        MacroStep::KeyTap(KeySpec::Char('k')),
        MacroStep::KeyUp(KeySpec::Ctrl),
        MacroStep::DelayMs(0),
        MacroStep::KeyUp(KeySpec::Ctrl),
        MacroStep::KeyTap(KeySpec::Char('k')),
        MacroStep::KeyTap(KeySpec::Char('k')),
    ];
    assert_eq!(
        normalize_macro(&steps),
        vec![
            MacroStep::KeyDown(KeySpec::Ctrl),
            MacroStep::KeyTap(KeySpec::Char('k')),
            MacroStep::KeyUp(KeySpec::Ctrl),
            MacroStep::KeyTap(KeySpec::Char('k')),
            MacroStep::KeyTap(KeySpec::Char('k')),
        ]
    );
}
