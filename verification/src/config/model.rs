//! The mapping model: keys, output actions, macros, mappings and the config file.

use vstd::prelude::*;

use crate::midi::trigger::MidiTrigger;


use crate::text::{
    all_digits, append_str, chars_of, digit_char, digits_value, is_digit, byte_len, decimal, is_text, lemma_utf8_len_bounds, lowercase, parse_unsigned,
    parse_unsigned_exec, push_char, push_decimal, to_lowercase, utf8_len,
};

verus! {

/// A keyboard key that an action can press.
#[derive(Debug, Clone, Copy, PartialEq, Eq, Structural)]
pub enum KeySpec {
    Char(char),
    Enter,
    Tab,
    Esc,
    Backspace,
    Space,
    Up,
    Down,
    Left,
    Right,
    F(u8),
    Ctrl,
    Alt,
    Shift,
    Meta,
    VolumeUp,
    VolumeDown,
    VolumeMute,
    MediaPlayPause,
    MediaStop,
    MediaNextTrack,
    MediaPrevTrack,
    BrightnessUp,
    BrightnessDown,
}

/// Human-readable name of a key.
pub open spec fn key_text(k: KeySpec) -> Seq<char> {
    match k {
        KeySpec::Char(c) => seq![c],
        KeySpec::Enter => "Enter"@,
        KeySpec::Tab => "Tab"@,
        KeySpec::Esc => "Esc"@,
        KeySpec::Backspace => "Backspace"@,
        KeySpec::Space => "Space"@,
        KeySpec::Up => "Up"@,
        KeySpec::Down => "Down"@,
        KeySpec::Left => "Left"@,
        KeySpec::Right => "Right"@,
        KeySpec::F(n) => seq!['F'] + decimal(n as nat),
        KeySpec::Ctrl => "Ctrl"@,
        KeySpec::Alt => "Alt"@,
        KeySpec::Shift => "Shift"@,
        KeySpec::Meta => "Meta"@,
        KeySpec::VolumeUp => "Volume Up"@,
        KeySpec::VolumeDown => "Volume Down"@,
        KeySpec::VolumeMute => "Volume Mute"@,
        KeySpec::MediaPlayPause => "Play/Pause"@,
        KeySpec::MediaStop => "Media Stop"@,
        KeySpec::MediaNextTrack => "Next Track"@,
        KeySpec::MediaPrevTrack => "Previous Track"@,
        KeySpec::BrightnessUp => "Brightness Up"@,
        KeySpec::BrightnessDown => "Brightness Down"@,
    }
}

/// The key that a lower-case key name stands for.
pub open spec fn key_from_lower(s: Seq<char>) -> Option<KeySpec> {
    if s == "enter"@ || s == "return"@ {
        Some(KeySpec::Enter)
    } else if s == "tab"@ {
        Some(KeySpec::Tab)
    } else if s == "esc"@ || s == "escape"@ {
        Some(KeySpec::Esc)
    } else if s == "backspace"@ {
        Some(KeySpec::Backspace)
    } else if s == "space"@ {
        Some(KeySpec::Space)
    } else if s == "up"@ {
        Some(KeySpec::Up)
    } else if s == "down"@ {
        Some(KeySpec::Down)
    } else if s == "left"@ {
        Some(KeySpec::Left)
    } else if s == "right"@ {
        Some(KeySpec::Right)
    } else if s == "ctrl"@ || s == "control"@ {
        Some(KeySpec::Ctrl)
    } else if s == "alt"@ {
        Some(KeySpec::Alt)
    } else if s == "shift"@ {
        Some(KeySpec::Shift)
    } else if s == "meta"@ || s == "super"@ || s == "win"@ || s == "cmd"@ {
        Some(KeySpec::Meta)
    } else if s == "volumeup"@ || s == "volume_up"@ {
        Some(KeySpec::VolumeUp)
    } else if s == "volumedown"@ || s == "volume_down"@ {
        Some(KeySpec::VolumeDown)
    } else if s == "volumemute"@ || s == "volume_mute"@ || s == "mute"@ {
        Some(KeySpec::VolumeMute)
    } else if s == "playpause"@ || s == "play_pause"@ || s == "media_play_pause"@ {
        Some(KeySpec::MediaPlayPause)
    } else if s == "mediastop"@ || s == "media_stop"@ {
        Some(KeySpec::MediaStop)
    } else if s == "nexttrack"@ || s == "next_track"@ || s == "media_next"@ {
        Some(KeySpec::MediaNextTrack)
    } else if s == "prevtrack"@ || s == "prev_track"@ || s == "media_prev"@ || s
        == "media_previous"@ {
        Some(KeySpec::MediaPrevTrack)
    } else if s == "brightnessup"@ || s == "brightness_up"@ {
        Some(KeySpec::BrightnessUp)
    } else if s == "brightnessdown"@ || s == "brightness_down"@ {
        Some(KeySpec::BrightnessDown)
    } else if s.len() > 0 && s[0] == 'f' && utf8_len(s) <= 3 {
        match parse_unsigned(s.skip(1), 255) {
            Some(n) => Some(KeySpec::F(n as u8)),
            None => None,
        }
    } else if utf8_len(s) == 1 {
        Some(KeySpec::Char(s[0]))
    } else {
        None
    }
}

/// Whether a key is a modifier (Ctrl, Alt, Shift or Meta).
pub open spec fn key_is_modifier(k: KeySpec) -> bool {
    k is Ctrl || k is Alt || k is Shift || k is Meta
}

/// `s` with each ASCII capital letter replaced by its small letter: what
/// lower-casing does to ASCII text.
pub open spec fn ascii_lowered(s: Seq<char>) -> Seq<char> {
    s.map_values(|c: char| if 'A' <= c && c <= 'Z' { ((c as u32) + 32) as char } else { c })
}

/// The named keys that are not characters, function keys or media keys.
pub open spec fn plain_named_key(k: KeySpec) -> bool {
    k is Enter || k is Tab || k is Esc || k is Backspace || k is Space || k is Up || k is Down
        || k is Left || k is Right || k is Ctrl || k is Alt || k is Shift || k is Meta
}

/// Key names read back: the display name of every named key that is not a
/// character, function or media key, in any letter case that lower-cases as
/// ASCII does, parses back to that key (so `Left` reads as Left and `Right`
/// as Right, and no two such keys share a name).
pub proof fn key_names_read_back(k: KeySpec)
    requires
        plain_named_key(k),
    ensures
        key_from_lower(ascii_lowered(key_text(k))) == Some(k),
{
    reveal_strlit("enter");
    reveal_strlit("return");
    reveal_strlit("tab");
    reveal_strlit("esc");
    reveal_strlit("escape");
    reveal_strlit("backspace");
    reveal_strlit("space");
    reveal_strlit("up");
    reveal_strlit("down");
    reveal_strlit("left");
    reveal_strlit("right");
    reveal_strlit("ctrl");
    reveal_strlit("control");
    reveal_strlit("alt");
    reveal_strlit("shift");
    reveal_strlit("meta");
    reveal_strlit("super");
    reveal_strlit("win");
    reveal_strlit("cmd");
    reveal_strlit("Enter");
    reveal_strlit("Tab");
    reveal_strlit("Esc");
    reveal_strlit("Backspace");
    reveal_strlit("Space");
    reveal_strlit("Up");
    reveal_strlit("Down");
    reveal_strlit("Left");
    reveal_strlit("Right");
    reveal_strlit("Ctrl");
    reveal_strlit("Alt");
    reveal_strlit("Shift");
    reveal_strlit("Meta");
    let lower = ascii_lowered(key_text(k));
    match k {
        KeySpec::Enter => {
            assert(lower =~= "enter"@);
            assert(key_from_lower(lower) == Some(k));
        },
        KeySpec::Tab => {
            assert(lower =~= "tab"@);
            assert(key_from_lower(lower) == Some(k));
        },
        KeySpec::Esc => {
            assert(lower =~= "esc"@);
            assert(key_from_lower(lower) == Some(k));
        },
        KeySpec::Backspace => {
            assert(lower =~= "backspace"@);
            assert(key_from_lower(lower) == Some(k));
        },
        KeySpec::Space => {
            assert(lower =~= "space"@);
            assert(key_from_lower(lower) == Some(k));
        },
        KeySpec::Up => {
            assert(lower =~= "up"@);
            assert(key_from_lower(lower) == Some(k));
        },
        KeySpec::Down => {
            assert(lower =~= "down"@);
            assert(key_from_lower(lower) == Some(k));
        },
        KeySpec::Left => {
            assert(lower =~= "left"@);
            assert(key_from_lower(lower) == Some(k));
        },
        KeySpec::Right => {
            assert(lower =~= "right"@);
            assert(key_from_lower(lower) == Some(k));
        },
        KeySpec::Ctrl => {
            assert(lower =~= "ctrl"@);
            assert(key_from_lower(lower) == Some(k));
        },
        KeySpec::Alt => {
            assert(lower =~= "alt"@);
            assert(key_from_lower(lower) == Some(k));
        },
        KeySpec::Shift => {
            assert(lower =~= "shift"@);
            assert(key_from_lower(lower) == Some(k));
        },
        KeySpec::Meta => {
            assert(lower =~= "meta"@);
            assert(lower[0] != "enter"@[0] || lower.len() != "enter"@.len());
            assert(lower[0] != "return"@[0] || lower.len() != "return"@.len());
            assert(lower[0] != "tab"@[0] || lower.len() != "tab"@.len());
            assert(lower[0] != "esc"@[0] || lower.len() != "esc"@.len());
            assert(lower[0] != "escape"@[0] || lower.len() != "escape"@.len());
            assert(lower[0] != "backspace"@[0] || lower.len() != "backspace"@.len());
            assert(lower[0] != "space"@[0] || lower.len() != "space"@.len());
            assert(lower[0] != "up"@[0] || lower.len() != "up"@.len());
            assert(lower[0] != "down"@[0] || lower.len() != "down"@.len());
            assert(lower[0] != "left"@[0] || lower.len() != "left"@.len());
            assert(lower[0] != "right"@[0] || lower.len() != "right"@.len());
            assert(lower[0] != "ctrl"@[0] || lower.len() != "ctrl"@.len());
            assert(lower[0] != "control"@[0] || lower.len() != "control"@.len());
            assert(lower[0] != "alt"@[0] || lower.len() != "alt"@.len());
            assert(lower[0] != "shift"@[0] || lower.len() != "shift"@.len());
            assert(key_from_lower(lower) == Some(k));
        },
        _ => {},
    }
}

proof fn lemma_digit_char(d: nat)
    requires
        d < 10,
    ensures
        is_digit(digit_char(d)),
        (digit_char(d) as u32) == 48 + d,
{
}

/// Function key names read back: `F0` to `F99`, in either letter case, parse
/// back to the function key they name.
pub proof fn function_key_names_read_back(n: u8)
    requires
        n < 100,
    ensures
        key_from_lower(ascii_lowered(key_text(KeySpec::F(n)))) == Some(KeySpec::F(n)),
{
    reveal_strlit("enter");
    reveal_strlit("return");
    reveal_strlit("tab");
    reveal_strlit("esc");
    reveal_strlit("escape");
    reveal_strlit("backspace");
    reveal_strlit("space");
    reveal_strlit("up");
    reveal_strlit("down");
    reveal_strlit("left");
    reveal_strlit("right");
    reveal_strlit("ctrl");
    reveal_strlit("control");
    reveal_strlit("alt");
    reveal_strlit("shift");
    reveal_strlit("meta");
    reveal_strlit("super");
    reveal_strlit("win");
    reveal_strlit("cmd");
    reveal_strlit("volumeup");
    reveal_strlit("volume_up");
    reveal_strlit("volumedown");
    reveal_strlit("volume_down");
    reveal_strlit("volumemute");
    reveal_strlit("volume_mute");
    reveal_strlit("mute");
    reveal_strlit("playpause");
    reveal_strlit("play_pause");
    reveal_strlit("media_play_pause");
    reveal_strlit("mediastop");
    reveal_strlit("media_stop");
    reveal_strlit("nexttrack");
    reveal_strlit("next_track");
    reveal_strlit("media_next");
    reveal_strlit("prevtrack");
    reveal_strlit("prev_track");
    reveal_strlit("media_prev");
    reveal_strlit("media_previous");
    reveal_strlit("brightnessup");
    reveal_strlit("brightness_up");
    reveal_strlit("brightnessdown");
    reveal_strlit("brightness_down");
    let lower = ascii_lowered(key_text(KeySpec::F(n)));
    let digits = decimal(n as nat);
    if n < 10 {
        lemma_digit_char(n as nat);
        assert(digits =~= seq![digit_char(n as nat)]);
    } else {
        lemma_digit_char((n / 10) as nat);
        lemma_digit_char((n % 10) as nat);
        assert(decimal((n / 10) as nat) =~= seq![digit_char((n / 10) as nat)]);
        assert(digits =~= seq![digit_char((n / 10) as nat), digit_char((n % 10) as nat)]);
    }
    assert(lower =~= seq!['f'] + digits);
    assert(lower.skip(1) =~= digits);
    assert(lower[0] != "enter"@[0]);
    assert(lower[0] != "return"@[0]);
    assert(lower[0] != "tab"@[0]);
    assert(lower[0] != "esc"@[0]);
    assert(lower[0] != "escape"@[0]);
    assert(lower[0] != "backspace"@[0]);
    assert(lower[0] != "space"@[0]);
    assert(lower[0] != "up"@[0]);
    assert(lower[0] != "down"@[0]);
    assert(lower[0] != "left"@[0]);
    assert(lower[0] != "right"@[0]);
    assert(lower[0] != "ctrl"@[0]);
    assert(lower[0] != "control"@[0]);
    assert(lower[0] != "alt"@[0]);
    assert(lower[0] != "shift"@[0]);
    assert(lower[0] != "meta"@[0]);
    assert(lower[0] != "super"@[0]);
    assert(lower[0] != "win"@[0]);
    assert(lower[0] != "cmd"@[0]);
    assert(lower[0] != "volumeup"@[0]);
    assert(lower[0] != "volume_up"@[0]);
    assert(lower[0] != "volumedown"@[0]);
    assert(lower[0] != "volume_down"@[0]);
    assert(lower[0] != "volumemute"@[0]);
    assert(lower[0] != "volume_mute"@[0]);
    assert(lower[0] != "mute"@[0]);
    assert(lower[0] != "playpause"@[0]);
    assert(lower[0] != "play_pause"@[0]);
    assert(lower[0] != "media_play_pause"@[0]);
    assert(lower[0] != "mediastop"@[0]);
    assert(lower[0] != "media_stop"@[0]);
    assert(lower[0] != "nexttrack"@[0]);
    assert(lower[0] != "next_track"@[0]);
    assert(lower[0] != "media_next"@[0]);
    assert(lower[0] != "prevtrack"@[0]);
    assert(lower[0] != "prev_track"@[0]);
    assert(lower[0] != "media_prev"@[0]);
    assert(lower[0] != "media_previous"@[0]);
    assert(lower[0] != "brightnessup"@[0]);
    assert(lower[0] != "brightness_up"@[0]);
    assert(lower[0] != "brightnessdown"@[0]);
    assert(lower[0] != "brightness_down"@[0]);
    reveal_with_fuel(utf8_len, 4);
    reveal_with_fuel(digits_value, 3);
    if n >= 10 {
        assert(digits.drop_last() =~= seq![digits[0]]);
        assert(seq![digits[0]].drop_last() =~= Seq::<char>::empty());
        assert(lower.drop_last() =~= seq!['f', digits[0]]);
        assert(seq!['f', digits[0]].drop_last() =~= seq!['f']);
        assert(seq!['f'].drop_last() =~= Seq::<char>::empty());
    } else {
        assert(digits.drop_last() =~= Seq::<char>::empty());
        assert(lower.drop_last() =~= seq!['f']);
        assert(seq!['f'].drop_last() =~= Seq::<char>::empty());
    }
    assert(all_digits(digits));
    assert(digits_value(digits) == n);
}

/// Single-character key names: an ASCII character other than `f` or `F`
/// names the character key for itself, lower-cased (a lone `f` is the start of
/// a function key name and names nothing).
pub proof fn character_key_names_read_back(c: char)
    requires
        (c as u32) < 0x80,
        c != 'f',
        c != 'F',
    ensures
        key_from_lower(ascii_lowered(seq![c])) == Some(KeySpec::Char(ascii_lowered(seq![c])[0])),
{
    reveal_strlit("enter");
    reveal_strlit("return");
    reveal_strlit("tab");
    reveal_strlit("esc");
    reveal_strlit("escape");
    reveal_strlit("backspace");
    reveal_strlit("space");
    reveal_strlit("up");
    reveal_strlit("down");
    reveal_strlit("left");
    reveal_strlit("right");
    reveal_strlit("ctrl");
    reveal_strlit("control");
    reveal_strlit("alt");
    reveal_strlit("shift");
    reveal_strlit("meta");
    reveal_strlit("super");
    reveal_strlit("win");
    reveal_strlit("cmd");
    reveal_strlit("volumeup");
    reveal_strlit("volume_up");
    reveal_strlit("volumedown");
    reveal_strlit("volume_down");
    reveal_strlit("volumemute");
    reveal_strlit("volume_mute");
    reveal_strlit("mute");
    reveal_strlit("playpause");
    reveal_strlit("play_pause");
    reveal_strlit("media_play_pause");
    reveal_strlit("mediastop");
    reveal_strlit("media_stop");
    reveal_strlit("nexttrack");
    reveal_strlit("next_track");
    reveal_strlit("media_next");
    reveal_strlit("prevtrack");
    reveal_strlit("prev_track");
    reveal_strlit("media_prev");
    reveal_strlit("media_previous");
    reveal_strlit("brightnessup");
    reveal_strlit("brightness_up");
    reveal_strlit("brightnessdown");
    reveal_strlit("brightness_down");
    let lower = ascii_lowered(seq![c]);
    assert(lower.len() == 1);
    assert(lower.len() != "enter"@.len());
    assert(lower.len() != "return"@.len());
    assert(lower.len() != "tab"@.len());
    assert(lower.len() != "esc"@.len());
    assert(lower.len() != "escape"@.len());
    assert(lower.len() != "backspace"@.len());
    assert(lower.len() != "space"@.len());
    assert(lower.len() != "up"@.len());
    assert(lower.len() != "down"@.len());
    assert(lower.len() != "left"@.len());
    assert(lower.len() != "right"@.len());
    assert(lower.len() != "ctrl"@.len());
    assert(lower.len() != "control"@.len());
    assert(lower.len() != "alt"@.len());
    assert(lower.len() != "shift"@.len());
    assert(lower.len() != "meta"@.len());
    assert(lower.len() != "super"@.len());
    assert(lower.len() != "win"@.len());
    assert(lower.len() != "cmd"@.len());
    assert(lower.len() != "volumeup"@.len());
    assert(lower.len() != "volume_up"@.len());
    assert(lower.len() != "volumedown"@.len());
    assert(lower.len() != "volume_down"@.len());
    assert(lower.len() != "volumemute"@.len());
    assert(lower.len() != "volume_mute"@.len());
    assert(lower.len() != "mute"@.len());
    assert(lower.len() != "playpause"@.len());
    assert(lower.len() != "play_pause"@.len());
    assert(lower.len() != "media_play_pause"@.len());
    assert(lower.len() != "mediastop"@.len());
    assert(lower.len() != "media_stop"@.len());
    assert(lower.len() != "nexttrack"@.len());
    assert(lower.len() != "next_track"@.len());
    assert(lower.len() != "media_next"@.len());
    assert(lower.len() != "prevtrack"@.len());
    assert(lower.len() != "prev_track"@.len());
    assert(lower.len() != "media_prev"@.len());
    assert(lower.len() != "media_previous"@.len());
    assert(lower.len() != "brightnessup"@.len());
    assert(lower.len() != "brightness_up"@.len());
    assert(lower.len() != "brightnessdown"@.len());
    assert(lower.len() != "brightness_down"@.len());
    reveal_with_fuel(utf8_len, 2);
    assert(lower.drop_last() =~= Seq::<char>::empty());
}

/// Alternative key names: `return` reads as Enter, `escape` as Esc, `control`
/// as Ctrl, and `super`, `win` and `cmd` as Meta, like their main names.
pub proof fn key_name_aliases()
    ensures
        key_from_lower("return"@) == key_from_lower("enter"@),
        key_from_lower("escape"@) == key_from_lower("esc"@),
        key_from_lower("control"@) == key_from_lower("ctrl"@),
        key_from_lower("super"@) == key_from_lower("meta"@),
        key_from_lower("win"@) == key_from_lower("meta"@),
        key_from_lower("cmd"@) == key_from_lower("meta"@),
{
    reveal_strlit("enter");
    reveal_strlit("return");
    reveal_strlit("tab");
    reveal_strlit("esc");
    reveal_strlit("escape");
    reveal_strlit("backspace");
    reveal_strlit("space");
    reveal_strlit("up");
    reveal_strlit("down");
    reveal_strlit("left");
    reveal_strlit("right");
    reveal_strlit("ctrl");
    reveal_strlit("control");
    reveal_strlit("alt");
    reveal_strlit("shift");
    reveal_strlit("meta");
    reveal_strlit("super");
    reveal_strlit("win");
    reveal_strlit("cmd");
    assert("esc"@[0] != "enter"@[0] || "esc"@.len() != "enter"@.len() || "esc"@[1] != "enter"@[1]);
    assert("esc"@[0] != "return"@[0] || "esc"@.len() != "return"@.len() || "esc"@[1] != "return"@[1]);
    assert("esc"@[0] != "tab"@[0] || "esc"@.len() != "tab"@.len() || "esc"@[1] != "tab"@[1]);
    assert("escape"@[0] != "enter"@[0] || "escape"@.len() != "enter"@.len() || "escape"@[1] != "enter"@[1]);
    assert("escape"@[0] != "return"@[0] || "escape"@.len() != "return"@.len() || "escape"@[1] != "return"@[1]);
    assert("escape"@[0] != "tab"@[0] || "escape"@.len() != "tab"@.len() || "escape"@[1] != "tab"@[1]);
    assert("ctrl"@[0] != "enter"@[0] || "ctrl"@.len() != "enter"@.len() || "ctrl"@[1] != "enter"@[1]);
    assert("ctrl"@[0] != "return"@[0] || "ctrl"@.len() != "return"@.len() || "ctrl"@[1] != "return"@[1]);
    assert("ctrl"@[0] != "tab"@[0] || "ctrl"@.len() != "tab"@.len() || "ctrl"@[1] != "tab"@[1]);
    assert("ctrl"@[0] != "esc"@[0] || "ctrl"@.len() != "esc"@.len() || "ctrl"@[1] != "esc"@[1]);
    assert("ctrl"@[0] != "escape"@[0] || "ctrl"@.len() != "escape"@.len() || "ctrl"@[1] != "escape"@[1]);
    assert("ctrl"@[0] != "backspace"@[0] || "ctrl"@.len() != "backspace"@.len() || "ctrl"@[1] != "backspace"@[1]);
    assert("ctrl"@[0] != "space"@[0] || "ctrl"@.len() != "space"@.len() || "ctrl"@[1] != "space"@[1]);
    assert("ctrl"@[0] != "up"@[0] || "ctrl"@.len() != "up"@.len() || "ctrl"@[1] != "up"@[1]);
    assert("ctrl"@[0] != "down"@[0] || "ctrl"@.len() != "down"@.len() || "ctrl"@[1] != "down"@[1]);
    assert("ctrl"@[0] != "left"@[0] || "ctrl"@.len() != "left"@.len() || "ctrl"@[1] != "left"@[1]);
    assert("ctrl"@[0] != "right"@[0] || "ctrl"@.len() != "right"@.len() || "ctrl"@[1] != "right"@[1]);
    assert("control"@[0] != "enter"@[0] || "control"@.len() != "enter"@.len() || "control"@[1] != "enter"@[1]);
    assert("control"@[0] != "return"@[0] || "control"@.len() != "return"@.len() || "control"@[1] != "return"@[1]);
    assert("control"@[0] != "tab"@[0] || "control"@.len() != "tab"@.len() || "control"@[1] != "tab"@[1]);
    assert("control"@[0] != "esc"@[0] || "control"@.len() != "esc"@.len() || "control"@[1] != "esc"@[1]);
    assert("control"@[0] != "escape"@[0] || "control"@.len() != "escape"@.len() || "control"@[1] != "escape"@[1]);
    assert("control"@[0] != "backspace"@[0] || "control"@.len() != "backspace"@.len() || "control"@[1] != "backspace"@[1]);
    assert("control"@[0] != "space"@[0] || "control"@.len() != "space"@.len() || "control"@[1] != "space"@[1]);
    assert("control"@[0] != "up"@[0] || "control"@.len() != "up"@.len() || "control"@[1] != "up"@[1]);
    assert("control"@[0] != "down"@[0] || "control"@.len() != "down"@.len() || "control"@[1] != "down"@[1]);
    assert("control"@[0] != "left"@[0] || "control"@.len() != "left"@.len() || "control"@[1] != "left"@[1]);
    assert("control"@[0] != "right"@[0] || "control"@.len() != "right"@.len() || "control"@[1] != "right"@[1]);
    assert(key_from_lower("esc"@) == Some(KeySpec::Esc));
    assert(key_from_lower("escape"@) == Some(KeySpec::Esc));
    assert(key_from_lower("ctrl"@) == Some(KeySpec::Ctrl));
    assert(key_from_lower("control"@) == Some(KeySpec::Ctrl));
    assert("meta"@[0] != "enter"@[0] || "meta"@.len() != "enter"@.len() || "meta"@[1] != "enter"@[1]);
    assert("meta"@[0] != "return"@[0] || "meta"@.len() != "return"@.len() || "meta"@[1] != "return"@[1]);
    assert("meta"@[0] != "tab"@[0] || "meta"@.len() != "tab"@.len() || "meta"@[1] != "tab"@[1]);
    assert("meta"@[0] != "esc"@[0] || "meta"@.len() != "esc"@.len() || "meta"@[1] != "esc"@[1]);
    assert("meta"@[0] != "escape"@[0] || "meta"@.len() != "escape"@.len() || "meta"@[1] != "escape"@[1]);
    assert("meta"@[0] != "backspace"@[0] || "meta"@.len() != "backspace"@.len() || "meta"@[1] != "backspace"@[1]);
    assert("meta"@[0] != "space"@[0] || "meta"@.len() != "space"@.len() || "meta"@[1] != "space"@[1]);
    assert("meta"@[0] != "up"@[0] || "meta"@.len() != "up"@.len() || "meta"@[1] != "up"@[1]);
    assert("meta"@[0] != "down"@[0] || "meta"@.len() != "down"@.len() || "meta"@[1] != "down"@[1]);
    assert("meta"@[0] != "left"@[0] || "meta"@.len() != "left"@.len() || "meta"@[1] != "left"@[1]);
    assert("meta"@[0] != "right"@[0] || "meta"@.len() != "right"@.len() || "meta"@[1] != "right"@[1]);
    assert("meta"@[0] != "ctrl"@[0] || "meta"@.len() != "ctrl"@.len() || "meta"@[1] != "ctrl"@[1]);
    assert("meta"@[0] != "control"@[0] || "meta"@.len() != "control"@.len() || "meta"@[1] != "control"@[1]);
    assert("meta"@[0] != "alt"@[0] || "meta"@.len() != "alt"@.len() || "meta"@[1] != "alt"@[1]);
    assert("meta"@[0] != "shift"@[0] || "meta"@.len() != "shift"@.len() || "meta"@[1] != "shift"@[1]);
    assert("super"@[0] != "enter"@[0] || "super"@.len() != "enter"@.len() || "super"@[1] != "enter"@[1]);
    assert("super"@[0] != "return"@[0] || "super"@.len() != "return"@.len() || "super"@[1] != "return"@[1]);
    assert("super"@[0] != "tab"@[0] || "super"@.len() != "tab"@.len() || "super"@[1] != "tab"@[1]);
    assert("super"@[0] != "esc"@[0] || "super"@.len() != "esc"@.len() || "super"@[1] != "esc"@[1]);
    assert("super"@[0] != "escape"@[0] || "super"@.len() != "escape"@.len() || "super"@[1] != "escape"@[1]);
    assert("super"@[0] != "backspace"@[0] || "super"@.len() != "backspace"@.len() || "super"@[1] != "backspace"@[1]);
    assert("super"@[0] != "space"@[0] || "super"@.len() != "space"@.len() || "super"@[1] != "space"@[1]);
    assert("super"@[0] != "up"@[0] || "super"@.len() != "up"@.len() || "super"@[1] != "up"@[1]);
    assert("super"@[0] != "down"@[0] || "super"@.len() != "down"@.len() || "super"@[1] != "down"@[1]);
    assert("super"@[0] != "left"@[0] || "super"@.len() != "left"@.len() || "super"@[1] != "left"@[1]);
    assert("super"@[0] != "right"@[0] || "super"@.len() != "right"@.len() || "super"@[1] != "right"@[1]);
    assert("super"@[0] != "ctrl"@[0] || "super"@.len() != "ctrl"@.len() || "super"@[1] != "ctrl"@[1]);
    assert("super"@[0] != "control"@[0] || "super"@.len() != "control"@.len() || "super"@[1] != "control"@[1]);
    assert("super"@[0] != "alt"@[0] || "super"@.len() != "alt"@.len() || "super"@[1] != "alt"@[1]);
    assert("super"@[0] != "shift"@[0] || "super"@.len() != "shift"@.len() || "super"@[1] != "shift"@[1]);
    assert("win"@[0] != "enter"@[0] || "win"@.len() != "enter"@.len() || "win"@[1] != "enter"@[1]);
    assert("win"@[0] != "return"@[0] || "win"@.len() != "return"@.len() || "win"@[1] != "return"@[1]);
    assert("win"@[0] != "tab"@[0] || "win"@.len() != "tab"@.len() || "win"@[1] != "tab"@[1]);
    assert("win"@[0] != "esc"@[0] || "win"@.len() != "esc"@.len() || "win"@[1] != "esc"@[1]);
    assert("win"@[0] != "escape"@[0] || "win"@.len() != "escape"@.len() || "win"@[1] != "escape"@[1]);
    assert("win"@[0] != "backspace"@[0] || "win"@.len() != "backspace"@.len() || "win"@[1] != "backspace"@[1]);
    assert("win"@[0] != "space"@[0] || "win"@.len() != "space"@.len() || "win"@[1] != "space"@[1]);
    assert("win"@[0] != "up"@[0] || "win"@.len() != "up"@.len() || "win"@[1] != "up"@[1]);
    assert("win"@[0] != "down"@[0] || "win"@.len() != "down"@.len() || "win"@[1] != "down"@[1]);
    assert("win"@[0] != "left"@[0] || "win"@.len() != "left"@.len() || "win"@[1] != "left"@[1]);
    assert("win"@[0] != "right"@[0] || "win"@.len() != "right"@.len() || "win"@[1] != "right"@[1]);
    assert("win"@[0] != "ctrl"@[0] || "win"@.len() != "ctrl"@.len() || "win"@[1] != "ctrl"@[1]);
    assert("win"@[0] != "control"@[0] || "win"@.len() != "control"@.len() || "win"@[1] != "control"@[1]);
    assert("win"@[0] != "alt"@[0] || "win"@.len() != "alt"@.len() || "win"@[1] != "alt"@[1]);
    assert("win"@[0] != "shift"@[0] || "win"@.len() != "shift"@.len() || "win"@[1] != "shift"@[1]);
    assert("cmd"@[0] != "enter"@[0] || "cmd"@.len() != "enter"@.len() || "cmd"@[1] != "enter"@[1]);
    assert("cmd"@[0] != "return"@[0] || "cmd"@.len() != "return"@.len() || "cmd"@[1] != "return"@[1]);
    assert("cmd"@[0] != "tab"@[0] || "cmd"@.len() != "tab"@.len() || "cmd"@[1] != "tab"@[1]);
    assert("cmd"@[0] != "esc"@[0] || "cmd"@.len() != "esc"@.len() || "cmd"@[1] != "esc"@[1]);
    assert("cmd"@[0] != "escape"@[0] || "cmd"@.len() != "escape"@.len() || "cmd"@[1] != "escape"@[1]);
    assert("cmd"@[0] != "backspace"@[0] || "cmd"@.len() != "backspace"@.len() || "cmd"@[1] != "backspace"@[1]);
    assert("cmd"@[0] != "space"@[0] || "cmd"@.len() != "space"@.len() || "cmd"@[1] != "space"@[1]);
    assert("cmd"@[0] != "up"@[0] || "cmd"@.len() != "up"@.len() || "cmd"@[1] != "up"@[1]);
    assert("cmd"@[0] != "down"@[0] || "cmd"@.len() != "down"@.len() || "cmd"@[1] != "down"@[1]);
    assert("cmd"@[0] != "left"@[0] || "cmd"@.len() != "left"@.len() || "cmd"@[1] != "left"@[1]);
    assert("cmd"@[0] != "right"@[0] || "cmd"@.len() != "right"@.len() || "cmd"@[1] != "right"@[1]);
    assert("cmd"@[0] != "ctrl"@[0] || "cmd"@.len() != "ctrl"@.len() || "cmd"@[1] != "ctrl"@[1]);
    assert("cmd"@[0] != "control"@[0] || "cmd"@.len() != "control"@.len() || "cmd"@[1] != "control"@[1]);
    assert("cmd"@[0] != "alt"@[0] || "cmd"@.len() != "alt"@.len() || "cmd"@[1] != "alt"@[1]);
    assert("cmd"@[0] != "shift"@[0] || "cmd"@.len() != "shift"@.len() || "cmd"@[1] != "shift"@[1]);
    assert(key_from_lower("meta"@) == Some(KeySpec::Meta));
    assert(key_from_lower("super"@) == Some(KeySpec::Meta));
    assert(key_from_lower("win"@) == Some(KeySpec::Meta));
    assert(key_from_lower("cmd"@) == Some(KeySpec::Meta));
    assert(key_from_lower("enter"@) == Some(KeySpec::Enter));
    assert(key_from_lower("return"@) == Some(KeySpec::Enter));
}

impl KeySpec {
    /// Parse a key name, in any letter case, into a key.
    pub fn from_name(name: &str) -> (r: Option<Self>)
        ensures
            r == key_from_lower(lowercase(name@)),
    {
        let lower = to_lowercase(name);
        Self::from_lowercase_name(lower.as_str())
    }

    /// Parse a key name that is already in lower case into a key.
    pub fn from_lowercase_name(s: &str) -> (r: Option<Self>)
        ensures
            r == key_from_lower(s@),
    {
        if is_text(s, "enter") || is_text(s, "return") {
            Some(KeySpec::Enter)
        } else if is_text(s, "tab") {
            Some(KeySpec::Tab)
        } else if is_text(s, "esc") || is_text(s, "escape") {
            Some(KeySpec::Esc)
        } else if is_text(s, "backspace") {
            Some(KeySpec::Backspace)
        } else if is_text(s, "space") {
            Some(KeySpec::Space)
        } else if is_text(s, "up") {
            Some(KeySpec::Up)
        } else if is_text(s, "down") {
            Some(KeySpec::Down)
        } else if is_text(s, "left") {
            Some(KeySpec::Left)
        } else if is_text(s, "right") {
            Some(KeySpec::Right)
        } else if is_text(s, "ctrl") || is_text(s, "control") {
            Some(KeySpec::Ctrl)
        } else if is_text(s, "alt") {
            Some(KeySpec::Alt)
        } else if is_text(s, "shift") {
            Some(KeySpec::Shift)
        } else if is_text(s, "meta") || is_text(s, "super") || is_text(s, "win") || is_text(
            s,
            "cmd",
        ) {
            Some(KeySpec::Meta)
        } else if is_text(s, "volumeup") || is_text(s, "volume_up") {
            Some(KeySpec::VolumeUp)
        } else if is_text(s, "volumedown") || is_text(s, "volume_down") {
            Some(KeySpec::VolumeDown)
        } else if is_text(s, "volumemute") || is_text(s, "volume_mute") || is_text(s, "mute") {
            Some(KeySpec::VolumeMute)
        } else if is_text(s, "playpause") || is_text(s, "play_pause") || is_text(
            s,
            "media_play_pause",
        ) {
            Some(KeySpec::MediaPlayPause)
        } else if is_text(s, "mediastop") || is_text(s, "media_stop") {
            Some(KeySpec::MediaStop)
        } else if is_text(s, "nexttrack") || is_text(s, "next_track") || is_text(s, "media_next") {
            Some(KeySpec::MediaNextTrack)
        } else if is_text(s, "prevtrack") || is_text(s, "prev_track") || is_text(s, "media_prev")
            || is_text(s, "media_previous") {
            Some(KeySpec::MediaPrevTrack)
        } else if is_text(s, "brightnessup") || is_text(s, "brightness_up") {
            Some(KeySpec::BrightnessUp)
        } else if is_text(s, "brightnessdown") || is_text(s, "brightness_down") {
            Some(KeySpec::BrightnessDown)
        } else {
            let chars = chars_of(s);
            if chars.len() > usize::MAX / 4 {
                // A string this long has more than three bytes and more than one.
                proof {
                    lemma_utf8_len_bounds(s@);
                }
                return None;
            }
            let bytes = byte_len(&chars);
            if chars.len() > 0 && chars[0] == 'f' && bytes <= 3 {
                let mut rest: Vec<char> = Vec::new();
                let mut i: usize = 1;
                while i < chars.len()
                    invariant
                        1 <= i <= chars@.len(),
                        rest@ == chars@.subrange(1, i as int),
                    decreases chars@.len() - i,
                {
                    rest.push(chars[i]);
                    i = i + 1;
                    assert(rest@ =~= chars@.subrange(1, i as int));
                }
                assert(rest@ =~= s@.skip(1));
                match parse_unsigned_exec(&rest, 255) {
                    Some(n) => Some(KeySpec::F(n as u8)),
                    None => None,
                }
            } else if bytes == 1 {
                proof {
                    lemma_utf8_len_bounds(s@);
                }
                Some(KeySpec::Char(chars[0]))
            } else {
                None
            }
        }
    }

    /// Whether this key is a modifier (Ctrl, Alt, Shift or Meta).
    pub fn is_modifier(&self) -> (b: bool)
        ensures
            b == key_is_modifier(*self),
    {
        match self {
            KeySpec::Ctrl | KeySpec::Alt | KeySpec::Shift | KeySpec::Meta => true,
            _ => false,
        }
    }

    /// Appends the human-readable name of this key to `s`.
    pub fn push_text(&self, s: &mut String)
        ensures
            final(s)@ == old(s)@ + key_text(*self),
    {
        match self {
            KeySpec::Char(c) => {
                push_char(s, *c);
                assert(s@ =~= old(s)@ + key_text(*self));
            },
            KeySpec::Enter => append_str(s, "Enter"),
            KeySpec::Tab => append_str(s, "Tab"),
            KeySpec::Esc => append_str(s, "Esc"),
            KeySpec::Backspace => append_str(s, "Backspace"),
            KeySpec::Space => append_str(s, "Space"),
            KeySpec::Up => append_str(s, "Up"),
            KeySpec::Down => append_str(s, "Down"),
            KeySpec::Left => append_str(s, "Left"),
            KeySpec::Right => append_str(s, "Right"),
            KeySpec::F(n) => {
                push_char(s, 'F');
                push_decimal(s, *n as u64);
                assert(s@ =~= old(s)@ + key_text(*self));
            },
            KeySpec::Ctrl => append_str(s, "Ctrl"),
            KeySpec::Alt => append_str(s, "Alt"),
            KeySpec::Shift => append_str(s, "Shift"),
            KeySpec::Meta => append_str(s, "Meta"),
            KeySpec::VolumeUp => append_str(s, "Volume Up"),
            KeySpec::VolumeDown => append_str(s, "Volume Down"),
            KeySpec::VolumeMute => append_str(s, "Volume Mute"),
            KeySpec::MediaPlayPause => append_str(s, "Play/Pause"),
            KeySpec::MediaStop => append_str(s, "Media Stop"),
            KeySpec::MediaNextTrack => append_str(s, "Next Track"),
            KeySpec::MediaPrevTrack => append_str(s, "Previous Track"),
            KeySpec::BrightnessUp => append_str(s, "Brightness Up"),
            KeySpec::BrightnessDown => append_str(s, "Brightness Down"),
        }
    }

    /// The human-readable name of this key.
    pub fn display_string(&self) -> (s: String)
        ensures
            s@ == key_text(*self),
    {
        let mut s = String::new();
        self.push_text(&mut s);
        assert(s@ =~= key_text(*self));
        s
    }
}


/// How a macro behaves when it is triggered again while still running.
#[derive(Debug, Clone, Copy, PartialEq, Eq, Structural)]
pub enum PlaybackMode {
    FireAndForget,
    CancelAndRestart,
    IgnoreIfRunning,
    Queue,
}

impl Default for PlaybackMode {
    fn default() -> (r: Self)
        ensures
            r == PlaybackMode::FireAndForget,
    {
        PlaybackMode::FireAndForget
    }
}

/// One step of a macro.
#[derive(Debug, PartialEq)]
pub enum MacroStep {
    KeyDown(KeySpec),
    KeyUp(KeySpec),
    KeyTap(KeySpec),
    Text(String),
    DelayMs(u64),
}

/// The mathematical value of a macro step.
pub enum MacroStepView {
    KeyDown(KeySpec),
    KeyUp(KeySpec),
    KeyTap(KeySpec),
    Text(Seq<char>),
    DelayMs(u64),
}

impl View for MacroStep {
    type V = MacroStepView;

    open spec fn view(&self) -> MacroStepView {
        match self {
            MacroStep::KeyDown(k) => MacroStepView::KeyDown(*k),
            MacroStep::KeyUp(k) => MacroStepView::KeyUp(*k),
            MacroStep::KeyTap(k) => MacroStepView::KeyTap(*k),
            MacroStep::Text(t) => MacroStepView::Text(t@),
            MacroStep::DelayMs(ms) => MacroStepView::DelayMs(*ms),
        }
    }
}

impl Clone for MacroStep {
    fn clone(&self) -> (r: Self)
        ensures
            r@ == self@,
    {
        match self {
            MacroStep::KeyDown(k) => MacroStep::KeyDown(*k),
            MacroStep::KeyUp(k) => MacroStep::KeyUp(*k),
            MacroStep::KeyTap(k) => MacroStep::KeyTap(*k),
            MacroStep::Text(t) => MacroStep::Text(t.clone()),
            MacroStep::DelayMs(ms) => MacroStep::DelayMs(*ms),
        }
    }
}


/// The mathematical value of a sequence of macro steps.
pub open spec fn step_views(s: Seq<MacroStep>) -> Seq<MacroStepView> {
    s.map_values(|x: MacroStep| x@)
}

/// Human-readable form of a macro step.
pub open spec fn macro_step_text(s: MacroStepView) -> Seq<char> {
    match s {
        MacroStepView::KeyDown(k) => key_text(k) + " down"@,
        MacroStepView::KeyUp(k) => key_text(k) + " up"@,
        MacroStepView::KeyTap(k) => key_text(k) + " tap"@,
        MacroStepView::Text(t) => "Text \""@ + t + "\""@,
        MacroStepView::DelayMs(ms) => "Delay "@ + decimal(ms as nat) + "ms"@,
    }
}

impl MacroStep {
    /// The human-readable form of this step.
    pub fn display_string(&self) -> (s: String)
        ensures
            s@ == macro_step_text(self@),
    {
        let mut s = String::new();
        match self {
            MacroStep::KeyDown(k) => {
                k.push_text(&mut s);
                append_str(&mut s, " down");
            },
            MacroStep::KeyUp(k) => {
                k.push_text(&mut s);
                append_str(&mut s, " up");
            },
            MacroStep::KeyTap(k) => {
                k.push_text(&mut s);
                append_str(&mut s, " tap");
            },
            MacroStep::Text(t) => {
                append_str(&mut s, "Text \"");
                append_str(&mut s, t.as_str());
                append_str(&mut s, "\"");
            },
            MacroStep::DelayMs(ms) => {
                append_str(&mut s, "Delay ");
                push_decimal(&mut s, *ms);
                append_str(&mut s, "ms");
            },
        }
        assert(s@ =~= macro_step_text(self@));
        s
    }
}

/// A recorded or written sequence of macro steps.
#[derive(Debug, PartialEq)]
pub struct MacroSpec {
    pub steps: Vec<MacroStep>,
    pub playback_mode: PlaybackMode,
}

/// The mathematical value of a macro.
pub struct MacroSpecView {
    pub steps: Seq<MacroStepView>,
    pub playback_mode: PlaybackMode,
}

impl View for MacroSpec {
    type V = MacroSpecView;

    open spec fn view(&self) -> MacroSpecView {
        MacroSpecView { steps: step_views(self.steps@), playback_mode: self.playback_mode }
    }
}

/// A copy of a sequence of macro steps.
pub fn clone_steps(steps: &[MacroStep]) -> (r: Vec<MacroStep>)
    ensures
        step_views(r@) == step_views(steps@),
{
    let mut r: Vec<MacroStep> = Vec::new();
    let mut i: usize = 0;
    while i < steps.len()
        invariant
            i <= steps@.len(),
            r@.len() == i,
            forall|j: int| 0 <= j < i ==> #[trigger] r@[j]@ == steps@[j]@,
        decreases steps@.len() - i,
    {
        let c = steps[i].clone();
        r.push(c);
        i = i + 1;
    }
    assert(step_views(r@) =~= step_views(steps@));
    r
}

impl Clone for MacroSpec {
    fn clone(&self) -> (r: Self)
        ensures
            r@ == self@,
    {
        MacroSpec { steps: clone_steps(self.steps.as_slice()), playback_mode: self.playback_mode }
    }
}

/// What a mapping does when its trigger fires.
#[derive(Debug, PartialEq)]
pub enum OutputAction {
    KeyTap { key: KeySpec },
    KeyChord { keys: Vec<KeySpec> },
    Text { text: String },
    Macro { spec: MacroSpec },
}

/// The mathematical value of an output action.
pub enum OutputActionView {
    KeyTap { key: KeySpec },
    KeyChord { keys: Seq<KeySpec> },
    Text { text: Seq<char> },
    Macro { spec: MacroSpecView },
}

impl View for OutputAction {
    type V = OutputActionView;

    open spec fn view(&self) -> OutputActionView {
        match self {
            OutputAction::KeyTap { key } => OutputActionView::KeyTap { key: *key },
            OutputAction::KeyChord { keys } => OutputActionView::KeyChord { keys: keys@ },
            OutputAction::Text { text } => OutputActionView::Text { text: text@ },
            OutputAction::Macro { spec } => OutputActionView::Macro { spec: spec@ },
        }
    }
}

/// A copy of a sequence of keys.
pub fn clone_keys(keys: &[KeySpec]) -> (r: Vec<KeySpec>)
    ensures
        r@ == keys@,
{
    let mut r: Vec<KeySpec> = Vec::new();
    let mut i: usize = 0;
    while i < keys.len()
        invariant
            i <= keys@.len(),
            r@ == keys@.take(i as int),
        decreases keys@.len() - i,
    {
        r.push(keys[i]);
        i = i + 1;
        assert(r@ =~= keys@.take(i as int));
    }
    assert(keys@.take(keys@.len() as int) =~= keys@);
    r
}

impl Clone for OutputAction {
    fn clone(&self) -> (r: Self)
        ensures
            r@ == self@,
    {
        match self {
            OutputAction::KeyTap { key } => OutputAction::KeyTap { key: *key },
            OutputAction::KeyChord { keys } => OutputAction::KeyChord {
                keys: clone_keys(keys.as_slice()),
            },
            OutputAction::Text { text } => OutputAction::Text { text: text.clone() },
            OutputAction::Macro { spec } => OutputAction::Macro { spec: spec.clone() },
        }
    }
}

/// Key names joined by `+`.
pub open spec fn keys_joined(keys: Seq<KeySpec>) -> Seq<char>
    decreases keys.len(),
{
    if keys.len() == 0 {
        Seq::empty()
    } else if keys.len() == 1 {
        key_text(keys[0])
    } else {
        keys_joined(keys.drop_last()) + "+"@ + key_text(keys.last())
    }
}

/// The most bytes of a text action that its summary shows in full.
pub const TEXT_PREVIEW_BYTES: usize = 20;

/// Whether the summary of a text can be cut after its first
/// `TEXT_PREVIEW_BYTES` bytes: either the text is no longer than that, or a
/// character ends exactly there.
pub open spec fn text_preview_fits(t: Seq<char>) -> bool {
    utf8_len(t) <= TEXT_PREVIEW_BYTES || exists|k: int|
        0 <= k <= t.len() && #[trigger] utf8_len(t.take(k)) == TEXT_PREVIEW_BYTES
}

/// The shown part of a text action: the whole text, or its first
/// `TEXT_PREVIEW_BYTES` bytes followed by an ellipsis.
pub open spec fn text_preview(t: Seq<char>) -> Seq<char> {
    if utf8_len(t) > TEXT_PREVIEW_BYTES {
        t.take(
            choose|k: int| 0 <= k <= t.len() && #[trigger] utf8_len(t.take(k)) == TEXT_PREVIEW_BYTES,
        ) + seq!['\u{2026}']
    } else {
        t
    }
}

/// Whether an action's summary can be formed (see `text_preview_fits`).
pub open spec fn action_text_fits(a: OutputActionView) -> bool {
    match a {
        OutputActionView::Text { text } => text_preview_fits(text),
        _ => true,
    }
}

/// Human-readable summary of an action.
pub open spec fn action_text(a: OutputActionView) -> Seq<char> {
    match a {
        OutputActionView::KeyTap { key } => "Key: "@ + key_text(key),
        OutputActionView::KeyChord { keys } => "Chord: "@ + keys_joined(keys),
        OutputActionView::Text { text } => "Text: \""@ + text_preview(text) + "\""@,
        OutputActionView::Macro { spec } => "Macro: "@ + decimal(spec.steps.len()) + " steps"@,
    }
}

proof fn lemma_utf8_len_take_step(t: Seq<char>, k: int)
    requires
        0 <= k < t.len(),
    ensures
        utf8_len(t.take(k + 1)) == utf8_len(t.take(k)) + crate::text::char_utf8_len(t[k]),
        utf8_len(t.take(k + 1)) > utf8_len(t.take(k)),
{
    assert(t.take(k + 1).drop_last() =~= t.take(k));
}

proof fn lemma_utf8_len_take_mono(t: Seq<char>, j: int, k: int)
    requires
        0 <= j <= k <= t.len(),
    ensures
        utf8_len(t.take(j)) <= utf8_len(t.take(k)),
        j < k ==> utf8_len(t.take(j)) < utf8_len(t.take(k)),
    decreases k - j,
{
    if j < k {
        lemma_utf8_len_take_step(t, k - 1);
        lemma_utf8_len_take_mono(t, j, k - 1);
    }
}

/// Appends `text_preview(t)` to `s`.
fn push_text_preview(s: &mut String, t: &String)
    requires
        text_preview_fits(t@),
    ensures
        final(s)@ == old(s)@ + text_preview(t@),
{
    let chars = chars_of(t.as_str());
    let mut acc: usize = 0;
    let mut i: usize = 0;
    while i < chars.len() && acc + crate::text::char_byte_len(chars[i]) <= TEXT_PREVIEW_BYTES
        invariant
            chars@ == t@,
            i <= chars@.len(),
            acc == utf8_len(t@.take(i as int)),
            acc <= TEXT_PREVIEW_BYTES,
        decreases chars@.len() - i,
    {
        proof {
            lemma_utf8_len_take_step(t@, i as int);
        }
        acc = acc + crate::text::char_byte_len(chars[i]);
        i = i + 1;
    }
    if i == chars.len() {
        assert(t@.take(i as int) =~= t@);
        s.append(t.as_str());
        return;
    }
    proof {
        assert(t@.take(t@.len() as int) =~= t@);
        lemma_utf8_len_take_step(t@, i as int);
        lemma_utf8_len_take_mono(t@, i as int + 1, t@.len() as int);
        assert(utf8_len(t@) > TEXT_PREVIEW_BYTES);
        let k = choose|k: int| 0 <= k <= t@.len() && #[trigger] utf8_len(t@.take(k)) == TEXT_PREVIEW_BYTES;
        if k < i {
            lemma_utf8_len_take_mono(t@, k, i as int);
        } else if k > i {
            lemma_utf8_len_take_mono(t@, i as int + 1, k);
        }
        assert(k == i);
    }
    let mut j: usize = 0;
    while j < i
        invariant
            chars@ == t@,
            j <= i < chars@.len(),
            s@ == old(s)@ + t@.take(j as int),
        decreases i - j,
    {
        push_char(s, chars[j]);
        j = j + 1;
        assert(s@ =~= old(s)@ + t@.take(j as int));
    }
    push_char(s, '\u{2026}');
    assert(s@ =~= old(s)@ + text_preview(t@));
}

/// Whether the summary of `t` can be formed: `text_preview_fits`.
pub fn preview_fits(t: &str) -> (b: bool)
    ensures
        b == text_preview_fits(t@),
{
    let chars = chars_of(t);
    let mut acc: usize = 0;
    let mut i: usize = 0;
    while i < chars.len() && acc + crate::text::char_byte_len(chars[i]) <= TEXT_PREVIEW_BYTES
        invariant
            chars@ == t@,
            i <= chars@.len(),
            acc == utf8_len(t@.take(i as int)),
            acc <= TEXT_PREVIEW_BYTES,
        decreases chars@.len() - i,
    {
        proof {
            lemma_utf8_len_take_step(t@, i as int);
        }
        acc = acc + crate::text::char_byte_len(chars[i]);
        i = i + 1;
    }
    if i == chars.len() {
        assert(t@.take(i as int) =~= t@);
        return true;
    }
    proof {
        assert(t@.take(t@.len() as int) =~= t@);
        lemma_utf8_len_take_step(t@, i as int);
        lemma_utf8_len_take_mono(t@, i as int + 1, t@.len() as int);
    }
    if acc == TEXT_PREVIEW_BYTES {
        return true;
    }
    proof {
        assert forall|k: int| 0 <= k <= t@.len() implies #[trigger] utf8_len(t@.take(k))
            != TEXT_PREVIEW_BYTES by {
            if k <= i {
                lemma_utf8_len_take_mono(t@, k, i as int);
            } else {
                lemma_utf8_len_take_mono(t@, i as int + 1, k);
            }
        }
    }
    false
}

impl OutputAction {
    /// Appends the human-readable summary of this action to `s`.
    pub fn push_text(&self, s: &mut String)
        requires
            action_text_fits(self@),
        ensures
            final(s)@ == old(s)@ + action_text(self@),
    {
        match self {
            OutputAction::KeyTap { key } => {
                append_str(s, "Key: ");
                key.push_text(s);
                assert(s@ =~= old(s)@ + action_text(self@));
            },
            OutputAction::KeyChord { keys } => {
                append_str(s, "Chord: ");
                assert(keys@.take(0) =~= Seq::<KeySpec>::empty());
                assert(s@ =~= old(s)@ + "Chord: "@ + keys_joined(keys@.take(0)));
                let mut i: usize = 0;
                while i < keys.len()
                    invariant
                        i <= keys@.len(),
                        s@ == old(s)@ + "Chord: "@ + keys_joined(keys@.take(i as int)),
                    decreases keys@.len() - i,
                {
                    if i > 0 {
                        append_str(s, "+");
                    }
                    keys[i].push_text(s);
                    proof {
                        assert(keys@.take(i as int + 1).drop_last() =~= keys@.take(i as int));
                    }
                    i = i + 1;
                    assert(s@ =~= old(s)@ + "Chord: "@ + keys_joined(keys@.take(i as int)));
                }
                assert(keys@.take(keys@.len() as int) =~= keys@);
                assert(s@ =~= old(s)@ + action_text(self@));
            },
            OutputAction::Text { text } => {
                append_str(s, "Text: \"");
                push_text_preview(s, text);
                append_str(s, "\"");
                assert(s@ =~= old(s)@ + action_text(self@));
            },
            OutputAction::Macro { spec } => {
                append_str(s, "Macro: ");
                push_decimal(s, spec.steps.len() as u64);
                append_str(s, " steps");
                assert(s@ =~= old(s)@ + action_text(self@));
            },
        }
    }

    /// The human-readable summary of this action.
    pub fn display_string(&self) -> (s: String)
        requires
            action_text_fits(self@),
        ensures
            s@ == action_text(self@),
    {
        let mut s = String::new();
        self.push_text(&mut s);
        assert(s@ =~= action_text(self@));
        s
    }
}

/// Per-mapping behaviour options.
#[derive(Debug, Clone, Copy, PartialEq, Eq, Structural)]
pub struct MappingOptions {
    pub debounce_ms: u64,
    pub suppress_retrigger_while_held: bool,
    pub trigger_on_value_change_only: bool,
    pub allow_overlap: bool,
}

/// The debounce window a mapping gets when its config does not name one.
pub fn default_debounce_ms() -> (r: u64)
    ensures
        r == 50,
{
    50
}

/// The value of a boolean option that defaults to on.
pub fn default_true() -> (r: bool)
    ensures
        r,
{
    true
}

/// The default options of a mapping.
pub open spec fn default_options() -> MappingOptions {
    MappingOptions {
        debounce_ms: 50,
        suppress_retrigger_while_held: false,
        trigger_on_value_change_only: false,
        allow_overlap: true,
    }
}

impl Default for MappingOptions {
    fn default() -> (r: Self)
        ensures
            r == default_options(),
    {
        MappingOptions {
            debounce_ms: default_debounce_ms(),
            suppress_retrigger_while_held: false,
            trigger_on_value_change_only: false,
            allow_overlap: default_true(),
        }
    }
}

/// Knob encoding modes.
#[derive(Debug, Clone, Copy, PartialEq, Eq, Structural)]
pub enum KnobMode {
    /// Infer direction from value delta (requires state tracking).
    Absolute,
    /// CW = 1-63, CCW = 65-127 (two's complement style).
    Relative1,
    /// CW = 65-127, CCW = 1-63 (binary offset style).
    Relative2,
    /// CW = 1-64, CCW = 65-127 (sign and magnitude style).
    Relative3,
}

impl Default for KnobMode {
    fn default() -> (r: Self)
        ensures
            r == KnobMode::Absolute,
    {
        KnobMode::Absolute
    }
}

/// The name of a knob mode as its variant is written.
pub open spec fn knob_mode_text(m: KnobMode) -> Seq<char> {
    match m {
        KnobMode::Absolute => "Absolute"@,
        KnobMode::Relative1 => "Relative1"@,
        KnobMode::Relative2 => "Relative2"@,
        KnobMode::Relative3 => "Relative3"@,
    }
}

impl KnobMode {
    /// Appends the name of this mode to `s`.
    pub fn push_text(&self, s: &mut String)
        ensures
            final(s)@ == old(s)@ + knob_mode_text(*self),
    {
        match self {
            KnobMode::Absolute => append_str(s, "Absolute"),
            KnobMode::Relative1 => append_str(s, "Relative1"),
            KnobMode::Relative2 => append_str(s, "Relative2"),
            KnobMode::Relative3 => append_str(s, "Relative3"),
        }
    }
}

/// Smallest delay that a normalised macro keeps.
pub const MIN_DELAY_MS: u64 = 15;

/// Longest total delay of a normalised macro.
pub const MAX_TOTAL_MS: u64 = 30_000;

/// Normalisation of the first `k` steps: the steps kept so far, the total
/// delay kept so far, and whether the cap on the total delay was reached.
pub open spec fn normalize_prefix(steps: Seq<MacroStepView>, k: nat) -> (Seq<MacroStepView>, nat, bool)
    decreases k,
{
    if k == 0 || k > steps.len() {
        (Seq::empty(), 0, false)
    } else {
        let (out, total, done) = normalize_prefix(steps, (k - 1) as nat);
        if done {
            (out, total, done)
        } else {
            match steps[k - 1] {
                MacroStepView::DelayMs(ms) => {
                    if ms == 0 {
                        (out, total, false)
                    } else {
                        let clamped: nat = if ms < MIN_DELAY_MS {
                            MIN_DELAY_MS as nat
                        } else {
                            ms as nat
                        };
                        if total + clamped > MAX_TOTAL_MS {
                            let remaining: nat = if total < MAX_TOTAL_MS {
                                (MAX_TOTAL_MS - total) as nat
                            } else {
                                0
                            };
                            if remaining >= MIN_DELAY_MS {
                                (out.push(MacroStepView::DelayMs(remaining as u64)), total, true)
                            } else {
                                (out, total, true)
                            }
                        } else {
                            (out.push(MacroStepView::DelayMs(clamped as u64)), total + clamped, false)
                        }
                    }
                },
                other => if out.len() > 0 && modifier_repeat(out.last(), other) {
                    (out, total, false)
                } else {
                    (out.push(other), total, false)
                },
            }
        }
    }
}

/// Whether `step` repeats `prev` as a press or release of the same modifier
/// key: noise that normalisation collapses.
pub open spec fn modifier_repeat(prev: MacroStepView, step: MacroStepView) -> bool {
    prev == step && match step {
        MacroStepView::KeyDown(k) => key_is_modifier(k),
        MacroStepView::KeyUp(k) => key_is_modifier(k),
        _ => false,
    }
}

/// Whether `step` repeats `prev` as a press or release of the same modifier.
fn repeats_modifier(prev: &MacroStep, step: &MacroStep) -> (b: bool)
    ensures
        b == modifier_repeat(prev@, step@),
{
    match (prev, step) {
        (MacroStep::KeyDown(a), MacroStep::KeyDown(b)) => *a == *b && b.is_modifier(),
        (MacroStep::KeyUp(a), MacroStep::KeyUp(b)) => *a == *b && b.is_modifier(),
        _ => false,
    }
}

/// Normalised macro steps: zero delays dropped, a press or release of a
/// modifier that repeats the step kept just before it dropped, small delays
/// raised to `MIN_DELAY_MS`, and the total delay capped at `MAX_TOTAL_MS` (the step that
/// would pass the cap is shortened to what is left, if that is at least
/// `MIN_DELAY_MS`, and everything after it is dropped).
pub open spec fn normalized(steps: Seq<MacroStepView>) -> Seq<MacroStepView> {
    normalize_prefix(steps, steps.len()).0
}

/// Whether normalising `steps` adds delays within the range of `u64`: for each
/// delay that is reached, the running total plus the (raised) delay fits.
pub open spec fn normalize_in_range(steps: Seq<MacroStepView>) -> bool {
    forall|k: nat|
        k < steps.len() && !(#[trigger] normalize_prefix(steps, k)).2 && steps[k as int] is DelayMs
            && steps[k as int]->DelayMs_0 > 0 ==> normalize_prefix(steps, k).1 + (if steps[k as int]->DelayMs_0
            < MIN_DELAY_MS {
            MIN_DELAY_MS as nat
        } else {
            steps[k as int]->DelayMs_0 as nat
        }) <= u64::MAX
}

proof fn lemma_normalize_total_bound(steps: Seq<MacroStepView>, k: nat)
    ensures
        normalize_prefix(steps, k).1 <= MAX_TOTAL_MS,
    decreases k,
{
    if k > 0 && k <= steps.len() {
        lemma_normalize_total_bound(steps, (k - 1) as nat);
    }
}

/// Normalise macro steps: drop zero-length delays, raise small delays to the
/// minimum, and cap the total delay.
pub fn normalize_macro(steps: &[MacroStep]) -> (r: Vec<MacroStep>)
    requires
        normalize_in_range(step_views(steps@)),
    ensures
        step_views(r@) == normalized(step_views(steps@)),
{
    let ghost sv = step_views(steps@);
    let mut result: Vec<MacroStep> = Vec::new();
    let mut total_delay: u64 = 0;
    let mut i: usize = 0;
    while i < steps.len()
        invariant
            sv == step_views(steps@),
            sv.len() == steps@.len(),
            normalize_in_range(sv),
            i <= steps@.len(),
            normalize_prefix(sv, i as nat) == (step_views(result@), total_delay as nat, false),
        decreases steps@.len() - i,
    {
        proof {
            lemma_normalize_total_bound(sv, i as nat);
            assert(sv[i as int] == steps@[i as int]@);
        }
        match &steps[i] {
            MacroStep::DelayMs(ms) => {
                let ms = *ms;
                if ms == 0 {
                    i = i + 1;
                    continue;
                }
                let clamped = if ms < MIN_DELAY_MS {
                    MIN_DELAY_MS
                } else {
                    ms
                };
                assert(normalize_prefix(sv, i as nat).1 + clamped <= u64::MAX);
                if total_delay + clamped > MAX_TOTAL_MS {
                    let remaining = if total_delay < MAX_TOTAL_MS {
                        MAX_TOTAL_MS - total_delay
                    } else {
                        0
                    };
                    if remaining >= MIN_DELAY_MS {
                        result.push(MacroStep::DelayMs(remaining));
                    }
                    proof {
                        assert(step_views(result@) =~= normalize_prefix(sv, (i + 1) as nat).0);
                        lemma_normalize_done_stays(sv, (i + 1) as nat, sv.len());
                    }
                    return result;
                }
                total_delay = total_delay + clamped;
                result.push(MacroStep::DelayMs(clamped));
            },
            other => {
                let repeat = result.len() > 0 && repeats_modifier(&result[result.len() - 1], other);
                if !repeat {
                    result.push(other.clone());
                }
            },
        }
        i = i + 1;
        assert(step_views(result@) =~= normalize_prefix(sv, i as nat).0);
    }
    result
}

proof fn lemma_normalize_done_stays(steps: Seq<MacroStepView>, j: nat, k: nat)
    requires
        j <= k <= steps.len(),
        0 < j,
        normalize_prefix(steps, j).2,
    ensures
        normalize_prefix(steps, k) == normalize_prefix(steps, j),
    decreases k - j,
{
    if j < k {
        lemma_normalize_done_stays(steps, j, (k - 1) as nat);
    }
}

/// The total delay of macro steps, in milliseconds.
pub open spec fn delay_total(steps: Seq<MacroStepView>) -> nat
    decreases steps.len(),
{
    if steps.len() == 0 {
        0
    } else {
        delay_total(steps.drop_last()) + match steps.last() {
            MacroStepView::DelayMs(ms) => ms as nat,
            _ => 0,
        }
    }
}

proof fn lemma_normalize_prefix_delays(steps: Seq<MacroStepView>, k: nat)
    ensures
        forall|i: int|
            0 <= i < normalize_prefix(steps, k).0.len() && (#[trigger] normalize_prefix(
                steps,
                k,
            ).0[i]) is DelayMs ==> normalize_prefix(steps, k).0[i]->DelayMs_0 >= MIN_DELAY_MS,
        delay_total(normalize_prefix(steps, k).0) <= MAX_TOTAL_MS,
        !normalize_prefix(steps, k).2 ==> delay_total(normalize_prefix(steps, k).0)
            == normalize_prefix(steps, k).1,
    decreases k,
{
    if k > 0 && k <= steps.len() {
        let p = (k - 1) as nat;
        lemma_normalize_prefix_delays(steps, p);
        let (out, total, done) = normalize_prefix(steps, p);
        let cur = normalize_prefix(steps, k).0;
        if !done {
            if cur.len() > out.len() {
                assert(cur.drop_last() =~= out);
                assert forall|i: int| 0 <= i < cur.len() && (#[trigger] cur[i]) is DelayMs implies cur[i]->DelayMs_0
                    >= MIN_DELAY_MS by {
                    if i < out.len() {
                        assert(cur[i] == out[i]);
                    }
                }
            }
        }
    }
}

/// Normalised macros hold no delay shorter than `MIN_DELAY_MS` (so no
/// zero-length delay) and delay `MAX_TOTAL_MS` at most in all.
pub proof fn normalized_delays(steps: Seq<MacroStepView>)
    ensures
        forall|i: int|
            0 <= i < normalized(steps).len() && (#[trigger] normalized(steps)[i]) is DelayMs
                ==> normalized(steps)[i]->DelayMs_0 >= MIN_DELAY_MS,
        delay_total(normalized(steps)) <= MAX_TOTAL_MS,
{
    lemma_normalize_prefix_delays(steps, steps.len());
}

proof fn lemma_delay_total_take_mono(steps: Seq<MacroStepView>, k: int)
    requires
        0 <= k <= steps.len(),
    ensures
        delay_total(steps.take(k)) <= delay_total(steps),
    decreases steps.len() - k,
{
    if k < steps.len() {
        lemma_delay_total_take_mono(steps, k + 1);
        assert(steps.take(k + 1).drop_last() =~= steps.take(k));
    } else {
        assert(steps.take(k) =~= steps);
    }
}

proof fn lemma_normalize_prefix_no_repeat(steps: Seq<MacroStepView>, k: nat)
    ensures
        forall|i: int|
            0 < i < normalize_prefix(steps, k).0.len() ==> !modifier_repeat(
                normalize_prefix(steps, k).0[i - 1],
                #[trigger] normalize_prefix(steps, k).0[i],
            ),
    decreases k,
{
    if k > 0 && k <= steps.len() {
        let p = (k - 1) as nat;
        lemma_normalize_prefix_no_repeat(steps, p);
        let out = normalize_prefix(steps, p).0;
        let cur = normalize_prefix(steps, k).0;
        if cur.len() > out.len() {
            assert(cur.drop_last() =~= out);
            assert forall|i: int| 0 < i < cur.len() implies !modifier_repeat(
                cur[i - 1],
                #[trigger] cur[i],
            ) by {
                if i < out.len() {
                    assert(cur[i] == out[i] && cur[i - 1] == out[i - 1]);
                } else {
                    assert(cur[i - 1] == out.last());
                }
            }
        }
    }
}

/// Normalised macros hold no press or release of a modifier right after the
/// same press or release: duplicate modifier noise is collapsed.
pub proof fn normalized_collapses_modifier_repeats(steps: Seq<MacroStepView>)
    ensures
        forall|i: int|
            0 < i < normalized(steps).len() ==> !modifier_repeat(
                normalized(steps)[i - 1],
                #[trigger] normalized(steps)[i],
            ),
{
    lemma_normalize_prefix_no_repeat(steps, steps.len());
}

proof fn lemma_normalize_prefix_of_normal(steps: Seq<MacroStepView>, k: nat)
    requires
        k <= steps.len(),
        forall|i: int| 0 < i < steps.len() ==> !modifier_repeat(steps[i - 1], #[trigger] steps[i]),
        forall|i: int|
            0 <= i < steps.len() && (#[trigger] steps[i]) is DelayMs ==> steps[i]->DelayMs_0
                >= MIN_DELAY_MS,
        delay_total(steps) <= MAX_TOTAL_MS,
    ensures
        normalize_prefix(steps, k) == (steps.take(k as int), delay_total(steps.take(k as int)), false),
    decreases k,
{
    if k == 0 {
        assert(steps.take(0) =~= Seq::<MacroStepView>::empty());
    } else {
        let p = (k - 1) as nat;
        lemma_normalize_prefix_of_normal(steps, p);
        lemma_delay_total_take_mono(steps, k as int);
        assert(steps.take(k as int).drop_last() =~= steps.take(p as int));
        assert(steps.take(p as int).push(steps[p as int]) =~= steps.take(k as int));
        if p > 0 {
            assert(steps.take(p as int).last() == steps[p - 1]);
            assert(!modifier_repeat(steps[p - 1], steps[p as int]));
        }
    }
}

/// The total delay of macro steps once each zero delay is dropped and each
/// shorter delay is raised to `MIN_DELAY_MS`: what normalisation adds up
/// before it applies the cap.
pub open spec fn raised_total(steps: Seq<MacroStepView>) -> nat
    decreases steps.len(),
{
    if steps.len() == 0 {
        0
    } else {
        raised_total(steps.drop_last()) + match steps.last() {
            MacroStepView::DelayMs(ms) => if ms == 0 {
                0
            } else if ms < MIN_DELAY_MS {
                MIN_DELAY_MS as nat
            } else {
                ms as nat
            },
            _ => 0,
        }
    }
}

proof fn lemma_normalize_prefix_extend(steps: Seq<MacroStepView>, x: MacroStepView, k: nat)
    requires
        k <= steps.len(),
    ensures
        normalize_prefix(steps.push(x), k) == normalize_prefix(steps, k),
    decreases k,
{
    if k > 0 {
        lemma_normalize_prefix_extend(steps, x, (k - 1) as nat);
        assert(steps.push(x)[k - 1] == steps[k - 1]);
    }
}

proof fn lemma_normalize_uncapped(steps: Seq<MacroStepView>)
    requires
        raised_total(steps) <= MAX_TOTAL_MS,
    ensures
        !normalize_prefix(steps, steps.len()).2,
        normalize_prefix(steps, steps.len()).1 == raised_total(steps),
    decreases steps.len(),
{
    if steps.len() > 0 {
        let init = steps.drop_last();
        lemma_normalize_uncapped(init);
        assert(init.push(steps.last()) =~= steps);
        lemma_normalize_prefix_extend(init, steps.last(), init.len());
    }
}

/// Normalising one more key step: as long as the delays stay under the cap,
/// appending a step that is not a delay appends it to the normalised macro as
/// well, unless it is the press or release of a modifier (Ctrl, Alt, Shift,
/// Meta) identical to the step that the normalised macro ends with, which is
/// dropped. In particular a press that follows the release of the same key is
/// kept, and no other step is ever lost.
pub proof fn normalizing_a_key_step(steps: Seq<MacroStepView>, x: MacroStepView)
    requires
        raised_total(steps) <= MAX_TOTAL_MS,
        !(x is DelayMs),
    ensures
        normalized(steps.push(x)) == (if normalized(steps).len() > 0 && normalized(steps).last() == x
            && ((x matches MacroStepView::KeyDown(k) && (k is Ctrl || k is Alt || k is Shift
            || k is Meta)) || (x matches MacroStepView::KeyUp(k) && (k is Ctrl || k is Alt
            || k is Shift || k is Meta))) {
            normalized(steps)
        } else {
            normalized(steps).push(x)
        }),
{
    lemma_normalize_uncapped(steps);
    lemma_normalize_prefix_extend(steps, x, steps.len());
}

/// Normalising one more delay: as long as the delays stay under the cap, a
/// zero delay is dropped and any other delay is appended, raised to
/// `MIN_DELAY_MS` if it is shorter.
pub proof fn normalizing_a_delay(steps: Seq<MacroStepView>, ms: u64)
    requires
        raised_total(steps.push(MacroStepView::DelayMs(ms))) <= MAX_TOTAL_MS,
    ensures
        normalized(steps.push(MacroStepView::DelayMs(ms))) == (if ms == 0 {
            normalized(steps)
        } else if ms < 15 {
            normalized(steps).push(MacroStepView::DelayMs(15))
        } else {
            normalized(steps).push(MacroStepView::DelayMs(ms))
        }),
{
    let x = MacroStepView::DelayMs(ms);
    assert(steps.push(x).drop_last() =~= steps);
    lemma_normalize_uncapped(steps);
    lemma_normalize_prefix_extend(steps, x, steps.len());
}

proof fn lemma_normalize_prefix_append(steps: Seq<MacroStepView>, rest: Seq<MacroStepView>, k: nat)
    requires
        k <= steps.len(),
    ensures
        normalize_prefix(steps + rest, k) == normalize_prefix(steps, k),
    decreases k,
{
    if k > 0 {
        lemma_normalize_prefix_append(steps, rest, (k - 1) as nat);
        assert((steps + rest)[k - 1] == steps[k - 1]);
    }
}

/// The cap on the total delay: when a delay would take the (raised) total
/// past `MAX_TOTAL_MS`, it is cut to what is left of the cap (and dropped if
/// that is under `MIN_DELAY_MS`), and every step after it is dropped.
pub proof fn normalizing_stops_at_the_cap(steps: Seq<MacroStepView>, ms: u64, rest: Seq<MacroStepView>)
    requires
        raised_total(steps) <= MAX_TOTAL_MS,
        raised_total(steps.push(MacroStepView::DelayMs(ms))) > MAX_TOTAL_MS,
    ensures
        normalized(steps.push(MacroStepView::DelayMs(ms)) + rest) == (if MAX_TOTAL_MS - raised_total(steps)
            >= 15 {
            normalized(steps).push(MacroStepView::DelayMs((30_000 - raised_total(steps)) as u64))
        } else {
            normalized(steps)
        }),
{
    let x = MacroStepView::DelayMs(ms);
    let head = steps.push(x);
    let all = head + rest;
    assert(head.drop_last() =~= steps);
    lemma_normalize_uncapped(steps);
    lemma_normalize_prefix_extend(steps, x, steps.len());
    lemma_normalize_prefix_append(head, rest, head.len());
    lemma_normalize_prefix_append(head, rest, steps.len());
    assert(all[steps.len() as int] == x);
    lemma_normalize_done_stays(all, head.len(), all.len());
}

/// Normalising is idempotent: a normalised macro normalises to itself.
pub proof fn normalizing_twice(steps: Seq<MacroStepView>)
    ensures
        normalized(normalized(steps)) == normalized(steps),
{
    let n = normalized(steps);
    normalized_delays(steps);
    normalized_collapses_modifier_repeats(steps);
    lemma_normalize_prefix_of_normal(n, n.len());
    assert(n.take(n.len() as int) =~= n);
}

/// A normalised macro can be normalised again: its delays stay within the
/// range of `u64` (so `normalize_macro` accepts its own output).
pub proof fn normalized_in_range(steps: Seq<MacroStepView>)
    ensures
        normalize_in_range(normalized(steps)),
{
    let n = normalized(steps);
    normalized_delays(steps);
    normalized_collapses_modifier_repeats(steps);
    assert forall|k: nat|
        k < n.len() && !(#[trigger] normalize_prefix(n, k)).2 && n[k as int] is DelayMs
            && n[k as int]->DelayMs_0 > 0 implies normalize_prefix(n, k).1 + (if n[k as int]->DelayMs_0
        < MIN_DELAY_MS {
        MIN_DELAY_MS as nat
    } else {
        n[k as int]->DelayMs_0 as nat
    }) <= u64::MAX by {
        lemma_normalize_prefix_of_normal(n, k);
        lemma_delay_total_take_mono(n, k as int + 1);
        assert(n.take(k as int + 1).drop_last() =~= n.take(k as int));
        assert(n.take(k as int + 1).last() == n[k as int]);
    }
}

/// Whether normalising `steps` stays within the range of `u64`:
/// `normalize_in_range`.
pub fn macro_fits(steps: &[MacroStep]) -> (b: bool)
    ensures
        b == normalize_in_range(step_views(steps@)),
{
    let ghost sv = step_views(steps@);
    let mut total_delay: u64 = 0;
    let mut i: usize = 0;
    while i < steps.len()
        invariant
            sv == step_views(steps@),
            sv.len() == steps@.len(),
            i <= steps@.len(),
            normalize_prefix(sv, i as nat).1 == total_delay as nat,
            !normalize_prefix(sv, i as nat).2,
            forall|k: nat|
                k < i && !(#[trigger] normalize_prefix(sv, k)).2 && sv[k as int] is DelayMs
                    && sv[k as int]->DelayMs_0 > 0 ==> normalize_prefix(sv, k).1 + (if sv[k as int]->DelayMs_0
                    < MIN_DELAY_MS {
                    MIN_DELAY_MS as nat
                } else {
                    sv[k as int]->DelayMs_0 as nat
                }) <= u64::MAX,
        decreases steps@.len() - i,
    {
        proof {
            lemma_normalize_total_bound(sv, i as nat);
            assert(sv[i as int] == steps@[i as int]@);
        }
        match &steps[i] {
            MacroStep::DelayMs(ms) => {
                let ms = *ms;
                if ms > 0 {
                    let clamped = if ms < MIN_DELAY_MS {
                        MIN_DELAY_MS
                    } else {
                        ms
                    };
                    if total_delay > u64::MAX - clamped {
                        return false;
                    }
                    if total_delay + clamped > MAX_TOTAL_MS {
                        proof {
                            assert forall|k: nat|
                                k < sv.len() && !(#[trigger] normalize_prefix(sv, k)).2
                                    && sv[k as int] is DelayMs && sv[k as int]->DelayMs_0
                                    > 0 implies normalize_prefix(sv, k).1 + (if sv[k as int]->DelayMs_0
                                < MIN_DELAY_MS {
                                MIN_DELAY_MS as nat
                            } else {
                                sv[k as int]->DelayMs_0 as nat
                            }) <= u64::MAX by {
                                if k > i {
                                    lemma_normalize_done_stays(sv, (i + 1) as nat, k);
                                }
                            }
                        }
                        return true;
                    }
                    total_delay = total_delay + clamped;
                }
            },
            _ => {},
        }
        i = i + 1;
    }
    true
}

/// A mapping from a MIDI trigger to an output action.
#[derive(Debug, PartialEq)]
pub struct Mapping {
    pub id: String,
    pub name: String,
    pub enabled: bool,
    pub trigger: MidiTrigger,
    pub action: OutputAction,
    pub options: MappingOptions,
}

/// The mathematical value of a mapping.
pub struct MappingView {
    pub id: Seq<char>,
    pub name: Seq<char>,
    pub enabled: bool,
    pub trigger: MidiTrigger,
    pub action: OutputActionView,
    pub options: MappingOptions,
}

impl View for Mapping {
    type V = MappingView;

    open spec fn view(&self) -> MappingView {
        MappingView {
            id: self.id@,
            name: self.name@,
            enabled: self.enabled,
            trigger: self.trigger,
            action: self.action@,
            options: self.options,
        }
    }
}

impl Clone for Mapping {
    fn clone(&self) -> (r: Self)
        ensures
            r@ == self@,
    {
        Mapping {
            id: self.id.clone(),
            name: self.name.clone(),
            enabled: self.enabled,
            trigger: self.trigger,
            action: self.action.clone(),
            options: self.options,
        }
    }
}

/// The mathematical value of a sequence of mappings.
pub open spec fn mapping_views(s: Seq<Mapping>) -> Seq<MappingView> {
    s.map_values(|m: Mapping| m@)
}

/// The config file version that this library writes.
pub fn default_version() -> (r: u32)
    ensures
        r == 2,
{
    2
}

/// Top-level config file structure.
#[derive(Debug)]
pub struct AppConfig {
    pub version: u32,
    pub selected_device: Option<String>,
    pub mappings: Vec<Mapping>,
}

impl Default for AppConfig {
    fn default() -> (r: Self)
        ensures
            r.version == 2,
            r.selected_device is None,
            r.mappings@.len() == 0,
    {
        AppConfig { version: default_version(), selected_device: None, mappings: Vec::new() }
    }
}

} // verus!
