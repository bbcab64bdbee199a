//! Keys offered for manual selection when the terminal cannot capture a combo.

use vstd::prelude::*;

use crate::config::model::KeySpec;
use crate::text::{decimal, owned, push_char, push_decimal};

verus! {

/// The mathematical value of a list of named keys.
pub open spec fn named_key_views(v: Seq<(String, KeySpec)>) -> Seq<(Seq<char>, KeySpec)> {
    v.map_values(|p: (String, KeySpec)| (p.0@, p.1))
}

/// The named keys that are listed first: editing and arrow keys, then the
/// modifiers.
pub open spec fn base_manual_keys() -> Seq<(Seq<char>, KeySpec)> {
    seq![
        ("Enter"@, KeySpec::Enter),
        ("Tab"@, KeySpec::Tab),
        ("Esc"@, KeySpec::Esc),
        ("Backspace"@, KeySpec::Backspace),
        ("Space"@, KeySpec::Space),
        ("Up"@, KeySpec::Up),
        ("Down"@, KeySpec::Down),
        ("Left"@, KeySpec::Left),
        ("Right"@, KeySpec::Right),
        ("Ctrl"@, KeySpec::Ctrl),
        ("Alt"@, KeySpec::Alt),
        ("Shift"@, KeySpec::Shift),
        ("Meta"@, KeySpec::Meta),
    ]
}

/// The media and special keys, which the terminal rarely passes on.
pub open spec fn media_manual_keys() -> Seq<(Seq<char>, KeySpec)> {
    seq![
        ("Volume Up"@, KeySpec::VolumeUp),
        ("Volume Down"@, KeySpec::VolumeDown),
        ("Volume Mute"@, KeySpec::VolumeMute),
        ("Play / Pause"@, KeySpec::MediaPlayPause),
        ("Media Stop"@, KeySpec::MediaStop),
        ("Next Track"@, KeySpec::MediaNextTrack),
        ("Previous Track"@, KeySpec::MediaPrevTrack),
        ("Brightness Up"@, KeySpec::BrightnessUp),
        ("Brightness Down"@, KeySpec::BrightnessDown),
    ]
}

/// F1 to F12.
pub open spec fn function_keys() -> Seq<(Seq<char>, KeySpec)> {
    Seq::new(12, |i: int| (seq!['F'] + decimal((i + 1) as nat), KeySpec::F((i + 1) as u8)))
}

/// The `count` characters from `first` on, each named by itself.
pub open spec fn char_keys(first: u8, count: nat) -> Seq<(Seq<char>, KeySpec)> {
    Seq::new(count, |i: int| (seq![(first + i) as char], KeySpec::Char((first + i) as char)))
}

/// The full manual key list: the base keys, the media keys, F1 to F12, `a` to
/// `z`, `0` to `9`.
pub open spec fn manual_keys() -> Seq<(Seq<char>, KeySpec)> {
    base_manual_keys() + media_manual_keys() + function_keys() + char_keys(97, 26) + char_keys(48, 10)
}

fn push_key(v: &mut Vec<(String, KeySpec)>, name: String, key: KeySpec)
    ensures
        named_key_views(final(v)@) == named_key_views(old(v)@).push((name@, key)),
{
    v.push((name, key));
    assert(named_key_views(v@) =~= named_key_views(old(v)@).push((name@, key)));
}

fn push_chars(v: &mut Vec<(String, KeySpec)>, first: u8, count: u8)
    requires
        first + count <= 128,
    ensures
        named_key_views(final(v)@) == named_key_views(old(v)@) + char_keys(first, count as nat),
{
    let mut i: u8 = 0;
    while i < count
        invariant
            first + count <= 128,
            i <= count,
            named_key_views(v@) == named_key_views(old(v)@) + char_keys(first, i as nat),
        decreases count - i,
    {
        let c = (first + i) as char;
        let mut name = String::new();
        push_char(&mut name, c);
        assert(name@ =~= seq![c]);
        push_key(v, name, KeySpec::Char(c));
        i = i + 1;
        assert(named_key_views(v@) =~= named_key_views(old(v)@) + char_keys(first, i as nat));
    }
}

/// Build the full manual key list: the base keys, the media keys, F1 to F12,
/// `a` to `z` and `0` to `9`, each with its name.
pub fn all_manual_keys() -> (keys: Vec<(String, KeySpec)>)
    ensures
        named_key_views(keys@) == manual_keys(),
{
    let mut keys: Vec<(String, KeySpec)> = Vec::new();
    push_key(&mut keys, owned("Enter"), KeySpec::Enter);
    push_key(&mut keys, owned("Tab"), KeySpec::Tab);
    push_key(&mut keys, owned("Esc"), KeySpec::Esc);
    push_key(&mut keys, owned("Backspace"), KeySpec::Backspace);
    push_key(&mut keys, owned("Space"), KeySpec::Space);
    push_key(&mut keys, owned("Up"), KeySpec::Up);
    push_key(&mut keys, owned("Down"), KeySpec::Down);
    push_key(&mut keys, owned("Left"), KeySpec::Left);
    push_key(&mut keys, owned("Right"), KeySpec::Right);
    push_key(&mut keys, owned("Ctrl"), KeySpec::Ctrl);
    push_key(&mut keys, owned("Alt"), KeySpec::Alt);
    push_key(&mut keys, owned("Shift"), KeySpec::Shift);
    push_key(&mut keys, owned("Meta"), KeySpec::Meta);
    push_key(&mut keys, owned("Volume Up"), KeySpec::VolumeUp);
    push_key(&mut keys, owned("Volume Down"), KeySpec::VolumeDown);
    push_key(&mut keys, owned("Volume Mute"), KeySpec::VolumeMute);
    push_key(&mut keys, owned("Play / Pause"), KeySpec::MediaPlayPause);
    push_key(&mut keys, owned("Media Stop"), KeySpec::MediaStop);
    push_key(&mut keys, owned("Next Track"), KeySpec::MediaNextTrack);
    push_key(&mut keys, owned("Previous Track"), KeySpec::MediaPrevTrack);
    push_key(&mut keys, owned("Brightness Up"), KeySpec::BrightnessUp);
    push_key(&mut keys, owned("Brightness Down"), KeySpec::BrightnessDown);
    assert(named_key_views(keys@) =~= base_manual_keys() + media_manual_keys());
    let mut n: u8 = 1;
    while n <= 12
        invariant
            1 <= n <= 13,
            named_key_views(keys@) == base_manual_keys() + media_manual_keys() + function_keys().take(
                n - 1,
            ),
        decreases 13 - n,
    {
        let mut name = owned("F");
        proof {
            reveal_strlit("F");
            assert(name@ =~= seq!['F']);
        }
        push_decimal(&mut name, n as u64);
        push_key(&mut keys, name, KeySpec::F(n));
        n = n + 1;
        assert(named_key_views(keys@) =~= base_manual_keys() + media_manual_keys()
            + function_keys().take(n - 1));
    }
    assert(function_keys().take(12) =~= function_keys());
    push_chars(&mut keys, 97, 26);
    push_chars(&mut keys, 48, 10);
    keys
}

} // verus!
