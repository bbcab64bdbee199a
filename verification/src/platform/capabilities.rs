//! Warnings about what the platform may not support.

use vstd::prelude::*;

use crate::text::owned;

verus! {

/// The operating systems whose limits the warnings speak of.
#[derive(Debug, Clone, Copy, PartialEq, Eq, Structural)]
pub enum Platform {
    Linux,
    MacOs,
    Other,
}

/// Warnings about keyboard injection: on Linux without a display server
/// (`display_set` and `wayland_set` say whether `DISPLAY` and
/// `WAYLAND_DISPLAY` are set), and on macOS, where permissions are needed.
pub open spec fn platform_warnings(platform: Platform, display_set: bool, wayland_set: bool) -> Seq<
    Seq<char>,
> {
    match platform {
        Platform::Linux => if !display_set && !wayland_set {
            seq!["No DISPLAY or WAYLAND_DISPLAY set. Keyboard injection may not work."@]
        } else {
            Seq::empty()
        },
        Platform::MacOs => seq![
            "macOS: Accessibility permissions may be required for keyboard injection."@,
        ],
        Platform::Other => Seq::empty(),
    }
}

/// Warnings about media keys: under Wayland on Linux, and on macOS.
pub open spec fn media_key_warnings(platform: Platform, wayland_set: bool) -> Seq<Seq<char>> {
    match platform {
        Platform::Linux => if wayland_set {
            seq![
                "Wayland detected: media key injection may be limited. Consider running under X11/XWayland for full support."@,
            ]
        } else {
            Seq::empty()
        },
        Platform::MacOs => seq![
            "macOS: ensure Accessibility permissions are granted for media key injection."@,
        ],
        Platform::Other => Seq::empty(),
    }
}

/// The mathematical value of a list of messages.
pub open spec fn message_views(v: Seq<String>) -> Seq<Seq<char>> {
    v.map_values(|m: String| m@)
}

fn single(msg: &str) -> (v: Vec<String>)
    ensures
        message_views(v@) == seq![msg@],
{
    let v = vec![owned(msg)];
    assert(message_views(v@) =~= seq![msg@]);
    v
}

fn no_messages() -> (v: Vec<String>)
    ensures
        message_views(v@) == Seq::<Seq<char>>::empty(),
{
    let v: Vec<String> = Vec::new();
    assert(message_views(v@) =~= Seq::<Seq<char>>::empty());
    v
}

/// Check platform capabilities and return warnings for limited features.
pub fn check_platform_warnings(platform: Platform, display_set: bool, wayland_set: bool) -> (v: Vec<
    String,
>)
    ensures
        message_views(v@) == platform_warnings(platform, display_set, wayland_set),
{
    match platform {
        Platform::Linux => {
            if !display_set && !wayland_set {
                single("No DISPLAY or WAYLAND_DISPLAY set. Keyboard injection may not work.")
            } else {
                no_messages()
            }
        },
        Platform::MacOs => single(
            "macOS: Accessibility permissions may be required for keyboard injection.",
        ),
        Platform::Other => no_messages(),
    }
}

/// Check platform capabilities for media key support and return warnings.
pub fn check_media_key_support(platform: Platform, wayland_set: bool) -> (v: Vec<String>)
    ensures
        message_views(v@) == media_key_warnings(platform, wayland_set),
{
    match platform {
        Platform::Linux => {
            if wayland_set {
                single(
                    "Wayland detected: media key injection may be limited. Consider running under X11/XWayland for full support.",
                )
            } else {
                no_messages()
            }
        },
        Platform::MacOs => single(
            "macOS: ensure Accessibility permissions are granted for media key injection.",
        ),
        Platform::Other => no_messages(),
    }
}

} // verus!
