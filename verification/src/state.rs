//! When an input event makes a sound.
//!
//! The shared application state holds the user settings and the loaded sound
//! pack; these functions decide, from the settings and the pack, which sound
//! an event plays (playing it, at the configured volume and with a random
//! pitch variation, is the caller's part).

use crate::soundpack::{SoundBytes, SoundPack};
use vstd::prelude::*;

verus! {

/// The sound of a key event from the OS listener. `logical` is the pack key
/// name ("Space", "Enter", …) or "" for the pack default sound. Nothing plays
/// while sounds are disabled, nor on a key release unless releases play too.
pub fn on_key_sound(
    pack: &SoundPack,
    enabled: bool,
    play_on_release: bool,
    logical: &str,
    press: bool,
) -> (res: Option<SoundBytes>)
    ensures
        res == if enabled && (press || play_on_release) {
            pack.resolved(logical@, press)
        } else {
            None
        },
{
    if !enabled || (!press && !play_on_release) {
        return None;
    }
    pack.resolve(logical, press)
}

/// The sound of a mouse-button event from the OS listener. `logical` is
/// "MouseLeft" / "MouseRight" / "MouseMiddle". Both press and release play (a
/// physical click is a down-up pair), independent of `play_on_release`, and
/// packs without mouse sounds stay silent instead of clicking with the
/// keyboard default.
pub fn on_mouse_sound(
    pack: &SoundPack,
    enabled: bool,
    mouse_enabled: bool,
    logical: &str,
    press: bool,
) -> (res: Option<SoundBytes>)
    ensures
        res == if enabled && mouse_enabled {
            pack.exact_sound(logical@, press)
        } else {
            None
        },
{
    if !enabled || !mouse_enabled {
        return None;
    }
    pack.resolve_exact(logical, press)
}

/// The preview click of the Settings "Test" button: the pack default press.
pub fn play_test_sound(pack: &SoundPack) -> (res: Option<SoundBytes>)
    ensures
        res == pack.resolved(""@, true),
{
    pack.resolve("", true)
}

} // verus!
