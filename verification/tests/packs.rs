use std::sync::Arc;
use thock::soundpack::{embedded_file, RawKey, RawPack, SoundBytes, SoundPack, BUNDLED_FILE_COUNT};
use thock::state::{on_key_sound, on_mouse_sound, play_test_sound};

fn bundle() -> Vec<SoundBytes> {
    (0..BUNDLED_FILE_COUNT as u8)
        .map(|i| Arc::from(vec![i, i, i].into_boxed_slice()) as SoundBytes)
        .collect()
}

fn raw(press: Option<&str>, release: Option<&str>) -> RawKey {
    RawKey { press: press.map(|s| s.to_string()), release: release.map(|s| s.to_string()) }
}

fn pack() -> SoundPack {
    let manifest = RawPack {
        name: "Thock".to_string(),
        default: raw(Some("key_press.wav"), Some("key_release.wav")),
        keys: vec![
            ("Space".to_string(), raw(Some("space_press.wav"), Some("space_release.wav"))),
            ("Enter".to_string(), raw(Some("enter_press.wav"), None)),
            ("Backspace".to_string(), raw(Some("backspace_press.wav"), Some("missing.wav"))),
            ("MouseLeft".to_string(), raw(Some("modifier_press.wav"), None)),
        ],
    };
    SoundPack::load_default(manifest, &bundle())
}

fn bytes_of(s: Option<SoundBytes>) -> Option<Vec<u8>> {
    s.map(|b| b.to_vec())
}

#[test]
fn embedded_file_positions() {
    assert_eq!(embedded_file("key_press.wav"), Some(0));
    assert_eq!(embedded_file("key_release.wav"), Some(1));
    assert_eq!(embedded_file("space_press.wav"), Some(2));
    assert_eq!(embedded_file("space_release.wav"), Some(3));
    assert_eq!(embedded_file("enter_press.wav"), Some(4));
    assert_eq!(embedded_file("enter_release.wav"), Some(5));
    assert_eq!(embedded_file("backspace_press.wav"), Some(6));
    assert_eq!(embedded_file("modifier_press.wav"), Some(7));
    assert_eq!(embedded_file("other.wav"), None);
    assert_eq!(embedded_file(""), None);
    assert_eq!(embedded_file("key_press.wa"), None);
}

#[test]
fn load_default_keeps_the_name() {
    assert_eq!(pack().name, "Thock");
}

#[test]
fn resolve_uses_the_key_entry() {
    let p = pack();
    assert_eq!(bytes_of(p.resolve("Space", true)), Some(vec![2, 2, 2]));
    assert_eq!(bytes_of(p.resolve("Space", false)), Some(vec![3, 3, 3]));
    assert_eq!(bytes_of(p.resolve("Enter", true)), Some(vec![4, 4, 4]));
}

#[test]
fn resolve_falls_back_to_the_default() {
    let p = pack();
    // No entry for the key.
    assert_eq!(bytes_of(p.resolve("Tab", true)), Some(vec![0, 0, 0]));
    assert_eq!(bytes_of(p.resolve("", false)), Some(vec![1, 1, 1]));
    // A missing release falls back to the default release.
    assert_eq!(bytes_of(p.resolve("Enter", false)), Some(vec![1, 1, 1]));
    // A file the bundle lacks counts as missing.
    assert_eq!(bytes_of(p.resolve("Backspace", false)), Some(vec![1, 1, 1]));
    assert_eq!(bytes_of(p.resolve("Backspace", true)), Some(vec![6, 6, 6]));
}

#[test]
fn resolve_exact_does_not_fall_back() {
    let p = pack();
    assert_eq!(bytes_of(p.resolve_exact("Space", false)), Some(vec![3, 3, 3]));
    assert_eq!(bytes_of(p.resolve_exact("Enter", false)), None);
    assert_eq!(bytes_of(p.resolve_exact("Tab", true)), None);
    assert_eq!(bytes_of(p.resolve_exact("MouseLeft", true)), Some(vec![7, 7, 7]));
}

#[test]
fn pack_without_default_sounds_is_silent_for_unknown_keys() {
    let manifest = RawPack {
        name: "Quiet".to_string(),
        default: raw(None, None),
        keys: vec![("Space".to_string(), raw(Some("space_press.wav"), None))],
    };
    let p = SoundPack::load_default(manifest, &bundle());
    assert_eq!(bytes_of(p.resolve("Tab", true)), None);
    assert_eq!(bytes_of(p.resolve("Space", false)), None);
    assert_eq!(bytes_of(p.resolve("Space", true)), Some(vec![2, 2, 2]));
}

#[test]
fn key_sounds_follow_the_switches() {
    let p = pack();
    assert_eq!(bytes_of(on_key_sound(&p, true, true, "Space", true)), Some(vec![2, 2, 2]));
    assert_eq!(bytes_of(on_key_sound(&p, true, true, "Space", false)), Some(vec![3, 3, 3]));
    assert_eq!(bytes_of(on_key_sound(&p, true, false, "Space", true)), Some(vec![2, 2, 2]));
    assert_eq!(bytes_of(on_key_sound(&p, true, false, "Space", false)), None);
    assert_eq!(bytes_of(on_key_sound(&p, false, true, "Space", true)), None);
    assert_eq!(bytes_of(on_key_sound(&p, true, true, "", true)), Some(vec![0, 0, 0]));
}

#[test]
fn mouse_sounds_follow_the_switches() {
    let p = pack();
    assert_eq!(bytes_of(on_mouse_sound(&p, true, true, "MouseLeft", true)), Some(vec![7, 7, 7]));
    // Releases play regardless of the release setting, but this pack has none.
    assert_eq!(bytes_of(on_mouse_sound(&p, true, true, "MouseLeft", false)), None);
    // No mouse sound in the pack: silent, not the keyboard default.
    assert_eq!(bytes_of(on_mouse_sound(&p, true, true, "MouseRight", true)), None);
    assert_eq!(bytes_of(on_mouse_sound(&p, true, false, "MouseLeft", true)), None);
    assert_eq!(bytes_of(on_mouse_sound(&p, false, true, "MouseLeft", true)), None);
}

#[test]
fn test_click_is_the_default_press() {
    assert_eq!(bytes_of(play_test_sound(&pack())), Some(vec![0, 0, 0]));
}
