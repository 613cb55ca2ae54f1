use thock::keymap::{key_code, logical_name, Key};
use thock::listener::{button_event, Button, ButtonEvent, is_modifier, logical_from_keycode, HeldKeys, HeldModifiers, KeyEvent, TapEvent};

#[test]
fn logical_names_of_keys() {
    assert_eq!(logical_name(Key::Return), "Enter");
    assert_eq!(logical_name(Key::KpReturn), "Enter");
    assert_eq!(logical_name(Key::Space), "Space");
    assert_eq!(logical_name(Key::Backspace), "Backspace");
    assert_eq!(logical_name(Key::Tab), "Tab");
    assert_eq!(logical_name(Key::ShiftLeft), "Shift");
    assert_eq!(logical_name(Key::ShiftRight), "Shift");
    assert_eq!(logical_name(Key::ControlLeft), "Control");
    assert_eq!(logical_name(Key::ControlRight), "Control");
    assert_eq!(logical_name(Key::Alt), "Alt");
    assert_eq!(logical_name(Key::AltGr), "Alt");
    assert_eq!(logical_name(Key::MetaLeft), "Meta");
    assert_eq!(logical_name(Key::MetaRight), "Meta");
}

#[test]
fn other_keys_use_the_pack_default() {
    assert_eq!(logical_name(Key::KeyA), "");
    assert_eq!(logical_name(Key::F5), "");
    assert_eq!(logical_name(Key::CapsLock), "");
    assert_eq!(logical_name(Key::Unknown(12)), "");
}

#[test]
fn logical_names_of_mac_keycodes() {
    assert_eq!(logical_from_keycode(36), "Enter");
    assert_eq!(logical_from_keycode(76), "Enter");
    assert_eq!(logical_from_keycode(48), "Tab");
    assert_eq!(logical_from_keycode(49), "Space");
    assert_eq!(logical_from_keycode(51), "Backspace");
    assert_eq!(logical_from_keycode(54), "Meta");
    assert_eq!(logical_from_keycode(55), "Meta");
    assert_eq!(logical_from_keycode(56), "Shift");
    assert_eq!(logical_from_keycode(60), "Shift");
    assert_eq!(logical_from_keycode(58), "Alt");
    assert_eq!(logical_from_keycode(61), "Alt");
    assert_eq!(logical_from_keycode(59), "Control");
    assert_eq!(logical_from_keycode(62), "Control");
    assert_eq!(logical_from_keycode(0), "");
    assert_eq!(logical_from_keycode(57), "");
    assert_eq!(logical_from_keycode(-1), "");
}

#[test]
fn modifier_keycodes() {
    assert!(!is_modifier(53));
    assert!(is_modifier(54));
    assert!(is_modifier(57));
    assert!(is_modifier(63));
    assert!(!is_modifier(64));
    assert!(!is_modifier(36));
}

#[test]
fn held_key_clicks_once() {
    let mut held = HeldKeys::new();
    assert_eq!(held.key_event(KeyEvent::Press(Key::Space)), Some(("Space", true)));
    // OS auto-repeat while the key stays down.
    assert_eq!(held.key_event(KeyEvent::Press(Key::Space)), None);
    assert_eq!(held.key_event(KeyEvent::Press(Key::Space)), None);
    assert!(held.contains(Key::Space));
    assert_eq!(held.key_event(KeyEvent::Release(Key::Space)), Some(("Space", false)));
    assert!(!held.contains(Key::Space));
    assert_eq!(held.key_event(KeyEvent::Press(Key::Space)), Some(("Space", true)));
}

#[test]
fn held_keys_are_tracked_separately() {
    let mut held = HeldKeys::new();
    assert_eq!(held.key_event(KeyEvent::Press(Key::KeyA)), Some(("", true)));
    assert_eq!(held.key_event(KeyEvent::Press(Key::KeyB)), Some(("", true)));
    assert_eq!(held.key_event(KeyEvent::Press(Key::Unknown(7))), Some(("", true)));
    assert_eq!(held.key_event(KeyEvent::Press(Key::Unknown(8))), Some(("", true)));
    assert_eq!(held.key_event(KeyEvent::Release(Key::KeyA)), Some(("", false)));
    assert!(held.contains(Key::KeyB));
    assert!(!held.contains(Key::KeyA));
    assert_eq!(held.key_event(KeyEvent::Press(Key::KeyB)), None);
    assert_eq!(held.key_event(KeyEvent::Press(Key::KeyA)), Some(("", true)));
}

#[test]
fn release_of_a_key_not_held_still_sounds() {
    let mut held = HeldKeys::new();
    assert_eq!(held.key_event(KeyEvent::Release(Key::Return)), Some(("Enter", false)));
    assert!(!held.contains(Key::Return));
}

#[test]
fn insert_and_remove_report_held_state() {
    let mut held = HeldKeys::new();
    assert!(held.insert(Key::Tab));
    assert!(!held.insert(Key::Tab));
    held.remove(Key::Tab);
    assert!(held.insert(Key::Tab));
}

#[test]
fn modifier_flag_changes_alternate() {
    let mut mods = HeldModifiers::new();
    assert_eq!(mods.tap_event(TapEvent::FlagsChanged, 56, 0), Some(("Shift", true)));
    assert!(mods.contains(56));
    assert_eq!(mods.tap_event(TapEvent::FlagsChanged, 59, 0), Some(("Control", true)));
    assert_eq!(mods.tap_event(TapEvent::FlagsChanged, 56, 0), Some(("Shift", false)));
    assert!(!mods.contains(56));
    assert_eq!(mods.tap_event(TapEvent::FlagsChanged, 56, 0), Some(("Shift", true)));
    assert_eq!(mods.tap_event(TapEvent::FlagsChanged, 59, 0), Some(("Control", false)));
}

#[test]
fn toggle_reports_the_phase() {
    let mut mods = HeldModifiers::new();
    assert!(mods.toggle(57));
    assert!(!mods.toggle(57));
    assert!(mods.toggle(57));
}

#[test]
fn non_modifier_flag_changes_are_silent() {
    let mut mods = HeldModifiers::new();
    assert_eq!(mods.tap_event(TapEvent::FlagsChanged, 36, 0), None);
    assert_eq!(mods.tap_event(TapEvent::FlagsChanged, 64, 0), None);
    assert!(!mods.contains(36));
}

#[test]
fn mac_key_down_and_up() {
    let mut mods = HeldModifiers::new();
    assert_eq!(mods.tap_event(TapEvent::KeyDown, 49, 0), Some(("Space", true)));
    assert_eq!(mods.tap_event(TapEvent::KeyDown, 49, 1), None);
    assert_eq!(mods.tap_event(TapEvent::KeyUp, 49, 0), Some(("Space", false)));
    assert_eq!(mods.tap_event(TapEvent::KeyDown, 0, 0), Some(("", true)));
    assert_eq!(mods.tap_event(TapEvent::Other, 49, 0), None);
}

#[test]
fn mouse_buttons_sound_on_press_and_release() {
    assert_eq!(button_event(ButtonEvent::Press(Button::Left)), Some(("MouseLeft", true)));
    assert_eq!(button_event(ButtonEvent::Release(Button::Left)), Some(("MouseLeft", false)));
    assert_eq!(button_event(ButtonEvent::Press(Button::Right)), Some(("MouseRight", true)));
    assert_eq!(button_event(ButtonEvent::Release(Button::Middle)), Some(("MouseMiddle", false)));
    assert_eq!(button_event(ButtonEvent::Press(Button::Unknown(4))), None);
}

#[test]
fn key_codes_tell_keys_apart() {
    assert_eq!(key_code(Key::Alt), 0);
    assert_eq!(key_code(Key::Function), 104);
    assert_eq!(key_code(Key::Unknown(0)), 1000);
    assert_eq!(key_code(Key::Unknown(7)), 1007);
    assert_ne!(key_code(Key::KeyA), key_code(Key::KeyB));
}

#[test]
fn held_keys_in_a_sequence_of_events() {
    let mut held = HeldKeys::new();
    let events = [
        KeyEvent::Press(Key::KeyA),
        KeyEvent::Press(Key::KeyA),
        KeyEvent::Press(Key::Unknown(3)),
        KeyEvent::Release(Key::Unknown(3)),
        KeyEvent::Press(Key::KeyA),
        KeyEvent::Release(Key::KeyA),
        KeyEvent::Release(Key::KeyA),
        KeyEvent::Press(Key::KeyA),
    ];
    let sounds: Vec<_> = events.iter().map(|e| held.key_event(*e)).collect();
    assert_eq!(
        sounds,
        vec![
            Some(("", true)),
            None,
            Some(("", true)),
            Some(("", false)),
            None,
            Some(("", false)),
            Some(("", false)),
            Some(("", true)),
        ]
    );
}
