//! Map OS keys to the logical names used by sound packs.
//!
//! Anything not listed here falls back to the pack's `default` sound.

use vstd::prelude::*;

verus! {

/// A key as the global keyboard listener reports it: the physical keys of a
/// standard qwerty layout, and `Unknown` with the OS code for any other key.
#[derive(Clone, Copy, Debug, PartialEq, Eq, Hash, Structural)]
pub enum Key {
    Alt,
    AltGr,
    Backspace,
    CapsLock,
    ControlLeft,
    ControlRight,
    Delete,
    DownArrow,
    End,
    Escape,
    F1,
    F10,
    F11,
    F12,
    F2,
    F3,
    F4,
    F5,
    F6,
    F7,
    F8,
    F9,
    Home,
    LeftArrow,
    MetaLeft,
    MetaRight,
    PageDown,
    PageUp,
    Return,
    RightArrow,
    ShiftLeft,
    ShiftRight,
    Space,
    Tab,
    UpArrow,
    PrintScreen,
    ScrollLock,
    Pause,
    NumLock,
    BackQuote,
    Num1,
    Num2,
    Num3,
    Num4,
    Num5,
    Num6,
    Num7,
    Num8,
    Num9,
    Num0,
    Minus,
    Equal,
    KeyQ,
    KeyW,
    KeyE,
    KeyR,
    KeyT,
    KeyY,
    KeyU,
    KeyI,
    KeyO,
    KeyP,
    LeftBracket,
    RightBracket,
    KeyA,
    KeyS,
    KeyD,
    KeyF,
    KeyG,
    KeyH,
    KeyJ,
    KeyK,
    KeyL,
    SemiColon,
    Quote,
    BackSlash,
    IntlBackslash,
    KeyZ,
    KeyX,
    KeyC,
    KeyV,
    KeyB,
    KeyN,
    KeyM,
    Comma,
    Dot,
    Slash,
    Insert,
    KpReturn,
    KpMinus,
    KpPlus,
    KpMultiply,
    KpDivide,
    Kp0,
    Kp1,
    Kp2,
    Kp3,
    Kp4,
    Kp5,
    Kp6,
    Kp7,
    Kp8,
    Kp9,
    KpDelete,
    Function,
    Unknown(u32),
}

/// The logical name of a key: one of the names that packs give their own
/// sounds, or the empty name for every other key.
pub open spec fn key_logical_name(key: Key) -> Seq<char> {
    match key {
        Key::Return | Key::KpReturn => "Enter"@,
        Key::Space => "Space"@,
        Key::Backspace => "Backspace"@,
        Key::Tab => "Tab"@,
        Key::ShiftLeft | Key::ShiftRight => "Shift"@,
        Key::ControlLeft | Key::ControlRight => "Control"@,
        Key::Alt | Key::AltGr => "Alt"@,
        Key::MetaLeft | Key::MetaRight => "Meta"@,
        _ => ""@,
    }
}

/// The logical name that sound packs use for `key` ("" for the pack default).
pub fn logical_name(key: Key) -> (name: &'static str)
    ensures
        name@ == key_logical_name(key),
{
    match key {
        Key::Return | Key::KpReturn => "Enter",
        Key::Space => "Space",
        Key::Backspace => "Backspace",
        Key::Tab => "Tab",
        Key::ShiftLeft | Key::ShiftRight => "Shift",
        Key::ControlLeft | Key::ControlRight => "Control",
        Key::Alt | Key::AltGr => "Alt",
        Key::MetaLeft | Key::MetaRight => "Meta",
        // Everything else uses the pack default.
        _ => "",
    }
}

/// The number by which a key is tracked: the position of a named key in the
/// list above, and 1000 plus the OS code for an `Unknown` key. No two keys
/// share a number (see `key_code_identifies_key`).
pub open spec fn code_of_key(key: Key) -> u64 {
    match key {
        Key::Alt => 0,
        Key::AltGr => 1,
        Key::Backspace => 2,
        Key::CapsLock => 3,
        Key::ControlLeft => 4,
        Key::ControlRight => 5,
        Key::Delete => 6,
        Key::DownArrow => 7,
        Key::End => 8,
        Key::Escape => 9,
        Key::F1 => 10,
        Key::F10 => 11,
        Key::F11 => 12,
        Key::F12 => 13,
        Key::F2 => 14,
        Key::F3 => 15,
        Key::F4 => 16,
        Key::F5 => 17,
        Key::F6 => 18,
        Key::F7 => 19,
        Key::F8 => 20,
        Key::F9 => 21,
        Key::Home => 22,
        Key::LeftArrow => 23,
        Key::MetaLeft => 24,
        Key::MetaRight => 25,
        Key::PageDown => 26,
        Key::PageUp => 27,
        Key::Return => 28,
        Key::RightArrow => 29,
        Key::ShiftLeft => 30,
        Key::ShiftRight => 31,
        Key::Space => 32,
        Key::Tab => 33,
        Key::UpArrow => 34,
        Key::PrintScreen => 35,
        Key::ScrollLock => 36,
        Key::Pause => 37,
        Key::NumLock => 38,
        Key::BackQuote => 39,
        Key::Num1 => 40,
        Key::Num2 => 41,
        Key::Num3 => 42,
        Key::Num4 => 43,
        Key::Num5 => 44,
        Key::Num6 => 45,
        Key::Num7 => 46,
        Key::Num8 => 47,
        Key::Num9 => 48,
        Key::Num0 => 49,
        Key::Minus => 50,
        Key::Equal => 51,
        Key::KeyQ => 52,
        Key::KeyW => 53,
        Key::KeyE => 54,
        Key::KeyR => 55,
        Key::KeyT => 56,
        Key::KeyY => 57,
        Key::KeyU => 58,
        Key::KeyI => 59,
        Key::KeyO => 60,
        Key::KeyP => 61,
        Key::LeftBracket => 62,
        Key::RightBracket => 63,
        Key::KeyA => 64,
        Key::KeyS => 65,
        Key::KeyD => 66,
        Key::KeyF => 67,
        Key::KeyG => 68,
        Key::KeyH => 69,
        Key::KeyJ => 70,
        Key::KeyK => 71,
        Key::KeyL => 72,
        Key::SemiColon => 73,
        Key::Quote => 74,
        Key::BackSlash => 75,
        Key::IntlBackslash => 76,
        Key::KeyZ => 77,
        Key::KeyX => 78,
        Key::KeyC => 79,
        Key::KeyV => 80,
        Key::KeyB => 81,
        Key::KeyN => 82,
        Key::KeyM => 83,
        Key::Comma => 84,
        Key::Dot => 85,
        Key::Slash => 86,
        Key::Insert => 87,
        Key::KpReturn => 88,
        Key::KpMinus => 89,
        Key::KpPlus => 90,
        Key::KpMultiply => 91,
        Key::KpDivide => 92,
        Key::Kp0 => 93,
        Key::Kp1 => 94,
        Key::Kp2 => 95,
        Key::Kp3 => 96,
        Key::Kp4 => 97,
        Key::Kp5 => 98,
        Key::Kp6 => 99,
        Key::Kp7 => 100,
        Key::Kp8 => 101,
        Key::Kp9 => 102,
        Key::KpDelete => 103,
        Key::Function => 104,
        Key::Unknown(code) => (1000 + code) as u64,
    }
}

/// The key that a number of `code_of_key` stands for.
pub open spec fn key_of_code(code: u64) -> Key {
    if code >= 1000 {
        Key::Unknown((code - 1000) as u32)
    } else {
        match code {
            0 => Key::Alt,
            1 => Key::AltGr,
            2 => Key::Backspace,
            3 => Key::CapsLock,
            4 => Key::ControlLeft,
            5 => Key::ControlRight,
            6 => Key::Delete,
            7 => Key::DownArrow,
            8 => Key::End,
            9 => Key::Escape,
            10 => Key::F1,
            11 => Key::F10,
            12 => Key::F11,
            13 => Key::F12,
            14 => Key::F2,
            15 => Key::F3,
            16 => Key::F4,
            17 => Key::F5,
            18 => Key::F6,
            19 => Key::F7,
            20 => Key::F8,
            21 => Key::F9,
            22 => Key::Home,
            23 => Key::LeftArrow,
            24 => Key::MetaLeft,
            25 => Key::MetaRight,
            26 => Key::PageDown,
            27 => Key::PageUp,
            28 => Key::Return,
            29 => Key::RightArrow,
            30 => Key::ShiftLeft,
            31 => Key::ShiftRight,
            32 => Key::Space,
            33 => Key::Tab,
            34 => Key::UpArrow,
            35 => Key::PrintScreen,
            36 => Key::ScrollLock,
            37 => Key::Pause,
            38 => Key::NumLock,
            39 => Key::BackQuote,
            40 => Key::Num1,
            41 => Key::Num2,
            42 => Key::Num3,
            43 => Key::Num4,
            44 => Key::Num5,
            45 => Key::Num6,
            46 => Key::Num7,
            47 => Key::Num8,
            48 => Key::Num9,
            49 => Key::Num0,
            50 => Key::Minus,
            51 => Key::Equal,
            52 => Key::KeyQ,
            53 => Key::KeyW,
            54 => Key::KeyE,
            55 => Key::KeyR,
            56 => Key::KeyT,
            57 => Key::KeyY,
            58 => Key::KeyU,
            59 => Key::KeyI,
            60 => Key::KeyO,
            61 => Key::KeyP,
            62 => Key::LeftBracket,
            63 => Key::RightBracket,
            64 => Key::KeyA,
            65 => Key::KeyS,
            66 => Key::KeyD,
            67 => Key::KeyF,
            68 => Key::KeyG,
            69 => Key::KeyH,
            70 => Key::KeyJ,
            71 => Key::KeyK,
            72 => Key::KeyL,
            73 => Key::SemiColon,
            74 => Key::Quote,
            75 => Key::BackSlash,
            76 => Key::IntlBackslash,
            77 => Key::KeyZ,
            78 => Key::KeyX,
            79 => Key::KeyC,
            80 => Key::KeyV,
            81 => Key::KeyB,
            82 => Key::KeyN,
            83 => Key::KeyM,
            84 => Key::Comma,
            85 => Key::Dot,
            86 => Key::Slash,
            87 => Key::Insert,
            88 => Key::KpReturn,
            89 => Key::KpMinus,
            90 => Key::KpPlus,
            91 => Key::KpMultiply,
            92 => Key::KpDivide,
            93 => Key::Kp0,
            94 => Key::Kp1,
            95 => Key::Kp2,
            96 => Key::Kp3,
            97 => Key::Kp4,
            98 => Key::Kp5,
            99 => Key::Kp6,
            100 => Key::Kp7,
            101 => Key::Kp8,
            102 => Key::Kp9,
            103 => Key::KpDelete,
            104 => Key::Function,
            _ => Key::Unknown(0),
        }
    }
}

/// The number of a key gives the key back, so different keys have
/// different numbers.
pub proof fn key_code_identifies_key(key: Key)
    ensures
        key_of_code(code_of_key(key)) == key,
{
}

/// The number by which `key` is tracked.
pub fn key_code(key: Key) -> (code: u64)
    ensures
        code == code_of_key(key),
{
    match key {
        Key::Alt => 0,
        Key::AltGr => 1,
        Key::Backspace => 2,
        Key::CapsLock => 3,
        Key::ControlLeft => 4,
        Key::ControlRight => 5,
        Key::Delete => 6,
        Key::DownArrow => 7,
        Key::End => 8,
        Key::Escape => 9,
        Key::F1 => 10,
        Key::F10 => 11,
        Key::F11 => 12,
        Key::F12 => 13,
        Key::F2 => 14,
        Key::F3 => 15,
        Key::F4 => 16,
        Key::F5 => 17,
        Key::F6 => 18,
        Key::F7 => 19,
        Key::F8 => 20,
        Key::F9 => 21,
        Key::Home => 22,
        Key::LeftArrow => 23,
        Key::MetaLeft => 24,
        Key::MetaRight => 25,
        Key::PageDown => 26,
        Key::PageUp => 27,
        Key::Return => 28,
        Key::RightArrow => 29,
        Key::ShiftLeft => 30,
        Key::ShiftRight => 31,
        Key::Space => 32,
        Key::Tab => 33,
        Key::UpArrow => 34,
        Key::PrintScreen => 35,
        Key::ScrollLock => 36,
        Key::Pause => 37,
        Key::NumLock => 38,
        Key::BackQuote => 39,
        Key::Num1 => 40,
        Key::Num2 => 41,
        Key::Num3 => 42,
        Key::Num4 => 43,
        Key::Num5 => 44,
        Key::Num6 => 45,
        Key::Num7 => 46,
        Key::Num8 => 47,
        Key::Num9 => 48,
        Key::Num0 => 49,
        Key::Minus => 50,
        Key::Equal => 51,
        Key::KeyQ => 52,
        Key::KeyW => 53,
        Key::KeyE => 54,
        Key::KeyR => 55,
        Key::KeyT => 56,
        Key::KeyY => 57,
        Key::KeyU => 58,
        Key::KeyI => 59,
        Key::KeyO => 60,
        Key::KeyP => 61,
        Key::LeftBracket => 62,
        Key::RightBracket => 63,
        Key::KeyA => 64,
        Key::KeyS => 65,
        Key::KeyD => 66,
        Key::KeyF => 67,
        Key::KeyG => 68,
        Key::KeyH => 69,
        Key::KeyJ => 70,
        Key::KeyK => 71,
        Key::KeyL => 72,
        Key::SemiColon => 73,
        Key::Quote => 74,
        Key::BackSlash => 75,
        Key::IntlBackslash => 76,
        Key::KeyZ => 77,
        Key::KeyX => 78,
        Key::KeyC => 79,
        Key::KeyV => 80,
        Key::KeyB => 81,
        Key::KeyN => 82,
        Key::KeyM => 83,
        Key::Comma => 84,
        Key::Dot => 85,
        Key::Slash => 86,
        Key::Insert => 87,
        Key::KpReturn => 88,
        Key::KpMinus => 89,
        Key::KpPlus => 90,
        Key::KpMultiply => 91,
        Key::KpDivide => 92,
        Key::Kp0 => 93,
        Key::Kp1 => 94,
        Key::Kp2 => 95,
        Key::Kp3 => 96,
        Key::Kp4 => 97,
        Key::Kp5 => 98,
        Key::Kp6 => 99,
        Key::Kp7 => 100,
        Key::Kp8 => 101,
        Key::Kp9 => 102,
        Key::KpDelete => 103,
        Key::Function => 104,
        Key::Unknown(code) => 1000 + code as u64,
    }
}

/// Shows that the logical names of packs differ from each other and from
/// the empty name.
pub(crate) proof fn pack_key_names_differ()
    ensures
        "Enter"@ != "Space"@,
        "Enter"@ != "Backspace"@,
        "Enter"@ != "Tab"@,
        "Enter"@ != "Shift"@,
        "Enter"@ != "Control"@,
        "Enter"@ != "Alt"@,
        "Enter"@ != "Meta"@,
        "Space"@ != "Backspace"@,
        "Space"@ != "Tab"@,
        "Space"@ != "Shift"@,
        "Space"@ != "Control"@,
        "Space"@ != "Alt"@,
        "Space"@ != "Meta"@,
        "Backspace"@ != "Tab"@,
        "Backspace"@ != "Shift"@,
        "Backspace"@ != "Control"@,
        "Backspace"@ != "Alt"@,
        "Backspace"@ != "Meta"@,
        "Tab"@ != "Shift"@,
        "Tab"@ != "Control"@,
        "Tab"@ != "Alt"@,
        "Tab"@ != "Meta"@,
        "Shift"@ != "Control"@,
        "Shift"@ != "Alt"@,
        "Shift"@ != "Meta"@,
        "Control"@ != "Alt"@,
        "Control"@ != "Meta"@,
        "Alt"@ != "Meta"@,
        "Enter"@.len() > 0,
        "Space"@.len() > 0,
        "Backspace"@.len() > 0,
        "Tab"@.len() > 0,
        "Shift"@.len() > 0,
        "Control"@.len() > 0,
        "Alt"@.len() > 0,
        "Meta"@.len() > 0,
        ""@.len() == 0,
{
    reveal_strlit("Enter");
    reveal_strlit("Space");
    reveal_strlit("Backspace");
    reveal_strlit("Tab");
    reveal_strlit("Shift");
    reveal_strlit("Control");
    reveal_strlit("Alt");
    reveal_strlit("Meta");
    reveal_strlit("");
    assert("Enter"@[0] != "Space"@[0]);
    assert("Enter"@[0] != "Backspace"@[0]);
    assert("Enter"@[0] != "Tab"@[0]);
    assert("Enter"@[0] != "Shift"@[0]);
    assert("Enter"@[0] != "Control"@[0]);
    assert("Enter"@[0] != "Alt"@[0]);
    assert("Enter"@[0] != "Meta"@[0]);
    assert("Space"@[1] != "Shift"@[1]);
    assert("Space"@[0] != "Backspace"@[0]);
    assert("Space"@[0] != "Tab"@[0]);
    assert("Space"@[0] != "Control"@[0]);
    assert("Space"@[0] != "Alt"@[0]);
    assert("Space"@[0] != "Meta"@[0]);
    assert("Backspace"@[0] != "Tab"@[0]);
    assert("Backspace"@[0] != "Shift"@[0]);
    assert("Backspace"@[0] != "Control"@[0]);
    assert("Backspace"@[0] != "Alt"@[0]);
    assert("Backspace"@[0] != "Meta"@[0]);
    assert("Tab"@[0] != "Shift"@[0]);
    assert("Tab"@[0] != "Control"@[0]);
    assert("Tab"@[0] != "Alt"@[0]);
    assert("Tab"@[0] != "Meta"@[0]);
    assert("Shift"@[0] != "Control"@[0]);
    assert("Shift"@[0] != "Alt"@[0]);
    assert("Shift"@[0] != "Meta"@[0]);
    assert("Control"@[0] != "Alt"@[0]);
    assert("Control"@[0] != "Meta"@[0]);
    assert("Alt"@[0] != "Meta"@[0]);
}

/// Each logical name belongs to exactly the keys that the packs mean by it:
/// "Enter" to Return and the keypad Return, "Space", "Backspace" and "Tab"
/// to their keys, "Shift", "Control" and "Meta" to the left and right keys
/// of that kind, "Alt" to Alt and AltGr; every other key gets the empty
/// name, under which it plays the pack default.
pub proof fn logical_names_name_their_keys(key: Key)
    ensures
        key_logical_name(key) == "Enter"@ <==> (key == Key::Return || key == Key::KpReturn),
        key_logical_name(key) == "Space"@ <==> key == Key::Space,
        key_logical_name(key) == "Backspace"@ <==> key == Key::Backspace,
        key_logical_name(key) == "Tab"@ <==> key == Key::Tab,
        key_logical_name(key) == "Shift"@ <==> (key == Key::ShiftLeft || key == Key::ShiftRight),
        key_logical_name(key) == "Control"@ <==> (key == Key::ControlLeft || key
            == Key::ControlRight),
        key_logical_name(key) == "Alt"@ <==> (key == Key::Alt || key == Key::AltGr),
        key_logical_name(key) == "Meta"@ <==> (key == Key::MetaLeft || key == Key::MetaRight),
        key_logical_name(key).len() == 0 <==> !(key == Key::Return || key == Key::KpReturn || key
            == Key::Space || key == Key::Backspace || key == Key::Tab || key == Key::ShiftLeft
            || key == Key::ShiftRight || key == Key::ControlLeft || key == Key::ControlRight || key
            == Key::Alt || key == Key::AltGr || key == Key::MetaLeft || key == Key::MetaRight),
{
    pack_key_names_differ();
}

} // verus!
