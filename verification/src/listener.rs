//! Decisions of the global keyboard listener.
//!
//! Two backends feed key events in:
//! - **macOS** reports raw virtual keycodes. Modifiers have no distinct
//!   press/release event type, only `FlagsChanged`, so the held modifiers are
//!   tracked to derive the phase; key-down events that the OS marks as
//!   auto-repeat make no sound.
//! - **Linux (X11) / Windows** report `Key`s. OS key auto-repeat is suppressed
//!   by tracking held keys, so a held key clicks once.
//!
//! Mouse-button presses and releases of the three standard buttons sound
//! under their logical names, for the optional mouse click sounds.
//!
//! Each step takes the tracker and one event, updates the tracker, and says
//! which logical key name and phase (`true` for press) to sound, if any.

use crate::keymap::{
    code_of_key, key_code, key_code_identifies_key, key_logical_name, logical_name,
    pack_key_names_differ, Key,
};
use std::collections::HashSet;
use vstd::prelude::*;

verus! {

broadcast use vstd::std_specs::hash::group_hash_axioms;

/// The logical name of a macOS virtual keycode, "" for keys without a
/// dedicated pack sound.
pub open spec fn keycode_logical_name(code: i64) -> Seq<char> {
    if code == 36 || code == 76 {
        "Enter"@
    } else if code == 48 {
        "Tab"@
    } else if code == 49 {
        "Space"@
    } else if code == 51 {
        "Backspace"@
    } else if code == 54 || code == 55 {
        "Meta"@
    } else if code == 56 || code == 60 {
        "Shift"@
    } else if code == 58 || code == 61 {
        "Alt"@
    } else if code == 59 || code == 62 {
        "Control"@
    } else {
        ""@
    }
}

/// macOS virtual keycodes for the keys with dedicated pack sounds.
pub fn logical_from_keycode(code: i64) -> (name: &'static str)
    ensures
        name@ == keycode_logical_name(code),
{
    match code {
        36 | 76 => "Enter",
        48 => "Tab",
        49 => "Space",
        51 => "Backspace",
        54 | 55 => "Meta",
        56 | 60 => "Shift",
        58 | 61 => "Alt",
        59 | 62 => "Control",
        _ => "",
    }
}

/// Modifier keycodes only ever arrive as `FlagsChanged` events.
pub fn is_modifier(code: i64) -> (res: bool)
    ensures
        res == (54 <= code <= 63),
{
    54 <= code && code <= 63
}

/// The view of what a step asks to sound: a logical name and the phase.
pub open spec fn sound_view(s: Option<(&'static str, bool)>) -> Option<(Seq<char>, bool)> {
    match s {
        Some((name, press)) => Some((name@, press)),
        None => None,
    }
}

/// A key event from the Linux / Windows listener.
#[derive(Clone, Copy, Debug, PartialEq, Eq, Structural)]
pub enum KeyEvent {
    Press(Key),
    Release(Key),
}

/// The held keys after `event`.
pub open spec fn key_event_next(held: Set<Key>, event: KeyEvent) -> Set<Key> {
    match event {
        KeyEvent::Press(k) => held.insert(k),
        KeyEvent::Release(k) => held.remove(k),
    }
}

/// What `event` sounds when `held` are the keys held before it: a press of a
/// key that is not held yet, and every release.
pub open spec fn key_event_sound(held: Set<Key>, event: KeyEvent) -> Option<(Seq<char>, bool)> {
    match event {
        KeyEvent::Press(k) => if held.contains(k) {
            None
        } else {
            Some((key_logical_name(k), true))
        },
        KeyEvent::Release(k) => Some((key_logical_name(k), false)),
    }
}

/// The keys currently held down, as the Linux / Windows listener tracks them,
/// by the numbers of `code_of_key`.
pub struct HeldKeys {
    held: HashSet<u64>,
}

impl View for HeldKeys {
    type V = Set<Key>;

    closed spec fn view(&self) -> Set<Key> {
        Set::new(|k: Key| self.held@.contains(code_of_key(k)))
    }
}

impl HeldKeys {
    /// No key held.
    pub fn new() -> (res: Self)
        ensures
            res@ == Set::<Key>::empty(),
    {
        let res = HeldKeys { held: HashSet::new() };
        assert(res@ =~= Set::<Key>::empty());
        res
    }

    /// Whether `key` is held.
    pub fn contains(&self, key: Key) -> (res: bool)
        ensures
            res == self@.contains(key),
    {
        self.held.contains(&key_code(key))
    }

    /// Mark `key` held; `true` when it was not held before.
    pub fn insert(&mut self, key: Key) -> (is_new: bool)
        ensures
            final(self)@ == old(self)@.insert(key),
            is_new == !old(self)@.contains(key),
    {
        let code = key_code(key);
        let is_new = self.held.insert(code);
        assert forall|k: Key| #[trigger] self@.contains(k) == old(self)@.insert(key).contains(k) by {
            key_code_identifies_key(k);
            key_code_identifies_key(key);
        }
        assert(self@ =~= old(self)@.insert(key));
        is_new
    }

    /// Mark `key` released.
    pub fn remove(&mut self, key: Key)
        ensures
            final(self)@ == old(self)@.remove(key),
    {
        let code = key_code(key);
        self.held.remove(&code);
        assert forall|k: Key| #[trigger] self@.contains(k) == old(self)@.remove(key).contains(k) by {
            key_code_identifies_key(k);
            key_code_identifies_key(key);
        }
        assert(self@ =~= old(self)@.remove(key));
    }

    /// One step of the Linux / Windows listener: a press sounds only when the
    /// key was not already held (so OS auto-repeat stays silent), a release
    /// always sounds.
    pub fn key_event(&mut self, event: KeyEvent) -> (res: Option<(&'static str, bool)>)
        ensures
            final(self)@ == key_event_next(old(self)@, event),
            sound_view(res) == key_event_sound(old(self)@, event),
    {
        match event {
            KeyEvent::Press(key) => {
                let is_new = self.insert(key);
                if is_new {
                    Some((logical_name(key), true))
                } else {
                    None
                }
            },
            KeyEvent::Release(key) => {
                self.remove(key);
                Some((logical_name(key), false))
            },
        }
    }
}

/// A mouse button.
#[derive(Clone, Copy, Debug, PartialEq, Eq, Hash, Structural)]
pub enum Button {
    Left,
    Right,
    Middle,
    Unknown(u8),
}

/// A mouse-button event from the listener.
#[derive(Clone, Copy, Debug, PartialEq, Eq, Structural)]
pub enum ButtonEvent {
    Press(Button),
    Release(Button),
}

/// The logical name of a mouse button; buttons other than the three
/// standard ones have none.
pub open spec fn button_logical_name(button: Button) -> Option<Seq<char>> {
    match button {
        Button::Left => Some("MouseLeft"@),
        Button::Right => Some("MouseRight"@),
        Button::Middle => Some("MouseMiddle"@),
        Button::Unknown(_) => None,
    }
}

/// What a mouse-button event sounds: both the press and the release of a
/// named button (a physical click is a down-up pair).
pub open spec fn button_event_sound(event: ButtonEvent) -> Option<(Seq<char>, bool)> {
    let (button, press) = match event {
        ButtonEvent::Press(b) => (b, true),
        ButtonEvent::Release(b) => (b, false),
    };
    match button_logical_name(button) {
        Some(name) => Some((name, press)),
        None => None,
    }
}

/// One mouse-button step of the listener: the logical name ("MouseLeft",
/// "MouseRight", "MouseMiddle") and phase to sound, if any.
pub fn button_event(event: ButtonEvent) -> (res: Option<(&'static str, bool)>)
    ensures
        sound_view(res) == button_event_sound(event),
{
    let (button, press) = match event {
        ButtonEvent::Press(b) => (b, true),
        ButtonEvent::Release(b) => (b, false),
    };
    match button {
        Button::Left => Some(("MouseLeft", press)),
        Button::Right => Some(("MouseRight", press)),
        Button::Middle => Some(("MouseMiddle", press)),
        Button::Unknown(_) => None,
    }
}

/// An event of the macOS event tap, by its type.
#[derive(Clone, Copy, Debug, PartialEq, Eq, Structural)]
pub enum TapEvent {
    KeyDown,
    KeyUp,
    FlagsChanged,
    Other,
}

/// The held modifiers after an event of type `kind` for `code`.
pub open spec fn tap_event_next(held: Set<i64>, kind: TapEvent, code: i64) -> Set<i64> {
    if kind == TapEvent::FlagsChanged && 54 <= code <= 63 {
        if held.contains(code) {
            held.remove(code)
        } else {
            held.insert(code)
        }
    } else {
        held
    }
}

/// What an event of type `kind` for `code` sounds, with `autorepeat` the
/// auto-repeat field of the event and `held` the modifiers held before it: a
/// key-down that is not an auto-repeat, every key-up, and every change of a
/// modifier, which is a press when the modifier was not held and a release
/// when it was.
pub open spec fn tap_event_sound(held: Set<i64>, kind: TapEvent, code: i64, autorepeat: i64) -> Option<
    (Seq<char>, bool),
> {
    match kind {
        TapEvent::KeyDown => if autorepeat == 0 {
            Some((keycode_logical_name(code), true))
        } else {
            None
        },
        TapEvent::KeyUp => Some((keycode_logical_name(code), false)),
        TapEvent::FlagsChanged => if 54 <= code <= 63 {
            Some((keycode_logical_name(code), !held.contains(code)))
        } else {
            None
        },
        TapEvent::Other => None,
    }
}

/// The modifier keycodes currently held down, as the macOS listener tracks them.
pub struct HeldModifiers {
    held: HashSet<i64>,
}

impl View for HeldModifiers {
    type V = Set<i64>;

    closed spec fn view(&self) -> Set<i64> {
        self.held@
    }
}

impl HeldModifiers {
    /// No modifier held.
    pub fn new() -> (res: Self)
        ensures
            res@ == Set::<i64>::empty(),
    {
        HeldModifiers { held: HashSet::new() }
    }

    /// Whether the modifier `code` is held.
    pub fn contains(&self, code: i64) -> (res: bool)
        ensures
            res == self@.contains(code),
    {
        self.held.contains(&code)
    }

    /// Flip the held state of the modifier `code`; `true` when it is now
    /// held, that is, when the change is a press.
    pub fn toggle(&mut self, code: i64) -> (press: bool)
        ensures
            press == !old(self)@.contains(code),
            final(self)@ == if press {
                old(self)@.insert(code)
            } else {
                old(self)@.remove(code)
            },
    {
        let press = self.held.insert(code);
        if !press {
            self.held.remove(&code);
            assert(old(self)@.insert(code).remove(code) =~= old(self)@.remove(code));
        }
        press
    }

    /// One step of the macOS listener for an event of type `kind` with
    /// virtual keycode `code` and auto-repeat field `autorepeat`.
    pub fn tap_event(&mut self, kind: TapEvent, code: i64, autorepeat: i64) -> (res: Option<
        (&'static str, bool),
    >)
        ensures
            final(self)@ == tap_event_next(old(self)@, kind, code),
            sound_view(res) == tap_event_sound(old(self)@, kind, code, autorepeat),
    {
        match kind {
            TapEvent::KeyDown => {
                if autorepeat == 0 {
                    Some((logical_from_keycode(code), true))
                } else {
                    None
                }
            },
            TapEvent::KeyUp => Some((logical_from_keycode(code), false)),
            TapEvent::FlagsChanged => {
                if is_modifier(code) {
                    let press = self.toggle(code);
                    Some((logical_from_keycode(code), press))
                } else {
                    None
                }
            },
            TapEvent::Other => None,
        }
    }
}

/// A held key clicks once: while a key stays held, pressing it again (the
/// OS auto-repeat) makes no sound, and once it is released the next press
/// sounds again.
pub proof fn held_key_clicks_once(held: Set<Key>, key: Key)
    ensures
        key_event_sound(held, KeyEvent::Press(key)) is Some <==> !held.contains(key),
        key_event_sound(key_event_next(held, KeyEvent::Press(key)), KeyEvent::Press(key)) is None,
        key_event_sound(key_event_next(held, KeyEvent::Release(key)), KeyEvent::Press(key))
            == Some((key_logical_name(key), true)),
{
}

/// Pressing or releasing one key leaves the held state of every other key
/// as it was.
pub proof fn key_events_are_independent(held: Set<Key>, event: KeyEvent, other: Key)
    requires
        event != KeyEvent::Press(other),
        event != KeyEvent::Release(other),
    ensures
        key_event_next(held, event).contains(other) == held.contains(other),
{
}

/// Successive flag changes of one modifier alternate between press and
/// release, starting with a press when it is not held.
pub proof fn modifier_changes_alternate(held: Set<i64>, code: i64)
    requires
        54 <= code <= 63,
    ensures
        tap_event_sound(held, TapEvent::FlagsChanged, code, 0) == Some(
            (keycode_logical_name(code), !held.contains(code)),
        ),
        tap_event_sound(
            tap_event_next(held, TapEvent::FlagsChanged, code),
            TapEvent::FlagsChanged,
            code,
            0,
        ) == Some((keycode_logical_name(code), held.contains(code))),
        tap_event_next(
            tap_event_next(held, TapEvent::FlagsChanged, code),
            TapEvent::FlagsChanged,
            code,
        ) == held,
{
    if held.contains(code) {
        assert(held.remove(code).insert(code) =~= held);
    } else {
        assert(held.insert(code).remove(code) =~= held);
    }
}

/// The held keys after the key events `events`, starting from `held`.
pub open spec fn held_after(held: Set<Key>, events: Seq<KeyEvent>) -> Set<Key>
    decreases events.len(),
{
    if events.len() == 0 {
        held
    } else {
        key_event_next(held_after(held, events.drop_last()), events.last())
    }
}

/// What the `i`-th of the key events `events` sounds, starting from `held`.
pub open spec fn sound_in_sequence(held: Set<Key>, events: Seq<KeyEvent>, i: int) -> Option<
    (Seq<char>, bool),
> {
    key_event_sound(held_after(held, events.take(i)), events[i])
}

/// After `events`, `key` is held when its last press among them comes after
/// every release of it, or when it was held at the start and none of
/// `events` releases it.
pub open spec fn held_by_events(held: Set<Key>, events: Seq<KeyEvent>, key: Key) -> bool {
    ||| exists|j: int|
        0 <= j < events.len() && events[j] == KeyEvent::Press(key) && forall|m: int|
            j < m < events.len() ==> events[m] != KeyEvent::Release(key)
    ||| held.contains(key) && forall|m: int| 0 <= m < events.len() ==> events[m] != KeyEvent::Release(key)
}

/// The held keys after a sequence of key events are those that
/// `held_by_events` describes.
pub proof fn held_after_events(held: Set<Key>, events: Seq<KeyEvent>, key: Key)
    ensures
        held_after(held, events).contains(key) == held_by_events(held, events, key),
    decreases events.len(),
{
    if events.len() > 0 {
        let s = events.drop_last();
        let n = events.len() - 1;
        let e = events.last();
        held_after_events(held, s, key);
        if e == KeyEvent::Press(key) {
            assert(events[n] == KeyEvent::Press(key));
        } else if e == KeyEvent::Release(key) {
            assert(events[n] == KeyEvent::Release(key));
            if held_by_events(held, events, key) {
                if exists|j: int|
                    0 <= j < events.len() && events[j] == KeyEvent::Press(key) && forall|m: int|
                        j < m < events.len() ==> events[m] != KeyEvent::Release(key) {
                    let j = choose|j: int|
                        0 <= j < events.len() && events[j] == KeyEvent::Press(key) && forall|m: int|
                            j < m < events.len() ==> events[m] != KeyEvent::Release(key);
                    assert(j != n);
                    assert(events[n] != KeyEvent::Release(key));
                } else {
                    assert(events[n] != KeyEvent::Release(key));
                }
            }
        } else {
            assert(held_after(held, events).contains(key) == held_after(held, s).contains(key));
            if held_by_events(held, events, key) {
                if exists|j: int|
                    0 <= j < events.len() && events[j] == KeyEvent::Press(key) && forall|m: int|
                        j < m < events.len() ==> events[m] != KeyEvent::Release(key) {
                    let j = choose|j: int|
                        0 <= j < events.len() && events[j] == KeyEvent::Press(key) && forall|m: int|
                            j < m < events.len() ==> events[m] != KeyEvent::Release(key);
                    assert(j < n);
                    assert(s[j] == KeyEvent::Press(key));
                    assert forall|m: int| j < m < s.len() implies s[m] != KeyEvent::Release(key) by {
                        assert(s[m] == events[m]);
                    }
                } else {
                    assert forall|m: int| 0 <= m < s.len() implies s[m] != KeyEvent::Release(key) by {
                        assert(s[m] == events[m]);
                    }
                }
            }
            if held_by_events(held, s, key) {
                if exists|j: int|
                    0 <= j < s.len() && s[j] == KeyEvent::Press(key) && forall|m: int|
                        j < m < s.len() ==> s[m] != KeyEvent::Release(key) {
                    let j = choose|j: int|
                        0 <= j < s.len() && s[j] == KeyEvent::Press(key) && forall|m: int|
                            j < m < s.len() ==> s[m] != KeyEvent::Release(key);
                    assert(events[j] == KeyEvent::Press(key));
                    assert forall|m: int| j < m < events.len() implies events[m] != KeyEvent::Release(
                        key,
                    ) by {
                        if m < n {
                            assert(s[m] == events[m]);
                        }
                    }
                } else {
                    assert forall|m: int| 0 <= m < events.len() implies events[m] != KeyEvent::Release(
                        key,
                    ) by {
                        if m < n {
                            assert(s[m] == events[m]);
                        }
                    }
                }
            }
        }
    }
}

/// A held key clicks once, over any sequence of key events: a press of a
/// key sounds exactly when the key is not held by the events before it (so
/// of the presses of a key between two of its releases only the first one
/// sounds, and none while the key was held from the start), and every
/// release sounds once, whether or not the key was pressed.
pub proof fn held_key_clicks_once_in_sequence(
    held: Set<Key>,
    events: Seq<KeyEvent>,
    i: int,
    key: Key,
)
    requires
        0 <= i < events.len(),
    ensures
        events[i] == KeyEvent::Press(key) ==> sound_in_sequence(held, events, i) == if held_by_events(
            held,
            events.take(i),
            key,
        ) {
            None
        } else {
            Some((key_logical_name(key), true))
        },
        events[i] == KeyEvent::Release(key) ==> sound_in_sequence(held, events, i) == Some(
            (key_logical_name(key), false),
        ),
        forall|j: int|
            0 <= j < i && events[j] == KeyEvent::Press(key) && events[i] == KeyEvent::Press(key)
                && (forall|m: int| j < m < i ==> events[m] != KeyEvent::Release(key))
                ==> sound_in_sequence(held, events, i) is None,
{
    held_after_events(held, events.take(i), key);
    assert forall|j: int|
        0 <= j < i && events[j] == KeyEvent::Press(key) && events[i] == KeyEvent::Press(key)
            && (forall|m: int| j < m < i ==> events[m] != KeyEvent::Release(key)) implies sound_in_sequence(
        held,
        events,
        i,
    ) is None by {
        let t = events.take(i);
        assert(t[j] == KeyEvent::Press(key));
        assert forall|m: int| j < m < t.len() implies t[m] != KeyEvent::Release(key) by {
            assert(t[m] == events[m]);
        }
    }
}

/// Each logical name belongs to exactly the macOS keycodes of its keys:
/// 36 and 76 (Return, keypad Enter) are "Enter", 48 "Tab", 49 "Space", 51
/// "Backspace", 54 and 55 "Meta", 56 and 60 "Shift", 58 and 61 "Alt", 59 and
/// 62 "Control"; every other keycode gets the empty name.
pub proof fn keycode_names_name_their_keys(code: i64)
    ensures
        keycode_logical_name(code) == "Enter"@ <==> (code == 36 || code == 76),
        keycode_logical_name(code) == "Tab"@ <==> code == 48,
        keycode_logical_name(code) == "Space"@ <==> code == 49,
        keycode_logical_name(code) == "Backspace"@ <==> code == 51,
        keycode_logical_name(code) == "Meta"@ <==> (code == 54 || code == 55),
        keycode_logical_name(code) == "Shift"@ <==> (code == 56 || code == 60),
        keycode_logical_name(code) == "Alt"@ <==> (code == 58 || code == 61),
        keycode_logical_name(code) == "Control"@ <==> (code == 59 || code == 62),
        keycode_logical_name(code).len() == 0 <==> !(code == 36 || code == 76 || code == 48 || code
            == 49 || code == 51 || (54 <= code <= 56) || (58 <= code <= 62)),
{
    pack_key_names_differ();
}

/// Key-downs and key-ups on macOS: neither changes the held modifiers;
/// every key-up sounds a release of its key, whatever the key, and a
/// key-down that is not an auto-repeat sounds the press of the same name,
/// while an auto-repeated key-down is silent.
pub proof fn key_downs_and_ups_sound_their_key(held: Set<i64>, code: i64, autorepeat: i64)
    ensures
        tap_event_next(held, TapEvent::KeyUp, code) == held,
        tap_event_next(held, TapEvent::KeyDown, code) == held,
        tap_event_sound(held, TapEvent::KeyUp, code, autorepeat) matches Some((name, press)) && !press
            && name == keycode_logical_name(code),
        tap_event_sound(held, TapEvent::KeyDown, code, 0) matches Some((name, press)) && press
            && tap_event_sound(held, TapEvent::KeyUp, code, autorepeat) == Some((name, false)),
        autorepeat != 0 ==> tap_event_sound(held, TapEvent::KeyDown, code, autorepeat) is None,
        tap_event_sound(held, TapEvent::Other, code, autorepeat) is None,
{
}

/// A mouse click sounds on both halves: a button sounds on its press
/// exactly when it sounds on its release, under the same name with the
/// opposite phase; the left, right and middle buttons always sound, as
/// "MouseLeft", "MouseRight" and "MouseMiddle", and other buttons never do.
pub proof fn buttons_sound_on_press_and_release(button: Button)
    ensures
        button_event_sound(ButtonEvent::Press(button)) is Some <==> button_event_sound(
            ButtonEvent::Release(button),
        ) is Some,
        button_event_sound(ButtonEvent::Press(button)) matches Some((name, press)) ==> press
            && button_event_sound(ButtonEvent::Release(button)) == Some((name, false)),
        button_event_sound(ButtonEvent::Press(button)) is Some <==> !(button is Unknown),
        button == Button::Left ==> button_event_sound(ButtonEvent::Release(button)) == Some(
            ("MouseLeft"@, false),
        ),
        button == Button::Right ==> button_event_sound(ButtonEvent::Release(button)) == Some(
            ("MouseRight"@, false),
        ),
        button == Button::Middle ==> button_event_sound(ButtonEvent::Release(button)) == Some(
            ("MouseMiddle"@, false),
        ),
{
}

} // verus!
