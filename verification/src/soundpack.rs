//! Sound-pack model and loader.
//!
//! The default pack is bundled with the app so that it works with zero
//! external files. The manifest format (`pack.json`) is intentionally simple:
//!
//! ```json
//! {
//!   "name": "...",
//!   "default": { "press": "a.wav", "release": "b.wav" },
//!   "keys": { "Space": { "press": "space.wav", "release": "space_up.wav" } }
//! }
//! ```
//!
//! `default` is used for any key without a specific entry, and a key entry
//! that lacks a sound for one phase falls back to the default sound of that
//! phase.

use crate::text::str_eq;
use std::sync::Arc;
use vstd::prelude::*;

verus! {

/// Audio bytes (a decoded-on-play WAV/OGG buffer), cheap to clone.
pub type SoundBytes = Arc<[u8]>;

/// Another handle on the same audio bytes.
///
/// Trusted: `Arc::clone` gives a pointer to the same allocation, so the
/// handle holds the same bytes.
#[verifier::external_body]
fn share(bytes: &SoundBytes) -> (res: SoundBytes)
    ensures
        res == *bytes,
{
    Arc::clone(bytes)
}

/// The sounds of one key: one for the press and one for the release.
#[derive(Clone, Default)]
pub struct KeySound {
    pub press: Option<SoundBytes>,
    pub release: Option<SoundBytes>,
}

/// The sound of `sound` for the phase `press` (`true`: press, `false`: release).
pub open spec fn pick(sound: KeySound, press: bool) -> Option<SoundBytes> {
    if press {
        sound.press
    } else {
        sound.release
    }
}

/// The key sound of the first entry named `key`, if any.
pub open spec fn entry_for(entries: Seq<(Seq<char>, KeySound)>, key: Seq<char>) -> Option<KeySound>
    decreases entries.len(),
{
    if entries.len() == 0 {
        None
    } else if entries[0].0 == key {
        Some(entries[0].1)
    } else {
        entry_for(entries.drop_first(), key)
    }
}

/// No two entries share a name.
pub open spec fn names_unique<T>(entries: Seq<(Seq<char>, T)>) -> bool {
    forall|i: int, j: int|
        0 <= i < entries.len() && 0 <= j < entries.len() && i != j ==> entries[i].0 != entries[j].0
}

/// Where names are unique, the entry found for a name is the one entry of
/// that name, wherever it stands.
pub proof fn entry_for_unique_name(entries: Seq<(Seq<char>, KeySound)>, i: int)
    requires
        names_unique(entries),
        0 <= i < entries.len(),
    ensures
        entry_for(entries, entries[i].0) == Some(entries[i].1),
    decreases entries.len(),
{
    if i > 0 {
        let rest = entries.drop_first();
        assert(entries[0].0 != entries[i].0);
        assert(rest[i - 1] == entries[i]);
        assert(names_unique(rest)) by {
            assert forall|a: int, b: int|
                0 <= a < rest.len() && 0 <= b < rest.len() && a != b implies rest[a].0 != rest[b].0 by {
                assert(rest[a] == entries[a + 1]);
                assert(rest[b] == entries[b + 1]);
            }
        }
        entry_for_unique_name(rest, i - 1);
    }
}

/// A loaded sound pack: its display name, its default key sound, and the key
/// sounds of the logical keys that override it.
#[derive(Clone)]
pub struct SoundPack {
    pub name: String,
    default: KeySound,
    keys: Vec<(String, KeySound)>,
}

fn pick_sound(sound: &KeySound, press: bool) -> (res: Option<SoundBytes>)
    ensures
        res == pick(*sound, press),
{
    let chosen = if press {
        &sound.press
    } else {
        &sound.release
    };
    match chosen {
        Some(bytes) => Some(share(bytes)),
        None => None,
    }
}

impl SoundPack {
    /// The pack's display name.
    pub closed spec fn display_name(self) -> Seq<char> {
        self.name@
    }

    /// The sound for keys without an entry of their own.
    pub closed spec fn default_sound(self) -> KeySound {
        self.default
    }

    /// The entries of the pack's logical keys, by name, in order.
    pub closed spec fn key_entries(self) -> Seq<(Seq<char>, KeySound)> {
        self.keys@.map_values(|e: (String, KeySound)| (e.0@, e.1))
    }

    /// Each logical key has at most one entry.
    pub open spec fn wf(self) -> bool {
        names_unique(self.key_entries())
    }

    /// The key sound that the pack gives the logical key `logical`, if any.
    pub open spec fn sound_for(self, logical: Seq<char>) -> Option<KeySound> {
        entry_for(self.key_entries(), logical)
    }

    /// The sound that the key's own entry gives the phase, with no fallback.
    pub open spec fn exact_sound(self, logical: Seq<char>, press: bool) -> Option<SoundBytes> {
        match self.sound_for(logical) {
            Some(sound) => pick(sound, press),
            None => None,
        }
    }

    /// The sound of the key's own entry for the phase, or else the default
    /// sound of that phase.
    pub open spec fn resolved(self, logical: Seq<char>, press: bool) -> Option<SoundBytes> {
        let specific = self.exact_sound(logical, press);
        if specific is Some {
            specific
        } else {
            pick(self.default_sound(), press)
        }
    }

    /// The entry of the logical key, if the pack has one.
    fn entry(&self, logical: &str) -> (res: Option<&KeySound>)
        ensures
            match res {
                Some(sound) => self.sound_for(logical@) == Some(*sound),
                None => self.sound_for(logical@) is None,
            },
    {
        let ghost entries = self.key_entries();
        let mut i: usize = 0;
        assert(entries.skip(0) =~= entries);
        while i < self.keys.len()
            invariant
                entries == self.key_entries(),
                i <= self.keys@.len(),
                entries.len() == self.keys@.len(),
                entry_for(entries, logical@) == entry_for(entries.skip(i as int), logical@),
            decreases self.keys@.len() - i,
        {
            assert(entries.skip(i as int)[0] == entries[i as int]);
            assert(entries.skip(i as int).drop_first() =~= entries.skip(i + 1));
            if str_eq(self.keys[i].0.as_str(), logical) {
                return Some(&self.keys[i].1);
            }
            i += 1;
        }
        assert(entries.skip(i as int).len() == 0);
        None
    }

    /// Resolve the sound to play for a logical key name and press/release phase,
    /// falling back to the pack default when a key has no specific override.
    pub fn resolve(&self, logical: &str, press: bool) -> (res: Option<SoundBytes>)
        ensures
            res == self.resolved(logical@, press),
    {
        let specific = match self.entry(logical) {
            Some(sound) => pick_sound(sound, press),
            None => None,
        };
        match specific {
            Some(bytes) => Some(bytes),
            None => pick_sound(&self.default, press),
        }
    }

    /// Resolve the sound for a logical key name and phase from the key's own
    /// entry only: a pack without a sound for it stays silent instead of
    /// falling back to the default.
    pub fn resolve_exact(&self, logical: &str, press: bool) -> (res: Option<SoundBytes>)
        ensures
            res == self.exact_sound(logical@, press),
    {
        match self.entry(logical) {
            Some(sound) => pick_sound(sound, press),
            None => None,
        }
    }
}

/// How many sound files are bundled with the app.
pub const BUNDLED_FILE_COUNT: usize = 8;

/// The position, in the bundle, of the file that the bundled manifest calls
/// `name`: the files are `key_press.wav`, `key_release.wav`,
/// `space_press.wav`, `space_release.wav`, `enter_press.wav`,
/// `enter_release.wav`, `backspace_press.wav` and `modifier_press.wav`, in
/// this order.
pub open spec fn embedded_index(name: Seq<char>) -> Option<int> {
    if name == "key_press.wav"@ {
        Some(0)
    } else if name == "key_release.wav"@ {
        Some(1)
    } else if name == "space_press.wav"@ {
        Some(2)
    } else if name == "space_release.wav"@ {
        Some(3)
    } else if name == "enter_press.wav"@ {
        Some(4)
    } else if name == "enter_release.wav"@ {
        Some(5)
    } else if name == "backspace_press.wav"@ {
        Some(6)
    } else if name == "modifier_press.wav"@ {
        Some(7)
    } else {
        None
    }
}

/// Map a filename referenced by the bundled manifest to the position of its
/// bytes in the bundle.
pub fn embedded_file(name: &str) -> (res: Option<usize>)
    ensures
        match res {
            Some(i) => embedded_index(name@) == Some(i as int) && i < BUNDLED_FILE_COUNT,
            None => embedded_index(name@) is None,
        },
{
    if str_eq(name, "key_press.wav") {
        Some(0)
    } else if str_eq(name, "key_release.wav") {
        Some(1)
    } else if str_eq(name, "space_press.wav") {
        Some(2)
    } else if str_eq(name, "space_release.wav") {
        Some(3)
    } else if str_eq(name, "enter_press.wav") {
        Some(4)
    } else if str_eq(name, "enter_release.wav") {
        Some(5)
    } else if str_eq(name, "backspace_press.wav") {
        Some(6)
    } else if str_eq(name, "modifier_press.wav") {
        Some(7)
    } else {
        None
    }
}

/// One key of a pack manifest: the file names of its press and release sounds.
#[derive(Clone, Debug, Default)]
pub struct RawKey {
    pub press: Option<String>,
    pub release: Option<String>,
}

/// A pack manifest: the pack's name, its default key, and its named keys.
#[derive(Clone, Debug)]
pub struct RawPack {
    pub name: String,
    pub default: RawKey,
    pub keys: Vec<(String, RawKey)>,
}

/// The bundled sound of the file `name`, if the bundle has a file of that name.
pub open spec fn file_sound(name: Option<String>, bundle: Seq<SoundBytes>) -> Option<SoundBytes> {
    match name {
        Some(n) => match embedded_index(n@) {
            Some(i) => Some(bundle[i]),
            None => None,
        },
        None => None,
    }
}

/// The key sound that a manifest key names.
pub open spec fn key_sound_from(raw: RawKey, bundle: Seq<SoundBytes>) -> KeySound {
    KeySound { press: file_sound(raw.press, bundle), release: file_sound(raw.release, bundle) }
}

fn resolve_bytes(name: &Option<String>, bundle: &Vec<SoundBytes>) -> (res: Option<SoundBytes>)
    requires
        bundle.len() == BUNDLED_FILE_COUNT,
    ensures
        res == file_sound(*name, bundle@),
{
    match name {
        Some(n) => match embedded_file(n.as_str()) {
            Some(i) => Some(share(&bundle[i])),
            None => None,
        },
        None => None,
    }
}

fn to_key_sound(raw: &RawKey, bundle: &Vec<SoundBytes>) -> (res: KeySound)
    requires
        bundle.len() == BUNDLED_FILE_COUNT,
    ensures
        res == key_sound_from(*raw, bundle@),
{
    KeySound { press: resolve_bytes(&raw.press, bundle), release: resolve_bytes(&raw.release, bundle) }
}

impl SoundPack {
    /// Build the bundled default pack from its manifest and the bundled
    /// sound files (in the order of `embedded_index`). A file name that the
    /// bundle lacks leaves that sound out.
    pub fn load_default(manifest: RawPack, bundle: &Vec<SoundBytes>) -> (pack: SoundPack)
        requires
            bundle.len() == BUNDLED_FILE_COUNT,
            names_unique(manifest.keys@.map_values(|e: (String, RawKey)| (e.0@, e.1))),
        ensures
            pack.wf(),
            pack.display_name() == manifest.name@,
            pack.default_sound() == key_sound_from(manifest.default, bundle@),
            pack.key_entries() == manifest.keys@.map_values(
                |e: (String, RawKey)| (e.0@, key_sound_from(e.1, bundle@)),
            ),
    {
        let ghost expected = manifest.keys@.map_values(
            |e: (String, RawKey)| (e.0@, key_sound_from(e.1, bundle@)),
        );
        let mut keys: Vec<(String, KeySound)> = Vec::new();
        let mut i: usize = 0;
        while i < manifest.keys.len()
            invariant
                i <= manifest.keys@.len(),
                bundle.len() == BUNDLED_FILE_COUNT,
                expected == manifest.keys@.map_values(
                    |e: (String, RawKey)| (e.0@, key_sound_from(e.1, bundle@)),
                ),
                keys@.len() == i,
                forall|j: int|
                    0 <= j < i ==> (#[trigger] keys@[j]).0@ == expected[j].0 && keys@[j].1
                        == expected[j].1,
            decreases manifest.keys@.len() - i,
        {
            let name = manifest.keys[i].0.clone();
            let sound = to_key_sound(&manifest.keys[i].1, bundle);
            keys.push((name, sound));
            i += 1;
        }
        let default = to_key_sound(&manifest.default, bundle);
        let pack = SoundPack { name: manifest.name, default, keys };
        assert(pack.key_entries() =~= expected);
        assert forall|a: int, b: int|
            0 <= a < expected.len() && 0 <= b < expected.len() && a != b implies expected[a].0
            != expected[b].0 by {
            let raw = manifest.keys@.map_values(|e: (String, RawKey)| (e.0@, e.1));
            assert(raw[a].0 == expected[a].0);
            assert(raw[b].0 == expected[b].0);
        }
        pack
    }
}

/// A key's own sound wins over the default: where the exact resolution of a
/// key and phase finds a sound, the falling-back resolution finds the same.
pub proof fn exact_resolution_agrees(pack: SoundPack, logical: Seq<char>, press: bool)
    requires
        pack.exact_sound(logical, press) is Some,
    ensures
        pack.resolved(logical, press) == pack.exact_sound(logical, press),
{
}

/// The pack default is used for any key without a specific entry, and a key
/// entry without a sound for one phase (such as a missing `release`) falls
/// back to the pack's default sound of that phase.
pub proof fn resolution_falls_back_to_default(pack: SoundPack, logical: Seq<char>, press: bool)
    ensures
        pack.sound_for(logical) is None ==> pack.resolved(logical, press) == pick(
            pack.default_sound(),
            press,
        ),
        pack.sound_for(logical) matches Some(sound) && pick(sound, press) is None
            ==> pack.resolved(logical, press) == pick(pack.default_sound(), press),
{
}

/// The entry found for a name is the first entry of exactly that name: none
/// is found when no entry has the name, and otherwise it is the sound of an
/// entry of that name with no earlier entry of the name.
pub proof fn entry_for_finds_first_entry_of_name(entries: Seq<(Seq<char>, KeySound)>, key: Seq<char>)
    ensures
        entry_for(entries, key) is None <==> forall|i: int|
            0 <= i < entries.len() ==> (#[trigger] entries[i]).0 != key,
        entry_for(entries, key) matches Some(sound) ==> exists|i: int|
            0 <= i < entries.len() && (#[trigger] entries[i]).0 == key && entries[i].1 == sound
                && forall|j: int| 0 <= j < i ==> (#[trigger] entries[j]).0 != key,
    decreases entries.len(),
{
    if entries.len() > 0 {
        let rest = entries.drop_first();
        entry_for_finds_first_entry_of_name(rest, key);
        if entries[0].0 == key {
            assert(entries[0].0 == key);
        } else {
            assert forall|i: int| 1 <= i < entries.len() implies entries[i] == rest[i - 1] by {}
            if entry_for(entries, key) is None {
                assert forall|i: int| 0 <= i < entries.len() implies (#[trigger] entries[i]).0 != key by {
                    if i > 0 {
                        assert(rest[i - 1] == entries[i]);
                    }
                }
            } else {
                let i = choose|i: int|
                    0 <= i < rest.len() && (#[trigger] rest[i]).0 == key && rest[i].1
                        == entry_for(rest, key)->0 && forall|j: int|
                        0 <= j < i ==> (#[trigger] rest[j]).0 != key;
                assert(entries[i + 1] == rest[i]);
                assert forall|j: int| 0 <= j < i + 1 implies (#[trigger] entries[j]).0 != key by {
                    if j > 0 {
                        assert(rest[j - 1] == entries[j]);
                    }
                }
                assert(entries[i + 1].0 == key);
                assert(exists|j: int| 0 <= j < rest.len() && (#[trigger] rest[j]).0 == key);
            }
        }
    }
}

/// What a pack gives a logical key is an entry of that very name: it has no
/// sound of its own exactly when no entry carries the name, and then the
/// resolution plays the pack default of the phase while the exact
/// resolution stays silent for both phases.
pub proof fn pack_sounds_come_from_entries_of_the_name(pack: SoundPack, logical: Seq<char>)
    ensures
        pack.sound_for(logical) is None <==> forall|i: int|
            0 <= i < pack.key_entries().len() ==> (#[trigger] pack.key_entries()[i]).0 != logical,
        pack.sound_for(logical) matches Some(sound) ==> exists|i: int|
            0 <= i < pack.key_entries().len() && #[trigger] pack.key_entries()[i] == (logical, sound),
        (forall|i: int|
            0 <= i < pack.key_entries().len() ==> (#[trigger] pack.key_entries()[i]).0 != logical)
            ==> {
            &&& pack.resolved(logical, true) == pack.default_sound().press
            &&& pack.resolved(logical, false) == pack.default_sound().release
            &&& pack.exact_sound(logical, true) is None
            &&& pack.exact_sound(logical, false) is None
        },
{
    entry_for_finds_first_entry_of_name(pack.key_entries(), logical);
    if pack.sound_for(logical) is Some {
        let i = choose|i: int|
            0 <= i < pack.key_entries().len() && (#[trigger] pack.key_entries()[i]).0 == logical
                && pack.key_entries()[i].1 == pack.sound_for(logical)->0 && forall|j: int|
                0 <= j < i ==> (#[trigger] pack.key_entries()[j]).0 != logical;
        assert(pack.key_entries()[i] == (logical, pack.sound_for(logical)->0));
    }
}

/// Exact resolution never reaches for the default: a sound that it finds is
/// the sound of that phase in an entry of exactly that name.
pub proof fn exact_sound_comes_from_an_entry(pack: SoundPack, logical: Seq<char>, press: bool)
    ensures
        pack.exact_sound(logical, press) matches Some(bytes) ==> exists|i: int|
            0 <= i < pack.key_entries().len() && (#[trigger] pack.key_entries()[i]).0 == logical
                && (if press {
                pack.key_entries()[i].1.press
            } else {
                pack.key_entries()[i].1.release
            }) == Some(bytes),
{
    pack_sounds_come_from_entries_of_the_name(pack, logical);
    if pack.exact_sound(logical, press) is Some {
        let i = choose|i: int|
            0 <= i < pack.key_entries().len() && #[trigger] pack.key_entries()[i] == (
                logical,
                pack.sound_for(logical)->0,
            );
        assert(pack.key_entries()[i].0 == logical);
    }
}

} // verus!
