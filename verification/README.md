# thock

Mechanical keyboard click sounds: a tray app that listens for global key
events and plays short click samples from a sound pack.

- `src/` is the verified library (Verus): key-to-logical-name mapping
  (`keymap`), the listener's held-key and held-modifier tracking and its
  per-event decisions (`listener`), sound packs and sound resolution with
  fallback to the pack default (`soundpack`), when an event makes a sound
  (`state`), tray menu ids (`tray`), the settings file location (`config`),
  and character-level string comparisons (`text`).
- `app/` is the Tauri application around it: the tray and settings window,
  the OS event loops (rdev / CGEventTap), audio playback (rodio), the
  persisted settings (serde_json), and the bundled sound files.
- `tests/` exercises the library on concrete values.
