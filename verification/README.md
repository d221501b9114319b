# whisp-rs

Hold-to-talk dictation for Linux (Wayland): hold a hotkey, speak, release, and
the words are typed at the cursor. Audio is captured with `arecord`, sent to
Deepgram for transcription, and typed with `wtype`, a clipboard paste, or
`ydotool`.

Layout:

- `src/` — the library, verified with Verus: the configuration model
  (`config`), the hotkey state machine (`hotkey`), the tray status
  (`applet`), the `arecord` command line (`audio`), the injection strategy
  (`inject`), the dependency check and the setup wizard's choices (`setup`),
  the Deepgram request and response (`api::deepgram`), and the dictation cycle
  (`dictation`).
- `app/` — the daemon: evdev, processes, HTTP, D-Bus tray, terminal prompts,
  files. It performs what the library decides.
- `tests/` — tests of the library on concrete values.
