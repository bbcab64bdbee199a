# keebmidi

Maps MIDI input (notes, control changes, knobs, program changes, pitch bend)
to keyboard output (key taps, chords, typed text and macros), driven from a
terminal UI.

## Layout

- `src/` — the verified library (Verus):
  - `midi/` — decoding raw MIDI bytes, trigger matching, knob direction
    detection, the per-controller value table.
  - `config/` — keys, output actions, macros and their normalisation,
    mappings and the config model.
  - `app/` — the application state, the state machine that answers terminal
    keys and MIDI events (`reducer`, specified by `model`), how reported
    outcomes are taken in (`outcomes`), and the laws that hold across events
    (`laws`).
  - `actions/` — the keyboard sink abstraction, planning and carrying out
    actions and macros, and the system commands behind media keys.
  - `ui/` — the content of the screen as styled text.
  - `input/`, `platform/`, `errors.rs`, `text.rs` — terminal key events, the
    manual key list, platform warnings, error messages, and text helpers.
- `app/` — the program: command line, config file I/O, MIDI connection,
  keyboard injection, terminal input and rendering.
- `tests/` — tests of the library.
