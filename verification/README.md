# midiman

The host engine of a 16-step MIDI sequencer driven by a USB HID controller
and a terminal UI, with its logic verified by Verus.

## Layout

- `src/` — the verified library. Every public function states what it
  returns or changes in its `requires`/`ensures`, over mathematical models
  (`StateModel`, `UiModel`, `Seq<char>` for text), and the laws of the
  library are public proof functions named `law_*`.
  - `music_theory` — keys, modes, scale navigation, note names, snapping.
  - `state` — the sequencer state, every input command, the tick, the
    random stream.
  - `clock` — tempo jitter, tick periods, swing, the clock's per-tick plan.
  - `hid` — the controller's IN/OUT report wire format and its translation
    into commands and direct state writes.
  - `midi_out` — MIDI message bytes, note-off scheduling, port choice.
  - `pattern` — pattern and song snapshots and their names on disk.
  - `ui`, `ui_render`, `input` — the terminal UI's key handling, CLI
    commands, and the text and palette role of everything it shows.
  - `cli` — command-line arguments.
  - `text` — characters, numbers and whitespace as std formats and parses
    them.
- `app/` — the program around the library: threads, the terminal, ALSA
  MIDI output, the HID device, real-time sleeping and pattern files.
- `tests/` — tests of the library on concrete values.
