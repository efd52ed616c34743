//! A 16-step MIDI sequencer engine: scale arithmetic, sequencer state
//! transitions, tempo jitter, HID report codecs, MIDI message framing and the
//! command-line and terminal front-end logic.

pub mod music_theory;
pub mod text;
pub mod input;
pub mod state;
pub mod clock;
pub mod hid;
pub mod midi_out;
pub mod pattern;
pub mod ui_render;
pub mod cli;
pub mod ui;
