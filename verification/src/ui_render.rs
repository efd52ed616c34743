//! Display text of the sequencer TUI: the labels, values and log lines the
//! seven-zone layout shows, and the palette role of each. Drawing them
//! (layout, the colour of each role, the terminal) belongs to the caller.

use std::collections::VecDeque;

use vstd::prelude::*;

use crate::input::FocusPanel;
use crate::music_theory::{key_at, mode_at, Key, Mode};
use crate::state::{
    rand_type_at, roll_point_at, step_size_at, SequencerState, StateModel, StepSize, TempoRandType,
    TempoRollPoint,
};
use crate::text::{
    decimal_chars, hex_chars_padded, plus_signed_decimal_chars, push_decimal, push_hex_padded,
    push_signed_decimal, push_str, signed_decimal_chars,
};

verus! {

// ── Public structs ────────────────────────────────────────────────────────────

/// Snapshot of UI-local state passed to the renderer each frame.
pub struct UiLocalSnapshot<'a> {
    /// Which panel has keyboard focus.
    pub focus: FocusPanel,
    /// Currently selected step index (0–15) in F1.
    pub selected_step: usize,
    /// Currently selected param index (0–7) in F2.
    pub seq_param_idx: u8,
    /// Currently selected param index (0–7) in F3.
    pub rand_param_idx: u8,
    /// Current contents of the F4 CLI input line.
    pub cli_line: &'a str,
    /// Ring buffer of log entries for the F4 CLI log area.
    pub cli_log: &'a VecDeque<LogEntry>,
    /// Name of the active MIDI output device (empty = none selected).
    pub midi_device_name: &'a str,
    /// MIDI channel display value (1-indexed).
    pub midi_channel_display: u8,
}

/// A single log entry in the F4 CLI panel.
#[derive(Clone, Debug, PartialEq, Eq)]
pub struct LogEntry {
    /// Milliseconds since startup.
    pub timestamp_ms: u64,
    /// Severity / source tag.
    pub tag: LogTag,
    /// Human-readable message text.
    pub text: String,
}

/// A log entry as plain values.
pub struct LogLine {
    pub timestamp_ms: u64,
    pub tag: LogTag,
    pub text: Seq<char>,
}

impl View for LogEntry {
    type V = LogLine;

    open spec fn view(&self) -> LogLine {
        LogLine { timestamp_ms: self.timestamp_ms, tag: self.tag, text: self.text@ }
    }
}

/// Tag controlling how a log entry is coloured in the CLI panel.
#[derive(Clone, Copy, Debug, PartialEq, Eq, Structural)]
pub enum LogTag {
    /// Informational message.
    Info,
    /// MIDI event or device message.
    Midi,
    /// Error message.
    Error,
    /// User-submitted CLI command echo.
    Cmd,
}

// ── Labels ────────────────────────────────────────────────────────────────────

/// The display label of a `Key`.
pub open spec fn key_label(key: Key) -> Seq<char> {
    match key {
        Key::C => "C"@,
        Key::Cs => "C#"@,
        Key::D => "D"@,
        Key::Ds => "D#"@,
        Key::E => "E"@,
        Key::F => "F"@,
        Key::Fs => "F#"@,
        Key::G => "G"@,
        Key::Gs => "G#"@,
        Key::A => "A"@,
        Key::As => "A#"@,
        Key::B => "B"@,
    }
}

/// Return a human-readable string for a `Key`.
pub fn key_name(key: Key) -> (r: String)
    ensures
        r@ == key_label(key),
{
    match key {
        Key::C => "C".to_owned(),
        Key::Cs => "C#".to_owned(),
        Key::D => "D".to_owned(),
        Key::Ds => "D#".to_owned(),
        Key::E => "E".to_owned(),
        Key::F => "F".to_owned(),
        Key::Fs => "F#".to_owned(),
        Key::G => "G".to_owned(),
        Key::Gs => "G#".to_owned(),
        Key::A => "A".to_owned(),
        Key::As => "A#".to_owned(),
        Key::B => "B".to_owned(),
    }
}

/// The display label of a `Mode`.
pub open spec fn mode_label(mode: Mode) -> Seq<char> {
    match mode {
        Mode::Major => "Major"@,
        Mode::NaturalMinor => "NatMin"@,
        Mode::Dorian => "Dorian"@,
        Mode::Phrygian => "Phryg"@,
        Mode::Lydian => "Lydian"@,
        Mode::Mixolydian => "Mixo"@,
        Mode::Locrian => "Locrian"@,
        Mode::HarmonicMinor => "HarMin"@,
        Mode::MelodicMinor => "MelMin"@,
    }
}

/// Return a human-readable string for a `Mode`.
pub fn mode_name(mode: Mode) -> (r: String)
    ensures
        r@ == mode_label(mode),
{
    match mode {
        Mode::Major => "Major".to_owned(),
        Mode::NaturalMinor => "NatMin".to_owned(),
        Mode::Dorian => "Dorian".to_owned(),
        Mode::Phrygian => "Phryg".to_owned(),
        Mode::Lydian => "Lydian".to_owned(),
        Mode::Mixolydian => "Mixo".to_owned(),
        Mode::Locrian => "Locrian".to_owned(),
        Mode::HarmonicMinor => "HarMin".to_owned(),
        Mode::MelodicMinor => "MelMin".to_owned(),
    }
}

/// The display label of a `StepSize`.
pub open spec fn step_size_text(sz: StepSize) -> Seq<char> {
    match sz {
        StepSize::Whole => "1/1"@,
        StepSize::Half => "1/2"@,
        StepSize::Quarter => "1/4"@,
        StepSize::Eighth => "1/8"@,
        StepSize::Sixteenth => "1/16"@,
        StepSize::ThirtySecond => "1/32"@,
    }
}

/// Return a human-readable string for a `StepSize`.
pub fn step_size_label(sz: StepSize) -> (r: String)
    ensures
        r@ == step_size_text(sz),
{
    match sz {
        StepSize::Whole => "1/1".to_owned(),
        StepSize::Half => "1/2".to_owned(),
        StepSize::Quarter => "1/4".to_owned(),
        StepSize::Eighth => "1/8".to_owned(),
        StepSize::Sixteenth => "1/16".to_owned(),
        StepSize::ThirtySecond => "1/32".to_owned(),
    }
}

/// The display label of a `TempoRollPoint`.
pub open spec fn roll_point_label(trp: TempoRollPoint) -> Seq<char> {
    match trp {
        TempoRollPoint::Off => "Off"@,
        TempoRollPoint::Step => "Step"@,
        TempoRollPoint::Beat => "Beat"@,
        TempoRollPoint::Sequence => "Seq"@,
    }
}

/// Return a human-readable string for a `TempoRollPoint`.
pub fn tempo_roll_point_name(trp: TempoRollPoint) -> (r: String)
    ensures
        r@ == roll_point_label(trp),
{
    match trp {
        TempoRollPoint::Off => "Off".to_owned(),
        TempoRollPoint::Step => "Step".to_owned(),
        TempoRollPoint::Beat => "Beat".to_owned(),
        TempoRollPoint::Sequence => "Seq".to_owned(),
    }
}

/// The display label of a `TempoRandType`.
pub open spec fn rand_type_label(trt: TempoRandType) -> Seq<char> {
    match trt {
        TempoRandType::Random => "Random"@,
        TempoRandType::Up => "Up"@,
        TempoRandType::Down => "Down"@,
        TempoRandType::Breathe => "Breathe"@,
        TempoRandType::PingPong => "PingPong"@,
    }
}

/// Return a human-readable string for a `TempoRandType`.
pub fn tempo_rand_type_name(trt: TempoRandType) -> (r: String)
    ensures
        r@ == rand_type_label(trt),
{
    match trt {
        TempoRandType::Random => "Random".to_owned(),
        TempoRandType::Up => "Up".to_owned(),
        TempoRandType::Down => "Down".to_owned(),
        TempoRandType::Breathe => "Breathe".to_owned(),
        TempoRandType::PingPong => "PingPong".to_owned(),
    }
}
/// The playback status label.
pub open spec fn status_text(playing: bool, paused: bool) -> Seq<char> {
    if !playing {
        "STOPPED"@
    } else if paused {
        "PAUSED"@
    } else {
        "PLAYING"@
    }
}

/// Return the playback status label string.
pub fn status_label(playing: bool, paused: bool) -> (r: String)
    ensures
        r@ == status_text(playing, paused),
{
    if !playing {
        "STOPPED".to_owned()
    } else if paused {
        "PAUSED".to_owned()
    } else {
        "PLAYING".to_owned()
    }
}

/// Text of `n` in decimal.
pub fn u8_text(n: u8) -> (r: String)
    ensures
        r@ == decimal_chars(n as nat),
{
    let mut s = String::new();
    push_decimal(&mut s, n as u64);
    s
}

/// Text of `v` with an explicit sign (`+` for zero and above).
pub fn plus_signed_text(v: i64) -> (r: String)
    ensures
        r@ == plus_signed_decimal_chars(v as int),
{
    let mut s = String::new();
    if v >= 0 {
        push_str(&mut s, "+");
        proof {
            reveal_strlit("+");
        }
        push_decimal(&mut s, v as u64);
    } else {
        push_signed_decimal(&mut s, v);
    }
    s
}

/// Text of `v` in decimal, `-` when negative.
pub fn signed_text(v: i64) -> (r: String)
    ensures
        r@ == signed_decimal_chars(v as int),
{
    let mut s = String::new();
    push_signed_decimal(&mut s, v);
    s
}

/// The F3 display of random param `index`: 0=note_rand, 1=tempo_rand,
/// 2=tempo_roll_point, 3=tempo_variance_max, 4=tempo_rand_type, 5=step_rand,
/// 6=scale_quant, others an em dash.
pub open spec fn shift_param_text(s: StateModel, index: u8) -> Seq<char> {
    if index == 0 {
        decimal_chars(s.note_rand as nat)
    } else if index == 1 {
        decimal_chars(s.tempo_rand as nat)
    } else if index == 2 {
        roll_point_label(s.tempo_roll_point)
    } else if index == 3 {
        decimal_chars(s.tempo_variance_max as nat)
    } else if index == 4 {
        rand_type_label(s.tempo_rand_type)
    } else if index == 5 {
        decimal_chars(s.step_rand as nat)
    } else if index == 6 {
        if s.scale_quant {
            "On"@
        } else {
            "Off"@
        }
    } else {
        "\u{2014}"@
    }
}

/// Return the display string for shift (F3 random) param `index` given current state.
///
/// Index map: 0=note_rand, 1=tempo_rand, 2=tempo_roll_point, 3=tempo_variance_max,
/// 4=tempo_rand_type, 5=step_rand, 6=scale_quant, 7=rand_seed (formatted by caller).
pub fn shift_param_value_string(state: &SequencerState, index: u8) -> (r: String)
    ensures
        r@ == shift_param_text(state@, index),
{
    match index {
        0 => u8_text(state.note_rand),
        1 => u8_text(state.tempo_rand),
        2 => tempo_roll_point_name(state.tempo_roll_point),
        3 => u8_text(state.tempo_variance_max),
        4 => tempo_rand_type_name(state.tempo_rand_type),
        5 => u8_text(state.step_rand),
        6 => {
            if state.scale_quant {
                "On".to_owned()
            } else {
                "Off".to_owned()
            }
        },
        _ => "\u{2014}".to_owned(),
    }
}

/// The display of a pending random param value `v` at `index`: numbers for
/// 0, 1, 3 and 5, the roll point or shape at that position for 2 and 4,
/// On/Off for 6, an em dash otherwise.
pub open spec fn shift_pending_text(index: u8, v: i64) -> Seq<char> {
    if index == 0 || index == 1 || index == 3 || index == 5 {
        signed_decimal_chars(v as int)
    } else if index == 2 {
        roll_point_label(roll_point_at((v as usize) as int))
    } else if index == 4 {
        rand_type_label(rand_type_at((v as usize) as int))
    } else if index == 6 {
        if v != 0 {
            "On"@
        } else {
            "Off"@
        }
    } else {
        "\u{2014}"@
    }
}

/// Return the display string for a pending shift param edit.
///
/// `v` is the raw `i64` from `PendingEdit::Param { value, .. }`.
pub fn shift_pending_param_value_string(index: u8, v: i64) -> (r: String)
    ensures
        r@ == shift_pending_text(index, v),
{
    match index {
        0 | 1 | 3 | 5 => signed_text(v),
        2 => tempo_roll_point_name(TempoRollPoint::from_index(v as usize)),
        4 => tempo_rand_type_name(TempoRandType::from_index(v as usize)),
        6 => {
            if v != 0 {
                "On".to_owned()
            } else {
                "Off".to_owned()
            }
        },
        _ => "\u{2014}".to_owned(),
    }
}

/// The F2 display of sequence param `index`: 0=Key, 1=Mode, 2=Swing (signed),
/// 3=StepSize, 4=loop_in, 5=loop_out, 6=paused, 7=playing, others `?`.
pub open spec fn param_text(s: StateModel, index: u8) -> Seq<char> {
    if index == 0 {
        key_label(s.key)
    } else if index == 1 {
        mode_label(s.mode)
    } else if index == 2 {
        plus_signed_decimal_chars(s.swing as int)
    } else if index == 3 {
        step_size_text(s.step_size)
    } else if index == 4 {
        decimal_chars(s.loop_in as nat)
    } else if index == 5 {
        decimal_chars(s.loop_out as nat)
    } else if index == 6 {
        if s.paused {
            "on"@
        } else {
            "off"@
        }
    } else if index == 7 {
        if s.playing {
            "playing"@
        } else {
            "stopped"@
        }
    } else {
        "?"@
    }
}

/// Return a short string for seq (F2) param `index` current value.
///
/// Index map: 0=Key, 1=Mode, 2=Swing, 3=StepSize, 4=loop_in, 5=loop_out,
/// 6=paused, 7=playing.
pub fn param_value_string(state: &SequencerState, index: u8) -> (r: String)
    ensures
        r@ == param_text(state@, index),
{
    match index {
        0 => key_name(state.key),
        1 => mode_name(state.mode),
        2 => plus_signed_text(state.swing as i64),
        3 => step_size_label(state.step_size),
        4 => u8_text(state.loop_in),
        5 => u8_text(state.loop_out),
        6 => if state.paused {
            "on".to_owned()
        } else {
            "off".to_owned()
        },
        7 => if state.playing {
            "playing".to_owned()
        } else {
            "stopped".to_owned()
        },
        _ => "?".to_owned(),
    }
}

/// The display of a pending sequence param value `v` at `index`: the key,
/// mode or step size at that position, the swing as a signed byte, loop
/// points as numbers, on/off and playing/stopped flags, `?` otherwise.
pub open spec fn pending_text(index: u8, v: i64) -> Seq<char> {
    if index == 0 {
        key_label(key_at((v as usize) as int))
    } else if index == 1 {
        mode_label(mode_at((v as usize) as int))
    } else if index == 2 {
        plus_signed_decimal_chars((v as i8) as int)
    } else if index == 3 {
        step_size_text(step_size_at((v as usize) as int))
    } else if index == 4 || index == 5 {
        signed_decimal_chars(v as int)
    } else if index == 6 {
        if v != 0 {
            "on"@
        } else {
            "off"@
        }
    } else if index == 7 {
        if v != 0 {
            "playing"@
        } else {
            "stopped"@
        }
    } else {
        "?"@
    }
}

/// Return a human-readable string for a pending seq param value `v` at `index`.
pub fn pending_param_value_string(index: u8, v: i64) -> (r: String)
    ensures
        r@ == pending_text(index, v),
{
    match index {
        0 => key_name(Key::from_index(v as usize)),
        1 => mode_name(Mode::from_index(v as usize)),
        2 => plus_signed_text((v as i8) as i64),
        3 => step_size_label(StepSize::from_index(v as usize)),
        4 | 5 => signed_text(v),
        6 => {
            if v != 0 {
                "on".to_owned()
            } else {
                "off".to_owned()
            }
        },
        7 => {
            if v != 0 {
                "playing".to_owned()
            } else {
                "stopped".to_owned()
            }
        },
        _ => "?".to_owned(),
    }
}

// ── Zone texts ────────────────────────────────────────────────────────────────

/// The right-hand side of the title bar: the output device (an em dash
/// when none is selected) and the 1-indexed MIDI channel.
pub open spec fn title_device_chars(device: Seq<char>, channel: u8) -> Seq<char> {
    "  MIDI OUT "@ + (if device.len() == 0 {
        "\u{2014}"@
    } else {
        device
    }) + " CH:"@ + decimal_chars(channel as nat)
}

/// Text of the right-hand side of the title bar.
pub fn title_device_text(device: &str, channel: u8) -> (r: String)
    ensures
        r@ == title_device_chars(device@, channel),
{
    let mut s = "  MIDI OUT ".to_owned();
    if device.unicode_len() == 0 {
        push_str(&mut s, "\u{2014}");
    } else {
        push_str(&mut s, device);
    }
    push_str(&mut s, " CH:");
    push_decimal(&mut s, channel as u64);
    s
}

/// The transport bar text before the status label.
pub open spec fn transport_chars(s: StateModel) -> Seq<char> {
    " BPM "@ + decimal_chars(s.tempo_bpm as nat) + "  KEY "@ + key_label(s.key) + "  MODE "@
        + mode_label(s.mode) + "  STEP "@ + step_size_text(s.step_size) + "  STATUS \u{25ba} "@
}

/// Text of the transport bar before the status label.
pub fn transport_text(state: &SequencerState) -> (r: String)
    ensures
        r@ == transport_chars(state@),
{
    let mut s = " BPM ".to_owned();
    push_decimal(&mut s, state.tempo_bpm as u64);
    push_str(&mut s, "  KEY ");
    push_str(&mut s, key_name(state.key).as_str());
    push_str(&mut s, "  MODE ");
    push_str(&mut s, mode_name(state.mode).as_str());
    push_str(&mut s, "  STEP ");
    push_str(&mut s, step_size_label(state.step_size).as_str());
    push_str(&mut s, "  STATUS \u{25ba} ");
    s
}

/// The 1-indexed number of step `i`, two digits wide with a leading zero.
pub open spec fn step_number_chars(i: usize) -> Seq<char> {
    if i + 1 < 10 {
        seq!['0'] + decimal_chars((i + 1) as nat)
    } else {
        decimal_chars((i + 1) as nat)
    }
}

/// Text of the number on the card of step `i`.
pub fn step_number_text(i: usize) -> (r: String)
    requires
        i < 16,
    ensures
        r@ == step_number_chars(i),
{
    let mut s = String::new();
    if i + 1 < 10 {
        push_str(&mut s, "0");
        proof {
            reveal_strlit("0");
        }
    }
    push_decimal(&mut s, (i + 1) as u64);
    s
}

/// The enabled indicator of a step card.
pub open spec fn step_dot_chars(enabled: bool) -> Seq<char> {
    if enabled {
        "\u{25cf}"@
    } else {
        "\u{25cb}"@
    }
}

/// Text of the enabled indicator of a step card.
pub fn step_dot_text(enabled: bool) -> (r: String)
    ensures
        r@ == step_dot_chars(enabled),
{
    if enabled {
        "\u{25cf}".to_owned()
    } else {
        "\u{25cb}".to_owned()
    }
}

/// The label of F2 param `i`.
pub open spec fn seq_param_label(i: u8) -> Seq<char> {
    if i == 0 {
        "KEY"@
    } else if i == 1 {
        "MODE"@
    } else if i == 2 {
        "SWING"@
    } else if i == 3 {
        "STEP"@
    } else if i == 4 {
        "L.IN"@
    } else if i == 5 {
        "L.OUT"@
    } else if i == 6 {
        "PAUSE"@
    } else {
        "PLAY"@
    }
}

/// The label of F3 param `i`.
pub open spec fn rand_param_label(i: u8) -> Seq<char> {
    if i == 0 {
        "N.RND"@
    } else if i == 1 {
        "T.RND"@
    } else if i == 2 {
        "ROLL"@
    } else if i == 3 {
        "V.MAX"@
    } else if i == 4 {
        "T.TYPE"@
    } else if i == 5 {
        "S.RND"@
    } else if i == 6 {
        "S.QUANT"@
    } else {
        "SEED"@
    }
}

/// A param cell: ` LABEL:value `.
pub open spec fn cell_chars(label: Seq<char>, value: Seq<char>) -> Seq<char> {
    " "@ + label + ":"@ + value + " "@
}

fn cell_text(label: &str, value: &str) -> (r: String)
    ensures
        r@ == cell_chars(label@, value@),
{
    let mut s = " ".to_owned();
    push_str(&mut s, label);
    push_str(&mut s, ":");
    push_str(&mut s, value);
    push_str(&mut s, " ");
    s
}

fn seq_param_label_text(i: u8) -> (r: String)
    ensures
        r@ == seq_param_label(i),
{
    if i == 0 {
        "KEY".to_owned()
    } else if i == 1 {
        "MODE".to_owned()
    } else if i == 2 {
        "SWING".to_owned()
    } else if i == 3 {
        "STEP".to_owned()
    } else if i == 4 {
        "L.IN".to_owned()
    } else if i == 5 {
        "L.OUT".to_owned()
    } else if i == 6 {
        "PAUSE".to_owned()
    } else {
        "PLAY".to_owned()
    }
}

fn rand_param_label_text(i: u8) -> (r: String)
    ensures
        r@ == rand_param_label(i),
{
    if i == 0 {
        "N.RND".to_owned()
    } else if i == 1 {
        "T.RND".to_owned()
    } else if i == 2 {
        "ROLL".to_owned()
    } else if i == 3 {
        "V.MAX".to_owned()
    } else if i == 4 {
        "T.TYPE".to_owned()
    } else if i == 5 {
        "S.RND".to_owned()
    } else if i == 6 {
        "S.QUANT".to_owned()
    } else {
        "SEED".to_owned()
    }
}

/// Text of F2 param cell `i`.
pub fn seq_param_cell(state: &SequencerState, i: u8) -> (r: String)
    ensures
        r@ == cell_chars(seq_param_label(i), param_text(state@, i)),
{
    let label = seq_param_label_text(i);
    let value = param_value_string(state, i);
    cell_text(label.as_str(), value.as_str())
}

/// The F3 value of param `i`: the seed (index 7) in hexadecimal, at least
/// four digits, after `0x`.
pub open spec fn rand_cell_value(s: StateModel, i: u8) -> Seq<char> {
    if i == 7 {
        "0x"@ + hex_chars_padded(s.rand_seed as nat, 4)
    } else {
        shift_param_text(s, i)
    }
}

/// Text of F3 param cell `i`.
pub fn rand_param_cell(state: &SequencerState, i: u8) -> (r: String)
    ensures
        r@ == cell_chars(rand_param_label(i), rand_cell_value(state@, i)),
{
    let label = rand_param_label_text(i);
    let value = if i == 7 {
        let mut v = "0x".to_owned();
        push_hex_padded(&mut v, state.rand_seed as u64, 4);
        v
    } else {
        shift_param_value_string(state, i)
    };
    cell_text(label.as_str(), value.as_str())
}

/// The timestamp column of a log line: the milliseconds right-aligned in
/// eight columns, in brackets.
pub open spec fn log_time_chars(ts: u64) -> Seq<char> {
    let d = decimal_chars(ts as nat);
    "["@ + Seq::new(if d.len() < 8 {
        (8 - d.len()) as nat
    } else {
        0
    }, |i: int| ' ') + d + "ms] "@
}

/// Text of the timestamp column of a log line.
pub fn log_time_text(ts: u64) -> (r: String)
    ensures
        r@ == log_time_chars(ts),
{
    let mut d = String::new();
    push_decimal(&mut d, ts);
    let n = d.as_str().unicode_len();
    let mut s = "[".to_owned();
    let ghost start = s@;
    let pad: usize = if n < 8 {
        8 - n
    } else {
        0
    };
    let mut i: usize = 0;
    while i < pad
        invariant
            i <= pad,
            s@ == start + Seq::new(i as nat, |j: int| ' '),
        decreases pad - i,
    {
        push_str(&mut s, " ");
        proof {
            reveal_strlit(" ");
        }
        i = i + 1;
        assert(s@ =~= start + Seq::new(i as nat, |j: int| ' '));
    }
    push_str(&mut s, d.as_str());
    push_str(&mut s, "ms] ");
    s
}

/// The tag column of a log line.
pub open spec fn log_tag_chars(tag: LogTag) -> Seq<char> {
    match tag {
        LogTag::Cmd => "[CMD] "@,
        LogTag::Info => "[INFO]"@,
        LogTag::Error => "[ERR] "@,
        LogTag::Midi => "[MIDI]"@,
    }
}

/// Text of the tag column of a log line.
pub fn log_tag_text(tag: LogTag) -> (r: String)
    ensures
        r@ == log_tag_chars(tag),
{
    match tag {
        LogTag::Cmd => "[CMD] ".to_owned(),
        LogTag::Info => "[INFO]".to_owned(),
        LogTag::Error => "[ERR] ".to_owned(),
        LogTag::Midi => "[MIDI]".to_owned(),
    }
}

/// How many of `log_len` log entries are skipped so the last `rows` fit.
pub fn log_skip(log_len: usize, rows: usize) -> (r: usize)
    ensures
        r == (if log_len > rows {
            log_len - rows
        } else {
            0
        }),
{
    if log_len > rows {
        log_len - rows
    } else {
        0
    }
}

// ── Palette roles ─────────────────────────────────────────────────────────────

/// The palette roles the front end draws with; it maps each to a colour.
#[derive(Clone, Copy, Debug, PartialEq, Eq, Structural)]
pub enum Tone {
    /// Secondary text.
    Gray,
    /// Unfocused borders, disabled steps, separators.
    DimCyan,
    /// Focused borders, enabled steps, the paused status.
    Cyan,
    /// The playhead, the selected step and the selected parameter.
    Magenta,
    /// The playing status.
    Green,
    /// Informational log tags.
    White,
    /// Error log tags.
    Red,
    /// The terminal's own colour (the stopped status).
    Plain,
}

/// The tone of step card `i`: the playhead first, then enabled or disabled.
pub open spec fn step_tone_spec(playhead: u8, i: usize, enabled: bool) -> Tone {
    if playhead as int == i as int {
        Tone::Magenta
    } else if enabled {
        Tone::Cyan
    } else {
        Tone::DimCyan
    }
}

/// Tone of the note and dot of step card `i`.
pub fn step_tone(playhead: u8, i: usize, enabled: bool) -> (t: Tone)
    ensures
        t == step_tone_spec(playhead, i, enabled),
{
    if playhead as usize == i {
        Tone::Magenta
    } else if enabled {
        Tone::Cyan
    } else {
        Tone::DimCyan
    }
}

/// Tone of the border of step card `i`: the selected card stands out,
/// the others take the tone of their step.
pub fn step_border_tone(selected_step: usize, i: usize, step: Tone) -> (t: Tone)
    ensures
        t == (if selected_step == i {
            Tone::Magenta
        } else {
            step
        }),
{
    if selected_step == i {
        Tone::Magenta
    } else {
        step
    }
}

/// Tone of the transport status: playing, paused, or stopped.
pub fn status_tone(playing: bool, paused: bool) -> (t: Tone)
    ensures
        t == (if playing && !paused {
            Tone::Green
        } else if paused {
            Tone::Cyan
        } else {
            Tone::Plain
        }),
{
    if playing && !paused {
        Tone::Green
    } else if paused {
        Tone::Cyan
    } else {
        Tone::Plain
    }
}

/// Tone of a panel border: bright when the panel has focus.
pub fn panel_border_tone(focused: bool) -> (t: Tone)
    ensures
        t == (if focused {
            Tone::Cyan
        } else {
            Tone::DimCyan
        }),
{
    if focused {
        Tone::Cyan
    } else {
        Tone::DimCyan
    }
}

/// Tone of a parameter cell: highlighted (and drawn bold) only when its
/// panel has focus and the cell is the selected one.
pub fn param_cell_tone(focused: bool, idx: u8, selected: u8) -> (t: Tone)
    ensures
        t == (if focused && idx == selected {
            Tone::Magenta
        } else {
            Tone::Gray
        }),
{
    if focused && idx == selected {
        Tone::Magenta
    } else {
        Tone::Gray
    }
}

/// Tone of a log tag.
pub open spec fn log_tag_tone_spec(tag: LogTag) -> Tone {
    match tag {
        LogTag::Cmd => Tone::Cyan,
        LogTag::Midi => Tone::Cyan,
        LogTag::Info => Tone::White,
        LogTag::Error => Tone::Red,
    }
}

/// Tone of the tag column of a log line.
pub fn log_tag_tone(tag: LogTag) -> (t: Tone)
    ensures
        t == log_tag_tone_spec(tag),
{
    match tag {
        LogTag::Cmd => Tone::Cyan,
        LogTag::Midi => Tone::Cyan,
        LogTag::Info => Tone::White,
        LogTag::Error => Tone::Red,
    }
}

} // verus!
