//! Pattern and song data model: snapshots of the sequencer state with its
//! enums stored by name, and applying a snapshot back onto a state.
//!
//! Files are written as TOML under `~/.config/midi-man-mk3/patterns/` and
//! `~/.config/midi-man-mk3/songs/` by the caller; this module holds the
//! data and its conversions.

use vstd::prelude::*;

use crate::music_theory::{Key, Mode};
use crate::state::{SequencerState, StateModel, StepData, StepSize, TempoRandType, TempoRollPoint};
use crate::text::{push_str, str_eq};

verus! {

// ── Structs ──────────────────────────────────────────────────────────────────

/// Serializable snapshot of a single sequencer step.
#[derive(Clone, Copy, Debug, PartialEq, Eq, Structural)]
pub struct StepDataSerial {
    pub enabled: bool,
    pub midi_note: u8,
    pub velocity: u8,
}

/// Serializable snapshot of a full `SequencerState`.
#[derive(Clone, Debug)]
pub struct PatternData {
    pub name: String,
    /// Exactly 16 elements.
    pub steps: Vec<StepDataSerial>,
    /// Key as a string, e.g. "C", "Cs".
    pub key: String,
    /// Mode as a string, e.g. "Major", "NaturalMinor".
    pub mode: String,
    pub tempo_bpm: u16,
    pub swing: i8,
    /// Step size as a string, e.g. "1/16", "1/8".
    pub step_size: String,
    pub loop_in: u8,
    pub loop_out: u8,
    pub loop_active: bool,
    pub midi_channel: u8,
    pub scale_quant: bool,
    pub note_modifier: i8,
    pub velocity_modifier: i8,
    pub skip_modifier: bool,
    pub tempo_rand: u8,
    /// TempoRollPoint as a string, e.g. "Off", "Step".
    pub tempo_roll_point: String,
    pub tempo_variance_max: u8,
    /// TempoRandType as a string, e.g. "Random", "PingPong".
    pub tempo_rand_type: String,
    pub step_rand: u8,
    pub note_rand: u8,
}

/// A reference to a pattern file within a song, with a repeat count.
#[derive(Clone, Debug)]
pub struct PatternRef {
    /// Filename only, e.g. "verse-A.pat.toml".
    pub filename: String,
    /// Number of times to play the pattern (1 = play once).
    pub repeats: u8,
}

/// An ordered list of pattern references forming a song.
#[derive(Clone, Debug)]
pub struct Song {
    pub name: String,
    pub slots: Vec<PatternRef>,
}

// ── Enum conversion helpers ───────────────────────────────────────────────────

/// The name a key is stored under.
pub open spec fn key_name(k: Key) -> Seq<char> {
    match k {
        Key::C => "C"@,
        Key::Cs => "Cs"@,
        Key::D => "D"@,
        Key::Ds => "Ds"@,
        Key::E => "E"@,
        Key::F => "F"@,
        Key::Fs => "Fs"@,
        Key::G => "G"@,
        Key::Gs => "Gs"@,
        Key::A => "A"@,
        Key::As => "As"@,
        Key::B => "B"@,
    }
}

/// The key stored under `s`, if any.
pub open spec fn key_from_name(s: Seq<char>) -> Option<Key> {
    if s == "C"@ {
        Some(Key::C)
    } else if s == "Cs"@ {
        Some(Key::Cs)
    } else if s == "D"@ {
        Some(Key::D)
    } else if s == "Ds"@ {
        Some(Key::Ds)
    } else if s == "E"@ {
        Some(Key::E)
    } else if s == "F"@ {
        Some(Key::F)
    } else if s == "Fs"@ {
        Some(Key::Fs)
    } else if s == "G"@ {
        Some(Key::G)
    } else if s == "Gs"@ {
        Some(Key::Gs)
    } else if s == "A"@ {
        Some(Key::A)
    } else if s == "As"@ {
        Some(Key::As)
    } else if s == "B"@ {
        Some(Key::B)
    } else {
        None
    }
}

/// The stored name of a key.
pub fn key_to_str(k: Key) -> (r: String)
    ensures
        r@ == key_name(k),
{
    match k {
        Key::C => "C".to_owned(),
        Key::Cs => "Cs".to_owned(),
        Key::D => "D".to_owned(),
        Key::Ds => "Ds".to_owned(),
        Key::E => "E".to_owned(),
        Key::F => "F".to_owned(),
        Key::Fs => "Fs".to_owned(),
        Key::G => "G".to_owned(),
        Key::Gs => "Gs".to_owned(),
        Key::A => "A".to_owned(),
        Key::As => "As".to_owned(),
        Key::B => "B".to_owned(),
    }
}

/// Parse a stored key name.
pub fn str_to_key(s: &str) -> (r: Result<Key, String>)
    ensures
        match key_from_name(s@) {
            Some(v) => r == Ok::<Key, String>(v),
            None => (r matches Err(e) && e@ == "unrecognized key: "@ + s@),
        },
{
    if str_eq(s, "C") {
        Ok(Key::C)
    } else if str_eq(s, "Cs") {
        Ok(Key::Cs)
    } else if str_eq(s, "D") {
        Ok(Key::D)
    } else if str_eq(s, "Ds") {
        Ok(Key::Ds)
    } else if str_eq(s, "E") {
        Ok(Key::E)
    } else if str_eq(s, "F") {
        Ok(Key::F)
    } else if str_eq(s, "Fs") {
        Ok(Key::Fs)
    } else if str_eq(s, "G") {
        Ok(Key::G)
    } else if str_eq(s, "Gs") {
        Ok(Key::Gs)
    } else if str_eq(s, "A") {
        Ok(Key::A)
    } else if str_eq(s, "As") {
        Ok(Key::As)
    } else if str_eq(s, "B") {
        Ok(Key::B)
    } else {
        let mut e = "unrecognized key: ".to_owned();
        push_str(&mut e, s);
        Err(e)
    }
}

/// Reading back the stored name of a key gives it again, and a name
/// that reads as a key is that key's stored name.
pub proof fn law_key_name_roundtrip(k: Key, s: Seq<char>)
    ensures
        key_from_name(key_name(k)) == Some(k),
        key_from_name(s) matches Some(v) ==> key_name(v) == s,
{
    reveal_strlit("C");
    assert("C"@ =~= seq!['C']);
    reveal_strlit("Cs");
    assert("Cs"@ =~= seq!['C', 's']);
    reveal_strlit("D");
    assert("D"@ =~= seq!['D']);
    reveal_strlit("Ds");
    assert("Ds"@ =~= seq!['D', 's']);
    reveal_strlit("E");
    assert("E"@ =~= seq!['E']);
    reveal_strlit("F");
    assert("F"@ =~= seq!['F']);
    reveal_strlit("Fs");
    assert("Fs"@ =~= seq!['F', 's']);
    reveal_strlit("G");
    assert("G"@ =~= seq!['G']);
    reveal_strlit("Gs");
    assert("Gs"@ =~= seq!['G', 's']);
    reveal_strlit("A");
    assert("A"@ =~= seq!['A']);
    reveal_strlit("As");
    assert("As"@ =~= seq!['A', 's']);
    reveal_strlit("B");
    assert("B"@ =~= seq!['B']);
    match k {
        Key::C => {
            assert(key_name(k) == "C"@);
        },
        Key::Cs => {
            assert("Cs"@.len() != "C"@.len());
            assert(key_name(k) == "Cs"@);
        },
        Key::D => {
            assert("D"@[0] != "C"@[0]);
            assert("D"@.len() != "Cs"@.len());
            assert(key_name(k) == "D"@);
        },
        Key::Ds => {
            assert("Ds"@.len() != "C"@.len());
            assert("Ds"@[0] != "Cs"@[0]);
            assert("Ds"@.len() != "D"@.len());
            assert(key_name(k) == "Ds"@);
        },
        Key::E => {
            assert("E"@[0] != "C"@[0]);
            assert("E"@.len() != "Cs"@.len());
            assert("E"@[0] != "D"@[0]);
            assert("E"@.len() != "Ds"@.len());
            assert(key_name(k) == "E"@);
        },
        Key::F => {
            assert("F"@[0] != "C"@[0]);
            assert("F"@.len() != "Cs"@.len());
            assert("F"@[0] != "D"@[0]);
            assert("F"@.len() != "Ds"@.len());
            assert("F"@[0] != "E"@[0]);
            assert(key_name(k) == "F"@);
        },
        Key::Fs => {
            assert("Fs"@.len() != "C"@.len());
            assert("Fs"@[0] != "Cs"@[0]);
            assert("Fs"@.len() != "D"@.len());
            assert("Fs"@[0] != "Ds"@[0]);
            assert("Fs"@.len() != "E"@.len());
            assert("Fs"@.len() != "F"@.len());
            assert(key_name(k) == "Fs"@);
        },
        Key::G => {
            assert("G"@[0] != "C"@[0]);
            assert("G"@.len() != "Cs"@.len());
            assert("G"@[0] != "D"@[0]);
            assert("G"@.len() != "Ds"@.len());
            assert("G"@[0] != "E"@[0]);
            assert("G"@[0] != "F"@[0]);
            assert("G"@.len() != "Fs"@.len());
            assert(key_name(k) == "G"@);
        },
        Key::Gs => {
            assert("Gs"@.len() != "C"@.len());
            assert("Gs"@[0] != "Cs"@[0]);
            assert("Gs"@.len() != "D"@.len());
            assert("Gs"@[0] != "Ds"@[0]);
            assert("Gs"@.len() != "E"@.len());
            assert("Gs"@.len() != "F"@.len());
            assert("Gs"@[0] != "Fs"@[0]);
            assert("Gs"@.len() != "G"@.len());
            assert(key_name(k) == "Gs"@);
        },
        Key::A => {
            assert("A"@[0] != "C"@[0]);
            assert("A"@.len() != "Cs"@.len());
            assert("A"@[0] != "D"@[0]);
            assert("A"@.len() != "Ds"@.len());
            assert("A"@[0] != "E"@[0]);
            assert("A"@[0] != "F"@[0]);
            assert("A"@.len() != "Fs"@.len());
            assert("A"@[0] != "G"@[0]);
            assert("A"@.len() != "Gs"@.len());
            assert(key_name(k) == "A"@);
        },
        Key::As => {
            assert("As"@.len() != "C"@.len());
            assert("As"@[0] != "Cs"@[0]);
            assert("As"@.len() != "D"@.len());
            assert("As"@[0] != "Ds"@[0]);
            assert("As"@.len() != "E"@.len());
            assert("As"@.len() != "F"@.len());
            assert("As"@[0] != "Fs"@[0]);
            assert("As"@.len() != "G"@.len());
            assert("As"@[0] != "Gs"@[0]);
            assert("As"@.len() != "A"@.len());
            assert(key_name(k) == "As"@);
        },
        Key::B => {
            assert("B"@[0] != "C"@[0]);
            assert("B"@.len() != "Cs"@.len());
            assert("B"@[0] != "D"@[0]);
            assert("B"@.len() != "Ds"@.len());
            assert("B"@[0] != "E"@[0]);
            assert("B"@[0] != "F"@[0]);
            assert("B"@.len() != "Fs"@.len());
            assert("B"@[0] != "G"@[0]);
            assert("B"@.len() != "Gs"@.len());
            assert("B"@[0] != "A"@[0]);
            assert("B"@.len() != "As"@.len());
            assert(key_name(k) == "B"@);
        },
    }
}

/// The name a mode is stored under.
pub open spec fn mode_name(m: Mode) -> Seq<char> {
    match m {
        Mode::Major => "Major"@,
        Mode::NaturalMinor => "NaturalMinor"@,
        Mode::Dorian => "Dorian"@,
        Mode::Phrygian => "Phrygian"@,
        Mode::Lydian => "Lydian"@,
        Mode::Mixolydian => "Mixolydian"@,
        Mode::Locrian => "Locrian"@,
        Mode::HarmonicMinor => "HarmonicMinor"@,
        Mode::MelodicMinor => "MelodicMinor"@,
    }
}

/// The mode stored under `s`, if any.
pub open spec fn mode_from_name(s: Seq<char>) -> Option<Mode> {
    if s == "Major"@ {
        Some(Mode::Major)
    } else if s == "NaturalMinor"@ {
        Some(Mode::NaturalMinor)
    } else if s == "Dorian"@ {
        Some(Mode::Dorian)
    } else if s == "Phrygian"@ {
        Some(Mode::Phrygian)
    } else if s == "Lydian"@ {
        Some(Mode::Lydian)
    } else if s == "Mixolydian"@ {
        Some(Mode::Mixolydian)
    } else if s == "Locrian"@ {
        Some(Mode::Locrian)
    } else if s == "HarmonicMinor"@ {
        Some(Mode::HarmonicMinor)
    } else if s == "MelodicMinor"@ {
        Some(Mode::MelodicMinor)
    } else {
        None
    }
}

/// The stored name of a mode.
pub fn mode_to_str(m: Mode) -> (r: String)
    ensures
        r@ == mode_name(m),
{
    match m {
        Mode::Major => "Major".to_owned(),
        Mode::NaturalMinor => "NaturalMinor".to_owned(),
        Mode::Dorian => "Dorian".to_owned(),
        Mode::Phrygian => "Phrygian".to_owned(),
        Mode::Lydian => "Lydian".to_owned(),
        Mode::Mixolydian => "Mixolydian".to_owned(),
        Mode::Locrian => "Locrian".to_owned(),
        Mode::HarmonicMinor => "HarmonicMinor".to_owned(),
        Mode::MelodicMinor => "MelodicMinor".to_owned(),
    }
}

/// Parse a stored mode name.
pub fn str_to_mode(s: &str) -> (r: Result<Mode, String>)
    ensures
        match mode_from_name(s@) {
            Some(v) => r == Ok::<Mode, String>(v),
            None => (r matches Err(e) && e@ == "unrecognized mode: "@ + s@),
        },
{
    if str_eq(s, "Major") {
        Ok(Mode::Major)
    } else if str_eq(s, "NaturalMinor") {
        Ok(Mode::NaturalMinor)
    } else if str_eq(s, "Dorian") {
        Ok(Mode::Dorian)
    } else if str_eq(s, "Phrygian") {
        Ok(Mode::Phrygian)
    } else if str_eq(s, "Lydian") {
        Ok(Mode::Lydian)
    } else if str_eq(s, "Mixolydian") {
        Ok(Mode::Mixolydian)
    } else if str_eq(s, "Locrian") {
        Ok(Mode::Locrian)
    } else if str_eq(s, "HarmonicMinor") {
        Ok(Mode::HarmonicMinor)
    } else if str_eq(s, "MelodicMinor") {
        Ok(Mode::MelodicMinor)
    } else {
        let mut e = "unrecognized mode: ".to_owned();
        push_str(&mut e, s);
        Err(e)
    }
}

/// Reading back the stored name of a mode gives it again, and a name
/// that reads as a mode is that mode's stored name.
pub proof fn law_mode_name_roundtrip(m: Mode, s: Seq<char>)
    ensures
        mode_from_name(mode_name(m)) == Some(m),
        mode_from_name(s) matches Some(v) ==> mode_name(v) == s,
{
    reveal_strlit("Major");
    assert("Major"@ =~= seq!['M', 'a', 'j', 'o', 'r']);
    reveal_strlit("NaturalMinor");
    assert("NaturalMinor"@ =~= seq!['N', 'a', 't', 'u', 'r', 'a', 'l', 'M', 'i', 'n', 'o', 'r']);
    reveal_strlit("Dorian");
    assert("Dorian"@ =~= seq!['D', 'o', 'r', 'i', 'a', 'n']);
    reveal_strlit("Phrygian");
    assert("Phrygian"@ =~= seq!['P', 'h', 'r', 'y', 'g', 'i', 'a', 'n']);
    reveal_strlit("Lydian");
    assert("Lydian"@ =~= seq!['L', 'y', 'd', 'i', 'a', 'n']);
    reveal_strlit("Mixolydian");
    assert("Mixolydian"@ =~= seq!['M', 'i', 'x', 'o', 'l', 'y', 'd', 'i', 'a', 'n']);
    reveal_strlit("Locrian");
    assert("Locrian"@ =~= seq!['L', 'o', 'c', 'r', 'i', 'a', 'n']);
    reveal_strlit("HarmonicMinor");
    assert("HarmonicMinor"@ =~= seq!['H', 'a', 'r', 'm', 'o', 'n', 'i', 'c', 'M', 'i', 'n', 'o', 'r']);
    reveal_strlit("MelodicMinor");
    assert("MelodicMinor"@ =~= seq!['M', 'e', 'l', 'o', 'd', 'i', 'c', 'M', 'i', 'n', 'o', 'r']);
    match m {
        Mode::Major => {
            assert(mode_name(m) == "Major"@);
        },
        Mode::NaturalMinor => {
            assert("NaturalMinor"@.len() != "Major"@.len());
            assert(mode_name(m) == "NaturalMinor"@);
        },
        Mode::Dorian => {
            assert("Dorian"@.len() != "Major"@.len());
            assert("Dorian"@.len() != "NaturalMinor"@.len());
            assert(mode_name(m) == "Dorian"@);
        },
        Mode::Phrygian => {
            assert("Phrygian"@.len() != "Major"@.len());
            assert("Phrygian"@.len() != "NaturalMinor"@.len());
            assert("Phrygian"@.len() != "Dorian"@.len());
            assert(mode_name(m) == "Phrygian"@);
        },
        Mode::Lydian => {
            assert("Lydian"@.len() != "Major"@.len());
            assert("Lydian"@.len() != "NaturalMinor"@.len());
            assert("Lydian"@[0] != "Dorian"@[0]);
            assert("Lydian"@.len() != "Phrygian"@.len());
            assert(mode_name(m) == "Lydian"@);
        },
        Mode::Mixolydian => {
            assert("Mixolydian"@.len() != "Major"@.len());
            assert("Mixolydian"@.len() != "NaturalMinor"@.len());
            assert("Mixolydian"@.len() != "Dorian"@.len());
            assert("Mixolydian"@.len() != "Phrygian"@.len());
            assert("Mixolydian"@.len() != "Lydian"@.len());
            assert(mode_name(m) == "Mixolydian"@);
        },
        Mode::Locrian => {
            assert("Locrian"@.len() != "Major"@.len());
            assert("Locrian"@.len() != "NaturalMinor"@.len());
            assert("Locrian"@.len() != "Dorian"@.len());
            assert("Locrian"@.len() != "Phrygian"@.len());
            assert("Locrian"@.len() != "Lydian"@.len());
            assert("Locrian"@.len() != "Mixolydian"@.len());
            assert(mode_name(m) == "Locrian"@);
        },
        Mode::HarmonicMinor => {
            assert("HarmonicMinor"@.len() != "Major"@.len());
            assert("HarmonicMinor"@.len() != "NaturalMinor"@.len());
            assert("HarmonicMinor"@.len() != "Dorian"@.len());
            assert("HarmonicMinor"@.len() != "Phrygian"@.len());
            assert("HarmonicMinor"@.len() != "Lydian"@.len());
            assert("HarmonicMinor"@.len() != "Mixolydian"@.len());
            assert("HarmonicMinor"@.len() != "Locrian"@.len());
            assert(mode_name(m) == "HarmonicMinor"@);
        },
        Mode::MelodicMinor => {
            assert("MelodicMinor"@.len() != "Major"@.len());
            assert("MelodicMinor"@[0] != "NaturalMinor"@[0]);
            assert("MelodicMinor"@.len() != "Dorian"@.len());
            assert("MelodicMinor"@.len() != "Phrygian"@.len());
            assert("MelodicMinor"@.len() != "Lydian"@.len());
            assert("MelodicMinor"@.len() != "Mixolydian"@.len());
            assert("MelodicMinor"@.len() != "Locrian"@.len());
            assert("MelodicMinor"@.len() != "HarmonicMinor"@.len());
            assert(mode_name(m) == "MelodicMinor"@);
        },
    }
}

/// The name a step size is stored under.
pub open spec fn step_size_name(sz: StepSize) -> Seq<char> {
    match sz {
        StepSize::Whole => "1/1"@,
        StepSize::Half => "1/2"@,
        StepSize::Quarter => "1/4"@,
        StepSize::Eighth => "1/8"@,
        StepSize::Sixteenth => "1/16"@,
        StepSize::ThirtySecond => "1/32"@,
    }
}

/// The step size stored under `s`, if any.
pub open spec fn step_size_from_name(s: Seq<char>) -> Option<StepSize> {
    if s == "1/1"@ {
        Some(StepSize::Whole)
    } else if s == "1/2"@ {
        Some(StepSize::Half)
    } else if s == "1/4"@ {
        Some(StepSize::Quarter)
    } else if s == "1/8"@ {
        Some(StepSize::Eighth)
    } else if s == "1/16"@ {
        Some(StepSize::Sixteenth)
    } else if s == "1/32"@ {
        Some(StepSize::ThirtySecond)
    } else {
        None
    }
}

/// The stored name of a step size.
pub fn step_size_to_str(sz: StepSize) -> (r: String)
    ensures
        r@ == step_size_name(sz),
{
    match sz {
        StepSize::Whole => "1/1".to_owned(),
        StepSize::Half => "1/2".to_owned(),
        StepSize::Quarter => "1/4".to_owned(),
        StepSize::Eighth => "1/8".to_owned(),
        StepSize::Sixteenth => "1/16".to_owned(),
        StepSize::ThirtySecond => "1/32".to_owned(),
    }
}

/// Parse a stored step size name.
pub fn str_to_step_size(s: &str) -> (r: Result<StepSize, String>)
    ensures
        match step_size_from_name(s@) {
            Some(v) => r == Ok::<StepSize, String>(v),
            None => (r matches Err(e) && e@ == "unrecognized step_size: "@ + s@),
        },
{
    if str_eq(s, "1/1") {
        Ok(StepSize::Whole)
    } else if str_eq(s, "1/2") {
        Ok(StepSize::Half)
    } else if str_eq(s, "1/4") {
        Ok(StepSize::Quarter)
    } else if str_eq(s, "1/8") {
        Ok(StepSize::Eighth)
    } else if str_eq(s, "1/16") {
        Ok(StepSize::Sixteenth)
    } else if str_eq(s, "1/32") {
        Ok(StepSize::ThirtySecond)
    } else {
        let mut e = "unrecognized step_size: ".to_owned();
        push_str(&mut e, s);
        Err(e)
    }
}

/// Reading back the stored name of a step size gives it again, and a name
/// that reads as a step size is that step size's stored name.
pub proof fn law_step_size_name_roundtrip(sz: StepSize, s: Seq<char>)
    ensures
        step_size_from_name(step_size_name(sz)) == Some(sz),
        step_size_from_name(s) matches Some(v) ==> step_size_name(v) == s,
{
    reveal_strlit("1/1");
    assert("1/1"@ =~= seq!['1', '/', '1']);
    reveal_strlit("1/2");
    assert("1/2"@ =~= seq!['1', '/', '2']);
    reveal_strlit("1/4");
    assert("1/4"@ =~= seq!['1', '/', '4']);
    reveal_strlit("1/8");
    assert("1/8"@ =~= seq!['1', '/', '8']);
    reveal_strlit("1/16");
    assert("1/16"@ =~= seq!['1', '/', '1', '6']);
    reveal_strlit("1/32");
    assert("1/32"@ =~= seq!['1', '/', '3', '2']);
    match sz {
        StepSize::Whole => {
            assert(step_size_name(sz) == "1/1"@);
        },
        StepSize::Half => {
            assert("1/2"@[2] != "1/1"@[2]);
            assert(step_size_name(sz) == "1/2"@);
        },
        StepSize::Quarter => {
            assert("1/4"@[2] != "1/1"@[2]);
            assert("1/4"@[2] != "1/2"@[2]);
            assert(step_size_name(sz) == "1/4"@);
        },
        StepSize::Eighth => {
            assert("1/8"@[2] != "1/1"@[2]);
            assert("1/8"@[2] != "1/2"@[2]);
            assert("1/8"@[2] != "1/4"@[2]);
            assert(step_size_name(sz) == "1/8"@);
        },
        StepSize::Sixteenth => {
            assert("1/16"@.len() != "1/1"@.len());
            assert("1/16"@.len() != "1/2"@.len());
            assert("1/16"@.len() != "1/4"@.len());
            assert("1/16"@.len() != "1/8"@.len());
            assert(step_size_name(sz) == "1/16"@);
        },
        StepSize::ThirtySecond => {
            assert("1/32"@.len() != "1/1"@.len());
            assert("1/32"@.len() != "1/2"@.len());
            assert("1/32"@.len() != "1/4"@.len());
            assert("1/32"@.len() != "1/8"@.len());
            assert("1/32"@[2] != "1/16"@[2]);
            assert(step_size_name(sz) == "1/32"@);
        },
    }
}

/// The name a tempo roll point is stored under.
pub open spec fn tempo_roll_point_name(p: TempoRollPoint) -> Seq<char> {
    match p {
        TempoRollPoint::Off => "Off"@,
        TempoRollPoint::Step => "Step"@,
        TempoRollPoint::Beat => "Beat"@,
        TempoRollPoint::Sequence => "Seq"@,
    }
}

/// The tempo roll point stored under `s`, if any.
pub open spec fn tempo_roll_point_from_name(s: Seq<char>) -> Option<TempoRollPoint> {
    if s == "Off"@ {
        Some(TempoRollPoint::Off)
    } else if s == "Step"@ {
        Some(TempoRollPoint::Step)
    } else if s == "Beat"@ {
        Some(TempoRollPoint::Beat)
    } else if s == "Seq"@ {
        Some(TempoRollPoint::Sequence)
    } else {
        None
    }
}

/// The stored name of a tempo roll point.
pub fn tempo_roll_point_to_str(p: TempoRollPoint) -> (r: String)
    ensures
        r@ == tempo_roll_point_name(p),
{
    match p {
        TempoRollPoint::Off => "Off".to_owned(),
        TempoRollPoint::Step => "Step".to_owned(),
        TempoRollPoint::Beat => "Beat".to_owned(),
        TempoRollPoint::Sequence => "Seq".to_owned(),
    }
}

/// Parse a stored tempo roll point name.
pub fn str_to_tempo_roll_point(s: &str) -> (r: Result<TempoRollPoint, String>)
    ensures
        match tempo_roll_point_from_name(s@) {
            Some(v) => r == Ok::<TempoRollPoint, String>(v),
            None => (r matches Err(e) && e@ == "unrecognized tempo_roll_point: "@ + s@),
        },
{
    if str_eq(s, "Off") {
        Ok(TempoRollPoint::Off)
    } else if str_eq(s, "Step") {
        Ok(TempoRollPoint::Step)
    } else if str_eq(s, "Beat") {
        Ok(TempoRollPoint::Beat)
    } else if str_eq(s, "Seq") {
        Ok(TempoRollPoint::Sequence)
    } else {
        let mut e = "unrecognized tempo_roll_point: ".to_owned();
        push_str(&mut e, s);
        Err(e)
    }
}

/// Reading back the stored name of a tempo roll point gives it again, and a name
/// that reads as a tempo roll point is that tempo roll point's stored name.
pub proof fn law_tempo_roll_point_name_roundtrip(p: TempoRollPoint, s: Seq<char>)
    ensures
        tempo_roll_point_from_name(tempo_roll_point_name(p)) == Some(p),
        tempo_roll_point_from_name(s) matches Some(v) ==> tempo_roll_point_name(v) == s,
{
    reveal_strlit("Off");
    assert("Off"@ =~= seq!['O', 'f', 'f']);
    reveal_strlit("Step");
    assert("Step"@ =~= seq!['S', 't', 'e', 'p']);
    reveal_strlit("Beat");
    assert("Beat"@ =~= seq!['B', 'e', 'a', 't']);
    reveal_strlit("Seq");
    assert("Seq"@ =~= seq!['S', 'e', 'q']);
    match p {
        TempoRollPoint::Off => {
            assert(tempo_roll_point_name(p) == "Off"@);
        },
        TempoRollPoint::Step => {
            assert("Step"@.len() != "Off"@.len());
            assert(tempo_roll_point_name(p) == "Step"@);
        },
        TempoRollPoint::Beat => {
            assert("Beat"@.len() != "Off"@.len());
            assert("Beat"@[0] != "Step"@[0]);
            assert(tempo_roll_point_name(p) == "Beat"@);
        },
        TempoRollPoint::Sequence => {
            assert("Seq"@[0] != "Off"@[0]);
            assert("Seq"@.len() != "Step"@.len());
            assert("Seq"@.len() != "Beat"@.len());
            assert(tempo_roll_point_name(p) == "Seq"@);
        },
    }
}

/// The name a tempo randomness shape is stored under.
pub open spec fn tempo_rand_type_name(t: TempoRandType) -> Seq<char> {
    match t {
        TempoRandType::Random => "Random"@,
        TempoRandType::Up => "Up"@,
        TempoRandType::Down => "Down"@,
        TempoRandType::Breathe => "Breathe"@,
        TempoRandType::PingPong => "PingPong"@,
    }
}

/// The tempo randomness shape stored under `s`, if any.
pub open spec fn tempo_rand_type_from_name(s: Seq<char>) -> Option<TempoRandType> {
    if s == "Random"@ {
        Some(TempoRandType::Random)
    } else if s == "Up"@ {
        Some(TempoRandType::Up)
    } else if s == "Down"@ {
        Some(TempoRandType::Down)
    } else if s == "Breathe"@ {
        Some(TempoRandType::Breathe)
    } else if s == "PingPong"@ {
        Some(TempoRandType::PingPong)
    } else {
        None
    }
}

/// The stored name of a tempo randomness shape.
pub fn tempo_rand_type_to_str(t: TempoRandType) -> (r: String)
    ensures
        r@ == tempo_rand_type_name(t),
{
    match t {
        TempoRandType::Random => "Random".to_owned(),
        TempoRandType::Up => "Up".to_owned(),
        TempoRandType::Down => "Down".to_owned(),
        TempoRandType::Breathe => "Breathe".to_owned(),
        TempoRandType::PingPong => "PingPong".to_owned(),
    }
}

/// Parse a stored tempo randomness shape name.
pub fn str_to_tempo_rand_type(s: &str) -> (r: Result<TempoRandType, String>)
    ensures
        match tempo_rand_type_from_name(s@) {
            Some(v) => r == Ok::<TempoRandType, String>(v),
            None => (r matches Err(e) && e@ == "unrecognized tempo_rand_type: "@ + s@),
        },
{
    if str_eq(s, "Random") {
        Ok(TempoRandType::Random)
    } else if str_eq(s, "Up") {
        Ok(TempoRandType::Up)
    } else if str_eq(s, "Down") {
        Ok(TempoRandType::Down)
    } else if str_eq(s, "Breathe") {
        Ok(TempoRandType::Breathe)
    } else if str_eq(s, "PingPong") {
        Ok(TempoRandType::PingPong)
    } else {
        let mut e = "unrecognized tempo_rand_type: ".to_owned();
        push_str(&mut e, s);
        Err(e)
    }
}

/// Reading back the stored name of a tempo randomness shape gives it again, and a name
/// that reads as a tempo randomness shape is that tempo randomness shape's stored name.
pub proof fn law_tempo_rand_type_name_roundtrip(t: TempoRandType, s: Seq<char>)
    ensures
        tempo_rand_type_from_name(tempo_rand_type_name(t)) == Some(t),
        tempo_rand_type_from_name(s) matches Some(v) ==> tempo_rand_type_name(v) == s,
{
    reveal_strlit("Random");
    assert("Random"@ =~= seq!['R', 'a', 'n', 'd', 'o', 'm']);
    reveal_strlit("Up");
    assert("Up"@ =~= seq!['U', 'p']);
    reveal_strlit("Down");
    assert("Down"@ =~= seq!['D', 'o', 'w', 'n']);
    reveal_strlit("Breathe");
    assert("Breathe"@ =~= seq!['B', 'r', 'e', 'a', 't', 'h', 'e']);
    reveal_strlit("PingPong");
    assert("PingPong"@ =~= seq!['P', 'i', 'n', 'g', 'P', 'o', 'n', 'g']);
    match t {
        TempoRandType::Random => {
            assert(tempo_rand_type_name(t) == "Random"@);
        },
        TempoRandType::Up => {
            assert("Up"@.len() != "Random"@.len());
            assert(tempo_rand_type_name(t) == "Up"@);
        },
        TempoRandType::Down => {
            assert("Down"@.len() != "Random"@.len());
            assert("Down"@.len() != "Up"@.len());
            assert(tempo_rand_type_name(t) == "Down"@);
        },
        TempoRandType::Breathe => {
            assert("Breathe"@.len() != "Random"@.len());
            assert("Breathe"@.len() != "Up"@.len());
            assert("Breathe"@.len() != "Down"@.len());
            assert(tempo_rand_type_name(t) == "Breathe"@);
        },
        TempoRandType::PingPong => {
            assert("PingPong"@.len() != "Random"@.len());
            assert("PingPong"@.len() != "Up"@.len());
            assert("PingPong"@.len() != "Down"@.len());
            assert("PingPong"@.len() != "Breathe"@.len());
            assert(tempo_rand_type_name(t) == "PingPong"@);
        },
    }
}
// ── Conversion helpers ────────────────────────────────────────────────────────

/// The stored form of a step.
pub open spec fn step_serial(st: StepData) -> StepDataSerial {
    StepDataSerial { enabled: st.enabled, midi_note: st.midi_note, velocity: st.velocity }
}

/// `d` is the snapshot of `s` under `name`: every stored field is the
/// state's, and the enums are stored by name.
pub open spec fn is_snapshot_of(d: PatternData, s: StateModel, name: Seq<char>) -> bool {
    &&& d.name@ == name
    &&& d.steps@.len() == s.steps.len()
    &&& forall|i: int| 0 <= i < s.steps.len() ==> #[trigger] d.steps@[i] == step_serial(s.steps[i])
    &&& d.key@ == key_name(s.key)
    &&& d.mode@ == mode_name(s.mode)
    &&& d.tempo_bpm == s.tempo_bpm
    &&& d.swing == s.swing
    &&& d.step_size@ == step_size_name(s.step_size)
    &&& d.loop_in == s.loop_in
    &&& d.loop_out == s.loop_out
    &&& d.loop_active == s.loop_active
    &&& d.midi_channel == s.midi_channel
    &&& d.scale_quant == s.scale_quant
    &&& d.note_modifier == s.note_modifier
    &&& d.velocity_modifier == s.velocity_modifier
    &&& d.skip_modifier == s.skip_modifier
    &&& d.tempo_rand == s.tempo_rand
    &&& d.tempo_roll_point@ == tempo_roll_point_name(s.tempo_roll_point)
    &&& d.tempo_variance_max == s.tempo_variance_max
    &&& d.tempo_rand_type@ == tempo_rand_type_name(s.tempo_rand_type)
    &&& d.step_rand == s.step_rand
    &&& d.note_rand == s.note_rand
}

/// Build a `PatternData` snapshot from the current `SequencerState`.
pub fn pattern_from_state(state: &SequencerState, name: &str) -> (d: PatternData)
    ensures
        is_snapshot_of(d, state@, name@),
{
    let mut steps: Vec<StepDataSerial> = Vec::new();
    let mut i: usize = 0;
    while i < 16
        invariant
            0 <= i <= 16,
            state.steps@.len() == 16,
            steps@.len() == i,
            forall|j: int| 0 <= j < i ==> #[trigger] steps@[j] == step_serial(state.steps@[j]),
        decreases 16 - i,
    {
        let s = state.steps[i];
        steps.push(StepDataSerial { enabled: s.enabled, midi_note: s.midi_note, velocity: s.velocity });
        i = i + 1;
    }
    PatternData {
        name: name.to_owned(),
        steps,
        key: key_to_str(state.key),
        mode: mode_to_str(state.mode),
        tempo_bpm: state.tempo_bpm,
        swing: state.swing,
        step_size: step_size_to_str(state.step_size),
        loop_in: state.loop_in,
        loop_out: state.loop_out,
        loop_active: state.loop_active,
        midi_channel: state.midi_channel,
        scale_quant: state.scale_quant,
        note_modifier: state.note_modifier,
        velocity_modifier: state.velocity_modifier,
        skip_modifier: state.skip_modifier,
        tempo_rand: state.tempo_rand,
        tempo_roll_point: tempo_roll_point_to_str(state.tempo_roll_point),
        tempo_variance_max: state.tempo_variance_max,
        tempo_rand_type: tempo_rand_type_to_str(state.tempo_rand_type),
        step_rand: state.step_rand,
        note_rand: state.note_rand,
    }
}

/// The steps after restoring stored steps: the first `stored.len()` steps
/// (at most all of them) take the stored values, the rest stay.
pub open spec fn restored_steps(steps: Seq<StepData>, stored: Seq<StepDataSerial>) -> Seq<StepData> {
    Seq::new(
        steps.len(),
        |i: int|
            if i < stored.len() {
                StepData {
                    enabled: stored[i].enabled,
                    midi_note: stored[i].midi_note,
                    velocity: stored[i].velocity,
                }
            } else {
                steps[i]
            },
    )
}

/// The outcome of applying `d` to `s`: the first enum name that does not
/// read (key, mode, step size, roll point, randomness shape, in that order)
/// is the error; otherwise every stored field is written.
pub open spec fn apply_pattern_spec(s: StateModel, d: PatternData) -> Result<StateModel, Seq<char>> {
    match key_from_name(d.key@) {
        None => Err("unrecognized key: "@ + d.key@),
        Some(key) => match mode_from_name(d.mode@) {
            None => Err("unrecognized mode: "@ + d.mode@),
            Some(mode) => match step_size_from_name(d.step_size@) {
                None => Err("unrecognized step_size: "@ + d.step_size@),
                Some(step_size) => match tempo_roll_point_from_name(d.tempo_roll_point@) {
                    None => Err("unrecognized tempo_roll_point: "@ + d.tempo_roll_point@),
                    Some(tempo_roll_point) => match tempo_rand_type_from_name(d.tempo_rand_type@) {
                        None => Err("unrecognized tempo_rand_type: "@ + d.tempo_rand_type@),
                        Some(tempo_rand_type) => Ok(
                            StateModel {
                                steps: restored_steps(s.steps, d.steps@),
                                key,
                                mode,
                                tempo_bpm: d.tempo_bpm,
                                swing: d.swing,
                                step_size,
                                loop_in: d.loop_in,
                                loop_out: d.loop_out,
                                loop_active: d.loop_active,
                                midi_channel: d.midi_channel,
                                scale_quant: d.scale_quant,
                                note_modifier: d.note_modifier,
                                velocity_modifier: d.velocity_modifier,
                                skip_modifier: d.skip_modifier,
                                tempo_rand: d.tempo_rand,
                                tempo_roll_point,
                                tempo_variance_max: d.tempo_variance_max,
                                tempo_rand_type,
                                step_rand: d.step_rand,
                                note_rand: d.note_rand,
                                ..s
                            },
                        ),
                    },
                },
            },
        },
    }
}

/// Apply a `PatternData` snapshot back onto a `SequencerState`.
///
/// Returns `Err` if any string-encoded enum field is unrecognized, leaving
/// the state untouched.
pub fn apply_pattern_to_state(data: &PatternData, state: &mut SequencerState) -> (r: Result<
    (),
    String,
>)
    ensures
        match apply_pattern_spec(old(state)@, *data) {
            Ok(t) => r is Ok && final(state)@ == t,
            Err(e) => (r matches Err(m) && m@ == e) && final(state)@ == old(state)@,
        },
{
    let key = match str_to_key(data.key.as_str()) {
        Ok(v) => v,
        Err(e) => return Err(e),
    };
    let mode = match str_to_mode(data.mode.as_str()) {
        Ok(v) => v,
        Err(e) => return Err(e),
    };
    let step_size = match str_to_step_size(data.step_size.as_str()) {
        Ok(v) => v,
        Err(e) => return Err(e),
    };
    let tempo_roll_point = match str_to_tempo_roll_point(data.tempo_roll_point.as_str()) {
        Ok(v) => v,
        Err(e) => return Err(e),
    };
    let tempo_rand_type = match str_to_tempo_rand_type(data.tempo_rand_type.as_str()) {
        Ok(v) => v,
        Err(e) => return Err(e),
    };
    assert(key_from_name(data.key@) == Some(key));
    assert(mode_from_name(data.mode@) == Some(mode));
    assert(step_size_from_name(data.step_size@) == Some(step_size));
    assert(tempo_roll_point_from_name(data.tempo_roll_point@) == Some(tempo_roll_point));
    assert(tempo_rand_type_from_name(data.tempo_rand_type@) == Some(tempo_rand_type));
    // Write non-enum fields first.
    state.tempo_bpm = data.tempo_bpm;
    state.swing = data.swing;
    state.loop_in = data.loop_in;
    state.loop_out = data.loop_out;
    state.loop_active = data.loop_active;
    state.midi_channel = data.midi_channel;
    state.scale_quant = data.scale_quant;
    state.note_modifier = data.note_modifier;
    state.velocity_modifier = data.velocity_modifier;
    state.skip_modifier = data.skip_modifier;
    state.tempo_rand = data.tempo_rand;
    state.tempo_variance_max = data.tempo_variance_max;
    state.step_rand = data.step_rand;
    state.note_rand = data.note_rand;
    // Write enum fields.
    state.key = key;
    state.mode = mode;
    state.step_size = step_size;
    state.tempo_roll_point = tempo_roll_point;
    state.tempo_rand_type = tempo_rand_type;
    // Restore steps (up to 16; extra entries are ignored, missing ones are left as-is).
    let mut steps = state.steps;
    let ghost before = steps@;
    let n = if data.steps.len() < 16 {
        data.steps.len()
    } else {
        16
    };
    let mut i: usize = 0;
    while i < n
        invariant
            0 <= i <= n <= 16,
            n <= data.steps@.len(),
            n == data.steps@.len() || n == 16,
            before.len() == 16,
            steps@.len() == 16,
            forall|j: int|
                0 <= j < 16 ==> #[trigger] steps@[j] == if j < i {
                    StepData {
                        enabled: data.steps@[j].enabled,
                        midi_note: data.steps@[j].midi_note,
                        velocity: data.steps@[j].velocity,
                    }
                } else {
                    before[j]
                },
        decreases n - i,
    {
        let ss = data.steps[i];
        steps[i] = StepData { enabled: ss.enabled, midi_note: ss.midi_note, velocity: ss.velocity };
        i = i + 1;
    }
    assert(steps@ =~= restored_steps(before, data.steps@));
    state.steps = steps;
    Ok(())
}

/// Applying the snapshot of a state to any other state gives that other
/// state with every stored field, all steps included, taken from the first.
pub proof fn law_pattern_roundtrip(s: StateModel, t: StateModel, name: Seq<char>, d: PatternData)
    requires
        is_snapshot_of(d, s, name),
        s.steps.len() == 16,
        t.steps.len() == 16,
    ensures
        apply_pattern_spec(t, d) == Ok::<StateModel, Seq<char>>(
            StateModel {
                steps: s.steps,
                key: s.key,
                mode: s.mode,
                tempo_bpm: s.tempo_bpm,
                swing: s.swing,
                step_size: s.step_size,
                loop_in: s.loop_in,
                loop_out: s.loop_out,
                loop_active: s.loop_active,
                midi_channel: s.midi_channel,
                scale_quant: s.scale_quant,
                note_modifier: s.note_modifier,
                velocity_modifier: s.velocity_modifier,
                skip_modifier: s.skip_modifier,
                tempo_rand: s.tempo_rand,
                tempo_roll_point: s.tempo_roll_point,
                tempo_variance_max: s.tempo_variance_max,
                tempo_rand_type: s.tempo_rand_type,
                step_rand: s.step_rand,
                note_rand: s.note_rand,
                ..t
            },
        ),
{
    law_key_name_roundtrip(s.key, d.key@);
    law_mode_name_roundtrip(s.mode, d.mode@);
    law_step_size_name_roundtrip(s.step_size, d.step_size@);
    law_tempo_roll_point_name_roundtrip(s.tempo_roll_point, d.tempo_roll_point@);
    law_tempo_rand_type_name_roundtrip(s.tempo_rand_type, d.tempo_rand_type@);
    assert(restored_steps(t.steps, d.steps@) =~= s.steps);
}

} // verus!
