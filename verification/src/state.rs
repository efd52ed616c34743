//! Sequencer state — the single shared truth for all threads.
//!
//! `SequencerState` is viewed as a `StateModel`, a mathematical record of
//! the same fields with the steps as a sequence and the device name as
//! characters. Every mutating method is specified as a function on models.

use vstd::prelude::*;

use crate::input::InputCommand;
pub use crate::input::OverlayMode;
use crate::music_theory::{
    clamp, in_scale, key_at, key_pos, lemma_snap_between, mode_at, mode_pos, next_note, snap_between,
    snap_spec, snap_to_key, step_degrees, Key, Mode,
};

verus! {

/// When the tempo randomness roll fires.
#[derive(Clone, Copy, PartialEq, Eq, Debug, Structural)]
pub enum TempoRollPoint {
    /// Tempo randomness disabled.
    Off,
    /// Roll fires on every step.
    Step,
    /// Roll fires on every beat (4 steps at 1/16 resolution).
    Beat,
    /// Roll fires on every sequence loop.
    Sequence,
}

/// Position of a roll point in declaration order.
pub open spec fn roll_point_pos(p: TempoRollPoint) -> int {
    match p {
        TempoRollPoint::Off => 0,
        TempoRollPoint::Step => 1,
        TempoRollPoint::Beat => 2,
        TempoRollPoint::Sequence => 3,
    }
}

/// The roll point at position `i` (taken modulo 4).
pub open spec fn roll_point_at(i: int) -> TempoRollPoint {
    let r = i % 4;
    if r == 0 {
        TempoRollPoint::Off
    } else if r == 1 {
        TempoRollPoint::Step
    } else if r == 2 {
        TempoRollPoint::Beat
    } else {
        TempoRollPoint::Sequence
    }
}

impl TempoRollPoint {
    /// Number of TempoRollPoint variants.
    pub const COUNT: usize = 4;

    /// Convert a zero-based index (mod 4) to the corresponding TempoRollPoint variant.
    pub fn from_index(i: usize) -> (p: Self)
        ensures
            p == roll_point_at(i as int),
            roll_point_pos(p) == i % 4,
    {
        let r = i % 4;
        if r == 0 {
            TempoRollPoint::Off
        } else if r == 1 {
            TempoRollPoint::Step
        } else if r == 2 {
            TempoRollPoint::Beat
        } else {
            TempoRollPoint::Sequence
        }
    }

    /// Return the zero-based index of this TempoRollPoint variant.
    pub fn to_index(self) -> (r: usize)
        ensures
            r == roll_point_pos(self),
    {
        match self {
            TempoRollPoint::Off => 0,
            TempoRollPoint::Step => 1,
            TempoRollPoint::Beat => 2,
            TempoRollPoint::Sequence => 3,
        }
    }
}

/// Shape of the tempo randomness curve.
#[derive(Clone, Copy, PartialEq, Eq, Debug, Structural)]
pub enum TempoRandType {
    /// Completely random within the variance window.
    Random,
    /// Bias toward increasing tempo.
    Up,
    /// Bias toward decreasing tempo.
    Down,
    /// Slow oscillation between min and max.
    Breathe,
    /// Bounce back and forth between min and max.
    PingPong,
}

/// Position of a randomness shape in declaration order.
pub open spec fn rand_type_pos(t: TempoRandType) -> int {
    match t {
        TempoRandType::Random => 0,
        TempoRandType::Up => 1,
        TempoRandType::Down => 2,
        TempoRandType::Breathe => 3,
        TempoRandType::PingPong => 4,
    }
}

/// The randomness shape at position `i` (taken modulo 5).
pub open spec fn rand_type_at(i: int) -> TempoRandType {
    let r = i % 5;
    if r == 0 {
        TempoRandType::Random
    } else if r == 1 {
        TempoRandType::Up
    } else if r == 2 {
        TempoRandType::Down
    } else if r == 3 {
        TempoRandType::Breathe
    } else {
        TempoRandType::PingPong
    }
}

impl TempoRandType {
    /// Number of TempoRandType variants.
    pub const COUNT: usize = 5;

    /// Convert a zero-based index (mod 5) to the corresponding TempoRandType variant.
    pub fn from_index(i: usize) -> (t: Self)
        ensures
            t == rand_type_at(i as int),
            rand_type_pos(t) == i % 5,
    {
        let r = i % 5;
        if r == 0 {
            TempoRandType::Random
        } else if r == 1 {
            TempoRandType::Up
        } else if r == 2 {
            TempoRandType::Down
        } else if r == 3 {
            TempoRandType::Breathe
        } else {
            TempoRandType::PingPong
        }
    }

    /// Return the zero-based index of this TempoRandType variant.
    pub fn to_index(self) -> (r: usize)
        ensures
            r == rand_type_pos(self),
    {
        match self {
            TempoRandType::Random => 0,
            TempoRandType::Up => 1,
            TempoRandType::Down => 2,
            TempoRandType::Breathe => 3,
            TempoRandType::PingPong => 4,
        }
    }
}

/// Step resolution for the sequencer clock.
#[derive(Clone, Copy, PartialEq, Eq, Debug, Structural)]
pub enum StepSize {
    /// One step = one whole note.
    Whole,
    /// One step = one half note.
    Half,
    /// One step = one quarter note.
    Quarter,
    /// One step = one eighth note.
    Eighth,
    /// One step = one sixteenth note.
    Sixteenth,
    /// One step = one thirty-second note.
    ThirtySecond,
}

/// Position of a step size in declaration order.
pub open spec fn step_size_pos(s: StepSize) -> int {
    match s {
        StepSize::Whole => 0,
        StepSize::Half => 1,
        StepSize::Quarter => 2,
        StepSize::Eighth => 3,
        StepSize::Sixteenth => 4,
        StepSize::ThirtySecond => 5,
    }
}

/// The step size at position `i` (taken modulo 6).
pub open spec fn step_size_at(i: int) -> StepSize {
    let r = i % 6;
    if r == 0 {
        StepSize::Whole
    } else if r == 1 {
        StepSize::Half
    } else if r == 2 {
        StepSize::Quarter
    } else if r == 3 {
        StepSize::Eighth
    } else if r == 4 {
        StepSize::Sixteenth
    } else {
        StepSize::ThirtySecond
    }
}

impl StepSize {
    /// Number of StepSize variants.
    pub const COUNT: usize = 6;

    /// Convert a zero-based index (mod 6) to the corresponding StepSize variant.
    pub fn from_index(i: usize) -> (s: Self)
        ensures
            s == step_size_at(i as int),
            step_size_pos(s) == i % 6,
    {
        let r = i % 6;
        if r == 0 {
            StepSize::Whole
        } else if r == 1 {
            StepSize::Half
        } else if r == 2 {
            StepSize::Quarter
        } else if r == 3 {
            StepSize::Eighth
        } else if r == 4 {
            StepSize::Sixteenth
        } else {
            StepSize::ThirtySecond
        }
    }

    /// Return the zero-based index of this StepSize variant.
    pub fn to_index(self) -> (r: usize)
        ensures
            r == step_size_pos(self),
    {
        match self {
            StepSize::Whole => 0,
            StepSize::Half => 1,
            StepSize::Quarter => 2,
            StepSize::Eighth => 3,
            StepSize::Sixteenth => 4,
            StepSize::ThirtySecond => 5,
        }
    }
}

/// Reading an enumeration back from its index gives the same value, and the
/// index of the value read from any number is that number reduced modulo the
/// number of variants.
pub proof fn law_state_enum_index_roundtrip(
    p: TempoRollPoint,
    t: TempoRandType,
    s: StepSize,
    i: int,
)
    ensures
        roll_point_at(roll_point_pos(p)) == p,
        roll_point_pos(roll_point_at(i)) == i % 4,
        rand_type_at(rand_type_pos(t)) == t,
        rand_type_pos(rand_type_at(i)) == i % 5,
        step_size_at(step_size_pos(s)) == s,
        step_size_pos(step_size_at(i)) == i % 6,
{
}

/// Pending parameter edit awaiting confirmation.
#[derive(Clone, Copy, PartialEq, Eq, Debug, Structural)]
pub enum PendingEdit {
    /// No pending edit.
    NoEdit,
    /// Editing the MIDI note for a step.
    Note { step: usize, midi_note: u8 },
    /// Editing the velocity for a step.
    Velocity { step: usize, velocity: u8 },
    /// Editing a named parameter under a given overlay.
    Param { overlay: OverlayMode, index: u8, value: i64 },
}

/// A single sequencer step.
#[derive(Clone, Copy, Debug)]
pub struct StepData {
    /// Whether this step fires on playback.
    pub enabled: bool,
    /// MIDI note number (0–127).
    pub midi_note: u8,
    /// MIDI velocity (0–127).
    pub velocity: u8,
}

impl Default for StepData {
    fn default() -> (s: Self)
        ensures
            !s.enabled,
            s.midi_note == 60,
            s.velocity == 100,
    {
        Self { enabled: false, midi_note: 60, velocity: 100 }
    }
}

/// MIDI event produced by the sequencer or clock.
///
/// `NoteOn` carries `duration_nanos` so that the output side can schedule
/// the matching `NoteOff` without involving the sequencer again.
#[derive(Clone, Copy, PartialEq, Eq, Debug, Structural)]
pub enum MidiEvent {
    /// Note-on with embedded duration for NoteOff scheduling.
    NoteOn { channel: u8, note: u8, velocity: u8, duration_nanos: u64 },
    /// Note-off.
    NoteOff { channel: u8, note: u8 },
    /// MIDI Start (transport).
    Start,
    /// MIDI Stop (transport).
    Stop,
    /// MIDI Continue (transport).
    Continue,
}

/// The complete sequencer state.
#[derive(Clone, Debug)]
pub struct SequencerState {
    /// The 16 sequencer steps.
    pub steps: [StepData; 16],
    /// Current key.
    pub key: Key,
    /// Current mode/scale.
    pub mode: Mode,
    /// Tempo in BPM (20–300).
    pub tempo_bpm: u16,
    /// Swing offset in percentage points (-50 to +50).
    pub swing: i8,
    /// Step resolution.
    pub step_size: StepSize,
    /// Loop start step (0–15).
    pub loop_in: u8,
    /// Loop end step (0–15).
    pub loop_out: u8,
    /// Whether loop mode is active.
    pub loop_active: bool,
    /// Current playhead position (0–15).
    pub playhead: u8,
    /// Whether the sequencer is running.
    pub playing: bool,
    /// Whether the sequencer is paused.
    pub paused: bool,
    /// Any pending parameter edit.
    pub pending_edit: PendingEdit,
    /// Active overlay mode.
    pub active_overlay: Option<OverlayMode>,
    /// Currently selected step (0–15).
    pub selected_step: usize,
    /// Currently selected param index (0–7).
    pub selected_param: u8,
    /// MIDI channel to output on (0–15, where 0 = channel 1 in MIDI spec).
    pub midi_channel: u8,
    /// RNG state for all randomness streams; advanced on every tick.
    pub rng_seed: u64,
    /// Step Randomness (0–100): probability that a step is muted.
    pub step_rand: u8,
    /// Note Randomness (0–100): probability that the note modifier applies.
    pub note_rand: u8,
    /// Probability (0–100) that the tempo randomness roll fires.
    pub tempo_rand: u8,
    /// When the tempo randomness roll fires.
    pub tempo_roll_point: TempoRollPoint,
    /// Maximum tempo variance (1–99).
    pub tempo_variance_max: u8,
    /// Shape of the tempo randomness curve.
    pub tempo_rand_type: TempoRandType,
    /// When true, outgoing notes are quantised to the current scale.
    pub scale_quant: bool,
    /// Semitone offset applied to played notes. 0 = off.
    pub note_modifier: i8,
    /// When true, every step is muted at play time.
    pub skip_modifier: bool,
    /// Velocity offset applied to played notes (clamped to 0–127 at emit time).
    pub velocity_modifier: i8,
    /// User-facing random seed.
    pub rand_seed: u32,
    /// Name of the connected MIDI output port.
    pub midi_device_name: String,
    /// Index of the currently highlighted random parameter (0–7).
    pub selected_rand_param: u8,
}

/// The mathematical model of a `SequencerState`.
pub struct StateModel {
    pub steps: Seq<StepData>,
    pub key: Key,
    pub mode: Mode,
    pub tempo_bpm: u16,
    pub swing: i8,
    pub step_size: StepSize,
    pub loop_in: u8,
    pub loop_out: u8,
    pub loop_active: bool,
    pub playhead: u8,
    pub playing: bool,
    pub paused: bool,
    pub pending_edit: PendingEdit,
    pub active_overlay: Option<OverlayMode>,
    pub selected_step: usize,
    pub selected_param: u8,
    pub midi_channel: u8,
    pub rng_seed: u64,
    pub step_rand: u8,
    pub note_rand: u8,
    pub tempo_rand: u8,
    pub tempo_roll_point: TempoRollPoint,
    pub tempo_variance_max: u8,
    pub tempo_rand_type: TempoRandType,
    pub scale_quant: bool,
    pub note_modifier: i8,
    pub skip_modifier: bool,
    pub velocity_modifier: i8,
    pub rand_seed: u32,
    pub midi_device_name: Seq<char>,
    pub selected_rand_param: u8,
}

impl View for SequencerState {
    type V = StateModel;

    open spec fn view(&self) -> StateModel {
        StateModel {
            steps: self.steps@,
            key: self.key,
            mode: self.mode,
            tempo_bpm: self.tempo_bpm,
            swing: self.swing,
            step_size: self.step_size,
            loop_in: self.loop_in,
            loop_out: self.loop_out,
            loop_active: self.loop_active,
            playhead: self.playhead,
            playing: self.playing,
            paused: self.paused,
            pending_edit: self.pending_edit,
            active_overlay: self.active_overlay,
            selected_step: self.selected_step,
            selected_param: self.selected_param,
            midi_channel: self.midi_channel,
            rng_seed: self.rng_seed,
            step_rand: self.step_rand,
            note_rand: self.note_rand,
            tempo_rand: self.tempo_rand,
            tempo_roll_point: self.tempo_roll_point,
            tempo_variance_max: self.tempo_variance_max,
            tempo_rand_type: self.tempo_rand_type,
            scale_quant: self.scale_quant,
            note_modifier: self.note_modifier,
            skip_modifier: self.skip_modifier,
            velocity_modifier: self.velocity_modifier,
            rand_seed: self.rand_seed,
            midi_device_name: self.midi_device_name@,
            selected_rand_param: self.selected_rand_param,
        }
    }
}

/// The state every step of the engine relies on: the indices that address
/// the 16 steps are in range, and a pending loop-point edit holds a step index.
pub open spec fn state_wf(s: StateModel) -> bool {
    &&& s.steps.len() == 16
    &&& s.playhead < 16
    &&& s.loop_in < 16
    &&& s.loop_out < 16
    &&& s.selected_step < 16
    &&& match s.pending_edit {
        PendingEdit::Param { overlay: OverlayMode::Regular, index, value } => (index == 4 || index
            == 5) ==> 0 <= value <= 15,
        _ => true,
    }
}

/// The default seed of the engine's random stream.
pub open spec fn default_rng_seed() -> u64 {
    0x853C_49E6_748F_EA9B
}

/// The model of `SequencerState::default()`.
pub open spec fn default_model() -> StateModel {
    StateModel {
        steps: Seq::new(16, |i: int| StepData { enabled: false, midi_note: 60, velocity: 100 }),
        key: Key::C,
        mode: Mode::Major,
        tempo_bpm: 120,
        swing: 0,
        step_size: StepSize::Sixteenth,
        loop_in: 0,
        loop_out: 15,
        loop_active: false,
        playhead: 0,
        playing: false,
        paused: false,
        pending_edit: PendingEdit::NoEdit,
        active_overlay: None,
        selected_step: 0,
        selected_param: 0,
        midi_channel: 0,
        rng_seed: default_rng_seed(),
        step_rand: 0,
        note_rand: 0,
        tempo_rand: 0,
        tempo_roll_point: TempoRollPoint::Off,
        tempo_variance_max: 10,
        tempo_rand_type: TempoRandType::Random,
        scale_quant: false,
        note_modifier: 0,
        skip_modifier: false,
        velocity_modifier: 0,
        rand_seed: 0x853C_49E6,
        midi_device_name: Seq::empty(),
        selected_rand_param: 0,
    }
}

impl Default for SequencerState {
    fn default() -> (s: Self)
        ensures
            s@ == default_model(),
            state_wf(s@),
    {
        let step = StepData { enabled: false, midi_note: 60, velocity: 100 };
        let s = Self {
            steps: [step;16],
            key: Key::C,
            mode: Mode::Major,
            tempo_bpm: 120,
            swing: 0,
            step_size: StepSize::Sixteenth,
            loop_in: 0,
            loop_out: 15,
            loop_active: false,
            playhead: 0,
            playing: false,
            paused: false,
            pending_edit: PendingEdit::NoEdit,
            active_overlay: None,
            selected_step: 0,
            selected_param: 0,
            midi_channel: 0,
            rng_seed: 0x853C_49E6_748F_EA9B,
            step_rand: 0,
            note_rand: 0,
            tempo_rand: 0,
            tempo_roll_point: TempoRollPoint::Off,
            tempo_variance_max: 10,
            tempo_rand_type: TempoRandType::Random,
            scale_quant: false,
            note_modifier: 0,
            skip_modifier: false,
            velocity_modifier: 0,
            rand_seed: 0x853C_49E6,
            midi_device_name: String::new(),
            selected_rand_param: 0,
        };
        assert(s.steps@ =~= default_model().steps);
        s
    }
}

/// One Xorshift64 step.
pub open spec fn xorshift(x: u64) -> u64 {
    let a = x ^ (x << 13u64);
    let b = a ^ (a >> 7u64);
    b ^ (b << 17u64)
}

/// `n` Xorshift64 steps from `seed`.
pub open spec fn rand_chain(seed: u64, n: nat) -> u64
    decreases n,
{
    if n == 0 {
        seed
    } else {
        xorshift(rand_chain(seed, (n - 1) as nat))
    }
}

/// Advance seed and return a pseudo-random u64 (Xorshift64).
pub fn next_rand(seed: &mut u64) -> (r: u64)
    ensures
        r == xorshift(*old(seed)),
        *final(seed) == r,
{
    let mut x = *seed;
    x ^= x << 13;
    x ^= x >> 7;
    x ^= x << 17;
    *seed = x;
    x
}

/// The outcome of a percentage roll: the new seed and whether it hit. A
/// chance of 0 never hits and one of 100 or more always hits, both without
/// consuming randomness; otherwise the next random value modulo 100 is
/// compared with the chance.
pub open spec fn prob_roll(seed: u64, chance: u8) -> (u64, bool) {
    if chance == 0 {
        (seed, false)
    } else if chance >= 100 {
        (seed, true)
    } else {
        let r = xorshift(seed);
        (r, r % 100 < chance as u64)
    }
}

/// Returns true with probability `chance/100`. `chance` is clamped to 0–100.
pub fn prob_hit(seed: &mut u64, chance: u8) -> (hit: bool)
    ensures
        (*final(seed), hit) == prob_roll(*old(seed), chance),
{
    if chance == 0 {
        return false;
    }
    if chance >= 100 {
        return true;
    }
    (next_rand(seed) % 100) < chance as u64
}


/// The model with step `i` replaced.
pub open spec fn with_step(s: StateModel, i: int, st: StepData) -> StateModel {
    StateModel { steps: s.steps.update(i, st), ..s }
}

/// The note `n` moved by `delta` scale degrees of the model's key and mode.
pub open spec fn moved_note(s: StateModel, n: u8, delta: i8) -> u8 {
    clamp(step_degrees(n as int, s.key, s.mode, delta as int), 0, 127) as u8
}

/// Effect of `apply_encoder_delta`.
pub open spec fn encoder_delta_spec(s: StateModel, step: usize, delta: i8) -> StateModel {
    if step >= 16 {
        s
    } else {
        with_step(
            s,
            step as int,
            StepData { midi_note: moved_note(s, s.steps[step as int].midi_note, delta), ..s.steps[step as int] },
        )
    }
}

/// Effect of `toggle_step`.
pub open spec fn toggle_spec(s: StateModel, step: usize) -> StateModel {
    if step >= 16 {
        s
    } else {
        with_step(
            s,
            step as int,
            StepData { enabled: !s.steps[step as int].enabled, ..s.steps[step as int] },
        )
    }
}

/// Playhead position after one playing tick: the next step, wrapping to the
/// loop start past the loop end when looping, else to 0 past step 15.
pub open spec fn advance_playhead(s: StateModel) -> u8 {
    let next = s.playhead + 1;
    if s.loop_active {
        if next > s.loop_out {
            s.loop_in
        } else {
            next as u8
        }
    } else if next >= 16 {
        0
    } else {
        next as u8
    }
}

/// Clamp a signed value into a `u8` range.
pub open spec fn clamp_u8(v: int, lo: int, hi: int) -> u8 {
    clamp(v, lo, hi) as u8
}

/// The note a playing, enabled step emits: the note modifier (gated by the
/// note-randomness roll) then, with scale quantisation on, the snap to the
/// scale. Returns the seed after the roll and the note.
pub open spec fn emitted_note(s: StateModel, seed: u64, note: u8) -> (u64, u8) {
    let (seed2, n) = if s.note_modifier != 0 {
        let modified = clamp_u8(note + s.note_modifier, 0, 127);
        let (sd, hit) = prob_roll(seed, s.note_rand);
        (
            sd,
            if hit {
                modified
            } else {
                note
            },
        )
    } else {
        (seed, note)
    };
    (
        seed2,
        if s.scale_quant {
            snap_spec(s.key, s.mode, n as int) as u8
        } else {
            n
        },
    )
}

/// Effect and output of one clock tick.
///
/// The random stream always advances once. When stopped or paused nothing
/// else changes. Otherwise the playhead advances; the step-randomness roll
/// may mute the step; an enabled step emits a note-on (unless the skip
/// modifier is on) with the modified note, the channel and the velocity
/// offset by the velocity modifier and clamped to 0–127.
pub open spec fn tick_spec(s: StateModel) -> (StateModel, Option<MidiEvent>) {
    let seed1 = xorshift(s.rng_seed);
    if !s.playing || s.paused {
        (StateModel { rng_seed: seed1, ..s }, None)
    } else {
        let ph = advance_playhead(s);
        let (seed2, muted) = prob_roll(seed1, s.step_rand);
        let step = s.steps[ph as int];
        if muted || !step.enabled || s.skip_modifier {
            (StateModel { rng_seed: seed2, playhead: ph, ..s }, None)
        } else {
            let (seed3, note) = emitted_note(s, seed2, step.midi_note);
            (
                StateModel { rng_seed: seed3, playhead: ph, ..s },
                Some(
                    MidiEvent::NoteOn {
                        channel: s.midi_channel,
                        note,
                        velocity: clamp_u8(step.velocity + s.velocity_modifier, 0, 127),
                        duration_nanos: 0,
                    },
                ),
            )
        }
    }
}

/// What a tick needs of the state: when it plays, the playhead can move on
/// and, unless the step-randomness roll mutes the step, lands on one of the
/// 16 steps.
pub open spec fn tick_ready(s: StateModel) -> bool {
    &&& s.steps.len() == 16
    &&& s.playing && !s.paused ==> {
        &&& s.playhead < 255
        &&& advance_playhead(s) < 16 || prob_roll(xorshift(s.rng_seed), s.step_rand).1
    }
}

/// A well-formed state is ready to tick.
pub proof fn lemma_wf_tick_ready(s: StateModel)
    requires
        state_wf(s),
    ensures
        tick_ready(s),
{
}

impl SequencerState {
    /// Shifts the MIDI note for `step` by `delta` scale degrees using the
    /// current key and mode. No-ops if `step` is out of range.
    pub fn apply_encoder_delta(&mut self, step: usize, delta: i8)
        ensures
            final(self)@ == encoder_delta_spec(old(self)@, step, delta),
    {
        if step >= 16 {
            return;
        }
        let mut st = self.steps[step];
        st.midi_note = next_note(st.midi_note, self.key, self.mode, delta);
        self.steps[step] = st;
        assert(self@.steps =~= encoder_delta_spec(old(self)@, step, delta).steps);
    }

    /// Toggles the enabled state for `step`. No-ops if `step` is out of range.
    pub fn toggle_step(&mut self, step: usize)
        ensures
            final(self)@ == toggle_spec(old(self)@, step),
    {
        if step >= 16 {
            return;
        }
        let mut st = self.steps[step];
        st.enabled = !st.enabled;
        self.steps[step] = st;
        assert(self@.steps =~= toggle_spec(old(self)@, step).steps);
    }

    /// Advances the playhead by one step and returns a `MidiEvent::NoteOn` if
    /// the new step is enabled, or `None` otherwise.
    ///
    /// Returns `None` immediately when not playing or when paused.
    /// `duration_nanos` is set to 0 here; the clock overwrites it with the
    /// actual step period.
    pub fn tick(&mut self) -> (ev: Option<MidiEvent>)
        requires
            tick_ready(old(self)@),
        ensures
            (final(self)@, ev) == tick_spec(old(self)@),
            state_wf(old(self)@) ==> state_wf(final(self)@),
    {
        next_rand(&mut self.rng_seed);
        if !self.playing || self.paused {
            return None;
        }
        let next = self.playhead + 1;
        if self.loop_active {
            if next > self.loop_out {
                self.playhead = self.loop_in;
            } else {
                self.playhead = next;
            }
        } else if next >= 16 {
            self.playhead = 0;
        } else {
            self.playhead = next;
        }
        if prob_hit(&mut self.rng_seed, self.step_rand) {
            return None;
        }
        let step = self.steps[self.playhead as usize];
        if step.enabled {
            if self.skip_modifier {
                return None;
            }
            let mut note = step.midi_note;
            if self.note_modifier != 0 {
                let sum = note as i16 + self.note_modifier as i16;
                let modified: u8 = if sum < 0 {
                    0
                } else if sum > 127 {
                    127
                } else {
                    sum as u8
                };
                if prob_hit(&mut self.rng_seed, self.note_rand) {
                    note = modified;
                }
            }
            if self.scale_quant {
                note = snap_to_key(note, self.key, self.mode);
            }
            let vsum = step.velocity as i16 + self.velocity_modifier as i16;
            let velocity: u8 = if vsum < 0 {
                0
            } else if vsum > 127 {
                127
            } else {
                vsum as u8
            };
            Some(MidiEvent::NoteOn { channel: self.midi_channel, note, velocity, duration_nanos: 0 })
        } else {
            None
        }
    }
}


/// Current value of sequence parameter `index` in the units of a pending
/// edit: 0=Key, 1=Mode, 3=StepSize as variant indices, 2=swing,
/// 4=loop_in, 5=loop_out, 6=paused, 7=playing (as 0/1); 0 otherwise.
pub open spec fn committed_param(s: StateModel, index: u8) -> i64 {
    if index == 0 {
        key_pos(s.key) as i64
    } else if index == 1 {
        mode_pos(s.mode) as i64
    } else if index == 2 {
        s.swing as i64
    } else if index == 3 {
        step_size_pos(s.step_size) as i64
    } else if index == 4 {
        s.loop_in as i64
    } else if index == 5 {
        s.loop_out as i64
    } else if index == 6 {
        if s.paused {
            1
        } else {
            0
        }
    } else if index == 7 {
        if s.playing {
            1
        } else {
            0
        }
    } else {
        0
    }
}

/// Sequence parameter `value` wrapped (enumerations) or clamped (numbers)
/// into the range of parameter `index`; unchanged for unknown indices.
pub open spec fn clamped_param(index: u8, value: i64) -> i64 {
    if index == 0 {
        (value % 12) as i64
    } else if index == 1 {
        (value % 9) as i64
    } else if index == 2 {
        clamp(value as int, -50, 50) as i64
    } else if index == 3 {
        (value % 6) as i64
    } else if index == 4 || index == 5 {
        clamp(value as int, 0, 15) as i64
    } else if index == 6 || index == 7 {
        clamp(value as int, 0, 1) as i64
    } else {
        value
    }
}

/// Steps with every note snapped to the model's key and mode.
pub open spec fn snapped_steps(s: StateModel) -> Seq<StepData> {
    Seq::new(
        16,
        |i: int|
            StepData {
                midi_note: snap_spec(s.key, s.mode, s.steps[i].midi_note as int) as u8,
                ..s.steps[i]
            },
    )
}

/// Writing sequence parameter `index`. A new key or mode re-snaps all notes;
/// starting playback clears pause.
pub open spec fn apply_param(s: StateModel, index: u8, value: i64) -> StateModel {
    if index == 0 {
        let k = key_at((value as usize) as int);
        if k != s.key {
            let s2 = StateModel { key: k, ..s };
            StateModel { steps: snapped_steps(s2), ..s2 }
        } else {
            s
        }
    } else if index == 1 {
        let m = mode_at((value as usize) as int);
        if m != s.mode {
            let s2 = StateModel { mode: m, ..s };
            StateModel { steps: snapped_steps(s2), ..s2 }
        } else {
            s
        }
    } else if index == 2 {
        StateModel { swing: value as i8, ..s }
    } else if index == 3 {
        StateModel { step_size: step_size_at((value as usize) as int), ..s }
    } else if index == 4 {
        StateModel { loop_in: value as u8, ..s }
    } else if index == 5 {
        StateModel { loop_out: value as u8, ..s }
    } else if index == 6 {
        StateModel { paused: value != 0, ..s }
    } else if index == 7 {
        if value != 0 {
            StateModel { playing: true, paused: false, ..s }
        } else {
            StateModel { playing: false, ..s }
        }
    } else {
        s
    }
}

/// Current value of random parameter `index`: 1=tempo_rand,
/// 2=tempo_roll_point, 3=tempo_variance_max, 4=tempo_rand_type,
/// 6=scale_quant (0/1); 0 for the others.
pub open spec fn shift_committed_param(s: StateModel, index: u8) -> i64 {
    if index == 1 {
        s.tempo_rand as i64
    } else if index == 2 {
        roll_point_pos(s.tempo_roll_point) as i64
    } else if index == 3 {
        s.tempo_variance_max as i64
    } else if index == 4 {
        rand_type_pos(s.tempo_rand_type) as i64
    } else if index == 6 {
        if s.scale_quant {
            1
        } else {
            0
        }
    } else {
        0
    }
}

/// Random parameter `value` wrapped or clamped into the range of `index`:
/// 0, 1, 5 in 0–100, 2 and 4 wrap, 3 in 1–99, 6 in 0–1; others unchanged.
pub open spec fn shift_clamped_param(index: u8, value: i64) -> i64 {
    if index == 0 || index == 1 || index == 5 {
        clamp(value as int, 0, 100) as i64
    } else if index == 2 {
        (value % 4) as i64
    } else if index == 3 {
        clamp(value as int, 1, 99) as i64
    } else if index == 4 {
        (value % 5) as i64
    } else if index == 6 {
        clamp(value as int, 0, 1) as i64
    } else {
        value
    }
}

/// Writing random parameter `index` (indices 0, 5 and 7 write nothing).
pub open spec fn shift_apply_param(s: StateModel, index: u8, value: i64) -> StateModel {
    if index == 1 {
        StateModel { tempo_rand: value as u8, ..s }
    } else if index == 2 {
        StateModel { tempo_roll_point: roll_point_at((value as usize) as int), ..s }
    } else if index == 3 {
        StateModel { tempo_variance_max: value as u8, ..s }
    } else if index == 4 {
        StateModel { tempo_rand_type: rand_type_at((value as usize) as int), ..s }
    } else if index == 6 {
        StateModel { scale_quant: value != 0, ..s }
    } else {
        s
    }
}

/// Notes of all steps drawn in key: step `i` takes the `i+1`-th random value
/// of the stream, mapped into 48..=84 and snapped to the scale within
/// 48..=84.
pub open spec fn random_notes(s: StateModel) -> StateModel {
    StateModel {
        steps: Seq::new(
            16,
            |i: int|
                StepData {
                    midi_note: snap_between(
                        s.key,
                        s.mode,
                        (rand_chain(s.rng_seed, (i + 1) as nat) % 37) as int + 48,
                        48,
                        84,
                    ) as u8,
                    ..s.steps[i]
                },
        ),
        rng_seed: rand_chain(s.rng_seed, 16),
        ..s
    }
}

/// Velocities of all steps drawn at random: step `i` takes the `i+1`-th
/// random value of the stream, mapped into 40..=127.
pub open spec fn random_velocities(s: StateModel) -> StateModel {
    StateModel {
        steps: Seq::new(
            16,
            |i: int|
                StepData {
                    velocity: ((rand_chain(s.rng_seed, (i + 1) as nat) % 88) + 40) as u8,
                    ..s.steps[i]
                },
        ),
        rng_seed: rand_chain(s.rng_seed, 16),
        ..s
    }
}

/// The pending edit with note and velocity edits discarded.
pub open spec fn drop_step_edit(p: PendingEdit) -> PendingEdit {
    match p {
        PendingEdit::Note { .. } | PendingEdit::Velocity { .. } => PendingEdit::NoEdit,
        _ => p,
    }
}

/// Committing the pending edit.
pub open spec fn confirm_spec(s: StateModel) -> StateModel {
    match s.pending_edit {
        PendingEdit::NoEdit => s,
        PendingEdit::Note { step, midi_note } => {
            let s2 = if step < 16 {
                with_step(s, step as int, StepData { midi_note, ..s.steps[step as int] })
            } else {
                s
            };
            StateModel { pending_edit: PendingEdit::NoEdit, ..s2 }
        },
        PendingEdit::Velocity { step, velocity } => {
            let s2 = if step < 16 {
                with_step(s, step as int, StepData { velocity, ..s.steps[step as int] })
            } else {
                s
            };
            StateModel { pending_edit: PendingEdit::NoEdit, ..s2 }
        },
        PendingEdit::Param { overlay, index, value } => {
            let s2 = match overlay {
                OverlayMode::Regular => apply_param(s, index, value),
                OverlayMode::Shift => shift_apply_param(s, index, value),
            };
            StateModel { pending_edit: PendingEdit::NoEdit, ..s2 }
        },
    }
}

/// Adjusting the value of the selected parameter under the open overlay
/// (nothing happens without one): the pending value for the same index, or
/// else the committed value, is moved by `d` and clamped.
pub open spec fn param_value_delta_spec(s: StateModel, d: i8) -> StateModel {
    match s.active_overlay {
        None => s,
        Some(overlay) => {
            let index = s.selected_param;
            let current = match s.pending_edit {
                PendingEdit::Param { index: pi, value, .. } => if pi == index {
                    value
                } else {
                    match overlay {
                        OverlayMode::Regular => committed_param(s, index),
                        OverlayMode::Shift => shift_committed_param(s, index),
                    }
                },
                _ => match overlay {
                    OverlayMode::Regular => committed_param(s, index),
                    OverlayMode::Shift => shift_committed_param(s, index),
                },
            };
            let value = match overlay {
                OverlayMode::Regular => clamped_param(index, (current + d) as i64),
                OverlayMode::Shift => shift_clamped_param(index, (current + d) as i64),
            };
            StateModel { pending_edit: PendingEdit::Param { overlay, index, value }, ..s }
        },
    }
}

/// The random-stream state a user seed selects (a fixed non-zero stand-in
/// for seed 0, which would freeze Xorshift).
pub open spec fn seed_state(seed: u32) -> u64 {
    if seed == 0 {
        0x853C_49E6_853C_49E6
    } else {
        (seed as u64) | ((seed as u64) << 32u64)
    }
}

/// Effect of applying one input command.
pub open spec fn command_spec(s: StateModel, cmd: InputCommand) -> StateModel {
    match cmd {
        InputCommand::StepSelect(n) => StateModel {
            selected_step: if n < 15 {
                n
            } else {
                15
            },
            pending_edit: drop_step_edit(s.pending_edit),
            ..s
        },
        InputCommand::StepSelectDelta(d) => StateModel {
            selected_step: ((s.selected_step + d) % 16) as usize,
            pending_edit: drop_step_edit(s.pending_edit),
            ..s
        },
        InputCommand::NoteDelta(d) => {
            let step = s.selected_step;
            let s2 = with_step(
                s,
                step as int,
                StepData { midi_note: moved_note(s, s.steps[step as int].midi_note, d), ..s.steps[step as int] },
            );
            match s.pending_edit {
                PendingEdit::Note { step: ps, .. } => if ps == step {
                    StateModel { pending_edit: PendingEdit::NoEdit, ..s2 }
                } else {
                    s2
                },
                _ => s2,
            }
        },
        InputCommand::Confirm => confirm_spec(s),
        InputCommand::ToggleStep => toggle_spec(s, s.selected_step),
        InputCommand::VelocityDelta(d) => StateModel {
            pending_edit: PendingEdit::Velocity {
                step: s.selected_step,
                velocity: clamp_u8(s.steps[s.selected_step as int].velocity + d, 0, 127),
            },
            ..s
        },
        InputCommand::OpenOverlay(m) => StateModel { active_overlay: Some(m), ..s },
        InputCommand::CloseOverlay => StateModel {
            active_overlay: None,
            pending_edit: match s.pending_edit {
                PendingEdit::Param { .. } => PendingEdit::NoEdit,
                p => p,
            },
            ..s
        },
        InputCommand::ParamSelect(n) => StateModel {
            selected_param: if n < 7 {
                n
            } else {
                7
            },
            ..s
        },
        InputCommand::ParamSelectDelta(d) => StateModel {
            selected_param: ((s.selected_param + d) % 8) as u8,
            ..s
        },
        InputCommand::ParamValueDelta(d) => param_value_delta_spec(s, d),
        InputCommand::PlayStop => if s.playing {
            StateModel { playing: false, paused: false, ..s }
        } else {
            StateModel { playing: true, ..s }
        },
        InputCommand::NoteModifierSet(v) => StateModel { note_modifier: v, ..s },
        InputCommand::SkipModifierToggle => StateModel { skip_modifier: !s.skip_modifier, ..s },
        InputCommand::VelocityModifierSet(v) => StateModel { velocity_modifier: v, ..s },
        InputCommand::GenerateRandomSequence => random_notes(s),
        InputCommand::BpmDelta(d) => StateModel {
            tempo_bpm: clamp(s.tempo_bpm + d, 20, 300) as u16,
            ..s
        },
        InputCommand::SeedSet(seed) => StateModel {
            rand_seed: seed,
            rng_seed: seed_state(seed),
            ..s
        },
        InputCommand::ChannelSet(ch) => StateModel {
            midi_channel: if ch == 0 {
                0
            } else if ch - 1 > 15 {
                15
            } else {
                (ch - 1) as u8
            },
            ..s
        },
        InputCommand::MidiDeviceName(name) => StateModel { midi_device_name: name@, ..s },
        InputCommand::SetFocus(_) => s,
        InputCommand::PanelParamSelect(n) => StateModel {
            selected_param: if n < 7 {
                n
            } else {
                7
            },
            ..s
        },
        InputCommand::PanelParamDelta(d) => apply_param(
            s,
            s.selected_param,
            clamped_param(s.selected_param, (committed_param(s, s.selected_param) + d) as i64),
        ),
        InputCommand::RandParamSelect(n) => StateModel {
            selected_rand_param: if n < 7 {
                n
            } else {
                7
            },
            ..s
        },
        InputCommand::RandParamDelta(d) => shift_apply_param(
            s,
            s.selected_rand_param,
            shift_clamped_param(
                s.selected_rand_param,
                (shift_committed_param(s, s.selected_rand_param) + d) as i64,
            ),
        ),
        InputCommand::RandAll => random_velocities(random_notes(s)),
        InputCommand::RandVelocities => random_velocities(s),
        InputCommand::NoteSet { step, midi_note, velocity } => if step < 16 {
            with_step(s, step as int, StepData { midi_note, velocity, ..s.steps[step as int] })
        } else {
            s
        },
    }
}

/// Adding `d` to the pending value that a parameter delta starts from
/// stays within `i64`: the pending value is read only while an overlay is
/// open and the pending edit is for the selected parameter (otherwise the
/// small committed value is used).
pub open spec fn param_delta_fits(s: StateModel, d: i8) -> bool {
    match s.pending_edit {
        PendingEdit::Param { index, value, .. } => (s.active_overlay is Some && index
            == s.selected_param) ==> i64::MIN <= value + d <= i64::MAX,
        _ => true,
    }
}

/// What a command needs of the state: a note or velocity delta addresses
/// the selected step, which must exist, and a parameter delta needs its
/// addition to fit in `i64`. Every other command applies to any state.
pub open spec fn command_fits(s: StateModel, cmd: InputCommand) -> bool {
    &&& s.steps.len() == 16
    &&& match cmd {
        InputCommand::NoteDelta(_) => s.selected_step < 16,
        InputCommand::VelocityDelta(_) => s.selected_step < 16,
        InputCommand::ParamValueDelta(d) => param_delta_fits(s, d),
        _ => true,
    }
}


/// `value` reduced into `0..n` (Euclidean remainder).
fn wrap_index(value: i64, n: i64) -> (r: i64)
    requires
        n > 0,
    ensures
        r == value % n,
        0 <= r < n,
{
    if value >= 0 {
        value % n
    } else {
        let k = -(value + 1);
        let r = k % n;
        proof {
            let q = k as int / n as int;
            vstd::arithmetic::div_mod::lemma_fundamental_div_mod(k as int, n as int);
            assert(value as int == (-q - 1) * n + (n - 1 - r)) by (nonlinear_arith)
                requires
                    k == q * n + r,
                    value == -(k + 1),
            ;
            vstd::arithmetic::div_mod::lemma_fundamental_div_mod_converse_mod(
                value as int,
                n as int,
                -q - 1,
                n - 1 - r,
            );
        }
        n - 1 - r
    }
}

/// `value` clamped into `lo..=hi`.
fn clamp_i64(value: i64, lo: i64, hi: i64) -> (r: i64)
    requires
        lo <= hi,
    ensures
        r == clamp(value as int, lo as int, hi as int),
{
    if value < lo {
        lo
    } else if value > hi {
        hi
    } else {
        value
    }
}

impl SequencerState {
    /// Return the current committed state value for param `index` as an i64
    /// in the same unit space used by `PendingEdit::Param`.
    ///
    /// Regular overlay indices: 0=Key, 1=Mode, 2=Swing, 3=StepSize,
    /// 4=loop_in, 5=loop_out, 6=paused, 7=playing.
    pub fn committed_param_value(&self, index: u8) -> (r: i64)
        ensures
            r == committed_param(self@, index),
    {
        match index {
            0 => self.key.to_index() as i64,
            1 => self.mode.to_index() as i64,
            2 => self.swing as i64,
            3 => self.step_size.to_index() as i64,
            4 => self.loop_in as i64,
            5 => self.loop_out as i64,
            6 => if self.paused {
                1
            } else {
                0
            },
            7 => if self.playing {
                1
            } else {
                0
            },
            _ => 0,
        }
    }

    /// Clamp or wrap the raw `value` into the valid range for param `index`.
    pub fn clamped_param_value(&self, index: u8, value: i64) -> (r: i64)
        ensures
            r == clamped_param(index, value),
    {
        match index {
            0 => wrap_index(value, 12),
            1 => wrap_index(value, 9),
            2 => clamp_i64(value, -50, 50),
            3 => wrap_index(value, 6),
            4 | 5 => clamp_i64(value, 0, 15),
            6 | 7 => clamp_i64(value, 0, 1),
            _ => value,
        }
    }

    /// Write the resolved `value` for param `index` back to the matching state field.
    ///
    /// Setting playing (index 7, value non-zero) also clears paused.
    pub fn apply_param_value(&mut self, index: u8, value: i64)
        ensures
            final(self)@ == apply_param(old(self)@, index, value),
    {
        match index {
            0 => {
                let new_key = Key::from_index(value as usize);
                if new_key != self.key {
                    self.key = new_key;
                    self.snap_all_steps_to_key();
                }
            },
            1 => {
                let new_mode = Mode::from_index(value as usize);
                if new_mode != self.mode {
                    self.mode = new_mode;
                    self.snap_all_steps_to_key();
                }
            },
            2 => self.swing = value as i8,
            3 => self.step_size = StepSize::from_index(value as usize),
            4 => self.loop_in = value as u8,
            5 => self.loop_out = value as u8,
            6 => self.paused = value != 0,
            7 => {
                self.playing = value != 0;
                if self.playing {
                    self.paused = false;
                }
            },
            _ => {},
        }
    }

    /// Return the current committed state value for shift param `index` as an i64.
    ///
    /// Shift overlay param index map: 1=tempo_rand, 2=tempo_roll_point,
    /// 3=tempo_variance_max, 4=tempo_rand_type, 6=scale_quant; others read 0.
    pub fn shift_committed_param_value(&self, index: u8) -> (r: i64)
        ensures
            r == shift_committed_param(self@, index),
    {
        match index {
            0 => 0,
            1 => self.tempo_rand as i64,
            2 => self.tempo_roll_point.to_index() as i64,
            3 => self.tempo_variance_max as i64,
            4 => self.tempo_rand_type.to_index() as i64,
            5 => 0,
            6 => if self.scale_quant {
                1
            } else {
                0
            },
            _ => 0,
        }
    }

    /// Clamp or wrap `value` into the valid range for shift param `index`.
    pub fn shift_clamped_param_value(&self, index: u8, value: i64) -> (r: i64)
        ensures
            r == shift_clamped_param(index, value),
    {
        match index {
            0 => clamp_i64(value, 0, 100),
            1 => clamp_i64(value, 0, 100),
            2 => wrap_index(value, 4),
            3 => clamp_i64(value, 1, 99),
            4 => wrap_index(value, 5),
            5 => clamp_i64(value, 0, 100),
            6 => clamp_i64(value, 0, 1),
            _ => value,
        }
    }

    /// Write the resolved `value` for shift param `index` back to the matching state field.
    pub fn shift_apply_param_value(&mut self, index: u8, value: i64)
        ensures
            final(self)@ == shift_apply_param(old(self)@, index, value),
    {
        match index {
            0 => {},
            1 => self.tempo_rand = value as u8,
            2 => self.tempo_roll_point = TempoRollPoint::from_index(value as usize),
            3 => self.tempo_variance_max = value as u8,
            4 => self.tempo_rand_type = TempoRandType::from_index(value as usize),
            5 => {},
            6 => self.scale_quant = value != 0,
            _ => {},
        }
    }

    /// Randomise all 16 steps' notes to in-key values: each raw random value
    /// is mapped to 48–84 and snapped to the current key/mode, staying within
    /// 48–84 (a snap that falls outside moves one scale degree back in).
    pub fn generate_random_sequence(&mut self)
        ensures
            final(self)@ == random_notes(old(self)@),
    {
        let mut i: usize = 0;
        while i < 16
            invariant
                0 <= i <= 16,
                self@ == (StateModel { steps: self@.steps, rng_seed: self@.rng_seed, ..old(self)@ }),
                self.rng_seed == rand_chain(old(self).rng_seed, i as nat),
                forall|j: int|
                    0 <= j < i ==> self@.steps[j] == random_notes(old(self)@).steps[j],
                forall|j: int| i <= j < 16 ==> self@.steps[j] == old(self)@.steps[j],
            decreases 16 - i,
        {
            let raw = next_rand(&mut self.rng_seed);
            let note_in_range = (raw % 37) as u8 + 48;
            proof {
                lemma_snap_between(self.key, self.mode, note_in_range as int, 48, 84);
            }
            let snapped = snap_to_key(note_in_range, self.key, self.mode);
            let n = if snapped < 48 {
                next_note(snapped, self.key, self.mode, 1)
            } else if snapped > 84 {
                next_note(snapped, self.key, self.mode, -1)
            } else {
                snapped
            };
            let mut st = self.steps[i];
            st.midi_note = n;
            self.steps[i] = st;
            i = i + 1;
        }
        assert(self@.steps =~= random_notes(old(self)@).steps);
    }

    /// Randomise all 16 step velocities to a value in 40..=127.
    pub fn randomise_velocities(&mut self)
        ensures
            final(self)@ == random_velocities(old(self)@),
    {
        let mut i: usize = 0;
        while i < 16
            invariant
                0 <= i <= 16,
                self@ == (StateModel { steps: self@.steps, rng_seed: self@.rng_seed, ..old(self)@ }),
                self.rng_seed == rand_chain(old(self).rng_seed, i as nat),
                forall|j: int|
                    0 <= j < i ==> self@.steps[j] == random_velocities(old(self)@).steps[j],
                forall|j: int| i <= j < 16 ==> self@.steps[j] == old(self)@.steps[j],
            decreases 16 - i,
        {
            let raw = next_rand(&mut self.rng_seed);
            let mut st = self.steps[i];
            st.velocity = (raw % 88) as u8 + 40;
            self.steps[i] = st;
            i = i + 1;
        }
        assert(self@.steps =~= random_velocities(old(self)@).steps);
    }

    /// Randomise all 16 step notes in key, then all velocities, on one
    /// continuing random stream.
    pub fn randomise_all(&mut self)
        ensures
            final(self)@ == random_velocities(random_notes(old(self)@)),
    {
        self.generate_random_sequence();
        self.randomise_velocities();
    }

    /// Re-snap all 16 step notes to the nearest note in the current key and mode.
    pub fn snap_all_steps_to_key(&mut self)
        ensures
            final(self)@ == (StateModel { steps: snapped_steps(old(self)@), ..old(self)@ }),
    {
        let mut i: usize = 0;
        while i < 16
            invariant
                0 <= i <= 16,
                self@ == (StateModel { steps: self@.steps, ..old(self)@ }),
                forall|j: int| 0 <= j < i ==> self@.steps[j] == snapped_steps(old(self)@)[j],
                forall|j: int| i <= j < 16 ==> self@.steps[j] == old(self)@.steps[j],
            decreases 16 - i,
        {
            let mut st = self.steps[i];
            st.midi_note = snap_to_key(st.midi_note, self.key, self.mode);
            self.steps[i] = st;
            i = i + 1;
        }
        assert(self@.steps =~= snapped_steps(old(self)@));
    }
}


impl SequencerState {
    fn cmd_step_select(&mut self, n: usize)
        ensures
            final(self)@ == command_spec(old(self)@, InputCommand::StepSelect(n)),
    {
        self.selected_step = if n < 15 {
            n
        } else {
            15
        };
        if matches!(self.pending_edit, PendingEdit::Note { .. } | PendingEdit::Velocity { .. }) {
            self.pending_edit = PendingEdit::NoEdit;
        }
    }

    fn cmd_step_select_delta(&mut self, d: i8)
        ensures
            final(self)@ == command_spec(old(self)@, InputCommand::StepSelectDelta(d)),
    {
        let current = (self.selected_step % 16) as i64;
        proof {
            let x = self.selected_step as int;
            vstd::arithmetic::div_mod::lemma_fundamental_div_mod(x, 16);
            vstd::arithmetic::div_mod::lemma_mod_add_multiples_vanish(x % 16 + d, 16);
            assert(x + d == (x % 16 + d) + 16 * (x / 16));
            vstd::arithmetic::div_mod::lemma_mod_multiples_vanish(x / 16, x % 16 + d, 16);
        }
        let next = wrap_index(current + d as i64, 16) as usize;
        self.selected_step = next;
        if matches!(self.pending_edit, PendingEdit::Note { .. } | PendingEdit::Velocity { .. }) {
            self.pending_edit = PendingEdit::NoEdit;
        }
    }

    fn cmd_note_delta(&mut self, d: i8)
        requires
            old(self).selected_step < 16,
        ensures
            final(self)@ == command_spec(old(self)@, InputCommand::NoteDelta(d)),
    {
        let step = self.selected_step;
        let mut st = self.steps[step];
        st.midi_note = next_note(st.midi_note, self.key, self.mode, d);
        self.steps[step] = st;
        let clear = match self.pending_edit {
            PendingEdit::Note { step: ps, .. } => ps == step,
            _ => false,
        };
        if clear {
            self.pending_edit = PendingEdit::NoEdit;
        }
        assert(self@.steps =~= command_spec(old(self)@, InputCommand::NoteDelta(d)).steps);
    }

    fn confirm_step_edit(&mut self, step: usize, note: Option<u8>, velocity: Option<u8>)
        requires
            note is Some != velocity is Some,
        ensures
            final(self)@ == (StateModel {
                pending_edit: PendingEdit::NoEdit,
                ..(if step < 16 {
                    with_step(
                        old(self)@,
                        step as int,
                        StepData {
                            midi_note: match note {
                                Some(n) => n,
                                None => old(self)@.steps[step as int].midi_note,
                            },
                            velocity: match velocity {
                                Some(v) => v,
                                None => old(self)@.steps[step as int].velocity,
                            },
                            ..old(self)@.steps[step as int]
                        },
                    )
                } else {
                    old(self)@
                })
            }),
    {
        if step < 16 {
            let mut st = self.steps[step];
            match note {
                Some(n) => st.midi_note = n,
                None => {},
            }
            match velocity {
                Some(v) => st.velocity = v,
                None => {},
            }
            self.steps[step] = st;
        }
        self.pending_edit = PendingEdit::NoEdit;
        assert(self@.steps =~= (if step < 16 {
            old(self)@.steps.update(step as int, self.steps[step as int])
        } else {
            old(self)@.steps
        }));
    }

    fn confirm_param(&mut self, overlay: OverlayMode, index: u8, value: i64)
        ensures
            final(self)@ == (StateModel {
                pending_edit: PendingEdit::NoEdit,
                ..(match overlay {
                    OverlayMode::Regular => apply_param(old(self)@, index, value),
                    OverlayMode::Shift => shift_apply_param(old(self)@, index, value),
                })
            }),
    {
        match overlay {
            OverlayMode::Regular => self.apply_param_value(index, value),
            OverlayMode::Shift => self.shift_apply_param_value(index, value),
        }
        self.pending_edit = PendingEdit::NoEdit;
    }

    fn cmd_confirm(&mut self)
        ensures
            final(self)@ == confirm_spec(old(self)@),
    {
        match self.pending_edit {
            PendingEdit::NoEdit => {},
            PendingEdit::Note { step, midi_note } => {
                self.confirm_step_edit(step, Some(midi_note), None);
            },
            PendingEdit::Velocity { step, velocity } => {
                self.confirm_step_edit(step, None, Some(velocity));
            },
            PendingEdit::Param { overlay, index, value } => {
                self.confirm_param(overlay, index, value);
            },
        }
    }

    fn cmd_velocity_delta(&mut self, d: i8)
        requires
            old(self).selected_step < 16,
        ensures
            final(self)@ == command_spec(old(self)@, InputCommand::VelocityDelta(d)),
    {
        let step = self.selected_step;
        let current_vel = self.steps[step].velocity;
        let sum = current_vel as i16 + d as i16;
        let new_vel: u8 = if sum < 0 {
            0
        } else if sum > 127 {
            127
        } else {
            sum as u8
        };
        self.pending_edit = PendingEdit::Velocity { step, velocity: new_vel };
    }

    fn cmd_close_overlay(&mut self)
        ensures
            final(self)@ == command_spec(old(self)@, InputCommand::CloseOverlay),
    {
        self.active_overlay = None;
        if matches!(self.pending_edit, PendingEdit::Param { .. }) {
            self.pending_edit = PendingEdit::NoEdit;
        }
    }

    fn cmd_param_value_delta(&mut self, d: i8)
        requires
            param_delta_fits(old(self)@, d),
        ensures
            final(self)@ == command_spec(old(self)@, InputCommand::ParamValueDelta(d)),
    {
        let overlay = match self.active_overlay {
            Some(m) => m,
            None => return ,
        };
        let index = self.selected_param;
        let current_value = match self.pending_edit {
            PendingEdit::Param { index: pi, value, .. } if pi == index => value,
            _ => match overlay {
                OverlayMode::Regular => self.committed_param_value(index),
                OverlayMode::Shift => self.shift_committed_param_value(index),
            },
        };
        let new_value = match overlay {
            OverlayMode::Regular => self.clamped_param_value(index, current_value + d as i64),
            OverlayMode::Shift => self.shift_clamped_param_value(index, current_value + d as i64),
        };
        self.pending_edit = PendingEdit::Param { overlay, index, value: new_value };
    }

    fn cmd_bpm_delta(&mut self, d: i8)
        ensures
            final(self)@ == command_spec(old(self)@, InputCommand::BpmDelta(d)),
    {
        let sum = self.tempo_bpm as i32 + d as i32;
        self.tempo_bpm = if sum < 20 {
            20
        } else if sum > 300 {
            300
        } else {
            sum as u16
        };
    }

    fn cmd_seed_set(&mut self, seed: u32)
        ensures
            final(self)@ == command_spec(old(self)@, InputCommand::SeedSet(seed)),
    {
        self.rand_seed = seed;
        self.rng_seed = if seed == 0 {
            0x853C_49E6_853C_49E6u64
        } else {
            seed as u64 | ((seed as u64) << 32)
        };
    }

    fn cmd_channel_set(&mut self, ch: u8)
        ensures
            final(self)@ == command_spec(old(self)@, InputCommand::ChannelSet(ch)),
    {
        let zero_based: u8 = if ch == 0 {
            0
        } else {
            ch - 1
        };
        self.midi_channel = if zero_based > 15 {
            15
        } else {
            zero_based
        };
    }

    fn cmd_panel_param_delta(&mut self, d: i8)
        ensures
            final(self)@ == command_spec(old(self)@, InputCommand::PanelParamDelta(d)),
    {
        let index = self.selected_param;
        let current = self.committed_param_value(index);
        let new_val = self.clamped_param_value(index, current + d as i64);
        self.apply_param_value(index, new_val);
    }

    fn cmd_rand_param_delta(&mut self, d: i8)
        ensures
            final(self)@ == command_spec(old(self)@, InputCommand::RandParamDelta(d)),
    {
        let index = self.selected_rand_param;
        let current = self.shift_committed_param_value(index);
        let new_val = self.shift_clamped_param_value(index, current + d as i64);
        self.shift_apply_param_value(index, new_val);
    }

    fn cmd_note_set(&mut self, step: usize, midi_note: u8, velocity: u8)
        ensures
            final(self)@ == command_spec(
                old(self)@,
                InputCommand::NoteSet { step, midi_note, velocity },
            ),
    {
        if step < 16 {
            let mut st = self.steps[step];
            st.midi_note = midi_note;
            st.velocity = velocity;
            self.steps[step] = st;
        }
        assert(self@.steps =~= command_spec(
            old(self)@,
            InputCommand::NoteSet { step, midi_note, velocity },
        ).steps);
    }

    /// Whether `apply_command` can take `cmd` in this state (see
    /// `command_fits`).
    pub fn fits_command(&self, cmd: &InputCommand) -> (r: bool)
        ensures
            r == command_fits(self@, *cmd),
    {
        match cmd {
            InputCommand::NoteDelta(_) => self.selected_step < 16,
            InputCommand::VelocityDelta(_) => self.selected_step < 16,
            InputCommand::ParamValueDelta(d) => match self.pending_edit {
                PendingEdit::Param { index, value, .. } => {
                    if self.active_overlay.is_some() && index == self.selected_param {
                        if *d >= 0 {
                            value <= i64::MAX - *d as i64
                        } else {
                            value >= i64::MIN - *d as i64
                        }
                    } else {
                        true
                    }
                },
                _ => true,
            },
            _ => true,
        }
    }

    /// Whether `tick` can run in this state (see `tick_ready`).
    pub fn ready_to_tick(&self) -> (r: bool)
        ensures
            r == tick_ready(self@),
    {
        if !self.playing || self.paused {
            return true;
        }
        if self.playhead >= 255 {
            return false;
        }
        let next = self.playhead + 1;
        let landing = if self.loop_active {
            if next > self.loop_out {
                self.loop_in
            } else {
                next
            }
        } else if next >= 16 {
            0
        } else {
            next
        };
        if landing < 16 {
            return true;
        }
        let mut seed = self.rng_seed;
        next_rand(&mut seed);
        prob_hit(&mut seed, self.step_rand)
    }

    /// Apply an `InputCommand` to the sequencer state.
    ///
    /// This is the single entry point for all state mutation driven by user
    /// input from the keyboard and the HID controller.
    pub fn apply_command(&mut self, cmd: InputCommand)
        requires
            command_fits(old(self)@, cmd),
        ensures
            final(self)@ == command_spec(old(self)@, cmd),
    {
        match cmd {
            InputCommand::StepSelect(n) => self.cmd_step_select(n),
            InputCommand::StepSelectDelta(d) => self.cmd_step_select_delta(d),
            InputCommand::NoteDelta(d) => self.cmd_note_delta(d),
            InputCommand::Confirm => self.cmd_confirm(),
            InputCommand::ToggleStep => {
                let step = self.selected_step;
                self.toggle_step(step);
            },
            InputCommand::VelocityDelta(d) => self.cmd_velocity_delta(d),
            InputCommand::OpenOverlay(mode) => {
                self.active_overlay = Some(mode);
            },
            InputCommand::CloseOverlay => self.cmd_close_overlay(),
            InputCommand::ParamSelect(n) => {
                self.selected_param = if n < 7 {
                    n
                } else {
                    7
                };
            },
            InputCommand::ParamSelectDelta(d) => {
                let current = self.selected_param as i64;
                self.selected_param = wrap_index(current + d as i64, 8) as u8;
            },
            InputCommand::ParamValueDelta(d) => self.cmd_param_value_delta(d),
            InputCommand::PlayStop => {
                if self.playing {
                    self.playing = false;
                    self.paused = false;
                } else {
                    self.playing = true;
                }
            },
            InputCommand::NoteModifierSet(v) => {
                self.note_modifier = v;
            },
            InputCommand::SkipModifierToggle => {
                self.skip_modifier = !self.skip_modifier;
            },
            InputCommand::VelocityModifierSet(v) => {
                self.velocity_modifier = v;
            },
            InputCommand::GenerateRandomSequence => self.generate_random_sequence(),
            InputCommand::BpmDelta(d) => self.cmd_bpm_delta(d),
            InputCommand::SeedSet(seed) => self.cmd_seed_set(seed),
            InputCommand::ChannelSet(ch) => self.cmd_channel_set(ch),
            InputCommand::MidiDeviceName(name) => {
                self.midi_device_name = name;
            },
            InputCommand::SetFocus(_) => {},
            InputCommand::PanelParamSelect(n) => {
                self.selected_param = if n < 7 {
                    n
                } else {
                    7
                };
            },
            InputCommand::PanelParamDelta(d) => self.cmd_panel_param_delta(d),
            InputCommand::RandParamSelect(n) => {
                self.selected_rand_param = if n < 7 {
                    n
                } else {
                    7
                };
            },
            InputCommand::RandParamDelta(d) => self.cmd_rand_param_delta(d),
            InputCommand::RandAll => self.randomise_all(),
            InputCommand::RandVelocities => self.randomise_velocities(),
            InputCommand::NoteSet { step, midi_note, velocity } => self.cmd_note_set(
                step,
                midi_note,
                velocity,
            ),
        }
    }
}


/// The model after `n` clock ticks.
pub open spec fn tick_n(s: StateModel, n: nat) -> StateModel
    decreases n,
{
    if n == 0 {
        s
    } else {
        tick_spec(tick_n(s, (n - 1) as nat)).0
    }
}

proof fn lemma_step_commands_preserve_wf(s: StateModel, cmd: InputCommand)
    requires
        state_wf(s),
        cmd is StepSelect || cmd is StepSelectDelta || cmd is NoteDelta || cmd is ToggleStep
            || cmd is VelocityDelta || cmd is NoteSet,
    ensures
        state_wf(command_spec(s, cmd)),
{
}

proof fn lemma_apply_param_wf(s: StateModel, index: u8, value: i64)
    requires
        state_wf(s),
        index == 4 || index == 5 ==> 0 <= value <= 15,
    ensures
        state_wf(apply_param(s, index, value)),
{
}

proof fn lemma_shift_apply_param_wf(s: StateModel, index: u8, value: i64)
    requires
        state_wf(s),
    ensures
        state_wf(shift_apply_param(s, index, value)),
{
}

proof fn lemma_confirm_wf(s: StateModel)
    requires
        state_wf(s),
    ensures
        state_wf(confirm_spec(s)),
{
    match s.pending_edit {
        PendingEdit::Param { overlay: OverlayMode::Regular, index, value } => {
            lemma_apply_param_wf(s, index, value);
        },
        PendingEdit::Param { overlay: OverlayMode::Shift, index, value } => {
            lemma_shift_apply_param_wf(s, index, value);
        },
        _ => {},
    }
}

proof fn lemma_param_value_delta_wf(s: StateModel, d: i8)
    requires
        state_wf(s),
    ensures
        state_wf(param_value_delta_spec(s, d)),
{
}

proof fn lemma_param_commands_preserve_wf(s: StateModel, cmd: InputCommand)
    requires
        state_wf(s),
        command_fits(s, cmd),
        cmd is Confirm || cmd is ParamValueDelta || cmd is PanelParamDelta || cmd is RandParamDelta,
    ensures
        state_wf(command_spec(s, cmd)),
{
    match cmd {
        InputCommand::Confirm => {
            lemma_confirm_wf(s);
        },
        InputCommand::ParamValueDelta(d) => {
            lemma_param_value_delta_wf(s, d);
        },
        InputCommand::PanelParamDelta(d) => {
            let i = s.selected_param;
            lemma_apply_param_wf(s, i, clamped_param(i, (committed_param(s, i) + d) as i64));
        },
        InputCommand::RandParamDelta(d) => {
            let i = s.selected_rand_param;
            lemma_shift_apply_param_wf(
                s,
                i,
                shift_clamped_param(i, (shift_committed_param(s, i) + d) as i64),
            );
        },
        _ => {},
    }
}

proof fn lemma_random_commands_preserve_wf(s: StateModel, cmd: InputCommand)
    requires
        state_wf(s),
        cmd is GenerateRandomSequence || cmd is RandAll || cmd is RandVelocities,
    ensures
        state_wf(command_spec(s, cmd)),
{
}

/// Every command keeps the engine's indices in range.
pub proof fn law_command_preserves_wf(s: StateModel, cmd: InputCommand)
    requires
        state_wf(s),
        command_fits(s, cmd),
    ensures
        state_wf(command_spec(s, cmd)),
{
    if cmd is StepSelect || cmd is StepSelectDelta || cmd is NoteDelta || cmd is ToggleStep
        || cmd is VelocityDelta || cmd is NoteSet {
        lemma_step_commands_preserve_wf(s, cmd);
    } else if cmd is Confirm || cmd is ParamValueDelta || cmd is PanelParamDelta
        || cmd is RandParamDelta {
        lemma_param_commands_preserve_wf(s, cmd);
    } else if cmd is GenerateRandomSequence || cmd is RandAll || cmd is RandVelocities {
        lemma_random_commands_preserve_wf(s, cmd);
    }
}

/// A tick keeps the engine's indices in range and touches nothing but the
/// playhead and the random stream.
pub proof fn law_tick_only_moves_playhead(s: StateModel)
    requires
        state_wf(s),
    ensures
        state_wf(tick_spec(s).0),
        tick_spec(s).0 == (StateModel {
            playhead: tick_spec(s).0.playhead,
            rng_seed: tick_spec(s).0.rng_seed,
            ..s
        }),
{
}

/// While stopped or paused a tick emits nothing and leaves the playhead
/// (and everything else but the random stream) where it is, so playback
/// resumes from the current step.
pub proof fn law_pause_holds_playhead(s: StateModel)
    requires
        !s.playing || s.paused,
    ensures
        tick_spec(s).1 is None,
        tick_spec(s).0 == (StateModel { rng_seed: tick_spec(s).0.rng_seed, ..s }),
{
}

/// A tick emits a note-on only while playing and not paused, for the step
/// the playhead lands on when that step is enabled and the skip modifier is
/// off. The note-on goes out on the engine's channel with the step's
/// velocity offset by the velocity modifier and clamped to 0..=127 (so a
/// positive modifier never lowers a velocity within 0..=127, a negative one
/// never raises it), and, with no note modifier and no scale quantisation,
/// with the step's own note.
pub proof fn law_tick_note_on(s: StateModel)
    requires
        tick_ready(s),
    ensures
        tick_spec(s).1 is Some ==> {
            let step = s.steps[tick_spec(s).0.playhead as int];
            &&& s.playing
            &&& !s.paused
            &&& step.enabled
            &&& !s.skip_modifier
        },
        tick_spec(s).1 matches Some(MidiEvent::NoteOn { channel, duration_nanos, .. }) ==> channel
            == s.midi_channel && duration_nanos == 0,
        tick_spec(s).1 matches Some(MidiEvent::NoteOn { velocity, .. }) ==> {
            let v = s.steps[tick_spec(s).0.playhead as int].velocity + s.velocity_modifier;
            velocity == (if v < 0 {
                0
            } else if v > 127 {
                127
            } else {
                v
            })
        },
        tick_spec(s).1 matches Some(MidiEvent::NoteOn { velocity, .. }) ==> {
            let sv = s.steps[tick_spec(s).0.playhead as int].velocity;
            &&& s.velocity_modifier >= 0 && sv <= 127 ==> velocity >= sv
            &&& s.velocity_modifier <= 0 ==> velocity <= sv
        },
        tick_spec(s).1 matches Some(MidiEvent::NoteOn { note, .. }) ==> (s.note_modifier == 0
            && !s.scale_quant ==> note == s.steps[tick_spec(s).0.playhead as int].midi_note),
        tick_spec(s).1 matches Some(ev) ==> ev is NoteOn,
{
    if tick_spec(s).1 is Some {
        let seed1 = xorshift(s.rng_seed);
        let ph = advance_playhead(s);
        let (seed2, muted) = prob_roll(seed1, s.step_rand);
        let step = s.steps[ph as int];
        let v = step.velocity + s.velocity_modifier;
        assert(clamp(v, 0, 127) == (if v < 0 {
            0
        } else if v > 127 {
            127
        } else {
            v
        }));
        assert(0 <= clamp(v, 0, 127) <= 127);
        assert(clamp_u8(v, 0, 127) as int == clamp(v, 0, 127));
    }
}

/// How a tick transforms the step's note: with scale quantisation the note
/// sent is always a scale note; without it, a note modifier that the note
/// randomness always applies shifts the note by the modifier (held within
/// 0..=127), and one that it never applies leaves the step's note.
pub proof fn law_tick_note_transforms(s: StateModel)
    requires
        tick_ready(s),
    ensures
        tick_spec(s).1 matches Some(MidiEvent::NoteOn { note, .. }) ==> (s.scale_quant ==> in_scale(
            s.key,
            s.mode,
            note as int,
        )),
        tick_spec(s).1 matches Some(MidiEvent::NoteOn { note, .. }) ==> (!s.scale_quant
            && s.note_modifier != 0 && s.note_rand >= 100 ==> {
            let v = s.steps[tick_spec(s).0.playhead as int].midi_note + s.note_modifier;
            note == (if v < 0 {
                0
            } else if v > 127 {
                127
            } else {
                v
            })
        }),
        tick_spec(s).1 matches Some(MidiEvent::NoteOn { note, .. }) ==> (!s.scale_quant
            && s.note_rand == 0 ==> note == s.steps[tick_spec(s).0.playhead as int].midi_note),
{
    if tick_spec(s).1 is Some && s.playing && !s.paused {
        let seed1 = xorshift(s.rng_seed);
        let ph = advance_playhead(s);
        let (seed2, muted) = prob_roll(seed1, s.step_rand);
        let step = s.steps[ph as int];
        let (seed3, n0) = if s.note_modifier != 0 {
            let modified = clamp_u8(step.midi_note + s.note_modifier, 0, 127);
            let (sd, hit) = prob_roll(seed2, s.note_rand);
            (sd, if hit { modified } else { step.midi_note })
        } else {
            (seed2, step.midi_note)
        };
        crate::music_theory::lemma_snap_exists(s.key, s.mode, n0 as int);
        let v = step.midi_note + s.note_modifier;
        assert(0 <= clamp(v, 0, 127) <= 127);
        assert(clamp_u8(v, 0, 127) as int == clamp(v, 0, 127));
    }
}

/// Confirming commits the pending edit and clears it: a pending note or
/// velocity is written to its step (when the step exists) and nothing else
/// of the steps changes; with nothing pending, confirming changes nothing;
/// a committed Regular key edit sets the key of that index.
pub proof fn law_confirm_commits(s: StateModel)
    requires
        s.steps.len() == 16,
    ensures
        s.pending_edit is NoEdit ==> command_spec(s, InputCommand::Confirm) == s,
        !(s.pending_edit is NoEdit) ==> command_spec(s, InputCommand::Confirm).pending_edit
            is NoEdit,
        s.pending_edit matches PendingEdit::Note { step, midi_note } ==> {
            let r = command_spec(s, InputCommand::Confirm);
            &&& step < 16 ==> r.steps[step as int].midi_note == midi_note
                && r.steps[step as int].velocity == s.steps[step as int].velocity
                && r.steps[step as int].enabled == s.steps[step as int].enabled
            &&& forall|j: int| 0 <= j < 16 && j != step ==> r.steps[j] == s.steps[j]
            &&& r == (StateModel { steps: r.steps, pending_edit: PendingEdit::NoEdit, ..s })
        },
        s.pending_edit matches PendingEdit::Velocity { step, velocity } ==> {
            let r = command_spec(s, InputCommand::Confirm);
            &&& step < 16 ==> r.steps[step as int].velocity == velocity
                && r.steps[step as int].midi_note == s.steps[step as int].midi_note
                && r.steps[step as int].enabled == s.steps[step as int].enabled
            &&& forall|j: int| 0 <= j < 16 && j != step ==> r.steps[j] == s.steps[j]
            &&& r == (StateModel { steps: r.steps, pending_edit: PendingEdit::NoEdit, ..s })
        },
        s.pending_edit matches PendingEdit::Param { overlay: OverlayMode::Regular, index, value }
            ==> (index == 0 && 0 <= value < 12 ==> command_spec(s, InputCommand::Confirm).key
            == key_at(value as int)),
{
}

/// The tempo command moves the tempo by its delta within 20..=300 BPM (a
/// positive delta never lowers a tempo within range, a negative one never
/// raises it); the channel command takes a 1-based channel to 0..=15 (0
/// and 1 both give channel 0, anything above 16 gives 15); the seed command
/// records the seed and restarts the random stream from a non-zero state
/// whose halves both repeat a non-zero seed. None of them changes anything
/// else.
pub proof fn law_tempo_channel_seed(s: StateModel, d: i8, ch: u8, seed: u32)
    ensures
        ({
            let r = command_spec(s, InputCommand::BpmDelta(d));
            let v = s.tempo_bpm + d;
            &&& r.tempo_bpm == (if v < 20 {
                20
            } else if v > 300 {
                300
            } else {
                v
            })
            &&& 20 <= s.tempo_bpm <= 300 && d > 0 ==> r.tempo_bpm > s.tempo_bpm || r.tempo_bpm == 300
            &&& 20 <= s.tempo_bpm <= 300 && d < 0 ==> r.tempo_bpm < s.tempo_bpm || r.tempo_bpm == 20
            &&& r == (StateModel { tempo_bpm: r.tempo_bpm, ..s })
        }),
        ({
            let r = command_spec(s, InputCommand::ChannelSet(ch));
            &&& r.midi_channel <= 15
            &&& 1 <= ch <= 16 ==> r.midi_channel + 1 == ch
            &&& ch == 0 ==> r.midi_channel == 0
            &&& ch > 16 ==> r.midi_channel == 15
            &&& r == (StateModel { midi_channel: r.midi_channel, ..s })
        }),
        ({
            let r = command_spec(s, InputCommand::SeedSet(seed));
            &&& r.rand_seed == seed
            &&& r.rng_seed != 0
            &&& seed != 0 ==> r.rng_seed % 0x1_0000_0000 == seed && r.rng_seed / 0x1_0000_0000
                == seed
            &&& r == (StateModel { rand_seed: seed, rng_seed: r.rng_seed, ..s })
        }),
{
    let r = command_spec(s, InputCommand::SeedSet(seed));
    law_seed_state_nonzero(seed);
    if seed != 0 {
        let x = seed as u64;
        assert((x | (x << 32u64)) % 0x1_0000_0000 == x && (x | (x << 32u64)) / 0x1_0000_0000 == x)
            by (bit_vector)
            requires
                x < 0x1_0000_0000,
        ;
    }
}

/// Selecting a step picks it, held to the last step; moving the selection
/// wraps around the 16 steps; either way a pending note or velocity edit is
/// dropped and a pending parameter edit kept. Toggling flips only the
/// selected step's enabled flag; a velocity delta proposes the selected
/// step's velocity moved by the delta within 0..=127; setting a note writes
/// the note and velocity of an existing step only.
pub proof fn law_step_commands(s: StateModel, n: usize, d: i8, step: usize, note: u8, vel: u8)
    requires
        s.steps.len() == 16,
    ensures
        ({
            let r = command_spec(s, InputCommand::StepSelect(n));
            &&& r.selected_step == (if n <= 15 {
                n
            } else {
                15
            })
            &&& (s.pending_edit is Note || s.pending_edit is Velocity) ==> r.pending_edit
                is NoEdit
            &&& !(s.pending_edit is Note || s.pending_edit is Velocity) ==> r.pending_edit
                == s.pending_edit
            &&& r == (StateModel { selected_step: r.selected_step, pending_edit: r.pending_edit, ..s })
        }),
        ({
            let r = command_spec(s, InputCommand::StepSelectDelta(d));
            &&& r.selected_step < 16
            &&& (r.selected_step - s.selected_step - d) % 16 == 0
            &&& (s.pending_edit is Note || s.pending_edit is Velocity) ==> r.pending_edit
                is NoEdit
            &&& !(s.pending_edit is Note || s.pending_edit is Velocity) ==> r.pending_edit
                == s.pending_edit
            &&& r == (StateModel { selected_step: r.selected_step, pending_edit: r.pending_edit, ..s })
        }),
        s.selected_step < 16 ==> {
            let r = command_spec(s, InputCommand::ToggleStep);
            let i = s.selected_step as int;
            &&& r.steps[i].enabled == !s.steps[i].enabled
            &&& r.steps[i].midi_note == s.steps[i].midi_note
            &&& r.steps[i].velocity == s.steps[i].velocity
            &&& forall|j: int| 0 <= j < 16 && j != i ==> r.steps[j] == s.steps[j]
            &&& r == (StateModel { steps: r.steps, ..s })
        },
        s.selected_step < 16 ==> {
            let r = command_spec(s, InputCommand::VelocityDelta(d));
            let v = s.steps[s.selected_step as int].velocity + d;
            &&& r.pending_edit == PendingEdit::Velocity {
                step: s.selected_step,
                velocity: (if v < 0 {
                    0
                } else if v > 127 {
                    127
                } else {
                    v
                }) as u8,
            }
            &&& r == (StateModel { pending_edit: r.pending_edit, ..s })
        },
        ({
            let r = command_spec(s, InputCommand::NoteSet { step, midi_note: note, velocity: vel });
            &&& step < 16 ==> r.steps[step as int].midi_note == note && r.steps[step as int].velocity
                == vel && r.steps[step as int].enabled == s.steps[step as int].enabled
            &&& forall|j: int| 0 <= j < 16 && j != step ==> r.steps[j] == s.steps[j]
            &&& r.steps.len() == 16
            &&& r == (StateModel { steps: r.steps, ..s })
        }),
{
    let r = command_spec(s, InputCommand::StepSelectDelta(d));
    let x = s.selected_step + d;
    vstd::arithmetic::div_mod::lemma_fundamental_div_mod(x, 16);
    assert(r.selected_step == x % 16);
    assert(r.selected_step - s.selected_step - d == -16 * (x / 16));
    vstd::arithmetic::div_mod::lemma_mod_multiples_basic(-(x / 16), 16);
    assert((16 * (-(x / 16))) % 16 == 0);
}

/// Opening an overlay records it and keeps any pending edit; closing it
/// clears it and drops a pending parameter edit only (nothing is
/// committed).
pub proof fn law_overlay_commands(s: StateModel, m: OverlayMode)
    ensures
        command_spec(s, InputCommand::OpenOverlay(m)) == (StateModel {
            active_overlay: Some(m),
            ..s
        }),
        command_spec(s, InputCommand::CloseOverlay).active_overlay is None,
        s.pending_edit is Param ==> command_spec(s, InputCommand::CloseOverlay).pending_edit
            is NoEdit,
        !(s.pending_edit is Param) ==> command_spec(s, InputCommand::CloseOverlay).pending_edit
            == s.pending_edit,
        command_spec(s, InputCommand::CloseOverlay) == (StateModel {
            active_overlay: None,
            pending_edit: command_spec(s, InputCommand::CloseOverlay).pending_edit,
            ..s
        }),
{
}

/// Play/stop toggles playback: a playing sequencer stops and leaves pause;
/// a stopped one starts, keeping its pause flag. The playhead and every
/// other field stay as they were.
pub proof fn law_play_stop_toggles(s: StateModel)
    ensures
        s.playing ==> {
            let r = command_spec(s, InputCommand::PlayStop);
            &&& !r.playing
            &&& !r.paused
            &&& r == (StateModel { playing: false, paused: false, ..s })
        },
        !s.playing ==> {
            let r = command_spec(s, InputCommand::PlayStop);
            &&& r.playing
            &&& r.paused == s.paused
            &&& r == (StateModel { playing: true, ..s })
        },
        command_spec(s, InputCommand::PlayStop).playing != s.playing,
        command_spec(s, InputCommand::PlayStop).playhead == s.playhead,
{
}

/// Playing without a loop, the playhead moves one step per tick and comes
/// back to where it started after 16 ticks.
pub proof fn law_playhead_cycles_in_16_ticks(s: StateModel)
    requires
        state_wf(s),
        s.playing,
        !s.paused,
        !s.loop_active,
    ensures
        forall|n: nat| n <= 16 ==> #[trigger] tick_n(s, n).playhead == (s.playhead + n) % 16,
        tick_n(s, 16).playhead == s.playhead,
{
    assert forall|n: nat| n <= 16 implies #[trigger] tick_n(s, n).playhead == (s.playhead + n) % 16 by {
        lemma_tick_n_playhead(s, n);
    }
    assert(tick_n(s, 16).playhead == (s.playhead + 16) % 16);
}

proof fn lemma_tick_n_playhead(s: StateModel, n: nat)
    requires
        state_wf(s),
        s.playing,
        !s.paused,
        !s.loop_active,
    ensures
        tick_n(s, n).playhead == (s.playhead + n) % 16,
        state_wf(tick_n(s, n)),
        tick_n(s, n).playing && !tick_n(s, n).paused && !tick_n(s, n).loop_active,
    decreases n,
{
    if n > 0 {
        lemma_tick_n_playhead(s, (n - 1) as nat);
    }
}

/// With the loop active and the playhead inside the loop, ticks keep the
/// playhead inside the loop.
pub proof fn law_loop_keeps_playhead_inside(s: StateModel)
    requires
        state_wf(s),
        s.loop_active,
        s.loop_in <= s.playhead <= s.loop_out,
    ensures
        s.loop_in <= tick_spec(s).0.playhead <= s.loop_out,
{
}

/// Toggling the same step twice restores the state.
pub proof fn law_toggle_twice_is_identity(s: StateModel, step: usize)
    requires
        s.steps.len() == 16,
    ensures
        toggle_spec(toggle_spec(s, step), step) == s,
{
    if step < 16 {
        assert(toggle_spec(toggle_spec(s, step), step).steps =~= s.steps);
    }
}

/// `n` draws followed by `m` draws are `n + m` draws.
pub proof fn lemma_rand_chain_add(seed: u64, n: nat, m: nat)
    ensures
        rand_chain(rand_chain(seed, n), m) == rand_chain(seed, n + m),
    decreases m,
{
    if m > 0 {
        lemma_rand_chain_add(seed, n, (m - 1) as nat);
    }
}

/// Randomising notes and velocities consumes exactly 32 draws of the random
/// stream (16 for notes, then 16 for velocities), leaves every note a scale
/// note and every velocity in 40..=127, and changes nothing but the steps'
/// notes and velocities and the stream.
pub proof fn law_rand_all(s: StateModel)
    requires
        s.steps.len() == 16,
    ensures
        command_spec(s, InputCommand::RandAll).rng_seed == rand_chain(s.rng_seed, 32),
        forall|i: int|
            0 <= i < 16 ==> {
                let st = #[trigger] command_spec(s, InputCommand::RandAll).steps[i];
                &&& crate::music_theory::in_scale(s.key, s.mode, st.midi_note as int)
                &&& 48 <= st.midi_note <= 84
                &&& 40 <= st.velocity <= 127
                &&& st.enabled == s.steps[i].enabled
            },
        command_spec(s, InputCommand::RandAll) == (StateModel {
            steps: command_spec(s, InputCommand::RandAll).steps,
            rng_seed: command_spec(s, InputCommand::RandAll).rng_seed,
            ..s
        }),
{
    lemma_rand_chain_add(s.rng_seed, 16, 16);
    assert forall|i: int| 0 <= i < 16 implies {
        let st = #[trigger] command_spec(s, InputCommand::RandAll).steps[i];
        &&& crate::music_theory::in_scale(s.key, s.mode, st.midi_note as int)
        &&& 48 <= st.midi_note <= 84
        &&& 40 <= st.velocity <= 127
        &&& st.enabled == s.steps[i].enabled
    } by {
        let raw = (rand_chain(s.rng_seed, (i + 1) as nat) % 37) as int + 48;
        lemma_snap_between(s.key, s.mode, raw, 48, 84);
    }
}

/// Generating a random sequence draws exactly 16 values of the random
/// stream and puts every step's note on a scale note within 48..=84 (C3 to
/// C6), leaving whether it is enabled, its velocity and every other field
/// as they were.
pub proof fn law_random_sequence_in_register(s: StateModel)
    requires
        s.steps.len() == 16,
    ensures
        command_spec(s, InputCommand::GenerateRandomSequence).rng_seed == rand_chain(s.rng_seed, 16),
        forall|i: int|
            0 <= i < 16 ==> {
                let st = #[trigger] command_spec(s, InputCommand::GenerateRandomSequence).steps[i];
                &&& in_scale(s.key, s.mode, st.midi_note as int)
                &&& 48 <= st.midi_note <= 84
                &&& st.velocity == s.steps[i].velocity
                &&& st.enabled == s.steps[i].enabled
            },
        command_spec(s, InputCommand::GenerateRandomSequence) == (StateModel {
            steps: command_spec(s, InputCommand::GenerateRandomSequence).steps,
            rng_seed: command_spec(s, InputCommand::GenerateRandomSequence).rng_seed,
            ..s
        }),
{
    assert forall|i: int| 0 <= i < 16 implies {
        let st = #[trigger] command_spec(s, InputCommand::GenerateRandomSequence).steps[i];
        &&& in_scale(s.key, s.mode, st.midi_note as int)
        &&& 48 <= st.midi_note <= 84
        &&& st.velocity == s.steps[i].velocity
        &&& st.enabled == s.steps[i].enabled
    } by {
        let raw = (rand_chain(s.rng_seed, (i + 1) as nat) % 37) as int + 48;
        lemma_snap_between(s.key, s.mode, raw, 48, 84);
    }
}

/// Randomising velocities leaves every note as it was and puts every
/// velocity in 40..=127.
pub proof fn law_rand_velocities_keeps_notes(s: StateModel)
    requires
        s.steps.len() == 16,
    ensures
        forall|i: int|
            0 <= i < 16 ==> {
                let st = #[trigger] command_spec(s, InputCommand::RandVelocities).steps[i];
                &&& st.midi_note == s.steps[i].midi_note
                &&& st.enabled == s.steps[i].enabled
                &&& 40 <= st.velocity <= 127
            },
{
}

/// Setting a seed never leaves the random stream at Xorshift's fixed point 0.
pub proof fn law_seed_state_nonzero(seed: u32)
    ensures
        seed_state(seed) != 0,
{
    if seed != 0 {
        let x = seed as u64;
        assert(x != 0 ==> (x | (x << 32u64)) != 0) by (bit_vector);
    }
}

/// Tempo edits keep the tempo within 20..=300 BPM, whatever the delta.
pub proof fn law_bpm_stays_in_range(s: StateModel, d: i8)
    requires
        20 <= s.tempo_bpm <= 300,
    ensures
        20 <= command_spec(s, InputCommand::BpmDelta(d)).tempo_bpm <= 300,
{
}

} // verus!
