//! HID report codecs and the decisions of the HID read/translate/write loop.
//!
//! IN report (controller → engine), 64 bytes:
//!   Byte  0    : report_id = 0x01
//!   Byte  1    : sequence number (u8, wraps)
//!   Byte  2    : flags (bit0=encoder_tap, bit1=param_tap, bit2=tempo_tap, bit3=reserved)
//!   Bytes 3-4  : step_buttons[15:0] — press edges
//!   Bytes 5-6  : step_enable_state[15:0] — LED mirror
//!   Byte  7    : param_buttons low byte
//!   Byte  8    : param_buttons high nibble
//!   Bytes 9-24 : encoder_deltas[16] — signed i8
//!   Byte 25    : tempo_delta — signed i8
//!   Byte 26    : param_knob_delta — signed i8
//!   Bytes 27-63: reserved (zero-filled)
//!
//! OUT report (engine → controller), 64 bytes:
//!   Byte  0    : report_id = 0x02
//!   Byte  1    : sequence number echo
//!   Bytes 2-3  : led_state[15:0]
//!   Bytes 4-63 : reserved
//!
//! Encoders always send `NoteDelta`; overlay-aware routing is not done here.

use vstd::prelude::*;

use crate::input::{InputCommand, OverlayMode};
use crate::music_theory::clamp;
use crate::state::{SequencerState, StepData, StateModel};

verus! {

/// USB Vendor ID — Raspberry Pi
pub const HID_VID: u16 = 0x2E8A;

/// USB Product ID — HID test device
pub const HID_PID: u16 = 0x000A;

/// IN report: controller → engine, 64 bytes.
#[derive(Debug, Clone, Copy, PartialEq, Eq)]
pub struct InReport {
    /// Always 0x01.
    pub report_id: u8,
    /// Wrapping sequence number.
    pub seq: u8,
    /// Flags: bit0 = encoder_tap pending, bit1 = param_tap, bit2 = tempo_tap.
    pub flags: u8,
    /// Bytes 3–4: step button press edges, one bit per step (16 steps).
    pub step_buttons: [u8; 2],
    /// Bytes 5–6: LED mirror — current step-enable state.
    pub step_enable_state: [u8; 2],
    /// Bytes 7–8: 12 param buttons packed in low 12 bits across two bytes.
    pub param_buttons: [u8; 2],
    /// Bytes 9–24: signed delta per encoder (16 encoders).
    pub encoder_deltas: [i8; 16],
    /// Byte 25: tempo encoder signed delta.
    pub tempo_delta: i8,
    /// Byte 26: param knob signed delta.
    pub param_knob_delta: i8,
    /// Bytes 27–63: reserved, zero-filled.
    pub reserved: [u8; 37],
}

/// `report` is what the 64 bytes `buf` say, field by field.
pub open spec fn decodes_to(buf: Seq<u8>, report: InReport) -> bool {
    &&& report.report_id == buf[0]
    &&& report.seq == buf[1]
    &&& report.flags == buf[2]
    &&& report.step_buttons@ == seq![buf[3], buf[4]]
    &&& report.step_enable_state@ == seq![buf[5], buf[6]]
    &&& report.param_buttons@ == seq![buf[7], buf[8]]
    &&& report.encoder_deltas@.len() == 16
    &&& forall|i: int| 0 <= i < 16 ==> #[trigger] report.encoder_deltas@[i] == buf[9 + i] as i8
    &&& report.tempo_delta == buf[25] as i8
    &&& report.param_knob_delta == buf[26] as i8
    &&& report.reserved@ == buf.subrange(27, 64)
}

impl InReport {
    /// Decode a raw 64-byte HID IN report buffer into an `InReport`.
    ///
    /// No heap allocation.  All fields are copied from `buf` by value.
    pub fn from_bytes(buf: &[u8; 64]) -> (r: InReport)
        ensures
            decodes_to(buf@, r),
    {
        let mut encoder_deltas = [0i8; 16];
        let mut i: usize = 0;
        while i < 16
            invariant
                0 <= i <= 16,
                buf@.len() == 64,
                encoder_deltas@.len() == 16,
                forall|j: int| 0 <= j < i ==> #[trigger] encoder_deltas@[j] == buf@[9 + j] as i8,
            decreases 16 - i,
        {
            encoder_deltas[i] = buf[9 + i] as i8;
            i = i + 1;
        }
        let mut reserved = [0u8; 37];
        let mut k: usize = 0;
        while k < 37
            invariant
                0 <= k <= 37,
                buf@.len() == 64,
                reserved@.len() == 37,
                forall|j: int| 0 <= j < k ==> #[trigger] reserved@[j] == buf@[27 + j],
            decreases 37 - k,
        {
            reserved[k] = buf[27 + k];
            k = k + 1;
        }
        let r = InReport {
            report_id: buf[0],
            seq: buf[1],
            flags: buf[2],
            step_buttons: [buf[3], buf[4]],
            step_enable_state: [buf[5], buf[6]],
            param_buttons: [buf[7], buf[8]],
            encoder_deltas,
            tempo_delta: buf[25] as i8,
            param_knob_delta: buf[26] as i8,
            reserved,
        };
        assert(r.reserved@ =~= buf@.subrange(27, 64));
        assert(r.step_buttons@ =~= seq![buf@[3], buf@[4]]);
        assert(r.step_enable_state@ =~= seq![buf@[5], buf@[6]]);
        assert(r.param_buttons@ =~= seq![buf@[7], buf@[8]]);
        r
    }
}

/// OUT report: engine → controller, 64 bytes.
#[derive(Debug, Clone, Copy, PartialEq, Eq)]
pub struct OutReport {
    /// Always 0x02.
    pub report_id: u8,
    /// Echo of the last received `InReport.seq`.
    pub seq_echo: u8,
    /// Bytes 2–3: 16 step LEDs, one bit per step.
    pub led_state: [u8; 2],
    /// Bytes 4–63: reserved, zero-filled.
    pub reserved: [u8; 60],
}

/// The 64 wire bytes of an OUT report.
pub open spec fn out_report_bytes(r: OutReport) -> Seq<u8> {
    seq![r.report_id, r.seq_echo, r.led_state@[0], r.led_state@[1]] + r.reserved@
}

impl OutReport {
    /// Encode the `OutReport` into a 64-byte HID OUT report buffer.
    ///
    /// No heap allocation.  The returned array is stack-allocated.
    pub fn to_bytes(&self) -> (buf: [u8; 64])
        ensures
            buf@ == out_report_bytes(*self),
    {
        let mut buf = [0u8; 64];
        buf[0] = self.report_id;
        buf[1] = self.seq_echo;
        buf[2] = self.led_state[0];
        buf[3] = self.led_state[1];
        let mut i: usize = 0;
        while i < 60
            invariant
                0 <= i <= 60,
                buf@.len() == 64,
                self.reserved@.len() == 60,
                buf@[0] == self.report_id,
                buf@[1] == self.seq_echo,
                buf@[2] == self.led_state@[0],
                buf@[3] == self.led_state@[1],
                forall|j: int| 0 <= j < i ==> #[trigger] buf@[4 + j] == self.reserved@[j],
            decreases 60 - i,
        {
            buf[4 + i] = self.reserved[i];
            i = i + 1;
        }
        assert forall|k: int| 0 <= k < 64 implies buf@[k] == out_report_bytes(*self)[k] by {
            if k >= 4 {
                assert(buf@[4 + (k - 4)] == self.reserved@[k - 4]);
            }
        }
        assert(buf@ =~= out_report_bytes(*self));
        buf
    }
}

// ---------------------------------------------------------------------------
// Translation of IN reports into input commands.
// ---------------------------------------------------------------------------

/// A 16-bit word from its low and high bytes.
pub open spec fn word_of(b: [u8; 2]) -> u16 {
    (b@[0] as u16) | ((b@[1] as u16) << 8u16)
}

/// Bit `bit` of `word` is set.
pub open spec fn bit_set(word: u16, bit: int) -> bool {
    word & (1u16 << (bit as u16)) != 0u16
}

/// Commands for the encoders `0..n`: each non-zero delta selects its step
/// and moves its note.
pub open spec fn encoder_commands(deltas: Seq<i8>, n: nat) -> Seq<InputCommand>
    decreases n,
{
    if n == 0 {
        Seq::empty()
    } else {
        let i = n - 1;
        let before = encoder_commands(deltas, (n - 1) as nat);
        if deltas[i] != 0 {
            before + seq![InputCommand::StepSelect(i as usize), InputCommand::NoteDelta(deltas[i])]
        } else {
            before
        }
    }
}

/// Commands for the step buttons `0..n`: each pressed button selects its
/// step and toggles it.
pub open spec fn step_button_commands(word: u16, n: nat) -> Seq<InputCommand>
    decreases n,
{
    if n == 0 {
        Seq::empty()
    } else {
        let b = n - 1;
        let before = step_button_commands(word, (n - 1) as nat);
        if bit_set(word, b) {
            before + seq![InputCommand::StepSelect(b as usize), InputCommand::ToggleStep]
        } else {
            before
        }
    }
}

/// Commands for the param buttons: bit 0 opens the overlay on the key,
/// bits 1–3 select params 1–3, bit 8 cycles the loop and bit 10 the pause
/// (bit 11, stop/start, is a direct write and sends nothing).
pub open spec fn param_button_commands(word: u16) -> Seq<InputCommand> {
    (if bit_set(word, 0) {
        seq![InputCommand::OpenOverlay(OverlayMode::Regular), InputCommand::ParamSelect(0)]
    } else {
        Seq::empty()
    }) + (if bit_set(word, 1) {
        seq![InputCommand::ParamSelect(1)]
    } else {
        Seq::empty()
    }) + (if bit_set(word, 2) {
        seq![InputCommand::ParamSelect(2)]
    } else {
        Seq::empty()
    }) + (if bit_set(word, 3) {
        seq![InputCommand::ParamSelect(3)]
    } else {
        Seq::empty()
    }) + (if bit_set(word, 8) {
        seq![InputCommand::ParamSelect(4), InputCommand::ParamValueDelta(1)]
    } else {
        Seq::empty()
    }) + (if bit_set(word, 10) {
        seq![InputCommand::ParamSelect(5), InputCommand::ParamValueDelta(1)]
    } else {
        Seq::empty()
    })
}

/// All commands an IN report translates to, in order: encoders, step
/// buttons, param buttons, then the param knob.
pub open spec fn translate_spec(report: InReport) -> Seq<InputCommand> {
    encoder_commands(report.encoder_deltas@, 16) + step_button_commands(
        word_of(report.step_buttons),
        16,
    ) + param_button_commands(word_of(report.param_buttons)) + if report.param_knob_delta != 0 {
        seq![InputCommand::ParamValueDelta(report.param_knob_delta)]
    } else {
        Seq::empty()
    }
}

fn push_encoder_commands(cmds: &mut Vec<InputCommand>, deltas: &[i8; 16])
    ensures
        final(cmds)@ == old(cmds)@ + encoder_commands(deltas@, 16),
{
    let ghost start = cmds@;
    let mut i: usize = 0;
    while i < 16
        invariant
            0 <= i <= 16,
            deltas@.len() == 16,
            cmds@ == start + encoder_commands(deltas@, i as nat),
        decreases 16 - i,
    {
        let delta = deltas[i];
        if delta != 0 {
            cmds.push(InputCommand::StepSelect(i));
            cmds.push(InputCommand::NoteDelta(delta));
        }
        i = i + 1;
        proof {
            assert(cmds@ =~= start + encoder_commands(deltas@, i as nat));
        }
    }
}

fn push_step_button_commands(cmds: &mut Vec<InputCommand>, step_word: u16)
    ensures
        final(cmds)@ == old(cmds)@ + step_button_commands(step_word, 16),
{
    let ghost start = cmds@;
    let mut bit: u16 = 0;
    while bit < 16
        invariant
            0 <= bit <= 16,
            cmds@ == start + step_button_commands(step_word, bit as nat),
        decreases 16 - bit,
    {
        if step_word & (1 << bit) != 0 {
            cmds.push(InputCommand::StepSelect(bit as usize));
            cmds.push(InputCommand::ToggleStep);
        }
        bit = bit + 1;
        proof {
            assert(cmds@ =~= start + step_button_commands(step_word, bit as nat));
        }
    }
}

fn push_param_button_commands(cmds: &mut Vec<InputCommand>, param_word: u16)
    ensures
        final(cmds)@ == old(cmds)@ + param_button_commands(param_word),
{
    let ghost start = cmds@;
    // Bit 0: Key (index 0) — also opens overlay.
    if param_word & (1 << 0) != 0 {
        cmds.push(InputCommand::OpenOverlay(OverlayMode::Regular));
        cmds.push(InputCommand::ParamSelect(0));
    }
    // Bits 1–3: Mode, Swing, Step Size (indices 1–3).
    if param_word & (1 << 1) != 0 {
        cmds.push(InputCommand::ParamSelect(1));
    }
    if param_word & (1 << 2) != 0 {
        cmds.push(InputCommand::ParamSelect(2));
    }
    if param_word & (1 << 3) != 0 {
        cmds.push(InputCommand::ParamSelect(3));
    }
    // Bit 8: loop in/out/clear cycling.
    if param_word & (1 << 8) != 0 {
        cmds.push(InputCommand::ParamSelect(4));
        cmds.push(InputCommand::ParamValueDelta(1));
    }
    // Bit 10: pause toggle.
    if param_word & (1 << 10) != 0 {
        cmds.push(InputCommand::ParamSelect(5));
        cmds.push(InputCommand::ParamValueDelta(1));
    }
    // Bit 11: stop/start is a direct state write; no command.
    proof {
        assert(cmds@ =~= start + param_button_commands(param_word));
    }
}

/// Translate one `InReport` into a sequence of `InputCommand` values.
///
/// Pure function: no I/O, no locks, no side effects.  The `active_overlay`
/// argument is the current overlay state (read from shared state by the
/// caller); encoders send `NoteDelta` whatever it is.
///
/// Tempo delta and stop/start/pause are handled as direct state writes
/// (`apply_direct_writes`); they do not appear in the returned Vec.
pub fn translate_in_report(report: &InReport, active_overlay: Option<OverlayMode>) -> (cmds: Vec<
    InputCommand,
>)
    ensures
        cmds@ == translate_spec(*report),
{
    let mut cmds: Vec<InputCommand> = Vec::new();
    push_encoder_commands(&mut cmds, &report.encoder_deltas);
    let step_word: u16 = (report.step_buttons[0] as u16) | ((report.step_buttons[1] as u16) << 8);
    push_step_button_commands(&mut cmds, step_word);
    let param_word: u16 = (report.param_buttons[0] as u16) | ((report.param_buttons[1] as u16)
        << 8);
    push_param_button_commands(&mut cmds, param_word);
    if report.param_knob_delta != 0 {
        cmds.push(InputCommand::ParamValueDelta(report.param_knob_delta));
    }
    proof {
        assert(cmds@ =~= translate_spec(*report));
    }
    cmds
}

/// Bit `i` (0–7) of byte `b`.
pub open spec fn byte_bit(b: u8, i: int) -> bool {
    (b >> (i as u8)) & 1u8 == 1u8
}

/// `bytes` carry the step-enable bitmap: bit `i` of the 16-bit word is
/// step `i`.
pub open spec fn leds_match(bytes: [u8; 2], steps_enabled: Seq<bool>) -> bool {
    forall|i: int|
        0 <= i < 8 ==> (byte_bit(bytes@[0], i) == steps_enabled[i] && byte_bit(bytes@[1], i)
            == steps_enabled[i + 8])
}

proof fn lemma_set_bit(x: u8, i: u8, j: u8)
    requires
        i < 8,
        j < 8,
    ensures
        ((x | (1u8 << i)) >> j) & 1u8 == (if i == j {
            1u8
        } else {
            (x >> j) & 1u8
        }),
{
    assert(((x | (1u8 << i)) >> j) & 1u8 == (if i == j {
        1u8
    } else {
        (x >> j) & 1u8
    })) by (bit_vector)
        requires
            i < 8,
            j < 8,
    ;
}

proof fn lemma_zero_bits(j: u8)
    requires
        j < 8,
    ensures
        (0u8 >> j) & 1u8 == 0u8,
{
    assert((0u8 >> j) & 1u8 == 0u8) by (bit_vector);
}

/// Compute the two LED state bytes from the current step-enable bitmap.
///
/// `steps_enabled[i]` is `true` if step `i` is enabled.  Bit `i` of the
/// returned `[u8; 2]` reflects `steps_enabled[i]`.
pub fn compute_led_bytes(steps_enabled: &[bool; 16]) -> (r: [u8; 2])
    ensures
        leds_match(r, steps_enabled@),
{
    let mut lo: u8 = 0;
    let mut hi: u8 = 0;
    let mut i: u8 = 0;
    proof {
        assert forall|j: u8| j < 8 implies (0u8 >> j) & 1u8 == 0u8 by {
            lemma_zero_bits(j);
        }
    }
    while i < 8
        invariant
            0 <= i <= 8,
            steps_enabled@.len() == 16,
            forall|j: u8| j < i ==> ((lo >> j) & 1u8 == 1u8) == steps_enabled@[j as int],
            forall|j: u8| j < i ==> ((hi >> j) & 1u8 == 1u8) == steps_enabled@[j + 8],
            forall|j: u8| i <= j < 8 ==> (lo >> j) & 1u8 == 0u8,
            forall|j: u8| i <= j < 8 ==> (hi >> j) & 1u8 == 0u8,
        decreases 8 - i,
    {
        let old_lo = lo;
        let old_hi = hi;
        if steps_enabled[i as usize] {
            lo = lo | (1 << i);
        }
        if steps_enabled[i as usize + 8] {
            hi = hi | (1 << i);
        }
        proof {
            assert forall|j: u8| j < 8 implies (lo >> j) & 1u8 == (if j == i {
                if steps_enabled@[i as int] {
                    1u8
                } else {
                    0u8
                }
            } else {
                (old_lo >> j) & 1u8
            }) by {
                if steps_enabled@[i as int] {
                    lemma_set_bit(old_lo, i, j);
                }
            }
            assert forall|j: u8| j < 8 implies (hi >> j) & 1u8 == (if j == i {
                if steps_enabled@[i + 8] {
                    1u8
                } else {
                    0u8
                }
            } else {
                (old_hi >> j) & 1u8
            }) by {
                if steps_enabled@[i + 8] {
                    lemma_set_bit(old_hi, i, j);
                }
            }
        }
        i = i + 1;
    }
    let r = [lo, hi];
    proof {
        assert forall|k: int| 0 <= k < 8 implies (byte_bit(r@[0], k) == steps_enabled@[k]
            && byte_bit(r@[1], k) == steps_enabled@[k + 8]) by {
            let j = k as u8;
            assert(j < i);
        }
    }
    r
}

// ---------------------------------------------------------------------------
// Decisions of the HID loop (the loop itself, with the device, lives with
// the caller).
// ---------------------------------------------------------------------------

/// Whether a report repeats the sequence number of the previous one.
pub fn is_duplicate_seq(last_seq: Option<u8>, seq: u8) -> (r: bool)
    ensures
        r == (last_seq == Some(seq)),
{
    match last_seq {
        Some(prev) => prev == seq,
        None => false,
    }
}

/// The direct state writes of one report: the tempo encoder moves the BPM
/// (clamped to 20–300), param bit 10 toggles pause and bit 11 toggles
/// playing (stopping also clears pause and rewinds the playhead).
pub open spec fn direct_writes_spec(s: StateModel, report: InReport) -> StateModel {
    let word = word_of(report.param_buttons);
    let bpm = if report.tempo_delta != 0 {
        clamp(s.tempo_bpm + report.tempo_delta, 20, 300) as u16
    } else {
        s.tempo_bpm
    };
    let paused1 = if bit_set(word, 10) {
        !s.paused
    } else {
        s.paused
    };
    let (playing, paused, playhead) = if bit_set(word, 11) {
        if s.playing {
            (false, false, 0u8)
        } else {
            (true, paused1, s.playhead)
        }
    } else {
        (s.playing, paused1, s.playhead)
    };
    StateModel { tempo_bpm: bpm, paused, playing, playhead, ..s }
}

/// Apply the direct state writes of `report` (see `direct_writes_spec`).
pub fn apply_direct_writes(state: &mut SequencerState, report: &InReport)
    ensures
        final(state)@ == direct_writes_spec(old(state)@, *report),
{
    let param_word: u16 = (report.param_buttons[0] as u16) | ((report.param_buttons[1] as u16)
        << 8);
    let bpm: u16 = if report.tempo_delta != 0 {
        let b = state.tempo_bpm as i32 + report.tempo_delta as i32;
        if b < 20 {
            20
        } else if b > 300 {
            300
        } else {
            b as u16
        }
    } else {
        state.tempo_bpm
    };
    let paused1 = if param_word & (1 << 10) != 0 {
        !state.paused
    } else {
        state.paused
    };
    let (playing, paused, playhead) = if param_word & (1 << 11) != 0 {
        if state.playing {
            (false, false, 0u8)
        } else {
            (true, paused1, state.playhead)
        }
    } else {
        (state.playing, paused1, state.playhead)
    };
    state.tempo_bpm = bpm;
    state.paused = paused;
    state.playing = playing;
    state.playhead = playhead;
}

/// The OUT report that mirrors the step-enable state back to the
/// controller, echoing `seq`.
pub fn led_out_report(steps: &[StepData; 16], seq: u8) -> (r: OutReport)
    ensures
        r.report_id == 0x02,
        r.seq_echo == seq,
        leds_match(r.led_state, Seq::new(16, |i: int| steps@[i].enabled)),
        r.reserved@ == Seq::new(60, |i: int| 0u8),
{
    let mut enabled = [false; 16];
    let mut i: usize = 0;
    while i < 16
        invariant
            0 <= i <= 16,
            enabled@.len() == 16,
            steps@.len() == 16,
            forall|j: int| 0 <= j < i ==> #[trigger] enabled@[j] == steps@[j].enabled,
        decreases 16 - i,
    {
        enabled[i] = steps[i].enabled;
        i = i + 1;
    }
    assert(enabled@ =~= Seq::new(16, |i: int| steps@[i].enabled));
    let r = OutReport {
        report_id: 0x02,
        seq_echo: seq,
        led_state: compute_led_bytes(&enabled),
        reserved: [0u8; 60],
    };
    assert(r.reserved@ =~= Seq::new(60, |i: int| 0u8));
    r
}

// ---------------------------------------------------------------------------
// Laws.
// ---------------------------------------------------------------------------

/// Decoding is injective: two buffers that decode to the same report are
/// the same buffer.
pub proof fn law_decode_injective(buf1: Seq<u8>, buf2: Seq<u8>, r: InReport)
    requires
        buf1.len() == 64,
        buf2.len() == 64,
        decodes_to(buf1, r),
        decodes_to(buf2, r),
    ensures
        buf1 == buf2,
{
    assert forall|i: int| 0 <= i < 64 implies buf1[i] == buf2[i] by {
        if 9 <= i < 25 {
            let k = i - 9;
            assert(r.encoder_deltas@[k] == buf1[9 + k] as i8);
            assert(r.encoder_deltas@[k] == buf2[9 + k] as i8);
            let a = buf1[i];
            let b = buf2[i];
            assert(a as i8 == b as i8 ==> a == b) by (bit_vector);
        } else if i == 25 || i == 26 {
            let a = buf1[i];
            let b = buf2[i];
            assert(a as i8 == b as i8 ==> a == b) by (bit_vector);
        } else if 27 <= i {
            assert(r.reserved@[i - 27] == buf1[i]);
        } else if 3 <= i <= 8 {
        }
    }
    assert(buf1 =~= buf2);
}

/// The LED bytes give back the step-enable bitmap they were made from.
pub proof fn law_leds_determine_steps(bytes: [u8; 2], s1: Seq<bool>, s2: Seq<bool>)
    requires
        s1.len() == 16,
        s2.len() == 16,
        leds_match(bytes, s1),
        leds_match(bytes, s2),
    ensures
        s1 == s2,
{
    assert forall|i: int| 0 <= i < 16 implies s1[i] == s2[i] by {
        if i >= 8 {
            assert(byte_bit(bytes@[1], i - 8) == s1[i]);
        } else {
            assert(byte_bit(bytes@[0], i) == s1[i]);
        }
    }
    assert(s1 =~= s2);
}

/// The tempo encoder moves the tempo by its delta, held within 20..=300 BPM:
/// a positive delta never lowers it and a negative one never raises it (from
/// a tempo within that range); with no delta the tempo stays as it is.
pub proof fn law_tempo_encoder(s: StateModel, report: InReport)
    ensures
        report.tempo_delta != 0 ==> {
            let v = s.tempo_bpm + report.tempo_delta;
            direct_writes_spec(s, report).tempo_bpm == (if v < 20 {
                20
            } else if v > 300 {
                300
            } else {
                v
            })
        },
        report.tempo_delta == 0 ==> direct_writes_spec(s, report).tempo_bpm == s.tempo_bpm,
        20 <= s.tempo_bpm <= 300 && report.tempo_delta > 0 ==> direct_writes_spec(
            s,
            report,
        ).tempo_bpm > s.tempo_bpm || direct_writes_spec(s, report).tempo_bpm == 300,
        20 <= s.tempo_bpm <= 300 && report.tempo_delta < 0 ==> direct_writes_spec(
            s,
            report,
        ).tempo_bpm < s.tempo_bpm || direct_writes_spec(s, report).tempo_bpm == 20,
        direct_writes_spec(s, report) == (StateModel {
            tempo_bpm: direct_writes_spec(s, report).tempo_bpm,
            paused: direct_writes_spec(s, report).paused,
            playing: direct_writes_spec(s, report).playing,
            playhead: direct_writes_spec(s, report).playhead,
            ..s
        }),
{
}

/// The stop/start key stops a running sequencer with the playhead back on
/// the first step and pause cleared, and starts a stopped one from the step
/// where its playhead stands; the pause key alone holds the playhead.
pub proof fn law_transport_keys(s: StateModel, report: InReport)
    ensures
        bit_set(word_of(report.param_buttons), 11) && s.playing ==> {
            let t = direct_writes_spec(s, report);
            !t.playing && !t.paused && t.playhead == 0
        },
        bit_set(word_of(report.param_buttons), 11) && !s.playing ==> {
            let t = direct_writes_spec(s, report);
            t.playing && t.playhead == s.playhead
        },
        !bit_set(word_of(report.param_buttons), 11) ==> {
            let t = direct_writes_spec(s, report);
            t.playing == s.playing && t.playhead == s.playhead && (t.paused != s.paused
                <==> bit_set(word_of(report.param_buttons), 10))
        },
{
}

/// A report with no deltas and no buttons pressed asks for nothing.
pub proof fn law_idle_report_is_silent(report: InReport)
    requires
        forall|i: int| 0 <= i < 16 ==> report.encoder_deltas@[i] == 0,
        report.step_buttons@ == seq![0u8, 0u8],
        report.param_buttons@ == seq![0u8, 0u8],
        report.param_knob_delta == 0,
    ensures
        translate_spec(report) == Seq::<InputCommand>::empty(),
{
    lemma_no_encoders(report.encoder_deltas@, 16);
    assert(word_of(report.step_buttons) == 0) by {
        let a = report.step_buttons@[0];
        let b = report.step_buttons@[1];
        assert(a == 0 && b == 0 ==> (a as u16) | ((b as u16) << 8u16) == 0u16) by (bit_vector);
    }
    assert(word_of(report.param_buttons) == 0) by {
        let a = report.param_buttons@[0];
        let b = report.param_buttons@[1];
        assert(a == 0 && b == 0 ==> (a as u16) | ((b as u16) << 8u16) == 0u16) by (bit_vector);
    }
    lemma_no_step_buttons(16);
    assert forall|b: u16| b < 16 implies 0u16 & (1u16 << b) == 0u16 by {
        assert(0u16 & (1u16 << b) == 0u16) by (bit_vector);
    }
    assert(param_button_commands(0) =~= Seq::<InputCommand>::empty());
    assert(translate_spec(report) =~= Seq::<InputCommand>::empty());
}

/// A report in which only encoder `i` turns (by `d`) selects step `i` and
/// moves its note by `d`; one in which only step button `i` is pressed
/// selects step `i` and toggles it; one in which only the param knob turns
/// (by `k`) moves the selected parameter by `k`.
pub proof fn law_single_control(report: InReport, i: int)
    requires
        0 <= i < 16,
        report.param_buttons@ == seq![0u8, 0u8],
    ensures
        (forall|j: int| 0 <= j < 16 ==> (report.encoder_deltas@[j] != 0 <==> j == i))
            && report.step_buttons@ == seq![0u8, 0u8] && report.param_knob_delta == 0
            ==> translate_spec(report) == seq![
            InputCommand::StepSelect(i as usize),
            InputCommand::NoteDelta(report.encoder_deltas@[i]),
        ],
        (forall|j: int| 0 <= j < 16 ==> report.encoder_deltas@[j] == 0) && word_of(
            report.step_buttons,
        ) == (1u16 << (i as u16)) && report.param_knob_delta == 0 ==> translate_spec(report)
            == seq![InputCommand::StepSelect(i as usize), InputCommand::ToggleStep],
        (forall|j: int| 0 <= j < 16 ==> report.encoder_deltas@[j] == 0) && report.step_buttons@
            == seq![0u8, 0u8] && report.param_knob_delta != 0 ==> translate_spec(report) == seq![
            InputCommand::ParamValueDelta(report.param_knob_delta),
        ],
{
    assert(word_of(report.param_buttons) == 0) by {
        let a = report.param_buttons@[0];
        let b = report.param_buttons@[1];
        assert(a == 0 && b == 0 ==> (a as u16) | ((b as u16) << 8u16) == 0u16) by (bit_vector);
    }
    assert forall|b: u16| b < 16 implies 0u16 & (1u16 << b) == 0u16 by {
        assert(0u16 & (1u16 << b) == 0u16) by (bit_vector);
    }
    assert(param_button_commands(0) =~= Seq::<InputCommand>::empty());
    lemma_no_step_buttons(16);
    if report.step_buttons@ == seq![0u8, 0u8] {
        let a = report.step_buttons@[0];
        let b = report.step_buttons@[1];
        assert(a == 0 && b == 0 ==> (a as u16) | ((b as u16) << 8u16) == 0u16) by (bit_vector);
    }
    if forall|j: int| 0 <= j < 16 ==> (report.encoder_deltas@[j] != 0 <==> j == i) {
        lemma_one_encoder(report.encoder_deltas@, i, 16);
        if report.step_buttons@ == seq![0u8, 0u8] && report.param_knob_delta == 0 {
            assert(translate_spec(report) =~= seq![
                InputCommand::StepSelect(i as usize),
                InputCommand::NoteDelta(report.encoder_deltas@[i]),
            ]);
        }
    }
    if forall|j: int| 0 <= j < 16 ==> report.encoder_deltas@[j] == 0 {
        lemma_no_encoders(report.encoder_deltas@, 16);
        if word_of(report.step_buttons) == (1u16 << (i as u16)) {
            lemma_one_step_button(i, 16);
            if report.param_knob_delta == 0 {
                assert(translate_spec(report) =~= seq![
                    InputCommand::StepSelect(i as usize),
                    InputCommand::ToggleStep,
                ]);
            }
        }
        if report.step_buttons@ == seq![0u8, 0u8] && report.param_knob_delta != 0 {
            assert(translate_spec(report) =~= seq![
                InputCommand::ParamValueDelta(report.param_knob_delta),
            ]);
        }
    }
}

proof fn lemma_one_encoder(deltas: Seq<i8>, i: int, n: nat)
    requires
        0 <= i < 16,
        n <= 16,
        deltas.len() == 16,
        forall|j: int| 0 <= j < 16 ==> (deltas[j] != 0 <==> j == i),
    ensures
        n <= i ==> encoder_commands(deltas, n) == Seq::<InputCommand>::empty(),
        n > i ==> encoder_commands(deltas, n) == seq![
            InputCommand::StepSelect(i as usize),
            InputCommand::NoteDelta(deltas[i]),
        ],
    decreases n,
{
    if n > 0 {
        lemma_one_encoder(deltas, i, (n - 1) as nat);
        if n - 1 == i {
            assert(Seq::<InputCommand>::empty() + seq![
                InputCommand::StepSelect(i as usize),
                InputCommand::NoteDelta(deltas[i]),
            ] =~= seq![InputCommand::StepSelect(i as usize), InputCommand::NoteDelta(deltas[i])]);
        }
    }
}

proof fn lemma_one_step_button(i: int, n: nat)
    requires
        0 <= i < 16,
        n <= 16,
    ensures
        n <= i ==> step_button_commands((1u16 << (i as u16)), n) == Seq::<InputCommand>::empty(),
        n > i ==> step_button_commands((1u16 << (i as u16)), n) == seq![
            InputCommand::StepSelect(i as usize),
            InputCommand::ToggleStep,
        ],
    decreases n,
{
    if n > 0 {
        lemma_one_step_button(i, (n - 1) as nat);
        let b = (n - 1) as u16;
        let ii = i as u16;
        assert(b < 16 && ii < 16 ==> (((1u16 << ii) & (1u16 << b) != 0u16) <==> b == ii))
            by (bit_vector);
        if n - 1 == i {
            assert(Seq::<InputCommand>::empty() + seq![
                InputCommand::StepSelect(i as usize),
                InputCommand::ToggleStep,
            ] =~= seq![InputCommand::StepSelect(i as usize), InputCommand::ToggleStep]);
        }
    }
}

proof fn lemma_no_encoders(deltas: Seq<i8>, n: nat)
    requires
        n <= deltas.len(),
        forall|i: int| 0 <= i < n ==> deltas[i] == 0,
    ensures
        encoder_commands(deltas, n) == Seq::<InputCommand>::empty(),
    decreases n,
{
    if n > 0 {
        lemma_no_encoders(deltas, (n - 1) as nat);
    }
}

proof fn lemma_no_step_buttons(n: nat)
    requires
        n <= 16,
    ensures
        step_button_commands(0, n) == Seq::<InputCommand>::empty(),
    decreases n,
{
    if n > 0 {
        lemma_no_step_buttons((n - 1) as nat);
        let b = (n - 1) as u16;
        assert(0u16 & (1u16 << b) == 0u16) by (bit_vector);
    }
}

} // verus!
