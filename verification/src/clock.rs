//! Tick timing: tick periods, swing offsets, tempo jitter and the decisions
//! the real-time clock loop makes on every tick.
//!
//! The clock wakes at absolute monotonic times (so no drift accumulates);
//! odd steps are shifted by the swing offset. The loop itself (sleeping,
//! locking the shared state, sending events) lives with the caller, which
//! asks `ClockCore` what to do and reports what happened.

use vstd::prelude::*;

use crate::music_theory::clamp;
use crate::state::{
    next_rand, prob_hit, prob_roll, xorshift, MidiEvent, SequencerState, StepSize, TempoRandType,
    TempoRollPoint,
};

verus! {

/// Number of nanoseconds in one minute.
pub const NANOS_PER_MINUTE: u64 = 60_000_000_000;

/// Number of nanoseconds in one second.
pub const NANOS_PER_SECOND: i64 = 1_000_000_000;

/// Minimum allowed effective BPM.
pub const BPM_MIN: u16 = 20;

/// Maximum allowed effective BPM.
pub const BPM_MAX: u16 = 300;

/// Initial seed for the clock-local Xorshift64 RNG (separate from `SequencerState::rng_seed`).
pub const CLOCK_RNG_INIT: u64 = 0xA24B_AED4_963D_37C5;

// ── Clock-local tempo jitter types ──────────────────────────────────────────

/// Clock-local tempo jitter state.
///
/// Not stored in `SequencerState` — no lock needed.
pub struct TempoRollState {
    /// Step counter used for phase-based roll points (Beat, Seq).
    phase: u64,
    /// Current signed direction for PingPong (+1 or -1).
    direction: i8,
    /// Last computed BPM offset (carried between steps for smooth curves).
    current_offset: i16,
}

/// What the jitter state holds.
pub struct RollModel {
    pub phase: u64,
    pub direction: i8,
    pub current_offset: i16,
}

impl TempoRollState {
    /// The direction is a unit step and the offset never leaves the range a
    /// `u8` variance can reach.
    #[verifier::type_invariant]
    closed spec fn inv(self) -> bool {
        &&& self.direction == 1 || self.direction == -1
        &&& -255 <= self.current_offset <= 255
    }

    /// The jitter state as plain values.
    pub closed spec fn view(self) -> RollModel {
        RollModel {
            phase: self.phase,
            direction: self.direction,
            current_offset: self.current_offset,
        }
    }

    /// The current BPM offset.
    pub fn current_offset(&self) -> (r: i16)
        ensures
            r == self.view().current_offset,
            -255 <= r <= 255,
    {
        proof {
            use_type_invariant(self);
        }
        self.current_offset
    }

    /// The step counter of the phase-based shapes.
    pub fn phase(&self) -> (r: u64)
        ensures
            r == self.view().phase,
    {
        self.phase
    }

    /// The PingPong direction.
    pub fn direction(&self) -> (r: i8)
        ensures
            r == self.view().direction,
            r == 1 || r == -1,
    {
        proof {
            use_type_invariant(self);
        }
        self.direction
    }
}

impl Default for TempoRollState {
    fn default() -> (r: Self)
        ensures
            r.view() == (RollModel { phase: 0, direction: 1, current_offset: 0 }),
    {
        Self { phase: 0, direction: 1, current_offset: 0 }
    }
}

/// Snapshot of tempo randomness params read from `SequencerState` under a read lock.
#[derive(Clone, Copy, PartialEq, Eq, Debug, Structural)]
pub struct TempoRandSnapshot {
    /// Probability (0–100) that the tempo randomness roll fires.
    pub tempo_rand: u8,
    /// When the tempo randomness roll fires.
    pub roll_point: TempoRollPoint,
    /// Maximum BPM variance applied to the base tempo.
    pub variance_max: u8,
    /// Shape of the tempo randomness curve.
    pub rand_type: TempoRandType,
}

// ── Effective BPM computation ────────────────────────────────────────────────

/// Whether the roll point lets a roll happen on step `step_count`.
pub open spec fn roll_point_fires(p: TempoRollPoint, step_count: u64) -> bool {
    match p {
        TempoRollPoint::Off => false,
        TempoRollPoint::Step => true,
        TempoRollPoint::Beat => step_count % 4 == 0,
        TempoRollPoint::Sequence => step_count % 16 == 0,
    }
}

/// `a / b` for `b >= 1`, or `a` when `b` is below one.
pub open spec fn div_at_least_one(a: int, b: int) -> int {
    if b >= 1 {
        a / b
    } else {
        a
    }
}

/// The Breathe offset at `phase`: a triangle wave over `4 * vm` steps that
/// rises from 0 to `vm`, falls through 0 to `-vm` and comes back to 0.
pub open spec fn breathe_offset(phase: u64, vm: int) -> int {
    let cycle = if 4 * vm >= 1 {
        4 * vm
    } else {
        1
    };
    let p = phase as int % cycle;
    let half = cycle / 2;
    if p < half {
        if p < half / 2 {
            div_at_least_one(p * vm, half / 2)
        } else {
            vm - div_at_least_one((p - half / 2) * vm, half - half / 2)
        }
    } else {
        let p2 = p - half;
        let half2 = cycle - half;
        if p2 < half2 / 2 {
            -div_at_least_one(p2 * vm, half2 / 2)
        } else {
            -vm + div_at_least_one((p2 - half2 / 2) * vm, half2 - half2 / 2)
        }
    }
}

/// A roll that fired: the new offset, the new direction and the RNG after it.
/// `rng` is the seed after the probability roll.
pub open spec fn rolled_offset(roll: RollModel, vm: int, t: TempoRandType, rng: u64) -> (
    int,
    i8,
    u64,
) {
    match t {
        TempoRandType::Random => {
            let r = xorshift(rng);
            ((r % ((2 * vm + 1) as u64)) as int - vm, roll.direction, r)
        },
        TempoRandType::Up => {
            let next = roll.current_offset + 1;
            (if next > vm {
                0
            } else {
                next
            }, roll.direction, rng)
        },
        TempoRandType::Down => {
            let next = roll.current_offset - 1;
            (if next < -vm {
                0
            } else {
                next
            }, roll.direction, rng)
        },
        TempoRandType::Breathe => (breathe_offset(roll.phase, vm), roll.direction, rng),
        TempoRandType::PingPong => {
            let next = roll.current_offset + roll.direction;
            if next >= vm {
                (vm, -1i8, rng)
            } else if next <= -vm {
                (-vm, 1i8, rng)
            } else {
                (next, roll.direction, rng)
            }
        },
    }
}

/// The jitter state and RNG after one step: unchanged when the roll point
/// is off or does not fire on this step, or the probability roll misses;
/// otherwise the offset is rolled and the phase advances (wrapping).
pub open spec fn jitter_step(roll: RollModel, params: TempoRandSnapshot, rng: u64, step_count: u64) -> (
    RollModel,
    u64,
) {
    if params.roll_point == TempoRollPoint::Off || !roll_point_fires(params.roll_point, step_count) {
        (roll, rng)
    } else {
        let (rng1, hit) = prob_roll(rng, params.tempo_rand);
        if !hit {
            (roll, rng1)
        } else {
            let (off, dir, rng2) = rolled_offset(
                roll,
                params.variance_max as int,
                params.rand_type,
                rng1,
            );
            (
                RollModel {
                    phase: if roll.phase == u64::MAX {
                        0
                    } else {
                        (roll.phase + 1) as u64
                    },
                    direction: dir,
                    current_offset: off as i16,
                },
                rng2,
            )
        }
    }
}

/// The effective BPM for a base tempo and a jitter offset.
pub open spec fn effective_bpm(base_bpm: u16, offset: int) -> int {
    clamp(base_bpm + offset, BPM_MIN as int, BPM_MAX as int)
}

fn breathe(phase: u64, vm: i16) -> (r: i16)
    requires
        0 <= vm <= 255,
    ensures
        r == breathe_offset(phase, vm as int),
        -vm <= r <= vm,
{
    let cycle: u64 = if 4 * (vm as u64) >= 1 {
        4 * (vm as u64)
    } else {
        1
    };
    let p: u64 = phase % cycle;
    let half: u64 = cycle / 2;
    let v: i64 = vm as i64;
    if p < half {
        let q: i64 = (half / 2) as i64;
        if p < half / 2 {
            let d: i64 = if q >= 1 {
                q
            } else {
                1
            };
            proof {
                assert(0 <= p * v <= 1020 * 255) by (nonlinear_arith)
                    requires
                        p < 1020,
                        0 <= v <= 255,
                ;
                assert((p * v) / (d as int) <= v) by (nonlinear_arith)
                    requires
                        p < d || d == 1 && p == 0,
                        d >= 1,
                        0 <= v,
                        p >= 0,
                ;
            }
            (p as i64 * v / d) as i16
        } else {
            let dp: i64 = p as i64 - q;
            let len0: i64 = half as i64 - q;
            let len: i64 = if len0 >= 1 {
                len0
            } else {
                1
            };
            proof {
                assert(0 <= dp * v <= 1020 * 255) by (nonlinear_arith)
                    requires
                        0 <= dp < 1020,
                        0 <= v <= 255,
                ;
                assert((dp * v) / (len as int) <= v) by (nonlinear_arith)
                    requires
                        0 <= dp <= len,
                        len >= 1,
                        0 <= v,
                ;
            }
            (v - dp * v / len) as i16
        }
    } else {
        let p2: u64 = p - half;
        let half2: u64 = cycle - half;
        let q2: i64 = (half2 / 2) as i64;
        if p2 < half2 / 2 {
            let d: i64 = if q2 >= 1 {
                q2
            } else {
                1
            };
            proof {
                assert(0 <= p2 * v <= 1020 * 255) by (nonlinear_arith)
                    requires
                        p2 < 1020,
                        0 <= v <= 255,
                ;
                assert((p2 * v) / (d as int) <= v) by (nonlinear_arith)
                    requires
                        p2 < d,
                        d >= 1,
                        0 <= v,
                        p2 >= 0,
                ;
            }
            (-(p2 as i64 * v / d)) as i16
        } else {
            let ap: i64 = p2 as i64 - q2;
            let len0: i64 = half2 as i64 - q2;
            let len: i64 = if len0 >= 1 {
                len0
            } else {
                1
            };
            proof {
                assert(0 <= ap * v <= 1020 * 255) by (nonlinear_arith)
                    requires
                        0 <= ap < 1020,
                        0 <= v <= 255,
                ;
                assert((ap * v) / (len as int) <= v) by (nonlinear_arith)
                    requires
                        0 <= ap <= len,
                        len >= 1,
                        0 <= v,
                ;
            }
            (-v + ap * v / len) as i16
        }
    }
}

/// Compute the effective BPM after applying tempo jitter.
///
/// `base_bpm` is the clean BPM from `SequencerState` (never mutated here).
/// `roll_state` is mutable clock-local phase/direction state.
/// `params` is a snapshot of randomness params copied from state under a read lock.
/// `rng` is the clock-local Xorshift64 seed (separate from `state.rng_seed`).
/// `step_count` is the total steps elapsed since clock start (for Beat/Seq roll points).
///
/// Returns the effective BPM clamped to 20–300.
pub fn compute_effective_bpm(
    base_bpm: u16,
    roll_state: &mut TempoRollState,
    params: &TempoRandSnapshot,
    rng: &mut u64,
    step_count: u64,
) -> (r: u16)
    ensures
        (final(roll_state).view(), *final(rng)) == jitter_step(
            old(roll_state).view(),
            *params,
            *old(rng),
            step_count,
        ),
        params.roll_point == TempoRollPoint::Off ==> r == effective_bpm(base_bpm, 0),
        params.roll_point != TempoRollPoint::Off ==> r == effective_bpm(
            base_bpm,
            final(roll_state).view().current_offset as int,
        ),
        BPM_MIN <= r <= BPM_MAX,
{
    proof {
        use_type_invariant(&*roll_state);
    }
    // Off → jitter disabled; the base tempo, clamped to 20–300.
    if params.roll_point == TempoRollPoint::Off {
        return if base_bpm < BPM_MIN {
            BPM_MIN
        } else if base_bpm > BPM_MAX {
            BPM_MAX
        } else {
            base_bpm
        };
    }
    // Determine whether a roll fires this step.
    let fires = match params.roll_point {
        TempoRollPoint::Off => false,
        TempoRollPoint::Step => true,
        TempoRollPoint::Beat => step_count.is_multiple_of(4),
        TempoRollPoint::Sequence => step_count.is_multiple_of(16),
    };
    if fires && prob_hit(rng, params.tempo_rand) {
        let vm = params.variance_max as i16;
        let new_offset: i16 = match params.rand_type {
            TempoRandType::Random => {
                let range = vm * 2 + 1;
                (next_rand(rng) % range as u64) as i16 - vm
            },
            TempoRandType::Up => {
                let next = roll_state.current_offset + 1;
                if next > vm {
                    0
                } else {
                    next
                }
            },
            TempoRandType::Down => {
                let next = roll_state.current_offset - 1;
                if next < -vm {
                    0
                } else {
                    next
                }
            },
            TempoRandType::Breathe => breathe(roll_state.phase, vm),
            TempoRandType::PingPong => {
                let next = roll_state.current_offset + roll_state.direction as i16;
                if next >= vm {
                    roll_state.direction = -1;
                    vm
                } else if next <= -vm {
                    roll_state.direction = 1;
                    -vm
                } else {
                    next
                }
            },
        };
        roll_state.current_offset = new_offset;
        roll_state.phase = roll_state.phase.wrapping_add(1);
    }
    // Apply the current (possibly just updated) offset to base BPM.
    let effective = base_bpm as i32 + roll_state.current_offset as i32;
    if effective < BPM_MIN as i32 {
        BPM_MIN
    } else if effective > BPM_MAX as i32 {
        BPM_MAX
    } else {
        effective as u16
    }
}

/// Returns (beats_per_step_num, beats_per_step_den) as a rational multiplier.
/// tick_nanos = 60_000_000_000 * num / (bpm * den)
pub open spec fn step_ratio_spec(step_size: StepSize) -> (u64, u64) {
    match step_size {
        StepSize::Whole => (4, 1),
        StepSize::Half => (2, 1),
        StepSize::Quarter => (1, 1),
        StepSize::Eighth => (1, 2),
        StepSize::Sixteenth => (1, 4),
        StepSize::ThirtySecond => (1, 8),
    }
}

/// Returns (beats_per_step_num, beats_per_step_den) as a rational multiplier.
/// tick_nanos = 60_000_000_000 * num / (bpm * den)
pub fn step_ratio(step_size: StepSize) -> (r: (u64, u64))
    ensures
        r == step_ratio_spec(step_size),
{
    match step_size {
        StepSize::Whole => (4, 1),
        StepSize::Half => (2, 1),
        StepSize::Quarter => (1, 1),
        StepSize::Eighth => (1, 2),
        StepSize::Sixteenth => (1, 4),
        StepSize::ThirtySecond => (1, 8),
    }
}

/// The tick period in nanoseconds: one minute times the step's share of a
/// beat, divided by the tempo (rounded down).
pub open spec fn tick_nanos_spec(bpm: u16, step_size: StepSize) -> int {
    let (num, den) = step_ratio_spec(step_size);
    (NANOS_PER_MINUTE as int * num) / (bpm as int * den)
}

/// Computes the tick period in nanoseconds for the given tempo and step size.
pub fn tick_nanos(bpm: u16, step_size: StepSize) -> (r: u64)
    requires
        bpm > 0,
    ensures
        r == tick_nanos_spec(bpm, step_size),
{
    let (num, den) = step_ratio(step_size);
    proof {
        assert(1 <= bpm as u64 * den <= 65535 * 8) by (nonlinear_arith)
            requires
                1 <= bpm <= 65535,
                1 <= den <= 8,
        ;
    }
    NANOS_PER_MINUTE * num / (bpm as u64 * den)
}

/// `a / b` rounded toward zero, for `b > 0`.
pub open spec fn div_toward_zero(a: int, b: int) -> int {
    if a >= 0 {
        a / b
    } else {
        -((-a) / b)
    }
}

/// The swing offset of an odd step: `swing_factor` percent of the tick
/// period, rounded toward zero.
pub open spec fn swing_offset_spec(swing_factor: i8, tick_period_nanos: u64) -> int {
    div_toward_zero(swing_factor * tick_period_nanos, 100)
}

/// Computes the swing offset in nanoseconds for an odd step.
///
/// `swing_factor` is in the range -50 to +50. Positive swing delays odd steps;
/// negative swing advances them.
pub fn swing_offset_nanos(swing_factor: i8, tick_period_nanos: u64) -> (r: i64)
    requires
        tick_period_nanos <= i64::MAX / 128,
    ensures
        r == swing_offset_spec(swing_factor, tick_period_nanos),
{
    let f = swing_factor as i64;
    let t = tick_period_nanos as i64;
    proof {
        assert(-128 * t <= f * t <= 127 * t) by (nonlinear_arith)
            requires
                -128 <= f <= 127,
                t >= 0,
        ;
    }
    let p = f * t;
    if p >= 0 {
        p / 100
    } else {
        -((-p) / 100)
    }
}

/// A point in time on the monotonic clock: seconds and nanoseconds.
#[derive(Clone, Copy, PartialEq, Eq, Debug, Structural)]
pub struct Timespec {
    pub tv_sec: i64,
    pub tv_nsec: i64,
}

/// The time as a count of nanoseconds.
pub open spec fn total_nanos(ts: Timespec) -> int {
    ts.tv_sec * NANOS_PER_SECOND + ts.tv_nsec
}

/// The nanosecond field is below one second.
pub open spec fn normalized(ts: Timespec) -> bool {
    0 <= ts.tv_nsec < NANOS_PER_SECOND
}

/// Adds `nanos` to a time, carrying nanoseconds into seconds.
pub fn add_nanos(ts: Timespec, nanos: u64) -> (r: Timespec)
    requires
        ts.tv_nsec >= 0,
        ts.tv_nsec + nanos <= u64::MAX,
        ts.tv_sec + (ts.tv_nsec + nanos) / (NANOS_PER_SECOND as int) <= i64::MAX,
    ensures
        r.tv_sec == ts.tv_sec + (ts.tv_nsec + nanos) / (NANOS_PER_SECOND as int),
        r.tv_nsec == (ts.tv_nsec + nanos) % (NANOS_PER_SECOND as int),
{
    let total_nanos: u64 = ts.tv_nsec as u64 + nanos;
    Timespec {
        tv_sec: ts.tv_sec + (total_nanos / 1_000_000_000) as i64,
        tv_nsec: (total_nanos % 1_000_000_000) as i64,
    }
}

/// Adds a signed nanosecond offset to a time, clamped so the result never
/// falls before the epoch (total nanoseconds are clamped to zero).
pub fn add_nanos_signed(ts: Timespec, nanos: i64) -> (r: Timespec)
    requires
        i64::MIN <= total_nanos(ts) + nanos <= i64::MAX,
        i64::MIN <= ts.tv_sec * NANOS_PER_SECOND <= i64::MAX,
        i64::MIN <= total_nanos(ts) <= i64::MAX,
    ensures
        normalized(r),
        r.tv_sec >= 0,
        total_nanos(r) == clamp(total_nanos(ts) + nanos, 0, i64::MAX as int),
{
    let total_ns: i64 = ts.tv_sec * 1_000_000_000 + ts.tv_nsec + nanos;
    let total_ns: i64 = if total_ns < 0 {
        0
    } else {
        total_ns
    };
    let r = Timespec { tv_sec: total_ns / 1_000_000_000, tv_nsec: total_ns % 1_000_000_000 };
    proof {
        vstd::arithmetic::div_mod::lemma_fundamental_div_mod(total_ns as int, 1_000_000_000);
    }
    r
}

// ── Jitter laws ─────────────────────────────────────────────────────────────

/// On a step where the roll point fires (every step, every fourth step for
/// Beat, every sixteenth for Sequence) and the chance is certain, the Up
/// shape raises the offset by one, back to 0 past the variance; Down lowers
/// it by one, back to 0 below minus the variance. Neither touches the
/// direction or the random stream, and the phase moves on by one. The
/// effective tempo is the base plus the offset, clamped to 20..=300.
pub proof fn law_jitter_up_down(
    roll: RollModel,
    params: TempoRandSnapshot,
    rng: u64,
    step_count: u64,
    base_bpm: u16,
)
    requires
        params.roll_point == TempoRollPoint::Step || (params.roll_point == TempoRollPoint::Beat
            && step_count % 4 == 0) || (params.roll_point == TempoRollPoint::Sequence && step_count
            % 16 == 0),
        params.tempo_rand >= 100,
        params.rand_type == TempoRandType::Up || params.rand_type == TempoRandType::Down,
        -255 <= roll.current_offset <= 255,
    ensures
        ({
            let (r, rng2) = jitter_step(roll, params, rng, step_count);
            let vm = params.variance_max as int;
            &&& params.rand_type == TempoRandType::Up ==> r.current_offset == (if roll.current_offset
                + 1 > vm {
                0
            } else {
                roll.current_offset + 1
            })
            &&& params.rand_type == TempoRandType::Down ==> r.current_offset == (if roll.current_offset
                - 1 < -vm {
                0
            } else {
                roll.current_offset - 1
            })
            &&& params.rand_type == TempoRandType::Down && roll.current_offset > -vm
                ==> r.current_offset == roll.current_offset - 1
            &&& params.rand_type == TempoRandType::Up && roll.current_offset < vm
                ==> r.current_offset == roll.current_offset + 1
            &&& r.direction == roll.direction
            &&& rng2 == rng
            &&& r.phase == (if roll.phase == u64::MAX {
                0
            } else {
                roll.phase + 1
            })
        }),
        ({
            let v = base_bpm + jitter_step(roll, params, rng, step_count).0.current_offset;
            effective_bpm(base_bpm, jitter_step(roll, params, rng, step_count).0.current_offset as int)
                == (if v < 20 {
                20
            } else if v > 300 {
                300
            } else {
                v
            })
        }),
{
}

/// On a firing step with a certain chance, PingPong moves the offset one
/// step in its direction and turns around on reaching the variance either
/// way, holding the offset there; the random stream is untouched.
pub proof fn law_jitter_pingpong(roll: RollModel, params: TempoRandSnapshot, rng: u64, step_count: u64)
    requires
        params.roll_point == TempoRollPoint::Step,
        params.tempo_rand >= 100,
        params.rand_type == TempoRandType::PingPong,
        roll.direction == 1 || roll.direction == -1,
        -(params.variance_max as int) <= roll.current_offset <= params.variance_max,
    ensures
        ({
            let (r, rng2) = jitter_step(roll, params, rng, step_count);
            let vm = params.variance_max as int;
            let next = roll.current_offset + roll.direction;
            &&& rng2 == rng
            &&& -vm < next < vm ==> r.current_offset == next && r.direction == roll.direction
            &&& next >= vm ==> r.current_offset == vm && r.direction == -1
            &&& next <= -vm && next < vm ==> r.current_offset == -vm && r.direction == 1
            &&& -vm <= r.current_offset <= vm
        }),
{
}

/// The tick period is one minute per beat divided by the tempo, scaled by
/// the step size: a quarter note lasts a beat, an eighth half of it, and so
/// on (rounded down); a faster tempo never gives a longer period.
pub proof fn law_tick_period(bpm: u16, faster: u16, sz: StepSize)
    requires
        bpm > 0,
        bpm <= faster,
    ensures
        tick_nanos_spec(bpm, StepSize::Whole) == 240_000_000_000int / (bpm as int),
        tick_nanos_spec(bpm, StepSize::Half) == 120_000_000_000int / (bpm as int),
        tick_nanos_spec(bpm, StepSize::Quarter) == 60_000_000_000int / (bpm as int),
        tick_nanos_spec(bpm, StepSize::Eighth) == 60_000_000_000int / (2 * bpm),
        tick_nanos_spec(bpm, StepSize::Sixteenth) == 60_000_000_000int / (4 * bpm),
        tick_nanos_spec(bpm, StepSize::ThirtySecond) == 60_000_000_000int / (8 * bpm),
        tick_nanos_spec(faster, sz) <= tick_nanos_spec(bpm, sz),
{
    let b = bpm as int;
    assert(NANOS_PER_MINUTE as int * 4 == 240_000_000_000int);
    assert(NANOS_PER_MINUTE as int * 2 == 120_000_000_000int);
    assert(b * 1 == b && b * 2 == 2 * b && b * 4 == 4 * b && b * 8 == 8 * b);
    let (num, den) = step_ratio_spec(sz);
    assert(1 <= den <= 8 && 1 <= num <= 4);
    assert(bpm as int * den <= faster as int * den) by (nonlinear_arith)
        requires
            bpm <= faster,
            den >= 1,
    ;
    assert(bpm as int * den >= 1) by (nonlinear_arith)
        requires
            bpm >= 1,
            den >= 1,
    ;
    vstd::arithmetic::div_mod::lemma_div_is_ordered_by_denominator(
        NANOS_PER_MINUTE as int * num,
        bpm as int * den,
        faster as int * den,
    );
}

/// Positive swing delays an odd step by that percentage of the period and
/// negative swing advances it by the same share (both rounded toward zero);
/// no swing leaves it on time.
pub proof fn law_swing_offset(swing: i8, period: u64)
    ensures
        swing == 0 ==> swing_offset_spec(swing, period) == 0,
        swing >= 0 ==> swing_offset_spec(swing, period) == (swing as int * period) / 100,
        swing < 0 ==> swing_offset_spec(swing, period) == -(((-swing) as int * period) / 100),
        swing >= 0 ==> swing_offset_spec(swing, period) >= 0,
        swing <= 0 ==> swing_offset_spec(swing, period) <= 0,
{
    assert(swing >= 0 ==> swing * period >= 0) by (nonlinear_arith);
    assert(swing < 0 ==> swing * period <= 0 && -(swing * period) == (-swing) as int * period)
        by (nonlinear_arith);
    assert(swing >= 0 ==> (swing as int * period) / 100 >= 0) by (nonlinear_arith);
    assert(swing < 0 ==> ((-swing) as int * period) / 100 >= 0) by (nonlinear_arith);
}

/// With the roll point off, or on a step where it does not fire, or with a
/// zero chance, the jitter state and the RNG stay as they were.
pub proof fn law_jitter_idle(roll: RollModel, params: TempoRandSnapshot, rng: u64, step_count: u64)
    requires
        params.roll_point == TempoRollPoint::Off || !roll_point_fires(
            params.roll_point,
            step_count,
        ) || params.tempo_rand == 0,
    ensures
        jitter_step(roll, params, rng, step_count) == (roll, rng),
{
}

/// Once the offset is within the variance, every shape keeps it there.
pub proof fn law_jitter_within_variance(
    roll: RollModel,
    params: TempoRandSnapshot,
    rng: u64,
    step_count: u64,
)
    requires
        -(params.variance_max as int) <= roll.current_offset <= params.variance_max,
    ensures
        -(params.variance_max as int) <= jitter_step(roll, params, rng, step_count).0.current_offset
            <= params.variance_max,
{
    let vm = params.variance_max as int;
    if params.rand_type == TempoRandType::Breathe {
        lemma_breathe_bounds(roll.phase, vm);
    }
}

proof fn lemma_breathe_bounds(phase: u64, vm: int)
    requires
        0 <= vm <= 255,
    ensures
        -vm <= breathe_offset(phase, vm) <= vm,
{
    let cycle = if 4 * vm >= 1 {
        4 * vm
    } else {
        1
    };
    let p = phase as int % cycle;
    let half = cycle / 2;
    if p < half {
        if p < half / 2 {
            assert(div_at_least_one(p * vm, half / 2) <= vm) by (nonlinear_arith)
                requires
                    0 <= p < half / 2,
                    0 <= vm,
                    half / 2 >= 1 ==> div_at_least_one(p * vm, half / 2) == (p * vm) / (half / 2),
            ;
            assert(0 <= div_at_least_one(p * vm, half / 2)) by (nonlinear_arith)
                requires
                    0 <= p,
                    0 <= vm,
                    half / 2 >= 1 ==> div_at_least_one(p * vm, half / 2) == (p * vm) / (half / 2),
            ;
        } else {
            let l = half - half / 2;
            assert(0 <= div_at_least_one((p - half / 2) * vm, l) <= vm) by (nonlinear_arith)
                requires
                    0 <= p - half / 2 <= l,
                    l >= 1,
                    0 <= vm,
                    div_at_least_one((p - half / 2) * vm, l) == ((p - half / 2) * vm) / l,
            ;
        }
    } else {
        let p2 = p - half;
        let half2 = cycle - half;
        if p2 < half2 / 2 {
            assert(0 <= div_at_least_one(p2 * vm, half2 / 2) <= vm) by (nonlinear_arith)
                requires
                    0 <= p2 < half2 / 2,
                    0 <= vm,
                    div_at_least_one(p2 * vm, half2 / 2) == (p2 * vm) / (half2 / 2),
            ;
        } else {
            let l = half2 - half2 / 2;
            assert(0 <= div_at_least_one((p2 - half2 / 2) * vm, l) <= vm) by (nonlinear_arith)
                requires
                    0 <= p2 - half2 / 2 <= l,
                    l >= 1,
                    0 <= vm,
                    div_at_least_one((p2 - half2 / 2) * vm, l) == ((p2 - half2 / 2) * vm) / l,
            ;
        }
    }
}

/// The effective tempo never leaves 20–300 BPM.
pub proof fn law_effective_bpm_in_range(base_bpm: u16, offset: int)
    ensures
        BPM_MIN <= effective_bpm(base_bpm, offset) <= BPM_MAX,
{
}


proof fn lemma_swing_offset_bound(swing: i8, period: u64)
    requires
        period <= max_period(),
    ensures
        -128 * max_period() <= swing_offset_spec(swing, period) <= 128 * max_period(),
{
    let a = swing * period;
    assert(-128 * max_period() <= a <= 128 * max_period()) by (nonlinear_arith)
        requires
            a == swing * period,
            -128 <= swing <= 127,
            0 <= period <= max_period(),
    ;
}

// ── Per-tick decisions of the clock loop ────────────────────────────────────

/// The events sent for what a tick produced, and the note then held.
///
/// A `NoteOn` goes out with `period` as its duration, preceded by a
/// `NoteOff` for the same note when that (channel, note) pair is still the
/// last one sent (a retrigger). Anything else sends nothing and leaves the
/// held note as it was.
pub open spec fn tick_events(ev: Option<MidiEvent>, last_note: Option<(u8, u8)>, period: u64) -> (
    Seq<MidiEvent>,
    Option<(u8, u8)>,
) {
    match ev {
        Some(MidiEvent::NoteOn { channel, note, velocity, .. }) => {
            let on = MidiEvent::NoteOn { channel, note, velocity, duration_nanos: period };
            (
                if last_note == Some((channel, note)) {
                    seq![MidiEvent::NoteOff { channel, note }, on]
                } else {
                    seq![on]
                },
                Some((channel, note)),
            )
        },
        _ => (Seq::empty(), last_note),
    }
}

/// Returns the events to send for the event a tick produced, given the
/// note last sent, and records the note now held in `last_note`.
pub fn retrigger_events(
    maybe_event: Option<MidiEvent>,
    last_note: &mut Option<(u8, u8)>,
    period: u64,
) -> (events: Vec<MidiEvent>)
    ensures
        (events@, *final(last_note)) == tick_events(maybe_event, *old(last_note), period),
{
    let mut events: Vec<MidiEvent> = Vec::new();
    if let Some(MidiEvent::NoteOn { channel, note, velocity, .. }) = maybe_event {
        let repeated = match *last_note {
            Some((c, n)) => c == channel && n == note,
            None => false,
        };
        if repeated {
            events.push(MidiEvent::NoteOff { channel, note });
        }
        events.push(MidiEvent::NoteOn { channel, note, velocity, duration_nanos: period });
        *last_note = Some((channel, note));
    }
    events
}

/// The parameters the clock reads from the shared state on every tick.
#[derive(Clone, Copy, PartialEq, Eq, Debug, Structural)]
pub struct ClockParams {
    pub bpm: u16,
    pub step_size: StepSize,
    pub swing: i8,
    pub rand: TempoRandSnapshot,
}

impl ClockParams {
    /// The clock parameters of the shared state: its tempo, step size and
    /// swing, and a snapshot of its tempo randomness.
    pub fn of_state(s: &SequencerState) -> (p: ClockParams)
        ensures
            p.bpm == s.tempo_bpm,
            p.step_size == s.step_size,
            p.swing == s.swing,
            p.rand == (TempoRandSnapshot {
                tempo_rand: s.tempo_rand,
                roll_point: s.tempo_roll_point,
                variance_max: s.tempo_variance_max,
                rand_type: s.tempo_rand_type,
            }),
    {
        ClockParams {
            bpm: s.tempo_bpm,
            step_size: s.step_size,
            swing: s.swing,
            rand: TempoRandSnapshot {
                tempo_rand: s.tempo_rand,
                roll_point: s.tempo_roll_point,
                variance_max: s.tempo_variance_max,
                rand_type: s.tempo_rand_type,
            },
        }
    }
}

/// When to wake for a tick and how long the tick lasts.
#[derive(Clone, Copy, PartialEq, Eq, Debug, Structural)]
pub struct TickPlan {
    pub wake_time: Timespec,
    pub period: u64,
}

/// Longest tick period: a whole note at 1 BPM.
pub open spec fn max_period() -> int {
    4 * NANOS_PER_MINUTE
}

/// Latest second the clock accepts as its next wake time.
pub const CLOCK_MAX_SECONDS: i64 = 9_000_000_000;

/// What the clock loop carries from one tick to the next.
pub struct ClockCore {
    /// Absolute time of the next on-beat wake-up.
    pub next_abs: Timespec,
    /// Ticks since the clock started (even/odd drives swing; wraps).
    pub step_count: u64,
    /// The (channel, note) of the last NoteOn sent.
    pub last_note: Option<(u8, u8)>,
    /// Clock-local tempo jitter state.
    pub roll_state: TempoRollState,
    /// Clock-local RNG seed for tempo jitter.
    pub local_rng: u64,
}

/// The clock's own time is normalised and within the range it accepts.
pub open spec fn clock_time_ok(ts: Timespec) -> bool {
    &&& normalized(ts)
    &&& 0 <= ts.tv_sec <= CLOCK_MAX_SECONDS
}

impl ClockCore {
    /// A clock starting at `now`: step 0, no note held, jitter at rest.
    pub fn new(now: Timespec) -> (c: ClockCore)
        ensures
            c.next_abs == now,
            c.step_count == 0,
            c.last_note == None::<(u8, u8)>,
            c.roll_state.view() == (RollModel { phase: 0, direction: 1, current_offset: 0 }),
            c.local_rng == CLOCK_RNG_INIT,
    {
        ClockCore {
            next_abs: now,
            step_count: 0,
            last_note: None,
            roll_state: TempoRollState::default(),
            local_rng: CLOCK_RNG_INIT,
        }
    }

    /// Decide this tick's period and wake time: the effective tempo (with
    /// jitter) gives the period; odd steps wake shifted by the swing offset,
    /// never before the epoch.
    pub fn plan_tick(&mut self, params: &ClockParams) -> (plan: TickPlan)
        requires
            clock_time_ok(old(self).next_abs),
        ensures
            ({
                let (roll, rng) = jitter_step(
                    old(self).roll_state.view(),
                    params.rand,
                    old(self).local_rng,
                    old(self).step_count,
                );
                let bpm = if params.rand.roll_point == TempoRollPoint::Off {
                    effective_bpm(params.bpm, 0)
                } else {
                    effective_bpm(params.bpm, roll.current_offset as int)
                };
                &&& final(self).roll_state.view() == roll
                &&& final(self).local_rng == rng
                &&& plan.period == tick_nanos_spec(bpm as u16, params.step_size)
                &&& if old(self).step_count % 2 == 1 {
                    &&& normalized(plan.wake_time)
                    &&& total_nanos(plan.wake_time) == clamp(
                        total_nanos(old(self).next_abs) + swing_offset_spec(
                            params.swing,
                            plan.period,
                        ),
                        0,
                        i64::MAX as int,
                    )
                } else {
                    plan.wake_time == old(self).next_abs
                }
            }),
            plan.period <= max_period(),
            final(self).next_abs == old(self).next_abs,
            final(self).step_count == old(self).step_count,
            final(self).last_note == old(self).last_note,
    {
        let bpm = compute_effective_bpm(
            params.bpm,
            &mut self.roll_state,
            &params.rand,
            &mut self.local_rng,
            self.step_count,
        );
        let period = tick_nanos(bpm, params.step_size);
        proof {
            let (num, den) = step_ratio_spec(params.step_size);
            assert((NANOS_PER_MINUTE as int * num) / (bpm as int * den) <= max_period())
                by (nonlinear_arith)
                requires
                    1 <= num <= 4,
                    1 <= den,
                    1 <= bpm,
                    max_period() == 4 * NANOS_PER_MINUTE,
            ;
        }
        let swing_off = swing_offset_nanos(params.swing, period);
        proof {
            lemma_swing_offset_bound(params.swing, period);
        }
        let wake_time = if self.step_count % 2 == 1 {
            add_nanos_signed(self.next_abs, swing_off)
        } else {
            self.next_abs
        };
        TickPlan { wake_time, period }
    }

    /// Record what the tick produced: returns the events to send (see
    /// `tick_events`), then moves the on-beat time on by one period and
    /// counts the step.
    pub fn finish_tick(&mut self, event: Option<MidiEvent>, period: u64) -> (events: Vec<MidiEvent>)
        requires
            clock_time_ok(old(self).next_abs),
            period <= max_period(),
        ensures
            (events@, final(self).last_note) == tick_events(event, old(self).last_note, period),
            normalized(final(self).next_abs),
            total_nanos(final(self).next_abs) == total_nanos(old(self).next_abs) + period,
            final(self).step_count == (if old(self).step_count == u64::MAX {
                0
            } else {
                (old(self).step_count + 1) as u64
            }),
            final(self).roll_state.view() == old(self).roll_state.view(),
            final(self).local_rng == old(self).local_rng,
    {
        let events = retrigger_events(event, &mut self.last_note, period);
        let before = self.next_abs;
        self.next_abs = add_nanos(self.next_abs, period);
        proof {
            vstd::arithmetic::div_mod::lemma_fundamental_div_mod(
                before.tv_nsec + period,
                NANOS_PER_SECOND as int,
            );
        }
        self.step_count = self.step_count.wrapping_add(1);
        events
    }
}

} // verus!
