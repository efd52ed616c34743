use midiman::input::{InputCommand, OverlayMode};
use midiman::music_theory::{Key, Mode};
use midiman::state::{
    next_rand, prob_hit, MidiEvent, PendingEdit, SequencerState, StepData, StepSize,
    TempoRandType, TempoRollPoint,
};

#[test]
fn bpm_delta_clamps_to_range() {
    let mut state = SequencerState::default();
    state.tempo_bpm = 120;

    // Delta that would go below minimum
    state.apply_command(InputCommand::BpmDelta(-127));
    assert_eq!(state.tempo_bpm, 20, "BPM should clamp to 20 at minimum");

    // Delta that would go above maximum
    state.apply_command(InputCommand::BpmDelta(127));
    assert_eq!(state.tempo_bpm, 147, "BPM should accumulate from 20");

    // Reset and verify upper clamp
    state.tempo_bpm = 290;
    state.apply_command(InputCommand::BpmDelta(20));
    assert_eq!(state.tempo_bpm, 300, "BPM should clamp to 300 at maximum");
}

#[test]
fn seed_set_updates_both_fields() {
    let mut state = SequencerState::default();
    let seed: u32 = 0xABCD;
    state.apply_command(InputCommand::SeedSet(seed));

    assert_eq!(
        state.rand_seed, 0xABCD,
        "rand_seed must match the seed value"
    );
    let expected_rng = seed as u64 | ((seed as u64) << 32);
    assert_eq!(
        state.rng_seed, expected_rng,
        "rng_seed must be seed | (seed << 32)"
    );
}

#[test]
fn channel_set_converts_1_indexed() {
    let mut state = SequencerState::default();

    // 1-indexed input 1 → 0-indexed 0
    state.apply_command(InputCommand::ChannelSet(1));
    assert_eq!(
        state.midi_channel, 0,
        "ChannelSet(1) should store midi_channel = 0"
    );

    // 1-indexed input 16 → 0-indexed 15
    state.apply_command(InputCommand::ChannelSet(16));
    assert_eq!(
        state.midi_channel, 15,
        "ChannelSet(16) should store midi_channel = 15"
    );

    // Saturating sub: ChannelSet(0) stays at 0 (not underflows)
    state.apply_command(InputCommand::ChannelSet(0));
    assert_eq!(state.midi_channel, 0, "ChannelSet(0) should saturate to 0");
}

#[test]
fn midi_device_name_set() {
    let mut state = SequencerState::default();
    assert_eq!(
        state.midi_device_name, "",
        "midi_device_name should be empty by default"
    );

    state.apply_command(InputCommand::MidiDeviceName("IAC Driver".to_string()));
    assert_eq!(state.midi_device_name, "IAC Driver");

    state.apply_command(InputCommand::MidiDeviceName(String::new()));
    assert_eq!(state.midi_device_name, "");
}

#[test]
fn rand_seed_default_value() {
    let state = SequencerState::default();
    assert_eq!(state.rand_seed, 0x853C_49E6);
}

#[test]
fn seed_set_zero_uses_fallback_nonzero_rng_seed() {
    let mut state = SequencerState::default();
    state.apply_command(InputCommand::SeedSet(0));

    assert_eq!(
        state.rand_seed, 0,
        "rand_seed must store the raw seed value"
    );
    assert_ne!(
        state.rng_seed, 0,
        "rng_seed must be nonzero when seed=0 to avoid xorshift64 zero-fixed-point"
    );
    assert_eq!(
        state.rng_seed, 0x853C_49E6_853C_49E6u64,
        "rng_seed must use the fallback constant when seed=0"
    );
}

#[test]
fn channel_set_clamps_above_16() {
    let mut state = SequencerState::default();

    // Values above 16 must clamp to channel 15 (0-indexed)
    state.apply_command(InputCommand::ChannelSet(17));
    assert_eq!(
        state.midi_channel, 15,
        "ChannelSet(17) should clamp to midi_channel = 15"
    );

    state.apply_command(InputCommand::ChannelSet(255));
    assert_eq!(
        state.midi_channel, 15,
        "ChannelSet(255) should clamp to midi_channel = 15"
    );
}

#[test]
fn bpm_delta_boundary_at_minimum() {
    let mut state = SequencerState::default();
    // Start exactly at the minimum boundary.
    state.tempo_bpm = 20;

    // Negative delta at minimum stays at 20.
    state.apply_command(InputCommand::BpmDelta(-1));
    assert_eq!(state.tempo_bpm, 20, "BPM already at 20 must not go below");

    state.apply_command(InputCommand::BpmDelta(-127));
    assert_eq!(
        state.tempo_bpm, 20,
        "Large negative delta at 20 must clamp to 20"
    );
}

#[test]
fn bpm_delta_boundary_at_maximum() {
    let mut state = SequencerState::default();
    // Start exactly at the maximum boundary.
    state.tempo_bpm = 300;

    // Positive delta at maximum stays at 300.
    state.apply_command(InputCommand::BpmDelta(1));
    assert_eq!(
        state.tempo_bpm, 300,
        "BPM already at 300 must not exceed 300"
    );

    state.apply_command(InputCommand::BpmDelta(127));
    assert_eq!(
        state.tempo_bpm, 300,
        "Large positive delta at 300 must clamp to 300"
    );
}

#[test]
fn bpm_delta_arithmetic() {
    let mut state = SequencerState::default();
    state.tempo_bpm = 100;

    // Positive delta within range.
    state.apply_command(InputCommand::BpmDelta(25));
    assert_eq!(state.tempo_bpm, 125, "100 + 25 = 125");

    // Negative delta within range.
    state.apply_command(InputCommand::BpmDelta(-25));
    assert_eq!(state.tempo_bpm, 100, "125 - 25 = 100");

    // Zero delta leaves BPM unchanged.
    state.apply_command(InputCommand::BpmDelta(0));
    assert_eq!(state.tempo_bpm, 100, "delta 0 must leave BPM unchanged");
}

#[test]
fn seed_set_nonzero_rng_seed_formula() {
    let mut state = SequencerState::default();

    // Verify formula: rng_seed = lo | (lo << 32) for a variety of nonzero seeds.
    for &seed in &[1u32, 0xFFFF_FFFFu32, 0x1234_5678u32] {
        state.apply_command(InputCommand::SeedSet(seed));
        assert_eq!(
            state.rand_seed, seed,
            "rand_seed must equal the supplied seed"
        );
        let lo = seed as u64;
        let expected = lo | (lo << 32);
        assert_eq!(
            state.rng_seed, expected,
            "rng_seed for seed={seed:#010x} must be lo | (lo << 32)"
        );
    }
}

#[test]
fn midi_device_name_overwrite_existing() {
    let mut state = SequencerState::default();

    state.apply_command(InputCommand::MidiDeviceName("First Device".to_string()));
    assert_eq!(state.midi_device_name, "First Device");

    // Overwrite with a different non-empty name.
    state.apply_command(InputCommand::MidiDeviceName("Second Device".to_string()));
    assert_eq!(
        state.midi_device_name, "Second Device",
        "MidiDeviceName must overwrite the previously stored name"
    );
}

#[test]
fn midi_device_name_empty_string() {
    let mut state = SequencerState::default();

    state.apply_command(InputCommand::MidiDeviceName("IAC Driver".to_string()));
    assert_eq!(state.midi_device_name, "IAC Driver");

    // Overwrite with empty string.
    state.apply_command(InputCommand::MidiDeviceName(String::new()));
    assert_eq!(
        state.midi_device_name, "",
        "MidiDeviceName with empty string must clear the stored name"
    );
}

// ── BUG-031: PanelParamSelect and PanelParamDelta ────────────────────────

#[test]
fn panel_param_select_sets_selected_param() {
    let mut state = SequencerState::default();
    state.apply_command(InputCommand::PanelParamSelect(3));
    assert_eq!(state.selected_param, 3, "PanelParamSelect(3) should set selected_param to 3");
}

#[test]
fn panel_param_select_clamps_to_7() {
    let mut state = SequencerState::default();
    state.apply_command(InputCommand::PanelParamSelect(255));
    assert_eq!(
        state.selected_param, 7,
        "PanelParamSelect(255) should clamp selected_param to 7"
    );
}

#[test]
fn panel_param_delta_adjusts_swing() {
    // Param index 2 = swing (-50..=50).
    let mut state = SequencerState::default();
    state.swing = 10;
    // Select param index 2 (Swing).
    state.apply_command(InputCommand::PanelParamSelect(2));
    // Apply a delta of +5.
    state.apply_command(InputCommand::PanelParamDelta(5));
    assert_eq!(
        state.swing, 15,
        "PanelParamDelta(5) with Swing selected should increase swing by 5"
    );
}

#[test]
fn panel_param_delta_clamps_at_boundary() {
    // Swing at max (50) + delta(10) must stay at 50.
    let mut state = SequencerState::default();
    state.swing = 50;
    state.apply_command(InputCommand::PanelParamSelect(2));
    state.apply_command(InputCommand::PanelParamDelta(10));
    assert_eq!(
        state.swing, 50,
        "PanelParamDelta(10) when swing is already at 50 should clamp to 50"
    );
}

// ── RandParamSelect and RandParamDelta (Finding C) ───────────────────────

#[test]
fn rand_param_select_sets_selected_rand_param() {
    let mut state = SequencerState::default();
    state.apply_command(InputCommand::RandParamSelect(2));
    assert_eq!(
        state.selected_rand_param, 2,
        "RandParamSelect(2) should set selected_rand_param to 2"
    );
}

#[test]
fn rand_param_select_clamps_to_7() {
    let mut state = SequencerState::default();
    state.apply_command(InputCommand::RandParamSelect(255));
    assert_eq!(
        state.selected_rand_param, 7,
        "RandParamSelect(255) should clamp selected_rand_param to 7"
    );
}

#[test]
fn rand_param_delta_adjusts_tempo_rand() {
    // Shift param index 1 = tempo_rand (0–100).
    let mut state = SequencerState::default();
    state.tempo_rand = 10;
    state.apply_command(InputCommand::RandParamSelect(1));
    state.apply_command(InputCommand::RandParamDelta(3));
    assert_eq!(
        state.tempo_rand, 13,
        "RandParamDelta(3) with tempo_rand=10 should produce tempo_rand=13"
    );
}

#[test]
fn rand_param_delta_does_not_touch_regular_params() {
    // Adjusting a rand param must not affect regular params (key, swing, etc.).
    let mut state = SequencerState::default();
    let original_key = state.key;
    let original_swing = state.swing;
    state.apply_command(InputCommand::RandParamSelect(1));
    state.apply_command(InputCommand::RandParamDelta(1));
    assert_eq!(state.key, original_key, "RandParamDelta must not change key");
    assert_eq!(state.swing, original_swing, "RandParamDelta must not change swing");
}

#[test]
fn panel_param_delta_does_not_touch_rand_params() {
    // Adjusting a regular param (index 2 = swing) must not affect rand params.
    let mut state = SequencerState::default();
    let original_tempo_rand = state.tempo_rand;
    state.apply_command(InputCommand::PanelParamSelect(2));
    state.apply_command(InputCommand::PanelParamDelta(1));
    assert_eq!(
        state.tempo_rand, original_tempo_rand,
        "PanelParamDelta must not change tempo_rand"
    );
}

// ── BUG-035: NoteDelta must apply immediately without Confirm ────────────

#[test]
fn note_delta_applies_immediately_without_confirm() {
    let mut state = SequencerState::default();
    let original_note = state.steps[0].midi_note;
    // Apply NoteDelta — note must be written immediately, no Confirm needed.
    state.apply_command(InputCommand::NoteDelta(1));
    assert_ne!(
        state.steps[0].midi_note, original_note,
        "NoteDelta(1) must update steps[selected_step].midi_note immediately"
    );
}

#[test]
fn note_delta_clears_pending_note_edit() {
    let mut state = SequencerState::default();
    // Manually install a stale PendingEdit::Note for the current step.
    state.pending_edit = PendingEdit::Note {
        step: 0,
        midi_note: 42,
    };
    state.apply_command(InputCommand::NoteDelta(1));
    assert_eq!(
        state.pending_edit,
        PendingEdit::NoEdit,
        "NoteDelta must clear a stale PendingEdit::Note for the same step"
    );
}

#[test]
fn note_delta_does_not_affect_other_steps() {
    let mut state = SequencerState::default();
    // selected_step is 0 by default; record step 1's note.
    let step1_note = state.steps[1].midi_note;
    state.apply_command(InputCommand::NoteDelta(1));
    assert_eq!(
        state.steps[1].midi_note, step1_note,
        "NoteDelta must only modify the selected step, not other steps"
    );
}

// ── RandAll ─────────────────────────────────────────────────────────────

#[test]
fn rand_all_sets_notes_in_range_and_velocities_in_range() {
    let mut state = SequencerState::default();
    let seed_before = state.rng_seed;
    state.apply_command(InputCommand::RandAll);

    // rng_seed must have advanced
    assert_ne!(state.rng_seed, seed_before, "RandAll must advance rng_seed");

    for (i, step) in state.steps.iter().enumerate() {
        assert!(
            (48..=84).contains(&step.midi_note),
            "step {i} midi_note {} out of 48..=84",
            step.midi_note
        );
        assert!(
            (40..=127).contains(&step.velocity),
            "step {i} velocity {} out of 40..=127",
            step.velocity
        );
    }
}

// ── RandVelocities ───────────────────────────────────────────────────────

#[test]
fn rand_velocities_changes_velocities_only() {
    let mut state = SequencerState::default();
    // Record original notes
    let original_notes: [u8; 16] = core::array::from_fn(|i| state.steps[i].midi_note);

    state.apply_command(InputCommand::RandVelocities);

    // Notes must be unchanged
    for (i, step) in state.steps.iter().enumerate() {
        assert_eq!(
            step.midi_note, original_notes[i],
            "RandVelocities must not change step {i} midi_note"
        );
        assert!(
            (40..=127).contains(&step.velocity),
            "step {i} velocity {} out of 40..=127",
            step.velocity
        );
    }
}

// ── NoteSet ──────────────────────────────────────────────────────────────

#[test]
fn note_set_step_3_sets_correct_fields() {
    let mut state = SequencerState::default();
    state.apply_command(InputCommand::NoteSet { step: 3, midi_note: 72, velocity: 100 });

    assert_eq!(state.steps[3].midi_note, 72, "NoteSet must write midi_note to step 3");
    assert_eq!(state.steps[3].velocity, 100, "NoteSet must write velocity to step 3");

    // Other steps must be unchanged
    for i in 0..16 {
        if i == 3 {
            continue;
        }
        assert_eq!(
            state.steps[i].midi_note,
            StepData::default().midi_note,
            "NoteSet must not alter step {i} midi_note"
        );
        assert_eq!(
            state.steps[i].velocity,
            StepData::default().velocity,
            "NoteSet must not alter step {i} velocity"
        );
    }
}

#[test]
fn note_set_out_of_range_is_noop() {
    let mut state = SequencerState::default();
    let original: [StepData; 16] = state.steps;

    // step = 16 is out of range — must be a no-op (no panic)
    state.apply_command(InputCommand::NoteSet { step: 16, midi_note: 99, velocity: 99 });

    for i in 0..16 {
        assert_eq!(
            state.steps[i].midi_note, original[i].midi_note,
            "NoteSet(step=16) must not modify step {i} midi_note"
        );
        assert_eq!(
            state.steps[i].velocity, original[i].velocity,
            "NoteSet(step=16) must not modify step {i} velocity"
        );
    }
}

// ── RNG seed chain interaction ───────────────────────────────────────────

/// RandVelocities must advance rng_seed — it calls next_rand 16 times.
#[test]
fn rand_velocities_advances_rng_seed() {
    let mut state = SequencerState::default();
    let seed_before = state.rng_seed;
    state.apply_command(InputCommand::RandVelocities);
    assert_ne!(
        state.rng_seed, seed_before,
        "RandVelocities must advance rng_seed"
    );
}

/// RandAll followed by RandVelocities must produce different velocities than
/// RandVelocities alone, because the seed position differs after RandAll
/// consumed 32 next_rand calls (16 for notes + 16 for velocities).
#[test]
fn rand_all_then_rand_velocities_differs_from_rand_velocities_alone() {
    // Scenario A: RandVelocities only
    let mut state_a = SequencerState::default();
    state_a.apply_command(InputCommand::RandVelocities);
    let velocities_a: [u8; 16] = core::array::from_fn(|i| state_a.steps[i].velocity);

    // Scenario B: RandAll then RandVelocities — seed chain is further advanced
    let mut state_b = SequencerState::default();
    state_b.apply_command(InputCommand::RandAll);
    state_b.apply_command(InputCommand::RandVelocities);
    let velocities_b: [u8; 16] = core::array::from_fn(|i| state_b.steps[i].velocity);

    assert_ne!(
        velocities_a, velocities_b,
        "RandAll advances rng_seed by 32 calls so the subsequent \
         RandVelocities seed position must differ"
    );
}

/// RandAll consumes the seed chain in order: notes first, then velocities.
/// Verify by replicating the expected seed advancement manually: after
/// RandAll the seed must equal the state obtained by calling next_rand 32
/// times on the initial seed (16 note calls + 16 velocity calls).
#[test]
fn rand_all_seed_chain_order_notes_then_velocities() {
    let mut state = SequencerState::default();
    let mut expected_seed = state.rng_seed;

    // Advance expected_seed by 32 steps (matches generate_random_sequence + randomise_velocities)
    for _ in 0..32 {
        next_rand(&mut expected_seed);
    }

    state.apply_command(InputCommand::RandAll);

    assert_eq!(
        state.rng_seed, expected_seed,
        "After RandAll, rng_seed must equal seed advanced by exactly 32 next_rand calls"
    );
}

/// Velocity range boundary check: formula (raw % 88) as u8 + 40 must always
/// produce a value in 40..=127. This is an arithmetic property; verify it
/// holds across the extremes of the modulus: 0 and 87.
#[test]
fn velocity_formula_bounds_are_40_to_127() {
    // min: 0 % 88 = 0  → 0 + 40 = 40
    let min_vel = (0u64 % 88) as u8 + 40;
    // max: 87 % 88 = 87 → 87 + 40 = 127
    let max_vel = (87u64 % 88) as u8 + 40;
    assert_eq!(min_vel, 40, "velocity formula minimum must be 40");
    assert_eq!(max_vel, 127, "velocity formula maximum must be 127");
    assert!((40..=127).contains(&min_vel));
    assert!((40..=127).contains(&max_vel));
}

/// NoteSet with step = usize::MAX must be a no-op (no panic).
#[test]
fn note_set_usize_max_is_noop() {
    let mut state = SequencerState::default();
    let original: [StepData; 16] = state.steps;

    state.apply_command(InputCommand::NoteSet {
        step: usize::MAX,
        midi_note: 60,
        velocity: 80,
    });

    for i in 0..16 {
        assert_eq!(
            state.steps[i].midi_note, original[i].midi_note,
            "NoteSet(step=usize::MAX) must not modify step {i} midi_note"
        );
        assert_eq!(
            state.steps[i].velocity, original[i].velocity,
            "NoteSet(step=usize::MAX) must not modify step {i} velocity"
        );
    }
}

/// NoteSet at step 0 and step 15 (boundary steps) must write correctly.
#[test]
fn note_set_boundary_steps_0_and_15() {
    let mut state = SequencerState::default();

    state.apply_command(InputCommand::NoteSet { step: 0, midi_note: 48, velocity: 40 });
    assert_eq!(state.steps[0].midi_note, 48, "NoteSet step 0 must set midi_note");
    assert_eq!(state.steps[0].velocity, 40, "NoteSet step 0 must set velocity");

    state.apply_command(InputCommand::NoteSet { step: 15, midi_note: 84, velocity: 127 });
    assert_eq!(state.steps[15].midi_note, 84, "NoteSet step 15 must set midi_note");
    assert_eq!(state.steps[15].velocity, 127, "NoteSet step 15 must set velocity");
}
