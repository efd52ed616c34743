use midiman::state::{SequencerState, TempoRandType, TempoRollPoint};
use midiman::ui_render::{
    log_tag_tone, panel_border_tone, param_cell_tone, shift_param_value_string,
    shift_pending_param_value_string, status_tone, step_border_tone, step_tone, LogTag, Tone,
};

// ─── shift_param_value_string unit tests ─────────────────────────────────────

#[test]
fn shift_param_value_string_note_rand() {
    let mut s = SequencerState::default();
    s.note_rand = 42;
    assert_eq!(shift_param_value_string(&s, 0), "42");
}

#[test]
fn shift_param_value_string_tempo_rand() {
    let mut s = SequencerState::default();
    s.tempo_rand = 75;
    assert_eq!(shift_param_value_string(&s, 1), "75");
}

#[test]
fn shift_param_value_string_roll_point_variants() {
    let mut s = SequencerState::default();
    s.tempo_roll_point = TempoRollPoint::Off;
    assert_eq!(shift_param_value_string(&s, 2), "Off");
    s.tempo_roll_point = TempoRollPoint::Step;
    assert_eq!(shift_param_value_string(&s, 2), "Step");
    s.tempo_roll_point = TempoRollPoint::Beat;
    assert_eq!(shift_param_value_string(&s, 2), "Beat");
    s.tempo_roll_point = TempoRollPoint::Sequence;
    assert_eq!(shift_param_value_string(&s, 2), "Seq");
}

#[test]
fn shift_param_value_string_var_max() {
    let mut s = SequencerState::default();
    s.tempo_variance_max = 50;
    assert_eq!(shift_param_value_string(&s, 3), "50");
}

#[test]
fn shift_param_value_string_tempo_rand_type_variants() {
    let mut s = SequencerState::default();
    s.tempo_rand_type = TempoRandType::Random;
    assert_eq!(shift_param_value_string(&s, 4), "Random");
    s.tempo_rand_type = TempoRandType::Up;
    assert_eq!(shift_param_value_string(&s, 4), "Up");
    s.tempo_rand_type = TempoRandType::Down;
    assert_eq!(shift_param_value_string(&s, 4), "Down");
    s.tempo_rand_type = TempoRandType::Breathe;
    assert_eq!(shift_param_value_string(&s, 4), "Breathe");
    s.tempo_rand_type = TempoRandType::PingPong;
    assert_eq!(shift_param_value_string(&s, 4), "PingPong");
}

#[test]
fn shift_param_value_string_step_rand() {
    let mut s = SequencerState::default();
    s.step_rand = 33;
    assert_eq!(shift_param_value_string(&s, 5), "33");
}

#[test]
fn shift_param_value_string_scale_quant() {
    let mut s = SequencerState::default();
    s.scale_quant = false;
    assert_eq!(shift_param_value_string(&s, 6), "Off");
    s.scale_quant = true;
    assert_eq!(shift_param_value_string(&s, 6), "On");
}

#[test]
fn shift_param_value_string_reserved_returns_em_dash() {
    let s = SequencerState::default();
    let result = shift_param_value_string(&s, 7);
    assert!(
        !result.is_empty(),
        "reserved param must return a non-empty string"
    );
}

// ─── shift_pending_param_value_string unit tests ──────────────────────────────

#[test]
fn shift_pending_param_value_string_numeric() {
    assert_eq!(shift_pending_param_value_string(0, 55), "55");
    assert_eq!(shift_pending_param_value_string(1, 80), "80");
    assert_eq!(shift_pending_param_value_string(3, 25), "25");
    assert_eq!(shift_pending_param_value_string(5, 10), "10");
}

#[test]
fn shift_pending_param_value_string_roll_point() {
    assert_eq!(shift_pending_param_value_string(2, 0), "Off");
    assert_eq!(shift_pending_param_value_string(2, 1), "Step");
    assert_eq!(shift_pending_param_value_string(2, 2), "Beat");
    assert_eq!(shift_pending_param_value_string(2, 3), "Seq");
}

#[test]
fn shift_pending_param_value_string_tempo_rand_type() {
    assert_eq!(shift_pending_param_value_string(4, 0), "Random");
    assert_eq!(shift_pending_param_value_string(4, 1), "Up");
    assert_eq!(shift_pending_param_value_string(4, 2), "Down");
    assert_eq!(shift_pending_param_value_string(4, 3), "Breathe");
    assert_eq!(shift_pending_param_value_string(4, 4), "PingPong");
}

#[test]
fn shift_pending_param_value_string_scale_quant() {
    assert_eq!(shift_pending_param_value_string(6, 0), "Off");
    assert_eq!(shift_pending_param_value_string(6, 1), "On");
}

#[test]
fn shift_pending_param_value_string_reserved_does_not_panic() {
    let result = shift_pending_param_value_string(7, 999);
    assert!(!result.is_empty());
}

// ─── palette roles ─────────────────────────────────────────────────────────────

#[test]
fn status_tone_green_playing_cyan_paused_plain_stopped() {
    assert_eq!(status_tone(true, false), Tone::Green);
    assert_eq!(status_tone(true, true), Tone::Cyan);
    assert_eq!(status_tone(false, true), Tone::Cyan);
    assert_eq!(status_tone(false, false), Tone::Plain);
}

#[test]
fn step_tone_playhead_then_enabled_then_disabled() {
    assert_eq!(step_tone(3, 3, false), Tone::Magenta);
    assert_eq!(step_tone(0, 5, true), Tone::Cyan);
    assert_eq!(step_tone(0, 5, false), Tone::DimCyan);
    assert_eq!(step_border_tone(5, 5, Tone::DimCyan), Tone::Magenta);
    assert_eq!(step_border_tone(4, 5, Tone::Cyan), Tone::Cyan);
}

#[test]
fn selected_param_highlighted_only_when_focused() {
    assert_eq!(param_cell_tone(true, 2, 2), Tone::Magenta);
    assert_eq!(param_cell_tone(false, 2, 2), Tone::Gray);
    assert_eq!(param_cell_tone(true, 1, 2), Tone::Gray);
    assert_eq!(panel_border_tone(true), Tone::Cyan);
    assert_eq!(panel_border_tone(false), Tone::DimCyan);
}

#[test]
fn log_tags_have_their_tones() {
    assert_eq!(log_tag_tone(LogTag::Error), Tone::Red);
    assert_eq!(log_tag_tone(LogTag::Midi), Tone::Cyan);
    assert_eq!(log_tag_tone(LogTag::Cmd), Tone::Cyan);
    assert_eq!(log_tag_tone(LogTag::Info), Tone::White);
}
