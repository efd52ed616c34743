use midiman::midi_out::{event_message, parse_port_choice, scheduled_note_off, select_port_idx};
use midiman::state::MidiEvent;

// --- NoteOn ---

#[test]
fn note_on_message_then_scheduled_note_off() {
    let ev = MidiEvent::NoteOn {
        channel: 0,
        note: 60,
        velocity: 100,
        duration_nanos: 0,
    };
    assert_eq!(&event_message(ev)[..], &[0x90, 60, 100], "NoteOn bytes incorrect");
    let (delay, off) = scheduled_note_off(ev).expect("a note-on schedules a note-off");
    assert_eq!(delay, 0);
    assert_eq!(&off[..], &[0x80, 60, 0], "NoteOff bytes incorrect");
}

#[test]
fn note_on_status_bytes_carry_channel_three() {
    let ev = MidiEvent::NoteOn {
        channel: 3,
        note: 72,
        velocity: 80,
        duration_nanos: 0,
    };
    assert_eq!(event_message(ev)[0], 0x93, "NoteOn status byte for channel 3 should be 0x93");
    let (_, off) = scheduled_note_off(ev).expect("note-off");
    assert_eq!(off[0], 0x83, "NoteOff status byte for channel 3 should be 0x83");
}

// --- NoteOff ---

#[test]
fn note_off_sends_correct_bytes() {
    let bytes = event_message(MidiEvent::NoteOff {
        channel: 0,
        note: 60,
    });
    assert_eq!(&bytes[..], &[0x80, 60, 0], "NoteOff bytes incorrect");
}

#[test]
fn note_off_channel_bits_masked_correctly() {
    let bytes = event_message(MidiEvent::NoteOff {
        channel: 9,
        note: 36,
    });
    assert_eq!(bytes[0], 0x89, "NoteOff channel 9 status byte should be 0x89");
}

// --- Transport ---

#[test]
fn start_sends_0xfa() {
    assert_eq!(&event_message(MidiEvent::Start)[..], &[0xFA], "Start byte should be 0xFA");
}

#[test]
fn stop_sends_0xfc() {
    assert_eq!(&event_message(MidiEvent::Stop)[..], &[0xFC], "Stop byte should be 0xFC");
}

#[test]
fn continue_sends_0xfb() {
    assert_eq!(
        &event_message(MidiEvent::Continue)[..],
        &[0xFB],
        "Continue byte should be 0xFB"
    );
}

#[test]
fn only_note_on_schedules_a_note_off() {
    assert_eq!(scheduled_note_off(MidiEvent::Start), None);
    assert_eq!(scheduled_note_off(MidiEvent::NoteOff { channel: 1, note: 2 }), None);
}

// --- select_port_idx ---

/// Empty port list returns None.
#[test]
fn select_port_idx_empty_list_returns_none() {
    assert_eq!(select_port_idx(&[], None), None);
    assert_eq!(select_port_idx(&[], Some("anything")), None);
}

/// No filter: always returns index 0.
#[test]
fn select_port_idx_no_filter_returns_first() {
    let ports = ["PortA", "PortB", "PortC"];
    assert_eq!(select_port_idx(&ports, None), Some(0));
}

/// Case-insensitive substring match finds the correct port.
#[test]
fn select_port_idx_case_insensitive_match() {
    let ports = ["FluidSynth virtual port", "USB MIDI", "Timidity"];
    assert_eq!(select_port_idx(&ports, Some("fluidsynth")), Some(0));
    assert_eq!(select_port_idx(&ports, Some("MIDI")), Some(1));
    assert_eq!(select_port_idx(&ports, Some("imid")), Some(2));
}

/// Exact match (full port name) is found.
#[test]
fn select_port_idx_exact_name_match() {
    let ports = ["Alpha", "Beta", "Gamma"];
    assert_eq!(select_port_idx(&ports, Some("Beta")), Some(1));
}

/// When no port matches the filter, falls back to index 0.
#[test]
fn select_port_idx_no_match_falls_back_to_zero() {
    let ports = ["PortA", "PortB"];
    assert_eq!(select_port_idx(&ports, Some("ZZZ_nonexistent")), Some(0));
}

/// Single-port list with matching filter.
#[test]
fn select_port_idx_single_port_matches() {
    let ports = ["OnlyPort"];
    assert_eq!(select_port_idx(&ports, Some("only")), Some(0));
}

/// Single-port list with non-matching filter still returns 0 (fallback).
#[test]
fn select_port_idx_single_port_no_match_falls_back() {
    let ports = ["OnlyPort"];
    assert_eq!(select_port_idx(&ports, Some("other")), Some(0));
}

/// Filter matches the last port in the list.
#[test]
fn select_port_idx_matches_last_port() {
    let ports = ["Alpha", "Beta", "Gamma", "Delta"];
    assert_eq!(select_port_idx(&ports, Some("delta")), Some(3));
}

/// Empty-string filter is a substring of every port name: always matches
/// index 0 (the first port), not the fallback path.
#[test]
fn select_port_idx_empty_filter_matches_first_port() {
    let ports = ["Alpha", "Beta", "Gamma"];
    assert_eq!(select_port_idx(&ports, Some("")), Some(0));
}

/// When the filter matches ports at indices 1 and 2, the first match
/// (index 1) is returned.
#[test]
fn select_port_idx_filter_matches_multiple_returns_first_match() {
    let ports = ["Alpha", "BetaMIDI", "GammaMIDI"];
    assert_eq!(select_port_idx(&ports, Some("midi")), Some(1));
}

/// Filter is all uppercase; port names are all lowercase.
#[test]
fn select_port_idx_uppercase_filter_matches_lowercase_port() {
    let ports = ["fluidsynth", "timidity", "usb"];
    assert_eq!(select_port_idx(&ports, Some("FLUID")), Some(0));
    assert_eq!(select_port_idx(&ports, Some("TIMIDITY")), Some(1));
}

/// With five ports and a non-matching filter, fallback is still index 0.
#[test]
fn select_port_idx_fallback_with_many_ports_returns_zero() {
    let ports = ["PortA", "PortB", "PortC", "PortD", "PortE"];
    assert_eq!(select_port_idx(&ports, Some("ZZZ_nonexistent")), Some(0));
}

/// Filter matches exactly one port that is not index 0 in a longer list.
#[test]
fn select_port_idx_unique_match_not_at_zero() {
    let ports = ["Alpha", "Beta", "SpecialSynth", "Delta", "Epsilon"];
    assert_eq!(select_port_idx(&ports, Some("special")), Some(2));
}

// --- port prompt ---

#[test]
fn port_prompt_empty_line_picks_first_port() {
    assert_eq!(parse_port_choice("", 3), Some(0));
    assert_eq!(parse_port_choice("  \n", 3), Some(0));
}

#[test]
fn port_prompt_reads_a_trimmed_index() {
    assert_eq!(parse_port_choice("1\n", 3), Some(1));
    assert_eq!(parse_port_choice("  2 ", 3), Some(2));
    assert_eq!(parse_port_choice("+1", 3), Some(1));
}

#[test]
fn port_prompt_refuses_out_of_range_and_garbage() {
    assert_eq!(parse_port_choice("3", 3), None);
    assert_eq!(parse_port_choice("abc", 3), None);
    assert_eq!(parse_port_choice("-1", 3), None);
    assert_eq!(parse_port_choice("99999999999999999999999", 3), None);
}
