use midiman::music_theory::parse_note_name;

#[test]
fn test_parse_note_name_c4() {
    assert_eq!(parse_note_name("C4"), Some(60));
}

#[test]
fn test_parse_note_name_lowercase() {
    assert_eq!(parse_note_name("c4"), Some(60));
}

#[test]
fn test_parse_note_name_sharp() {
    assert_eq!(parse_note_name("F#3"), Some(54));
}

#[test]
fn test_parse_note_name_flat() {
    // Bb2: B-flat in octave 2 → chroma 10, (2+1)*12+10 = 46
    assert_eq!(parse_note_name("Bb2"), Some(46));
}

#[test]
fn test_parse_note_name_negative_octave() {
    assert_eq!(parse_note_name("A-1"), Some(9));
}

#[test]
fn test_parse_note_name_g9() {
    assert_eq!(parse_note_name("G9"), Some(127));
}

#[test]
fn test_parse_note_name_c_minus1() {
    assert_eq!(parse_note_name("C-1"), Some(0));
}

#[test]
fn test_parse_note_name_out_of_range() {
    assert_eq!(parse_note_name("G#9"), None);
}

#[test]
fn test_parse_note_name_empty() {
    assert_eq!(parse_note_name(""), None);
}

#[test]
fn test_parse_note_name_invalid_letter() {
    assert_eq!(parse_note_name("X4"), None);
}

#[test]
fn test_parse_note_name_missing_octave() {
    assert_eq!(parse_note_name("C"), None);
}
