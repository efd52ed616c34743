//! MIDI output: the wire bytes of each event, the note-off a note-on
//! schedules, and the choice of output port.
//!
//! Opening ports, sending bytes and sleeping until a note-off is due belong
//! to the caller.

use vstd::prelude::*;

use crate::state::MidiEvent;
use crate::text::{
    chars_of, contains_chars, contains_seq, lowercase, parse_unsigned, parse_unsigned_spec, push_char,
    push_str, to_lowercase, trim, trim_chars,
};

verus! {

/// Runtime control of the MIDI output: switch port, switch channel, list
/// the ports.
#[derive(Clone, Debug, PartialEq, Eq)]
pub enum MidiCtrlMsg {
    /// Connect to the output port whose name matches.
    ChangePort(String),
    /// Send on this 1-indexed channel.
    ChangeChannel(u8),
    /// Report the available output ports.
    ListPorts,
}

/// The note-off message for `note` on `channel`.
pub open spec fn note_off_message(channel: u8, note: u8) -> Seq<u8> {
    seq![0x80u8 | channel, note, 0u8]
}

/// The bytes sent at once for an event: note-on `0x90|ch`, note-off
/// `0x80|ch` with velocity 0, and the one-byte transport messages.
pub open spec fn message_bytes(ev: MidiEvent) -> Seq<u8> {
    match ev {
        MidiEvent::NoteOn { channel, note, velocity, .. } => seq![0x90u8 | channel, note, velocity],
        MidiEvent::NoteOff { channel, note } => note_off_message(channel, note),
        MidiEvent::Start => seq![0xFAu8],
        MidiEvent::Stop => seq![0xFCu8],
        MidiEvent::Continue => seq![0xFBu8],
    }
}

/// The bytes to send at once for `event`.
pub fn event_message(event: MidiEvent) -> (r: Vec<u8>)
    ensures
        r@ == message_bytes(event),
{
    match event {
        MidiEvent::NoteOn { channel, note, velocity, .. } => vec![0x90 | channel, note, velocity],
        MidiEvent::NoteOff { channel, note } => vec![0x80 | channel, note, 0],
        MidiEvent::Start => vec![0xFA],
        MidiEvent::Stop => vec![0xFC],
        MidiEvent::Continue => vec![0xFB],
    }
}

/// The note-off a note-on schedules: after its duration, the note-off for
/// the same channel and note. Other events schedule nothing.
pub fn scheduled_note_off(event: MidiEvent) -> (r: Option<(u64, [u8; 3])>)
    ensures
        match event {
            MidiEvent::NoteOn { channel, note, duration_nanos, .. } => (r matches Some((d, m))
                && d == duration_nanos && m@ == note_off_message(channel, note)),
            _ => r is None,
        },
{
    match event {
        MidiEvent::NoteOn { channel, note, duration_nanos, .. } => {
            let m: [u8; 3] = [0x80 | channel, note, 0];
            assert(m@ =~= note_off_message(channel, note));
            Some((duration_nanos, m))
        },
        _ => None,
    }
}

/// A port name matches a filter when, both lower-cased, the filter occurs
/// in the name.
pub open spec fn port_matches(name: Seq<char>, filter: Seq<char>) -> bool {
    contains_seq(lowercase(name), lowercase(filter))
}

/// Whether a port name matches a filter (case-insensitive substring).
pub fn port_filter_matches(name: &str, filter: &str) -> (r: bool)
    ensures
        r == port_matches(name@, filter@),
{
    let n = chars_of(to_lowercase(name).as_str());
    let f = chars_of(to_lowercase(filter).as_str());
    contains_chars(n.as_slice(), f.as_slice())
}

/// `idx` is the port chosen among `names` for the filter `f`: the first
/// matching port, or port 0 when none matches.
pub open spec fn is_chosen_port(names: Seq<&str>, f: Seq<char>, idx: int) -> bool {
    ||| (0 <= idx < names.len() && port_matches(names[idx]@, f) && forall|k: int|
        0 <= k < idx ==> !#[trigger] port_matches(names[k]@, f))
    ||| (idx == 0 && forall|k: int| 0 <= k < names.len() ==> !#[trigger] port_matches(names[k]@, f))
}

/// Choose which port index to open given a list of port names and an optional
/// filter string.
///
/// Returns `None` when `port_names` is empty (caller should disable MIDI).
/// When `filter` is `Some(f)`, returns the index of the first port whose name
/// contains `f` (case-insensitive substring match), or `Some(0)` when no port
/// matches (falling back to the first port).
/// When `filter` is `None`, returns `Some(0)`.
pub fn select_port_idx(port_names: &[&str], filter: Option<&str>) -> (r: Option<usize>)
    ensures
        port_names@.len() == 0 <==> r is None,
        port_names@.len() > 0 && filter is None ==> r == Some(0usize),
        port_names@.len() > 0 && filter is Some ==> (r matches Some(i) && is_chosen_port(
            port_names@,
            filter->0@,
            i as int,
        )),
{
    if port_names.len() == 0 {
        return None;
    }
    match filter {
        None => Some(0),
        Some(f) => {
            let f_lower = chars_of(to_lowercase(f).as_str());
            let mut i: usize = 0;
            while i < port_names.len()
                invariant
                    0 <= i <= port_names@.len(),
                    filter == Some(f),
                    f_lower@ == lowercase(f@),
                    forall|k: int| 0 <= k < i ==> !#[trigger] port_matches(port_names@[k]@, f@),
                decreases port_names.len() - i,
            {
                let name_lower = chars_of(to_lowercase(port_names[i]).as_str());
                if contains_chars(name_lower.as_slice(), f_lower.as_slice()) {
                    assert(port_matches(port_names@[i as int]@, f@));
                    return Some(i);
                }
                i = i + 1;
            }
            Some(0)
        },
    }
}

/// The port picked by a line typed at the port prompt, among `n_ports`
/// ports: an empty line (once trimmed) picks port 0, a decimal index below
/// `n_ports` picks that port, and anything else is no valid selection.
pub open spec fn port_choice_spec(line: Seq<char>, n_ports: int) -> Option<int> {
    let t = trim(line);
    if t.len() == 0 {
        Some(0)
    } else {
        match parse_unsigned_spec(t, 10, usize::MAX as int) {
            Ok(n) => if n < n_ports {
                Some(n)
            } else {
                None
            },
            Err(_) => None,
        }
    }
}

/// Reads the answer to the port prompt; `None` is an invalid selection.
pub fn parse_port_choice(line: &str, n_ports: usize) -> (r: Option<usize>)
    ensures
        match port_choice_spec(line@, n_ports as int) {
            Some(n) => r == Some(n as usize),
            None => r is None,
        },
{
    let cs = chars_of(line);
    let t = trim_chars(cs.as_slice());
    if t.len() == 0 {
        return Some(0);
    }
    match parse_unsigned(t.as_slice(), 10, usize::MAX as u64) {
        Ok(n) => if n < n_ports as u64 {
            Some(n as usize)
        } else {
            None
        },
        Err(_) => None,
    }
}

/// The separator between port names in a port listing.
pub const PORT_NAME_SEPARATOR: char = '\u{1f}';

/// `names` joined with `sep` between consecutive names.
pub open spec fn join_on(names: Seq<Seq<char>>, sep: char) -> Seq<char>
    decreases names.len(),
{
    if names.len() == 0 {
        Seq::empty()
    } else if names.len() == 1 {
        names[0]
    } else {
        names[0] + seq![sep] + join_on(names.drop_first(), sep)
    }
}

/// The message the MIDI output sends the UI for a port listing: `[ports]`
/// then the port names separated by `\u{1f}`.
pub open spec fn port_listing_chars(names: Seq<Seq<char>>) -> Seq<char> {
    "[ports]"@ + join_on(names, PORT_NAME_SEPARATOR)
}

/// The port-listing message for the given port names.
pub fn port_listing_message(names: &[String]) -> (r: String)
    ensures
        r@ == port_listing_chars(names@.map_values(|n: String| n@)),
{
    let ghost all = names@.map_values(|n: String| n@);
    let mut r = "[ports]".to_owned();
    let ghost start = r@;
    let mut i: usize = names.len();
    // Build the joined tail from the back: `tail` holds the join of names[i..].
    let mut tail = String::new();
    while i > 0
        invariant
            0 <= i <= names@.len(),
            all == names@.map_values(|n: String| n@),
            tail@ == join_on(all.subrange(i as int, all.len() as int), PORT_NAME_SEPARATOR),
        decreases i,
    {
        let ghost rest = all.subrange(i as int, all.len() as int);
        let mut piece = names[i - 1].clone();
        if i < names.len() {
            push_char(&mut piece, PORT_NAME_SEPARATOR);
        }
        push_str(&mut piece, tail.as_str());
        tail = piece;
        let ghost now = all.subrange(i - 1, all.len() as int);
        assert(now.drop_first() =~= rest);
        assert(now[0] == all[i - 1]);
        if i < names.len() {
            assert(now.len() > 1);
        } else {
            assert(rest =~= Seq::<Seq<char>>::empty());
            assert(now.len() == 1);
            assert(tail@ =~= now[0]);
        }
        i = i - 1;
    }
    assert(all.subrange(0, all.len() as int) =~= all);
    push_str(&mut r, tail.as_str());
    r
}

} // verus!
