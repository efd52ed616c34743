//! Music theory primitives: keys, modes, scale tables and note navigation.
//!
//! Notes are MIDI note numbers (C4 = 60). A scale is anchored on the key root
//! in octave 4 and extends to every octave: a note is "in the scale" when its
//! distance from the root, taken modulo 12, is one of the seven cumulative
//! interval offsets of the mode.

use vstd::prelude::*;

use crate::text::{
    chars_of, digits_value, parse_int, parse_int_chars, push_char, push_signed_decimal,
    signed_decimal_chars,
};

verus! {

/// The 12 chromatic pitch classes.
#[derive(Clone, Copy, PartialEq, Eq, Debug, Structural)]
pub enum Key {
    C,
    Cs,
    D,
    Ds,
    E,
    F,
    Fs,
    G,
    Gs,
    A,
    As,
    B,
}

/// The available scales.
#[derive(Clone, Copy, PartialEq, Eq, Debug, Structural)]
pub enum Mode {
    Major,
    NaturalMinor,
    Dorian,
    Phrygian,
    Lydian,
    Mixolydian,
    Locrian,
    HarmonicMinor,
    MelodicMinor,
}

/// Zero-based position of a key in chromatic order.
pub open spec fn key_pos(k: Key) -> int {
    match k {
        Key::C => 0,
        Key::Cs => 1,
        Key::D => 2,
        Key::Ds => 3,
        Key::E => 4,
        Key::F => 5,
        Key::Fs => 6,
        Key::G => 7,
        Key::Gs => 8,
        Key::A => 9,
        Key::As => 10,
        Key::B => 11,
    }
}

/// The key whose position is `i` (taken modulo 12).
pub open spec fn key_at(i: int) -> Key {
    let r = i % 12;
    if r == 0 {
        Key::C
    } else if r == 1 {
        Key::Cs
    } else if r == 2 {
        Key::D
    } else if r == 3 {
        Key::Ds
    } else if r == 4 {
        Key::E
    } else if r == 5 {
        Key::F
    } else if r == 6 {
        Key::Fs
    } else if r == 7 {
        Key::G
    } else if r == 8 {
        Key::Gs
    } else if r == 9 {
        Key::A
    } else if r == 10 {
        Key::As
    } else {
        Key::B
    }
}

/// Zero-based position of a mode in declaration order.
pub open spec fn mode_pos(m: Mode) -> int {
    match m {
        Mode::Major => 0,
        Mode::NaturalMinor => 1,
        Mode::Dorian => 2,
        Mode::Phrygian => 3,
        Mode::Lydian => 4,
        Mode::Mixolydian => 5,
        Mode::Locrian => 6,
        Mode::HarmonicMinor => 7,
        Mode::MelodicMinor => 8,
    }
}

/// The mode whose position is `i` (taken modulo 9).
pub open spec fn mode_at(i: int) -> Mode {
    let r = i % 9;
    if r == 0 {
        Mode::Major
    } else if r == 1 {
        Mode::NaturalMinor
    } else if r == 2 {
        Mode::Dorian
    } else if r == 3 {
        Mode::Phrygian
    } else if r == 4 {
        Mode::Lydian
    } else if r == 5 {
        Mode::Mixolydian
    } else if r == 6 {
        Mode::Locrian
    } else if r == 7 {
        Mode::HarmonicMinor
    } else {
        Mode::MelodicMinor
    }
}

impl Key {
    /// Number of Key variants.
    pub const COUNT: usize = 12;

    /// Convert a zero-based index (mod 12) to the corresponding Key variant.
    pub fn from_index(i: usize) -> (k: Key)
        ensures
            k == key_at(i as int),
            key_pos(k) == i % 12,
    {
        let r = i % 12;
        if r == 0 {
            Key::C
        } else if r == 1 {
            Key::Cs
        } else if r == 2 {
            Key::D
        } else if r == 3 {
            Key::Ds
        } else if r == 4 {
            Key::E
        } else if r == 5 {
            Key::F
        } else if r == 6 {
            Key::Fs
        } else if r == 7 {
            Key::G
        } else if r == 8 {
            Key::Gs
        } else if r == 9 {
            Key::A
        } else if r == 10 {
            Key::As
        } else {
            Key::B
        }
    }

    /// Return the zero-based index of this Key variant.
    pub fn to_index(self) -> (r: usize)
        ensures
            r == key_pos(self),
    {
        key_index(self)
    }
}

impl Mode {
    /// Number of Mode variants.
    pub const COUNT: usize = 9;

    /// Convert a zero-based index (mod 9) to the corresponding Mode variant.
    pub fn from_index(i: usize) -> (m: Mode)
        ensures
            m == mode_at(i as int),
            mode_pos(m) == i % 9,
    {
        let r = i % 9;
        if r == 0 {
            Mode::Major
        } else if r == 1 {
            Mode::NaturalMinor
        } else if r == 2 {
            Mode::Dorian
        } else if r == 3 {
            Mode::Phrygian
        } else if r == 4 {
            Mode::Lydian
        } else if r == 5 {
            Mode::Mixolydian
        } else if r == 6 {
            Mode::Locrian
        } else if r == 7 {
            Mode::HarmonicMinor
        } else {
            Mode::MelodicMinor
        }
    }

    /// Return the zero-based index of this Mode variant.
    pub fn to_index(self) -> (r: usize)
        ensures
            r == mode_pos(self),
    {
        mode_index(self)
    }
}

/// Index of a key in chromatic order.
fn key_index(key: Key) -> (r: usize)
    ensures
        r == key_pos(key),
{
    match key {
        Key::C => 0,
        Key::Cs => 1,
        Key::D => 2,
        Key::Ds => 3,
        Key::E => 4,
        Key::F => 5,
        Key::Fs => 6,
        Key::G => 7,
        Key::Gs => 8,
        Key::A => 9,
        Key::As => 10,
        Key::B => 11,
    }
}

/// Index of a mode in declaration order.
fn mode_index(mode: Mode) -> (r: usize)
    ensures
        r == mode_pos(mode),
{
    match mode {
        Mode::Major => 0,
        Mode::NaturalMinor => 1,
        Mode::Dorian => 2,
        Mode::Phrygian => 3,
        Mode::Lydian => 4,
        Mode::Mixolydian => 5,
        Mode::Locrian => 6,
        Mode::HarmonicMinor => 7,
        Mode::MelodicMinor => 8,
    }
}

/// Indexing a key and reading it back gives the same key, and the reverse
/// direction reduces the index modulo the number of keys.
pub proof fn law_key_index_roundtrip(k: Key, i: int)
    ensures
        key_at(key_pos(k)) == k,
        key_pos(key_at(i)) == i % 12,
{
}

/// Indexing a mode and reading it back gives the same mode, and the reverse
/// direction reduces the index modulo the number of modes.
pub proof fn law_mode_index_roundtrip(m: Mode, i: int)
    ensures
        mode_at(mode_pos(m)) == m,
        mode_pos(mode_at(i)) == i % 9,
{
}


/// Semitone intervals between successive scale degrees for each mode.
/// Each row sums to 12 (one octave).
pub const SCALE_INTERVALS: [[u8; 7]; 9] = [
    [2, 2, 1, 2, 2, 2, 1],
    [2, 1, 2, 2, 1, 2, 2],
    [2, 1, 2, 2, 2, 1, 2],
    [1, 2, 2, 2, 1, 2, 2],
    [2, 2, 2, 1, 2, 2, 1],
    [2, 2, 1, 2, 2, 1, 2],
    [1, 2, 2, 1, 2, 2, 2],
    [2, 1, 2, 2, 1, 3, 1],
    [2, 1, 2, 2, 2, 2, 1],
];

/// MIDI root note for each key, anchored at octave 4 (C4 = 60).
const KEY_ROOT: [u8; 12] = [60, 61, 62, 63, 64, 65, 66, 67, 68, 69, 70, 71];

/// MIDI root of a key in octave 4.
pub open spec fn root_of(k: Key) -> int {
    60 + key_pos(k)
}

/// Semitone offsets of the seven scale degrees from the root, within one octave.
pub open spec fn degree_offsets(m: Mode) -> Seq<int> {
    match m {
        Mode::Major => seq![0, 2, 4, 5, 7, 9, 11],
        Mode::NaturalMinor => seq![0, 2, 3, 5, 7, 8, 10],
        Mode::Dorian => seq![0, 2, 3, 5, 7, 9, 10],
        Mode::Phrygian => seq![0, 1, 3, 5, 7, 8, 10],
        Mode::Lydian => seq![0, 2, 4, 6, 7, 9, 11],
        Mode::Mixolydian => seq![0, 2, 4, 5, 7, 9, 10],
        Mode::Locrian => seq![0, 1, 3, 5, 6, 8, 10],
        Mode::HarmonicMinor => seq![0, 2, 3, 5, 7, 8, 11],
        Mode::MelodicMinor => seq![0, 2, 3, 5, 7, 9, 11],
    }
}

/// Offset of scale degree `d` (0..7) from the root.
pub open spec fn deg_off(m: Mode, d: int) -> int {
    degree_offsets(m)[d]
}

/// `c` is a note of the scale of `k`/`m` (in any octave).
pub open spec fn in_scale(k: Key, m: Mode, c: int) -> bool {
    degree_offsets(m).contains((c - root_of(k)) % 12)
}

/// Absolute difference.
pub open spec fn dist(a: int, b: int) -> int {
    if a >= b {
        a - b
    } else {
        b - a
    }
}

/// Clamp `v` into `lo..=hi`.
pub open spec fn clamp(v: int, lo: int, hi: int) -> int {
    if v < lo {
        lo
    } else if v > hi {
        hi
    } else {
        v
    }
}

/// `r` is the snap of `n` to the scale: the in-range scale note nearest to `n`,
/// the lower one on a tie.
pub open spec fn is_snap(k: Key, m: Mode, n: int, r: int) -> bool {
    &&& 0 <= r <= 127
    &&& in_scale(k, m, r)
    &&& forall|c: int|
        0 <= c <= 127 && #[trigger] in_scale(k, m, c) ==> dist(n, r) < dist(n, c) || (dist(n, r)
            == dist(n, c) && r <= c)
}

/// The seven notes of one octave of the scale, starting at the root in octave 4.
pub open spec fn scale_notes(k: Key, m: Mode) -> Seq<int> {
    Seq::new(7, |d: int| root_of(k) + deg_off(m, d))
}

/// Row `mode_pos(m)` of the interval table, as read by the executable code.
proof fn lemma_intervals_table(m: Mode, i: int)
    requires
        0 <= i < 6,
    ensures
        deg_off(m, i + 1) == deg_off(m, i) + SCALE_INTERVALS[mode_pos(m)][i] as int,
        deg_off(m, 0) == 0,
{
}

/// The cumulative offsets are strictly increasing and lie in 0..12.
proof fn lemma_offsets_shape(m: Mode)
    ensures
        degree_offsets(m).len() == 7,
        deg_off(m, 0) == 0,
        forall|d: int| 0 <= d < 7 ==> 0 <= #[trigger] deg_off(m, d) < 12,
        forall|d1: int, d2: int|
            0 <= d1 < d2 < 7 ==> #[trigger] deg_off(m, d1) < #[trigger] deg_off(m, d2),
{
}

/// Read the interval row of a mode.
fn scale_intervals(mode: Mode) -> (r: [u8; 7])
    ensures
        forall|i: int| 0 <= i < 7 ==> r[i] == SCALE_INTERVALS[mode_pos(mode)][i],
{
    SCALE_INTERVALS[mode_index(mode)]
}

/// Cumulative semitone offsets `[0, i0, i0+i1, ...]` of a mode.
fn cumulative_offsets(mode: Mode) -> (cum: [i32; 7])
    ensures
        forall|d: int| 0 <= d < 7 ==> cum[d] as int == deg_off(mode, d),
{
    let intervals = scale_intervals(mode);
    let mut cum: [i32; 7] = [0;7];
    let mut i: usize = 1;
    while i < 7
        invariant
            1 <= i <= 7,
            forall|j: int| 0 <= j < 7 ==> intervals[j] == SCALE_INTERVALS[mode_pos(mode)][j],
            forall|d: int| 0 <= d < i ==> cum[d] as int == deg_off(mode, d),
        decreases 7 - i,
    {
        proof {
            lemma_intervals_table(mode, (i - 1) as int);
            lemma_offsets_shape(mode);
        }
        cum[i] = cum[i - 1] + intervals[i - 1] as i32;
        i = i + 1;
    }
    cum
}

/// Returns the 7 MIDI note numbers for one octave of the given key and mode,
/// starting at the key root in octave 4 (C4 = 60).
pub fn notes_in_key(key: Key, mode: Mode) -> (notes: [u8; 7])
    ensures
        forall|d: int| 0 <= d < 7 ==> notes[d] as int == scale_notes(key, mode)[d],
{
    let root = KEY_ROOT[key_index(key)];
    let intervals = scale_intervals(mode);
    let mut notes = [0u8;7];
    notes[0] = root;
    let mut i: usize = 1;
    proof {
        lemma_offsets_shape(mode);
    }
    while i < 7
        invariant
            1 <= i <= 7,
            root as int == root_of(key),
            forall|j: int| 0 <= j < 7 ==> intervals[j] == SCALE_INTERVALS[mode_pos(mode)][j],
            forall|d: int| 0 <= d < i ==> notes[d] as int == root_of(key) + deg_off(mode, d),
        decreases 7 - i,
    {
        proof {
            lemma_intervals_table(mode, (i - 1) as int);
            lemma_offsets_shape(mode);
        }
        notes[i] = notes[i - 1].saturating_add(intervals[i - 1]);
        i = i + 1;
    }
    notes
}


/// Index of the scale degree whose offset from the root is `r`.
pub open spec fn degree_of(m: Mode, r: int) -> int {
    choose|d: int| 0 <= d < 7 && deg_off(m, d) == r
}

/// Position of a scale note in ascending order of all scale notes:
/// seven positions per octave, counted from the octave-4 root.
pub open spec fn scale_pos(k: Key, m: Mode, c: int) -> int {
    7 * ((c - root_of(k)) / 12) + degree_of(m, (c - root_of(k)) % 12)
}

/// Splitting `12 * o + r` into octave and remainder.
proof fn lemma_div_mod_12(o: int, r: int)
    requires
        0 <= r < 12,
    ensures
        (12 * o + r) / 12 == o,
        (12 * o + r) % 12 == r,
{
    assert((12 * o + r) / 12 == o) by (nonlinear_arith)
        requires
            0 <= r < 12,
    ;
    assert((12 * o + r) % 12 == r) by (nonlinear_arith)
        requires
            0 <= r < 12,
    ;
}

/// The note on degree `d` of octave `o` (relative to octave 4) is in the
/// scale and sits at position `7 * o + d`.
proof fn lemma_candidate(k: Key, m: Mode, o: int, d: int)
    requires
        0 <= d < 7,
    ensures
        in_scale(k, m, root_of(k) + 12 * o + deg_off(m, d)),
        scale_pos(k, m, root_of(k) + 12 * o + deg_off(m, d)) == 7 * o + d,
{
    lemma_offsets_shape(m);
    let c = root_of(k) + 12 * o + deg_off(m, d);
    lemma_div_mod_12(o, deg_off(m, d));
    assert(c - root_of(k) == 12 * o + deg_off(m, d));
    assert(degree_offsets(m)[d] == deg_off(m, d));
    assert(degree_offsets(m).contains((c - root_of(k)) % 12));
    let d2 = degree_of(m, deg_off(m, d));
    assert(0 <= d2 < 7 && deg_off(m, d2) == deg_off(m, d));
    if d2 < d {
    } else if d < d2 {
    }
}

/// A scale note decomposes into its octave and degree.
proof fn lemma_decompose(k: Key, m: Mode, c: int)
    requires
        in_scale(k, m, c),
    ensures
        0 <= degree_of(m, (c - root_of(k)) % 12) < 7,
        c == root_of(k) + 12 * ((c - root_of(k)) / 12) + deg_off(
            m,
            degree_of(m, (c - root_of(k)) % 12),
        ),
{
    lemma_offsets_shape(m);
    let r = (c - root_of(k)) % 12;
    let i = choose|i: int| 0 <= i < degree_offsets(m).len() && degree_offsets(m)[i] == r;
    assert(deg_off(m, i) == r);
    let q = (c - root_of(k)) / 12;
    vstd::arithmetic::div_mod::lemma_fundamental_div_mod(c - root_of(k), 12);
}

/// Scale positions order scale notes by pitch.
proof fn lemma_pos_monotone(k: Key, m: Mode, c1: int, c2: int)
    requires
        in_scale(k, m, c1),
        in_scale(k, m, c2),
        scale_pos(k, m, c1) < scale_pos(k, m, c2),
    ensures
        c1 < c2,
{
    lemma_offsets_shape(m);
    lemma_decompose(k, m, c1);
    lemma_decompose(k, m, c2);
    let o1 = (c1 - root_of(k)) / 12;
    let o2 = (c2 - root_of(k)) / 12;
    let d1 = degree_of(m, (c1 - root_of(k)) % 12);
    let d2 = degree_of(m, (c2 - root_of(k)) % 12);
    if o1 < o2 {
        assert(12 * o1 + 12 <= 12 * o2);
    } else if o1 == o2 {
        assert(d1 < d2);
    } else {
        assert(7 * o2 + 7 <= 7 * o1);
    }
}

/// Distinct scale notes have distinct positions.
proof fn lemma_pos_injective(k: Key, m: Mode, c1: int, c2: int)
    requires
        in_scale(k, m, c1),
        in_scale(k, m, c2),
        scale_pos(k, m, c1) == scale_pos(k, m, c2),
    ensures
        c1 == c2,
{
    lemma_offsets_shape(m);
    lemma_decompose(k, m, c1);
    lemma_decompose(k, m, c2);
    let o1 = (c1 - root_of(k)) / 12;
    let o2 = (c2 - root_of(k)) / 12;
    let d1 = degree_of(m, (c1 - root_of(k)) % 12);
    let d2 = degree_of(m, (c2 - root_of(k)) % 12);
    if o1 < o2 {
        assert(7 * o1 + 7 <= 7 * o2);
    } else if o2 < o1 {
        assert(7 * o2 + 7 <= 7 * o1);
    }
}

/// Octave bounds of the notes 0..=127 relative to an octave-4 root.
proof fn lemma_octave_range(k: Key, c: int)
    requires
        0 <= c <= 127,
    ensures
        -((root_of(k) + 11) / 12) <= (c - root_of(k)) / 12 <= (127 - root_of(k)) / 12,
{
    let a = root_of(k);
    assert(60 <= a <= 71);
    let q = (c - a) / 12;
    vstd::arithmetic::div_mod::lemma_fundamental_div_mod(c - a, 12);
    vstd::arithmetic::div_mod::lemma_fundamental_div_mod(127 - a, 12);
    vstd::arithmetic::div_mod::lemma_fundamental_div_mod(a + 11, 12);
}

/// Snap `midi_note` to the nearest note in the scale defined by `key` and `mode`.
///
/// Ties resolve to the lower note. Result is always in 0–127.
pub fn snap_to_key(midi_note: u8, key: Key, mode: Mode) -> (r: u8)
    ensures
        is_snap(key, mode, midi_note as int, r as int),
        r as int == snap_spec(key, mode, midi_note as int),
{
    let cum = cumulative_offsets(mode);
    let note_i32 = midi_note as i32;
    let mut best_note: i32 = 0;
    let mut best_dist: i32 = i32::MAX;
    let ghost mut found: bool = false;
    let anchor = KEY_ROOT[key_index(key)] as i32;
    let oct_min = -((anchor + 11) / 12);
    let oct_max = (127 - anchor) / 12 + 1;
    let ghost n = midi_note as int;
    proof {
        lemma_offsets_shape(mode);
        assert(anchor as int == root_of(key));
        assert(oct_min == -((root_of(key) + 11) / 12));
        assert forall|c: int|
            0 <= c <= 127 && #[trigger] in_scale(key, mode, c) implies scale_pos(key, mode, c) >= 7
            * oct_min by {
            lemma_octave_range(key, c);
            lemma_decompose(key, mode, c);
        }
    }
    let mut oct = oct_min;
    while oct <= oct_max
        invariant
            anchor as int == root_of(key),
            note_i32 == n,
            n == midi_note as int,
            oct_min == -((root_of(key) + 11) / 12),
            oct_max == (127 - root_of(key)) / 12 + 1,
            -7 <= oct_min <= oct <= oct_max + 1 <= 7,
            forall|d: int| 0 <= d < 7 ==> cum[d] as int == deg_off(mode, d),
            found ==> {
                &&& 0 <= best_note <= 127
                &&& in_scale(key, mode, best_note as int)
                &&& best_dist as int == dist(n, best_note as int)
                &&& scale_pos(key, mode, best_note as int) < 7 * oct
            },
            !found ==> best_dist == i32::MAX,
            forall|c: int|
                0 <= c <= 127 && #[trigger] in_scale(key, mode, c) && scale_pos(key, mode, c) < 7
                    * oct ==> found && (dist(n, best_note as int) < dist(n, c) || (dist(
                    n,
                    best_note as int,
                ) == dist(n, c) && best_note <= c)),
        decreases oct_max + 1 - oct,
    {
        let mut d: usize = 0;
        while d < 7
            invariant
                anchor as int == root_of(key),
                note_i32 == n,
                n == midi_note as int,
                -7 <= oct_min <= oct <= oct_max <= 7,
                0 <= d <= 7,
                forall|j: int| 0 <= j < 7 ==> cum[j] as int == deg_off(mode, j),
                found ==> {
                    &&& 0 <= best_note <= 127
                    &&& in_scale(key, mode, best_note as int)
                    &&& best_dist as int == dist(n, best_note as int)
                    &&& scale_pos(key, mode, best_note as int) < 7 * oct + d
                },
                !found ==> best_dist == i32::MAX,
                forall|c: int|
                    0 <= c <= 127 && #[trigger] in_scale(key, mode, c) && scale_pos(key, mode, c) < 7
                        * oct + d ==> found && (dist(n, best_note as int) < dist(n, c) || (dist(
                        n,
                        best_note as int,
                    ) == dist(n, c) && best_note <= c)),
            decreases 7 - d,
        {
            proof {
                lemma_offsets_shape(mode);
                assert(0 <= deg_off(mode, d as int) < 12);
            }
            let candidate = anchor + oct * 12 + cum[d];
            let ghost cand = candidate as int;
            proof {
                lemma_candidate(key, mode, oct as int, d as int);
                assert(cand == root_of(key) + 12 * oct + deg_off(mode, d as int));
            }
            if 0 <= candidate && candidate <= 127 {
                let dst = if note_i32 >= candidate {
                    note_i32 - candidate
                } else {
                    candidate - note_i32
                };
                if dst < best_dist {
                    proof {
                        assert forall|c: int|
                            0 <= c <= 127 && #[trigger] in_scale(key, mode, c) && scale_pos(
                                key,
                                mode,
                                c,
                            ) < 7 * oct + d + 1 implies (dist(n, cand) < dist(n, c) || (dist(
                            n,
                            cand,
                        ) == dist(n, c) && cand <= c)) by {
                            if scale_pos(key, mode, c) == 7 * oct + d {
                                lemma_pos_injective(key, mode, c, cand);
                            }
                        }
                        found = true;
                    }
                    best_dist = dst;
                    best_note = candidate;
                } else {
                    proof {
                        assert(found);
                        assert forall|c: int|
                            0 <= c <= 127 && #[trigger] in_scale(key, mode, c) && scale_pos(
                                key,
                                mode,
                                c,
                            ) < 7 * oct + d + 1 implies (dist(n, best_note as int) < dist(n, c) || (
                            dist(n, best_note as int) == dist(n, c) && best_note <= c)) by {
                            if scale_pos(key, mode, c) == 7 * oct + d {
                                lemma_pos_injective(key, mode, c, cand);
                                lemma_pos_monotone(key, mode, best_note as int, cand);
                            }
                        }
                    }
                }
            } else {
                proof {
                    assert forall|c: int|
                        0 <= c <= 127 && #[trigger] in_scale(key, mode, c) && scale_pos(
                            key,
                            mode,
                            c,
                        ) < 7 * oct + d + 1 implies scale_pos(key, mode, c) < 7 * oct + d by {
                        if scale_pos(key, mode, c) == 7 * oct + d {
                            lemma_pos_injective(key, mode, c, cand);
                        }
                    }
                }
            }
            d = d + 1;
        }
        oct = oct + 1;
    }
    proof {
        assert forall|c: int|
            0 <= c <= 127 && #[trigger] in_scale(key, mode, c) implies scale_pos(key, mode, c) < 7
            * oct by {
            lemma_octave_range(key, c);
            lemma_decompose(key, mode, c);
        }
        lemma_candidate(key, mode, 0, 0);
        assert(in_scale(key, mode, root_of(key)));
        assert(is_snap(key, mode, n, best_note as int));
        lemma_snap_unique(key, mode, n, best_note as int, snap_spec(key, mode, n));
    }
    best_note as u8
}


/// Among degrees `0..i`, the one whose offset is nearest to `w` (the first
/// one on a tie).
pub open spec fn nearest_degree_upto(m: Mode, w: int, i: nat) -> int
    decreases i,
{
    if i <= 1 {
        0
    } else {
        let b = nearest_degree_upto(m, w, (i - 1) as nat);
        if dist(w, deg_off(m, i - 1)) < dist(w, deg_off(m, b)) {
            i - 1
        } else {
            b
        }
    }
}

/// The scale degree whose offset is nearest to the within-octave position `w`
/// (the lowest degree on a tie; no wrap-around to the next octave).
pub open spec fn nearest_degree(m: Mode, w: int) -> int {
    nearest_degree_upto(m, w, 7)
}

/// Unclamped result of stepping `dir` scale degrees from `n`: `n` is first
/// read as the nearest degree within its octave (octaves counted from the
/// octave-4 root), then moved by `dir` degrees across octave boundaries.
pub open spec fn step_degrees(n: int, k: Key, m: Mode, dir: int) -> int {
    let s = n - root_of(k);
    let total = 7 * (s / 12) + nearest_degree(m, s % 12) + dir;
    root_of(k) + 12 * (total / 7) + deg_off(m, total % 7)
}

proof fn lemma_nearest_degree_upto(m: Mode, w: int, i: nat)
    requires
        1 <= i <= 7,
    ensures
        0 <= nearest_degree_upto(m, w, i) < i,
        forall|j: int|
            0 <= j < i ==> dist(w, deg_off(m, nearest_degree_upto(m, w, i))) <= dist(
                w,
                #[trigger] deg_off(m, j),
            ),
    decreases i,
{
    if i > 1 {
        lemma_nearest_degree_upto(m, w, (i - 1) as nat);
    }
}

/// Advances or retreats within the 7-note scale, wrapping across octaves.
///
/// Finds the closest scale degree to `current` in the given key/mode, then
/// steps `direction` degrees (positive = up, negative = down), wrapping
/// octaves as needed. The result is clamped to MIDI 0–127.
pub fn next_note(current: u8, key: Key, mode: Mode, direction: i8) -> (r: u8)
    ensures
        r as int == clamp(step_degrees(current as int, key, mode, direction as int), 0, 127),
{
    let scale = notes_in_key(key, mode);
    let cum = cumulative_offsets(mode);
    proof {
        lemma_offsets_shape(mode);
        assert(scale[0] as int == scale_notes(key, mode)[0]);
    }
    let root = scale[0] as i32;
    let current_i32 = current as i32;
    let semitones_from_root = current_i32 - root;
    let octave_offset = if semitones_from_root >= 0 {
        semitones_from_root / 12
    } else {
        (semitones_from_root - 11) / 12
    };
    let within_octave = semitones_from_root - octave_offset * 12;
    let ghost s = current as int - root_of(key);
    assert(octave_offset as int == s / 12);
    assert(within_octave as int == s % 12) by {
        vstd::arithmetic::div_mod::lemma_fundamental_div_mod(s, 12);
    }
    let mut best_degree: usize = 0;
    let mut best_dist: i32 = i32::MAX;
    let mut i: usize = 0;
    while i < 7
        invariant
            0 <= i <= 7,
            0 <= within_octave < 12,
            forall|j: int| 0 <= j < 7 ==> cum[j] as int == deg_off(mode, j),
            i == 0 ==> best_dist == i32::MAX && best_degree == 0,
            i >= 1 ==> best_degree as int == nearest_degree_upto(mode, within_octave as int, i as nat),
            i >= 1 ==> best_dist as int == dist(within_octave as int, deg_off(mode, best_degree as int)),
            best_degree < 7,
        decreases 7 - i,
    {
        proof {
            lemma_offsets_shape(mode);
            assert(0 <= deg_off(mode, i as int) < 12);
        }
        let c = cum[i];
        let dst = if within_octave >= c {
            within_octave - c
        } else {
            c - within_octave
        };
        if dst < best_dist {
            best_dist = dst;
            best_degree = i;
        }
        i = i + 1;
    }
    let total_degree = octave_offset * 7 + best_degree as i32 + direction as i32;
    let target_octave = if total_degree >= 0 {
        total_degree / 7
    } else {
        (total_degree - 6) / 7
    };
    let ghost t = total_degree as int;
    assert(target_octave as int == t / 7);
    assert(total_degree - target_octave * 7 == t % 7) by {
        vstd::arithmetic::div_mod::lemma_fundamental_div_mod(t, 7);
    }
    let target_degree_in_oct = (total_degree - target_octave * 7) as usize;
    proof {
        assert(0 <= deg_off(mode, target_degree_in_oct as int) < 12);
    }
    let midi = root + target_octave * 12 + cum[target_degree_in_oct];
    if midi < 0 {
        0
    } else if midi > 127 {
        127
    } else {
        midi as u8
    }
}

/// A scale note is read back as exactly its own degree.
proof fn lemma_nearest_of_offset(m: Mode, d: int)
    requires
        0 <= d < 7,
    ensures
        nearest_degree(m, deg_off(m, d)) == d,
{
    lemma_offsets_shape(m);
    lemma_nearest_degree_upto(m, deg_off(m, d), 7);
    let b = nearest_degree(m, deg_off(m, d));
    assert(dist(deg_off(m, d), deg_off(m, b)) <= dist(deg_off(m, d), deg_off(m, d)));
    if b < d {
    } else if d < b {
    }
}

/// Stepping from a scale note lands on the note whose scale position differs
/// by exactly the number of steps.
proof fn lemma_step_from_scale_note(n: int, k: Key, m: Mode, dir: int)
    requires
        in_scale(k, m, n),
    ensures
        in_scale(k, m, step_degrees(n, k, m, dir)),
        scale_pos(k, m, step_degrees(n, k, m, dir)) == scale_pos(k, m, n) + dir,
{
    lemma_offsets_shape(m);
    lemma_decompose(k, m, n);
    let s = n - root_of(k);
    let d0 = degree_of(m, s % 12);
    lemma_nearest_of_offset(m, d0);
    assert(nearest_degree(m, s % 12) == d0);
    let total = 7 * (s / 12) + d0 + dir;
    assert(0 <= total % 7 < 7);
    lemma_candidate(k, m, total / 7, total % 7);
    vstd::arithmetic::div_mod::lemma_fundamental_div_mod(total, 7);
}

/// Ordering of pitches carries over to scale positions.
proof fn lemma_pos_strict(k: Key, m: Mode, c1: int, c2: int)
    requires
        in_scale(k, m, c1),
        in_scale(k, m, c2),
        c1 < c2,
    ensures
        scale_pos(k, m, c1) < scale_pos(k, m, c2),
{
    if scale_pos(k, m, c1) == scale_pos(k, m, c2) {
        lemma_pos_injective(k, m, c1, c2);
    } else if scale_pos(k, m, c2) < scale_pos(k, m, c1) {
        lemma_pos_monotone(k, m, c2, c1);
    }
}

/// Stepping never leaves the scale except where the MIDI range clamps the
/// result: every result of `next_note` is a scale note or a range boundary.
pub proof fn law_next_note_stays_in_scale(n: u8, k: Key, m: Mode, dir: i8)
    ensures
        ({
            let r = clamp(step_degrees(n as int, k, m, dir as int), 0, 127);
            0 <= r <= 127 && (in_scale(k, m, r) || r == 0 || r == 127)
        }),
{
    lemma_offsets_shape(m);
    let s = n as int - root_of(k);
    lemma_nearest_degree_upto(m, s % 12, 7);
    let total = 7 * (s / 12) + nearest_degree(m, s % 12) + dir as int;
    lemma_candidate(k, m, total / 7, total % 7);
}

/// Stepping zero degrees from a scale note leaves it unchanged.
pub proof fn law_next_note_zero_step_identity(n: u8, k: Key, m: Mode)
    requires
        n <= 127,
        in_scale(k, m, n as int),
    ensures
        clamp(step_degrees(n as int, k, m, 0), 0, 127) == n as int,
{
    let r = step_degrees(n as int, k, m, 0);
    lemma_step_from_scale_note(n as int, k, m, 0);
    assert(scale_pos(k, m, r) == scale_pos(k, m, n as int));
    lemma_pos_injective(k, m, n as int, r);
    assert(r == n as int);
}

/// From a scale note, one step up reaches the next higher scale note and one
/// step down the next lower one: no scale note lies strictly between.
pub proof fn law_next_note_neighbours(n: u8, k: Key, m: Mode)
    requires
        in_scale(k, m, n as int),
    ensures
        ({
            let up = step_degrees(n as int, k, m, 1);
            &&& in_scale(k, m, up)
            &&& n < up
            &&& forall|c: int| n < c < up ==> !#[trigger] in_scale(k, m, c)
        }),
        ({
            let down = step_degrees(n as int, k, m, -1);
            &&& in_scale(k, m, down)
            &&& down < n
            &&& forall|c: int| down < c < n ==> !#[trigger] in_scale(k, m, c)
        }),
{
    let up = step_degrees(n as int, k, m, 1);
    let down = step_degrees(n as int, k, m, -1);
    lemma_step_from_scale_note(n as int, k, m, 1);
    lemma_step_from_scale_note(n as int, k, m, -1);
    lemma_pos_monotone(k, m, n as int, up);
    lemma_pos_monotone(k, m, down, n as int);
    assert forall|c: int| n < c < up implies !#[trigger] in_scale(k, m, c) by {
        if in_scale(k, m, c) {
            lemma_pos_strict(k, m, n as int, c);
            lemma_pos_strict(k, m, c, up);
        }
    }
    assert forall|c: int| down < c < n implies !#[trigger] in_scale(k, m, c) by {
        if in_scale(k, m, c) {
            lemma_pos_strict(k, m, down, c);
            lemma_pos_strict(k, m, c, n as int);
        }
    }
}


/// Sharp-notation name of a pitch class `0..12` ("C", "C#", ...).
pub open spec fn chroma_chars(i: int) -> Seq<char> {
    if i == 0 {
        seq!['C']
    } else if i == 1 {
        seq!['C', '#']
    } else if i == 2 {
        seq!['D']
    } else if i == 3 {
        seq!['D', '#']
    } else if i == 4 {
        seq!['E']
    } else if i == 5 {
        seq!['F']
    } else if i == 6 {
        seq!['F', '#']
    } else if i == 7 {
        seq!['G']
    } else if i == 8 {
        seq!['G', '#']
    } else if i == 9 {
        seq!['A']
    } else if i == 10 {
        seq!['A', '#']
    } else {
        seq!['B']
    }
}

/// Name of a MIDI note: pitch class then octave (C4 = 60, C-1 = 0); "?"
/// outside the MIDI range 0–127.
pub open spec fn note_name_chars(n: int) -> Seq<char> {
    if 0 <= n <= 127 {
        chroma_chars(n % 12) + signed_decimal_chars(n / 12 - 1)
    } else {
        seq!['?']
    }
}

/// Returns the note name for a MIDI note number (0–127).
/// Uses sharp notation (e.g. "C#4", "A#5"). C4 = MIDI 60, C-1 = MIDI 0.
/// Returns "?" for out-of-range values.
pub fn note_name(midi_note: u8) -> (s: String)
    ensures
        s@ == note_name_chars(midi_note as int),
{
    let octave = midi_note / 12;
    let chroma = midi_note % 12;
    let mut s = String::new();
    if midi_note <= 127 {
        if chroma == 0 {
            push_char(&mut s, 'C');
        } else if chroma == 1 {
            push_char(&mut s, 'C');
            push_char(&mut s, '#');
        } else if chroma == 2 {
            push_char(&mut s, 'D');
        } else if chroma == 3 {
            push_char(&mut s, 'D');
            push_char(&mut s, '#');
        } else if chroma == 4 {
            push_char(&mut s, 'E');
        } else if chroma == 5 {
            push_char(&mut s, 'F');
        } else if chroma == 6 {
            push_char(&mut s, 'F');
            push_char(&mut s, '#');
        } else if chroma == 7 {
            push_char(&mut s, 'G');
        } else if chroma == 8 {
            push_char(&mut s, 'G');
            push_char(&mut s, '#');
        } else if chroma == 9 {
            push_char(&mut s, 'A');
        } else if chroma == 10 {
            push_char(&mut s, 'A');
            push_char(&mut s, '#');
        } else {
            push_char(&mut s, 'B');
        }
        assert(s@ == chroma_chars(chroma as int));
        push_signed_decimal(&mut s, octave as i64 - 1);
    } else {
        push_char(&mut s, '?');
    }
    s
}

/// Pitch class of a note letter, either case.
pub open spec fn letter_chroma(c: char) -> Option<int> {
    if c == 'C' || c == 'c' {
        Some(0)
    } else if c == 'D' || c == 'd' {
        Some(2)
    } else if c == 'E' || c == 'e' {
        Some(4)
    } else if c == 'F' || c == 'f' {
        Some(5)
    } else if c == 'G' || c == 'g' {
        Some(7)
    } else if c == 'A' || c == 'a' {
        Some(9)
    } else if c == 'B' || c == 'b' {
        Some(11)
    } else {
        None
    }
}

/// Semitone shift of the optional accidental at position 1.
pub open spec fn accidental_shift(s: Seq<char>) -> int {
    if s.len() > 1 && (s[1] == '#' || s[1] == 's') {
        1
    } else if s.len() > 1 && s[1] == 'b' {
        -1
    } else {
        0
    }
}

/// Number of characters taken by the letter and the optional accidental.
pub open spec fn octave_start(s: Seq<char>) -> int {
    if accidental_shift(s) != 0 {
        2
    } else {
        1
    }
}

/// Reading of a note name such as "C4", "F#3", "Bb5", "Cs3" or "A-1":
/// a letter (either case), an optional accidental (`#` or `s` sharp, `b`
/// flat) and an octave parsed as an `i8`; `None` when malformed or outside
/// MIDI 0..=127.
pub open spec fn parse_note_chars(s: Seq<char>) -> Option<int> {
    if s.len() == 0 {
        None
    } else {
        match letter_chroma(s[0]) {
            None => None,
            Some(ch) => {
                let pos = octave_start(s);
                if pos >= s.len() {
                    None
                } else {
                    match parse_int_chars(s.subrange(pos, s.len() as int), 10, -128, 127) {
                        None => None,
                        Some(o) => {
                            let midi = (o + 1) * 12 + ch + accidental_shift(s);
                            if 0 <= midi <= 127 {
                                Some(midi)
                            } else {
                                None
                            }
                        },
                    }
                }
            },
        }
    }
}

/// Parse a note name string (e.g. "C4", "F#3", "Bb5", "A-1") into a MIDI note number.
pub fn parse_note_name(s: &str) -> (r: Option<u8>)
    ensures
        r matches Some(v) ==> parse_note_chars(s@) == Some(v as int),
        r is None ==> parse_note_chars(s@) is None,
{
    let cs = chars_of(s);
    let n = cs.len();
    if n == 0 {
        return None;
    }
    let first = cs[0];
    let chroma: i32 = if first == 'C' || first == 'c' {
        0
    } else if first == 'D' || first == 'd' {
        2
    } else if first == 'E' || first == 'e' {
        4
    } else if first == 'F' || first == 'f' {
        5
    } else if first == 'G' || first == 'g' {
        7
    } else if first == 'A' || first == 'a' {
        9
    } else if first == 'B' || first == 'b' {
        11
    } else {
        return None;
    };
    let mut pos: usize = 1;
    let accidental: i32 = if pos < n {
        if cs[pos] == '#' || cs[pos] == 's' {
            pos = pos + 1;
            1
        } else if cs[pos] == 'b' {
            pos = pos + 1;
            -1
        } else {
            0
        }
    } else {
        0
    };
    assert(accidental as int == accidental_shift(s@));
    assert(pos as int == octave_start(s@));
    if pos >= n {
        return None;
    }
    let rest = cs.as_slice().split_at(pos).1;
    assert(rest@ == s@.subrange(pos as int, n as int));
    let octave: i32 = match parse_int(rest, 10, -128, 127) {
        Some(o) => o as i32,
        None => {
            return None;
        },
    };
    let midi = (octave + 1) * 12 + chroma + accidental;
    if 0 <= midi && midi <= 127 {
        Some(midi as u8)
    } else {
        None
    }
}

/// Reading back a rendered octave number.
proof fn lemma_parse_octave(o: int)
    requires
        0 <= o < 11,
    ensures
        parse_int_chars(signed_decimal_chars(o - 1), 10, -128, 127) == Some(o - 1),
{
    reveal_with_fuel(crate::text::decimal_chars, 2);
    reveal_with_fuel(digits_value, 3);
    let t = signed_decimal_chars(o - 1);
    if o == 0 {
        assert(t == seq!['-', '1']);
        assert(t.drop_first() == seq!['1']);
        assert(seq!['1'].drop_last() =~= Seq::<char>::empty());
    } else {
        assert(t == seq![crate::text::digit_char(o - 1)]);
        assert(t.drop_last() =~= Seq::<char>::empty());
    }
}

/// Reading back the name of a MIDI note gives the note: for every `n` in
/// 0..=127, `parse_note_name(note_name(n)) == Some(n)`.
pub proof fn law_note_name_roundtrip(n: u8)
    requires
        n <= 127,
    ensures
        parse_note_chars(note_name_chars(n as int)) == Some(n as int),
{
    let c = n as int % 12;
    let o = n as int / 12;
    assert(o < 11);
    let name = note_name_chars(n as int);
    let oc = signed_decimal_chars(o - 1);
    reveal_with_fuel(crate::text::decimal_chars, 2);
    assert(name == chroma_chars(c) + oc);
    assert(oc.len() >= 1);
    assert(oc[0] == '-' || ('0' <= oc[0] <= '9'));
    lemma_parse_octave(o);
    let ch = chroma_chars(c);
    if ch.len() == 2 {
        assert(name[1] == '#');
        assert(name.subrange(2, name.len() as int) =~= oc);
    } else {
        assert(name[1] == oc[0]);
        assert(name.subrange(1, name.len() as int) =~= oc);
    }
}


/// The snap of `n` to the scale of `k`/`m` (see `is_snap`).
pub open spec fn snap_spec(k: Key, m: Mode, n: int) -> int {
    choose|r: int| is_snap(k, m, n, r)
}

/// There is only one snap of a note.
pub proof fn lemma_snap_unique(k: Key, m: Mode, n: int, r1: int, r2: int)
    requires
        is_snap(k, m, n, r1),
        is_snap(k, m, n, r2),
    ensures
        r1 == r2,
{
    assert(in_scale(k, m, r1) && in_scale(k, m, r2));
}

/// Snapping twice is snapping once, and snapping a scale note within MIDI
/// range leaves it unchanged.
pub proof fn law_snap_idempotent(k: Key, m: Mode, n: int)
    requires
        exists|r: int| is_snap(k, m, n, r),
    ensures
        snap_spec(k, m, snap_spec(k, m, n)) == snap_spec(k, m, n),
        0 <= n <= 127 && in_scale(k, m, n) ==> snap_spec(k, m, n) == n,
{
    let r = snap_spec(k, m, n);
    assert(is_snap(k, m, r, r)) by {
        assert forall|c: int| 0 <= c <= 127 && #[trigger] in_scale(k, m, c) implies dist(r, r) < dist(r, c) || (
        dist(r, r) == dist(r, c) && r <= c) by {}
    }
    lemma_snap_unique(k, m, r, r, snap_spec(k, m, r));
    if 0 <= n <= 127 && in_scale(k, m, n) {
        assert(is_snap(k, m, n, n));
        lemma_snap_unique(k, m, n, n, r);
    }
}


/// The nearest scale note among `0..i` (the lowest one on a tie), if any.
pub open spec fn nearest_scale_note_below(k: Key, m: Mode, n: int, i: nat) -> Option<int>
    decreases i,
{
    if i == 0 {
        None
    } else {
        let prev = nearest_scale_note_below(k, m, n, (i - 1) as nat);
        let c = i - 1;
        if in_scale(k, m, c) {
            match prev {
                None => Some(c),
                Some(b) => if dist(n, c) < dist(n, b) {
                    Some(c)
                } else {
                    Some(b)
                },
            }
        } else {
            prev
        }
    }
}

proof fn lemma_nearest_scale_note_below(k: Key, m: Mode, n: int, i: nat)
    ensures
        forall|j: int| 0 <= j < i && #[trigger] in_scale(k, m, j) ==> nearest_scale_note_below(
            k,
            m,
            n,
            i,
        ) is Some,
        nearest_scale_note_below(k, m, n, i) matches Some(b) ==> {
            &&& 0 <= b < i
            &&& in_scale(k, m, b)
            &&& forall|c: int|
                0 <= c < i && #[trigger] in_scale(k, m, c) ==> dist(n, b) < dist(n, c) || (dist(n, b)
                    == dist(n, c) && b <= c)
        },
    decreases i,
{
    if i > 0 {
        lemma_nearest_scale_note_below(k, m, n, (i - 1) as nat);
    }
}

/// Consecutive scale notes are at most three semitones apart: from a scale
/// note, one degree up or down moves by one to three semitones.
proof fn lemma_step_gap(k: Key, m: Mode, c: int)
    requires
        in_scale(k, m, c),
    ensures
        c < step_degrees(c, k, m, 1) <= c + 3,
        c - 3 <= step_degrees(c, k, m, -1) < c,
{
    lemma_offsets_shape(m);
    lemma_decompose(k, m, c);
    let root = root_of(k);
    let o = (c - root) / 12;
    let d = degree_of(m, (c - root) % 12);
    lemma_candidate(k, m, o, d);
    assert(deg_off(m, 1) - deg_off(m, 0) <= 3);
    assert(deg_off(m, 2) - deg_off(m, 1) <= 3);
    assert(deg_off(m, 3) - deg_off(m, 2) <= 3);
    assert(deg_off(m, 4) - deg_off(m, 3) <= 3);
    assert(deg_off(m, 5) - deg_off(m, 4) <= 3);
    assert(deg_off(m, 6) - deg_off(m, 5) <= 3);
    assert(deg_off(m, 6) >= 9);
    let up = step_degrees(c, k, m, 1);
    let down = step_degrees(c, k, m, -1);
    lemma_step_from_scale_note(c, k, m, 1);
    lemma_step_from_scale_note(c, k, m, -1);
    if d < 6 {
        lemma_candidate(k, m, o, d + 1);
        lemma_pos_injective(k, m, up, root + 12 * o + deg_off(m, d + 1));
    } else {
        lemma_candidate(k, m, o + 1, 0);
        lemma_pos_injective(k, m, up, root + 12 * (o + 1) + deg_off(m, 0));
    }
    if d > 0 {
        lemma_candidate(k, m, o, d - 1);
        lemma_pos_injective(k, m, down, root + 12 * o + deg_off(m, d - 1));
    } else {
        lemma_candidate(k, m, o - 1, 6);
        lemma_pos_injective(k, m, down, root + 12 * (o - 1) + deg_off(m, 6));
    }
}

/// The scale note for `n` kept within `lo..=hi`: the snap of `n`, moved one
/// scale degree back inside when it falls below `lo` or above `hi`.
pub open spec fn snap_between(k: Key, m: Mode, n: int, lo: int, hi: int) -> int {
    let r = snap_spec(k, m, n);
    if r < lo {
        step_degrees(r, k, m, 1)
    } else if r > hi {
        step_degrees(r, k, m, -1)
    } else {
        r
    }
}

/// For `n` within a range of at least four semitones, the snap kept within
/// the range is a scale note within the range.
pub proof fn lemma_snap_between(k: Key, m: Mode, n: int, lo: int, hi: int)
    requires
        0 <= lo <= n <= hi <= 127,
        lo + 3 <= hi,
    ensures
        lo <= snap_between(k, m, n, lo, hi) <= hi,
        in_scale(k, m, snap_between(k, m, n, lo, hi)),
        snap_spec(k, m, n) < lo ==> snap_between(k, m, n, lo, hi) == step_degrees(
            snap_spec(k, m, n),
            k,
            m,
            1,
        ),
        snap_spec(k, m, n) > hi ==> snap_between(k, m, n, lo, hi) == step_degrees(
            snap_spec(k, m, n),
            k,
            m,
            -1,
        ),
{
    lemma_snap_exists(k, m, n);
    let r = snap_spec(k, m, n);
    if r < lo {
        let up = step_degrees(r, k, m, 1);
        lemma_step_gap(k, m, r);
        lemma_step_from_scale_note(r, k, m, 1);
        if up < lo {
            assert(in_scale(k, m, up));
            assert(dist(n, up) < dist(n, r));
        }
    } else if r > hi {
        let down = step_degrees(r, k, m, -1);
        lemma_step_gap(k, m, r);
        lemma_step_from_scale_note(r, k, m, -1);
        if down > hi {
            assert(in_scale(k, m, down));
            assert(dist(n, down) < dist(n, r));
        }
    }
}

/// Every note in MIDI range has a snap.
pub proof fn lemma_snap_exists(k: Key, m: Mode, n: int)
    ensures
        is_snap(k, m, n, snap_spec(k, m, n)),
{
    lemma_nearest_scale_note_below(k, m, n, 128);
    let root = root_of(k);
    assert(degree_offsets(m)[0] == 0);
    assert((root - root_of(k)) % 12 == 0);
    assert(in_scale(k, m, root));
    let b = nearest_scale_note_below(k, m, n, 128)->0;
    assert(is_snap(k, m, n, b));
}

} // verus!
