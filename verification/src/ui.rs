//! Terminal UI decisions: the CLI command language of the F4 panel, the log
//! it writes, and what each key does in each focus panel.
//!
//! Every handler returns the actions the caller carries out (commands for
//! the sequencer, control messages for the MIDI output, file operations)
//! and mutates only the UI-local state. Drawing, the terminal, channels and
//! files belong to the caller.

use std::collections::VecDeque;

use vstd::prelude::*;

use crate::input::{cli_key_char, cli_key_to_char, panel_key_command, panel_key_to_command};
use crate::input::{FocusPanel, InputCommand, KeyCodeSimple};
use crate::midi_out::{join_on, port_listing_chars, MidiCtrlMsg, PORT_NAME_SEPARATOR};
use crate::pattern::{is_snapshot_of, pattern_from_state, PatternData, PatternRef, Song};
use crate::state::{SequencerState, StateModel};
use crate::music_theory::{note_name, note_name_chars, parse_note_chars, parse_note_name};
use crate::text::{
    ends_with_chars, has_suffix, chars_are, chars_from, chars_of, decimal_chars, has_prefix, hex_chars_padded, parse_unsigned,
    parse_unsigned_spec, push_chars, push_decimal, push_hex_padded, push_str, split_chars_on,
    split_on, split_on_from, split_words, starts_with_chars, string_from_chars, strip_all_prefix,
    strip_all_prefix_chars, trim, trim_chars, views, words, hex_chars, is_upper_hex_digit,
    lemma_hex_chars_are_digits, lemma_hex_reads_back, trim_end, trim_start, IntErrorKind,
};
use crate::ui_render::{rand_cell_value, LogEntry, LogLine, LogTag};

verus! {

// ── HELP_ENTRIES ──────────────────────────────────────────────────────────────

/// All CLI commands with brief descriptions shown by `help`.
pub const HELP_ENTRIES: [(&'static str, &'static str); 21] = [
    ("port <name>", "connect to MIDI output port by name"),
    ("port list", "list available MIDI output ports"),
    ("channel <1-16>", "set MIDI output channel"),
    ("seed <hex>", "set random seed (e.g. 0xDEAD)"),
    ("rand all", "randomise notes and velocities"),
    ("rand velo", "randomise velocities only"),
    ("rand notes", "randomise note sequence"),
    ("note set <1-16> <note> [vel]", "set a step's note and velocity"),
    ("clear", "clear the CLI log"),
    ("ok", "alias of clear"),
    ("help", "show this help"),
    ("pattern save <name>", "save current pattern to <name>.pat.toml"),
    ("pattern load <name>", "load pattern from <name>.pat.toml into current state"),
    ("pattern list", "list saved pattern files"),
    ("song new <name>", "create a new empty song"),
    ("song load <name>", "load song from <name>.song.toml"),
    ("song save <name>", "save current song to <name>.song.toml"),
    ("song list", "list saved song files"),
    ("song add <filename>", "append a pattern slot to the current song"),
    ("song remove <n>", "remove slot at 1-indexed position n"),
    ("song set-repeats <n> <r>", "set repeat count for slot n to r"),
];

// ── UiState ───────────────────────────────────────────────────────────────────

/// Whether the sequencer plays the current pattern or the song.
#[derive(Clone, Copy, Debug, PartialEq, Eq, Structural)]
pub enum PlayMode {
    /// Loop the current pattern.
    Pattern,
    /// Play the song's pattern slots in order.
    Song,
}

/// Maximum number of entries the CLI log keeps.
pub const CLI_LOG_CAPACITY: usize = 200;

/// Local UI state — lives entirely in the UI thread, never shared.
pub struct UiState {
    /// Which panel currently holds keyboard focus.
    pub focus: FocusPanel,
    /// Currently selected step index (0–15) for F1 panel navigation.
    pub selected_step: usize,
    /// Currently selected param index (0–7) for the F2 · SEQ PARAMS panel.
    pub seq_param_idx: u8,
    /// Currently selected param index (0–7) for the F3 · RANDOM PARAMS panel.
    pub rand_param_idx: u8,
    /// Current contents of the F4 CLI input line (max 256 bytes).
    pub cli_line: String,
    /// Ring buffer of CLI log entries (max `CLI_LOG_CAPACITY`).
    pub cli_log: VecDeque<LogEntry>,
    /// Name of the connected MIDI output port (echoed from `port` CLI command).
    pub midi_device_name: String,
    /// MIDI channel display value (1-indexed, echoed from `channel` CLI command).
    pub midi_channel_display: u8,
    /// Current play mode: Pattern or Song.
    pub play_mode: PlayMode,
    /// Current song being edited/played, if any.
    pub song: Option<Song>,
    /// Cursor position within the song slot list.
    pub song_cursor: usize,
}

/// A song slot as plain values.
pub struct SlotModel {
    pub filename: Seq<char>,
    pub repeats: u8,
}

/// A song as plain values.
pub struct SongModel {
    pub name: Seq<char>,
    pub slots: Seq<SlotModel>,
}

/// The slot as plain values.
pub open spec fn slot_view(p: PatternRef) -> SlotModel {
    SlotModel { filename: p.filename@, repeats: p.repeats }
}

/// The slots as plain values.
pub open spec fn slots_view(slots: Seq<PatternRef>) -> Seq<SlotModel> {
    slots.map_values(|p: PatternRef| slot_view(p))
}

/// The song as plain values.
pub open spec fn song_view(s: Song) -> SongModel {
    SongModel { name: s.name@, slots: slots_view(s.slots@) }
}

/// The optional song as plain values.
pub open spec fn opt_song_view(s: Option<Song>) -> Option<SongModel> {
    match s {
        Some(song) => Some(song_view(song)),
        None => None,
    }
}

/// The log entries as plain values.
pub open spec fn log_lines(log: Seq<LogEntry>) -> Seq<LogLine> {
    log.map_values(|e: LogEntry| e@)
}

/// The UI state as plain values.
pub struct UiModel {
    pub focus: FocusPanel,
    pub selected_step: usize,
    pub seq_param_idx: u8,
    pub rand_param_idx: u8,
    pub cli_line: Seq<char>,
    pub cli_log: Seq<LogLine>,
    pub midi_device_name: Seq<char>,
    pub midi_channel_display: u8,
    pub play_mode: PlayMode,
    pub song: Option<SongModel>,
    pub song_cursor: usize,
}

impl View for UiState {
    type V = UiModel;

    open spec fn view(&self) -> UiModel {
        UiModel {
            focus: self.focus,
            selected_step: self.selected_step,
            seq_param_idx: self.seq_param_idx,
            rand_param_idx: self.rand_param_idx,
            cli_line: self.cli_line@,
            cli_log: log_lines(self.cli_log@),
            midi_device_name: self.midi_device_name@,
            midi_channel_display: self.midi_channel_display,
            play_mode: self.play_mode,
            song: opt_song_view(self.song),
            song_cursor: self.song_cursor,
        }
    }
}

impl UiState {
    /// Create a new `UiState` with default values.
    pub fn new() -> (u: Self)
        ensures
            u@ == (UiModel {
                focus: FocusPanel::Sequencer,
                selected_step: 0,
                seq_param_idx: 0,
                rand_param_idx: 0,
                cli_line: Seq::empty(),
                cli_log: Seq::empty(),
                midi_device_name: Seq::empty(),
                midi_channel_display: 1,
                play_mode: PlayMode::Pattern,
                song: None,
                song_cursor: 0,
            }),
    {
        let u = UiState {
            focus: FocusPanel::Sequencer,
            selected_step: 0,
            seq_param_idx: 0,
            rand_param_idx: 0,
            cli_line: String::new(),
            cli_log: VecDeque::with_capacity(CLI_LOG_CAPACITY),
            midi_device_name: String::new(),
            midi_channel_display: 1,
            play_mode: PlayMode::Pattern,
            song: None,
            song_cursor: 0,
        };
        assert(log_lines(u.cli_log@) =~= Seq::<LogLine>::empty());
        u
    }
}

// ── CLI log ───────────────────────────────────────────────────────────────────

/// The log after appending `line`: at capacity the oldest entry goes first.
pub open spec fn pushed(lines: Seq<LogLine>, line: LogLine) -> Seq<LogLine> {
    (if lines.len() >= CLI_LOG_CAPACITY {
        lines.drop_first()
    } else {
        lines
    }).push(line)
}

/// Push a log entry to `log`, dropping the oldest entry if at capacity.
pub fn push_log(log: &mut VecDeque<LogEntry>, timestamp_ms: u64, tag: LogTag, text: String)
    ensures
        log_lines(final(log)@) == pushed(
            log_lines(old(log)@),
            LogLine { timestamp_ms, tag, text: text@ },
        ),
{
    let ghost before = log_lines(log@);
    if log.len() >= CLI_LOG_CAPACITY {
        log.pop_front();
        assert(log_lines(log@) =~= before.drop_first());
    }
    let ghost mid = log_lines(log@);
    let e = LogEntry { timestamp_ms, tag, text };
    log.push_back(e);
    assert(log_lines(log@) =~= mid.push(e@));
}

/// The UI with `text` logged under `tag` at `ts`.
pub open spec fn logged(u: UiModel, ts: u64, tag: LogTag, text: Seq<char>) -> UiModel {
    UiModel { cli_log: pushed(u.cli_log, LogLine { timestamp_ms: ts, tag, text }), ..u }
}

/// Log `text` under `tag` at `ts` in the UI's CLI log.
fn log_to(ui: &mut UiState, ts: u64, tag: LogTag, text: String)
    ensures
        final(ui)@ == logged(old(ui)@, ts, tag, text@),
        final(ui).midi_device_name == old(ui).midi_device_name,
{
    push_log(&mut ui.cli_log, ts, tag, text);
}

// ── Actions ───────────────────────────────────────────────────────────────────

/// A file operation the caller performs for a CLI command, reporting the
/// outcome back with the matching `finish_*` function.
#[derive(Clone, Debug)]
pub enum FileRequest {
    /// Write `data` as `filename` in the pattern directory.
    SavePattern { filename: String, data: PatternData },
    /// Read `filename` from the pattern directory.
    LoadPattern { filename: String },
    /// List the pattern directory.
    ListPatterns,
    /// Write `song` as `filename` in the song directory.
    SaveSong { filename: String, song: Song },
    /// Read `filename` from the song directory.
    LoadSong { filename: String },
    /// List the song directory.
    ListSongs,
}

/// What the caller does after a UI event: send the commands to the
/// sequencer and the control messages to the MIDI output, in order; perform
/// the file operation; publish the song when it changed.
pub struct UiActions {
    pub cmds: Vec<InputCommand>,
    pub ctrl: Vec<MidiCtrlMsg>,
    pub file: Option<FileRequest>,
    pub song_changed: bool,
}

/// Actions that send one list of commands and nothing else.
pub open spec fn only_cmds(a: UiActions, cmds: Seq<InputCommand>) -> bool {
    &&& a.cmds@ == cmds
    &&& a.ctrl@.len() == 0
    &&& a.file is None
    &&& !a.song_changed
}

/// Actions that do nothing.
pub open spec fn no_actions(a: UiActions) -> bool {
    only_cmds(a, Seq::empty())
}

fn actions(cmds: Vec<InputCommand>) -> (a: UiActions)
    ensures
        only_cmds(a, cmds@),
{
    UiActions { cmds, ctrl: Vec::new(), file: None, song_changed: false }
}

fn nothing() -> (a: UiActions)
    ensures
        no_actions(a),
{
    actions(Vec::new())
}

fn one_cmd(c: InputCommand) -> (a: UiActions)
    ensures
        only_cmds(a, seq![c]),
{
    let mut v: Vec<InputCommand> = Vec::new();
    v.push(c);
    actions(v)
}

// ── Global keys ───────────────────────────────────────────────────────────────

/// The command a key has in every focus panel: +/- move the tempo, P/p
/// plays or stops, F1–F4 move the focus.
pub open spec fn global_key_command(key: KeyCodeSimple) -> Option<InputCommand> {
    match key {
        KeyCodeSimple::Plus => Some(InputCommand::BpmDelta(1i8)),
        KeyCodeSimple::Minus => Some(InputCommand::BpmDelta(-1i8)),
        KeyCodeSimple::Char(c) => if c == 'p' || c == 'P' {
            Some(InputCommand::PlayStop)
        } else {
            None
        },
        KeyCodeSimple::F1 => Some(InputCommand::SetFocus(FocusPanel::Sequencer)),
        KeyCodeSimple::F2 => Some(InputCommand::SetFocus(FocusPanel::SeqParams)),
        KeyCodeSimple::F3 => Some(InputCommand::SetFocus(FocusPanel::RandParams)),
        KeyCodeSimple::F4 => Some(InputCommand::SetFocus(FocusPanel::Cli)),
        _ => None,
    }
}

/// Map a key to a global `InputCommand` that is active in any focus panel.
///
/// Returns `Some(cmd)` for: +/- (BpmDelta), P/p (PlayStop), F1–F4 (SetFocus).
/// Returns `None` for all other keys.
pub fn global_key_to_command(key: KeyCodeSimple) -> (r: Option<InputCommand>)
    ensures
        r == global_key_command(key),
{
    match key {
        KeyCodeSimple::Plus => Some(InputCommand::BpmDelta(1)),
        KeyCodeSimple::Minus => Some(InputCommand::BpmDelta(-1)),
        KeyCodeSimple::Char(c) => if c == 'p' || c == 'P' {
            Some(InputCommand::PlayStop)
        } else {
            None
        },
        KeyCodeSimple::F1 => Some(InputCommand::SetFocus(FocusPanel::Sequencer)),
        KeyCodeSimple::F2 => Some(InputCommand::SetFocus(FocusPanel::SeqParams)),
        KeyCodeSimple::F3 => Some(InputCommand::SetFocus(FocusPanel::RandParams)),
        KeyCodeSimple::F4 => Some(InputCommand::SetFocus(FocusPanel::Cli)),
        _ => None,
    }
}

// ── MIDI log sentinel parsing ─────────────────────────────────────────────────

/// What a message from the MIDI output thread logs when it is a port
/// listing: `(true, "[ports]a\x1fb")` one info line per name (a notice when
/// there are none), `(false, "[ports-err] ...")` the whole message as an
/// error; `None` for anything else.
pub open spec fn ports_sentinel_spec(ok: bool, msg: Seq<char>) -> Option<Seq<(LogTag, Seq<char>)>> {
    if ok {
        if has_prefix(msg, "[ports]"@) {
            let payload = msg.subrange(7, msg.len() as int);
            if payload.len() == 0 {
                Some(seq![(LogTag::Info, "no MIDI ports available"@)])
            } else {
                Some(split_on(payload, '\u{1f}').map_values(|n: Seq<char>| (LogTag::Info, n)))
            }
        } else {
            None
        }
    } else if has_prefix(msg, "[ports-err]"@) {
        Some(seq![(LogTag::Error, msg)])
    } else {
        None
    }
}

/// The entries as plain values.
pub open spec fn tagged_views(v: Seq<(LogTag, String)>) -> Seq<(LogTag, Seq<char>)> {
    v.map_values(|e: (LogTag, String)| (e.0, e.1@))
}

/// Parse a `[ports]` or `[ports-err]` sentinel from the MIDI output thread
/// (see `ports_sentinel_spec`).
pub fn parse_ports_sentinel(ok: bool, msg: &str) -> (r: Option<Vec<(LogTag, String)>>)
    ensures
        match ports_sentinel_spec(ok, msg@) {
            Some(entries) => (r matches Some(v) && tagged_views(v@) == entries),
            None => r is None,
        },
{
    let cs = chars_of(msg);
    proof {
        reveal_strlit("[ports]");
        reveal_strlit("[ports-err]");
    }
    if ok {
        let prefix = chars_of("[ports]");
        if !starts_with_chars(cs.as_slice(), prefix.as_slice()) {
            return None;
        }
        let payload = crate::text::chars_from(cs.as_slice(), 7);
        if payload.len() == 0 {
            let mut v: Vec<(LogTag, String)> = Vec::new();
            v.push((LogTag::Info, "no MIDI ports available".to_owned()));
            assert(tagged_views(v@) =~= seq![(LogTag::Info, "no MIDI ports available"@)]);
            Some(v)
        } else {
            let pieces = split_chars_on(payload.as_slice(), '\u{1f}');
            let mut v: Vec<(LogTag, String)> = Vec::new();
            let mut i: usize = 0;
            while i < pieces.len()
                invariant
                    0 <= i <= pieces@.len(),
                    v@.len() == i,
                    forall|k: int|
                        0 <= k < i ==> (#[trigger] v@[k]).0 == LogTag::Info && v@[k].1@
                            == pieces@[k]@,
                decreases pieces.len() - i,
            {
                let name = crate::text::string_from_chars(pieces[i].as_slice());
                v.push((LogTag::Info, name));
                i = i + 1;
            }
            assert(tagged_views(v@) =~= views(pieces@).map_values(|n: Seq<char>| (LogTag::Info, n)));
            Some(v)
        }
    } else {
        let prefix = chars_of("[ports-err]");
        if starts_with_chars(cs.as_slice(), prefix.as_slice()) {
            let mut v: Vec<(LogTag, String)> = Vec::new();
            v.push((LogTag::Error, msg.to_owned()));
            assert(tagged_views(v@) =~= seq![(LogTag::Error, msg@)]);
            Some(v)
        } else {
            None
        }
    }
}

// ── Words ─────────────────────────────────────────────────────────────────────

/// Word `i` of `w`, if there is one.
pub open spec fn word_at(w: Seq<Seq<char>>, i: int) -> Option<Seq<char>> {
    if 0 <= i < w.len() {
        Some(w[i])
    } else {
        None
    }
}

/// The word, or nothing.
pub open spec fn or_empty(o: Option<Seq<char>>) -> Seq<char> {
    match o {
        Some(x) => x,
        None => Seq::empty(),
    }
}

/// Decimal parse of a word as a `usize` (as `str::parse::<usize>` does it).
pub open spec fn parse_usize(t: Seq<char>) -> Result<int, crate::text::IntErrorKind> {
    parse_unsigned_spec(t, 10, usize::MAX as int)
}

/// Decimal parse of a word as a `u8` (as `str::parse::<u8>` does it).
pub open spec fn parse_u8(t: Seq<char>) -> Result<int, crate::text::IntErrorKind> {
    parse_unsigned_spec(t, 10, 255)
}

fn word_is(w: &[Vec<char>], i: usize, lit: &str) -> (r: bool)
    ensures
        r == (word_at(views(w@), i as int) == Some(lit@)),
{
    if i < w.len() {
        chars_are(w[i].as_slice(), lit)
    } else {
        false
    }
}

fn text_of(lit: &str) -> (r: String)
    ensures
        r@ == lit@,
{
    lit.to_owned()
}

fn text_with(lit: &str, w: &[char]) -> (r: String)
    ensures
        r@ == lit@ + w@,
{
    let mut m = lit.to_owned();
    push_chars(&mut m, w);
    m
}

fn text_with_quoted(lit: &str, w: &[char]) -> (r: String)
    ensures
        r@ == lit@ + w@ + "'"@,
{
    let mut m = lit.to_owned();
    push_chars(&mut m, w);
    push_str(&mut m, "'");
    m
}

fn text_with_number(lit: &str, n: u64, tail: &str) -> (r: String)
    ensures
        r@ == lit@ + decimal_chars(n as nat) + tail@,
{
    let mut m = lit.to_owned();
    push_decimal(&mut m, n);
    push_str(&mut m, tail);
    m
}

// ── Pattern commands ──────────────────────────────────────────────────────────

/// The log effect of `pattern save|load|list` (the file operations
/// themselves are requested; see `pattern_cmd_file`).
pub open spec fn pattern_cmd_log(w: Seq<Seq<char>>, u: UiModel, ts: u64) -> UiModel {
    let sub = word_at(w, 1);
    if sub == Some("save"@) {
        if w.len() > 2 {
            u
        } else {
            logged(u, ts, LogTag::Error, "pattern save: missing name"@)
        }
    } else if sub == Some("load"@) {
        if w.len() > 2 {
            u
        } else {
            logged(u, ts, LogTag::Error, "pattern load: missing name"@)
        }
    } else if sub == Some("list"@) {
        u
    } else {
        logged(u, ts, LogTag::Error, "unknown pattern command: "@ + or_empty(sub))
    }
}

/// The file operation of `pattern save|load|list`: saving `<name>.pat.toml`
/// with the snapshot of the state, loading it, or listing the directory.
pub open spec fn pattern_cmd_file(w: Seq<Seq<char>>, s: StateModel, f: Option<FileRequest>) -> bool {
    let sub = word_at(w, 1);
    if sub == Some("save"@) {
        if w.len() > 2 {
            f matches Some(FileRequest::SavePattern { filename, data }) && filename@ == w[2]
                + ".pat.toml"@ && is_snapshot_of(data, s, w[2])
        } else {
            f is None
        }
    } else if sub == Some("load"@) {
        if w.len() > 2 {
            f matches Some(FileRequest::LoadPattern { filename }) && filename@ == w[2]
                + ".pat.toml"@
        } else {
            f is None
        }
    } else if sub == Some("list"@) {
        f matches Some(FileRequest::ListPatterns)
    } else {
        f is None
    }
}

/// Handle `pattern save|load|list` CLI sub-commands (`parts[0]` is `pattern`).
pub fn handle_cli_pattern_cmd(parts: &[Vec<char>], ui: &mut UiState, state: &SequencerState, ts: u64) -> (a: UiActions)
    ensures
        final(ui)@ == pattern_cmd_log(views(parts@), old(ui)@, ts),
        pattern_cmd_file(views(parts@), state@, a.file),
        a.cmds@.len() == 0,
        a.ctrl@.len() == 0,
        !a.song_changed,
{
    let ghost w = views(parts@);
    let mut a = nothing();
    if word_is(parts, 1, "save") {
        if parts.len() > 2 {
            assert(w[2] == parts@[2]@);
            let name = string_from_chars(parts[2].as_slice());
            let data = pattern_from_state(state, name.as_str());
            let mut filename = string_from_chars(parts[2].as_slice());
            push_str(&mut filename, ".pat.toml");
            a.file = Some(FileRequest::SavePattern { filename, data });
        } else {
            log_to(ui, ts, LogTag::Error, text_of("pattern save: missing name"));
        }
    } else if word_is(parts, 1, "load") {
        if parts.len() > 2 {
            assert(w[2] == parts@[2]@);
            let mut filename = string_from_chars(parts[2].as_slice());
            push_str(&mut filename, ".pat.toml");
            a.file = Some(FileRequest::LoadPattern { filename });
        } else {
            log_to(ui, ts, LogTag::Error, text_of("pattern load: missing name"));
        }
    } else if word_is(parts, 1, "list") {
        a.file = Some(FileRequest::ListPatterns);
    } else {
        let sub: Vec<char> = if parts.len() > 1 {
            parts[1].clone()
        } else {
            Vec::new()
        };
        assert(sub@ == or_empty(word_at(w, 1)));
        log_to(ui, ts, LogTag::Error, text_with("unknown pattern command: ", sub.as_slice()));
    }
    a
}

// ── Song commands ─────────────────────────────────────────────────────────────

/// The last valid cursor position for `n` slots.
pub open spec fn max_cursor(n: int) -> int {
    if n > 0 {
        n - 1
    } else {
        0
    }
}

/// `song remove <n>`: remove 1-indexed slot `n`, keeping the cursor on a
/// slot.
pub open spec fn song_remove_spec(w: Seq<Seq<char>>, u: UiModel, ts: u64) -> UiModel {
    match word_at(w, 2) {
        None => logged(u, ts, LogTag::Error, "song remove: missing index"@),
        Some(ns) => match parse_usize(ns) {
            Err(_) => logged(u, ts, LogTag::Error, "song remove: invalid index '"@ + ns + "'"@),
            Ok(n) => if n < 1 {
                logged(u, ts, LogTag::Error, "song remove: index must be >= 1"@)
            } else {
                match u.song {
                    None => logged(u, ts, LogTag::Error, "song remove: no song loaded"@),
                    Some(sg) => if n <= sg.slots.len() {
                        let slots = sg.slots.remove(n - 1);
                        logged(
                            UiModel {
                                song: Some(SongModel { slots, ..sg }),
                                song_cursor: if u.song_cursor > max_cursor(slots.len() as int) {
                                    max_cursor(slots.len() as int) as usize
                                } else {
                                    u.song_cursor
                                },
                                ..u
                            },
                            ts,
                            LogTag::Cmd,
                            "song remove: slot "@ + decimal_chars(n as nat),
                        )
                    } else {
                        logged(
                            u,
                            ts,
                            LogTag::Error,
                            "song remove: index "@ + decimal_chars(n as nat) + " out of range"@,
                        )
                    },
                }
            },
        },
    }
}

/// `song set-repeats <n> <r>`: set the repeat count of 1-indexed slot `n`.
pub open spec fn song_set_repeats_spec(w: Seq<Seq<char>>, u: UiModel, ts: u64) -> UiModel {
    if w.len() > 3 {
        let ns = w[2];
        let rs = w[3];
        match parse_usize(ns) {
            Err(_) => logged(u, ts, LogTag::Error, "song set-repeats: invalid index '"@ + ns + "'"@),
            Ok(n) => match parse_u8(rs) {
                Err(_) => logged(
                    u,
                    ts,
                    LogTag::Error,
                    "song set-repeats: invalid repeat count '"@ + rs + "'"@,
                ),
                Ok(r) => if n < 1 {
                    logged(u, ts, LogTag::Error, "song set-repeats: index must be >= 1"@)
                } else {
                    match u.song {
                        None => logged(u, ts, LogTag::Error, "song set-repeats: no song loaded"@),
                        Some(sg) => if n <= sg.slots.len() {
                            logged(
                                UiModel {
                                    song: Some(
                                        SongModel {
                                            slots: sg.slots.update(
                                                n - 1,
                                                SlotModel { repeats: r as u8, ..sg.slots[n - 1] },
                                            ),
                                            ..sg
                                        },
                                    ),
                                    ..u
                                },
                                ts,
                                LogTag::Cmd,
                                "song set-repeats: slot "@ + decimal_chars(n as nat) + " \u{2192} "@
                                    + decimal_chars(r as nat),
                            )
                        } else {
                            logged(
                                u,
                                ts,
                                LogTag::Error,
                                "song set-repeats: index "@ + decimal_chars(n as nat)
                                    + " out of range"@,
                            )
                        },
                    }
                },
            },
        }
    } else {
        logged(u, ts, LogTag::Error, "song set-repeats: expected <n> <r>"@)
    }
}

/// The UI effect of `song new|load|save|list|add|remove|set-repeats`.
pub open spec fn song_cmd_spec(w: Seq<Seq<char>>, u: UiModel, ts: u64) -> UiModel {
    let sub = word_at(w, 1);
    if sub == Some("new"@) {
        match word_at(w, 2) {
            Some(name) => logged(
                UiModel { song: Some(SongModel { name, slots: Seq::empty() }), ..u },
                ts,
                LogTag::Cmd,
                "song new: "@ + name,
            ),
            None => logged(u, ts, LogTag::Error, "song new: missing name"@),
        }
    } else if sub == Some("load"@) {
        match word_at(w, 2) {
            Some(_) => u,
            None => logged(u, ts, LogTag::Error, "song load: missing name"@),
        }
    } else if sub == Some("save"@) {
        match word_at(w, 2) {
            Some(_) => if u.song is Some {
                u
            } else {
                logged(u, ts, LogTag::Error, "song save: no song loaded"@)
            },
            None => logged(u, ts, LogTag::Error, "song save: missing name"@),
        }
    } else if sub == Some("list"@) {
        u
    } else if sub == Some("add"@) {
        match word_at(w, 2) {
            Some(f) => match u.song {
                Some(sg) => logged(
                    UiModel {
                        song: Some(
                            SongModel {
                                slots: sg.slots.push(
                                    SlotModel { filename: f + ".pat.toml"@, repeats: 1 },
                                ),
                                ..sg
                            },
                        ),
                        ..u
                    },
                    ts,
                    LogTag::Cmd,
                    "song add: "@ + f + ".pat.toml"@,
                ),
                None => logged(u, ts, LogTag::Error, "song add: no song loaded"@),
            },
            None => logged(u, ts, LogTag::Error, "song add: missing filename"@),
        }
    } else if sub == Some("remove"@) {
        song_remove_spec(w, u, ts)
    } else if sub == Some("set-repeats"@) {
        song_set_repeats_spec(w, u, ts)
    } else {
        logged(u, ts, LogTag::Error, "unknown song command: "@ + or_empty(sub))
    }
}

/// Whether a song command changes the song: creating one, or adding,
/// removing or re-counting a slot successfully.
pub open spec fn song_cmd_changes(w: Seq<Seq<char>>, u: UiModel) -> bool {
    let sub = word_at(w, 1);
    if sub == Some("new"@) {
        w.len() > 2
    } else if sub == Some("add"@) {
        w.len() > 2 && u.song is Some
    } else if sub == Some("remove"@) {
        &&& w.len() > 2
        &&& parse_usize(w[2]) matches Ok(n)
        &&& n >= 1
        &&& u.song matches Some(sg)
        &&& n <= sg.slots.len()
    } else if sub == Some("set-repeats"@) {
        &&& w.len() > 3
        &&& parse_usize(w[2]) matches Ok(n)
        &&& parse_u8(w[3]) is Ok
        &&& n >= 1
        &&& u.song matches Some(sg)
        &&& n <= sg.slots.len()
    } else {
        false
    }
}

/// The file operation of a song command: loading or saving
/// `<name>.song.toml` (saving the current song), or listing the directory.
pub open spec fn song_cmd_file(w: Seq<Seq<char>>, u: UiModel, f: Option<FileRequest>) -> bool {
    let sub = word_at(w, 1);
    if sub == Some("load"@) {
        if w.len() > 2 {
            f matches Some(FileRequest::LoadSong { filename }) && filename@ == w[2] + ".song.toml"@
        } else {
            f is None
        }
    } else if sub == Some("save"@) {
        if w.len() > 2 && u.song is Some {
            f matches Some(FileRequest::SaveSong { filename, song }) && filename@ == w[2]
                + ".song.toml"@ && u.song == Some(song_view(song))
        } else {
            f is None
        }
    } else if sub == Some("list"@) {
        f matches Some(FileRequest::ListSongs)
    } else {
        f is None
    }
}

/// A copy of a song.
pub fn clone_song(s: &Song) -> (r: Song)
    ensures
        song_view(r) == song_view(*s),
{
    let mut slots: Vec<PatternRef> = Vec::new();
    let mut i: usize = 0;
    while i < s.slots.len()
        invariant
            0 <= i <= s.slots@.len(),
            slots@.len() == i,
            forall|k: int| 0 <= k < i ==> slot_view(#[trigger] slots@[k]) == slot_view(s.slots@[k]),
        decreases s.slots.len() - i,
    {
        let p = &s.slots[i];
        slots.push(PatternRef { filename: p.filename.clone(), repeats: p.repeats });
        i = i + 1;
    }
    let r = Song { name: s.name.clone(), slots };
    assert(slots_view(r.slots@) =~= slots_view(s.slots@));
    r
}

/// The song sub-commands are different words.
proof fn lemma_song_words_distinct()
    ensures
        "new"@ != "load"@,
        "new"@ != "save"@,
        "new"@ != "list"@,
        "new"@ != "add"@,
        "new"@ != "remove"@,
        "new"@ != "set-repeats"@,
        "load"@ != "save"@,
        "load"@ != "list"@,
        "load"@ != "add"@,
        "load"@ != "remove"@,
        "load"@ != "set-repeats"@,
        "save"@ != "list"@,
        "save"@ != "add"@,
        "save"@ != "remove"@,
        "save"@ != "set-repeats"@,
        "list"@ != "add"@,
        "list"@ != "remove"@,
        "list"@ != "set-repeats"@,
        "add"@ != "remove"@,
        "add"@ != "set-repeats"@,
        "remove"@ != "set-repeats"@,
{
    reveal_strlit("new");
    reveal_strlit("load");
    reveal_strlit("save");
    reveal_strlit("list");
    reveal_strlit("add");
    reveal_strlit("remove");
    reveal_strlit("set-repeats");
    assert("new"@.len() != "load"@.len());
    assert("new"@.len() != "save"@.len());
    assert("new"@.len() != "list"@.len());
    assert("new"@[0] != "add"@[0]);
    assert("new"@.len() != "remove"@.len());
    assert("new"@.len() != "set-repeats"@.len());
    assert("load"@[0] != "save"@[0]);
    assert("load"@[1] != "list"@[1]);
    assert("load"@.len() != "add"@.len());
    assert("load"@.len() != "remove"@.len());
    assert("load"@.len() != "set-repeats"@.len());
    assert("save"@[0] != "list"@[0]);
    assert("save"@.len() != "add"@.len());
    assert("save"@.len() != "remove"@.len());
    assert("save"@.len() != "set-repeats"@.len());
    assert("list"@.len() != "add"@.len());
    assert("list"@.len() != "remove"@.len());
    assert("list"@.len() != "set-repeats"@.len());
    assert("add"@.len() != "remove"@.len());
    assert("add"@.len() != "set-repeats"@.len());
    assert("remove"@.len() != "set-repeats"@.len());
}


fn song_new(parts: &[Vec<char>], ui: &mut UiState, ts: u64) -> (a: UiActions)
    requires
        word_at(views(parts@), 1) == Some("new"@),
    ensures
        final(ui)@ == song_cmd_spec(views(parts@), old(ui)@, ts),
        a.song_changed == song_cmd_changes(views(parts@), old(ui)@),
        song_cmd_file(views(parts@), old(ui)@, a.file),
        a.cmds@.len() == 0,
        a.ctrl@.len() == 0,
{
    proof {
        lemma_song_words_distinct();
    }
    let ghost w = views(parts@);
    let mut a = nothing();
    if parts.len() > 2 {
        assert(w[2] == parts@[2]@);
        let name = string_from_chars(parts[2].as_slice());
        let song = Song { name, slots: Vec::new() };
        assert(song_view(song) == SongModel { name: w[2], slots: Seq::empty() }) by {
            assert(slots_view(song.slots@) =~= Seq::<SlotModel>::empty());
        }
        ui.song = Some(song);
        a.song_changed = true;
        log_to(ui, ts, LogTag::Cmd, text_with("song new: ", parts[2].as_slice()));
    } else {
        log_to(ui, ts, LogTag::Error, text_of("song new: missing name"));
    }
    a
}

fn song_add(parts: &[Vec<char>], ui: &mut UiState, ts: u64) -> (a: UiActions)
    requires
        word_at(views(parts@), 1) == Some("add"@),
    ensures
        final(ui)@ == song_cmd_spec(views(parts@), old(ui)@, ts),
        a.song_changed == song_cmd_changes(views(parts@), old(ui)@),
        song_cmd_file(views(parts@), old(ui)@, a.file),
        a.cmds@.len() == 0,
        a.ctrl@.len() == 0,
{
    proof {
        lemma_song_words_distinct();
    }
    let ghost w = views(parts@);
    let mut a = nothing();
    if parts.len() > 2 {
        assert(w[2] == parts@[2]@);
        match ui.song.take() {
            Some(song) => {
                let mut song = song;
                let ghost before = slots_view(song.slots@);
                let mut filename = string_from_chars(parts[2].as_slice());
                push_str(&mut filename, ".pat.toml");
                let slot = PatternRef { filename, repeats: 1 };
                song.slots.push(slot);
                assert(slots_view(song.slots@) =~= before.push(slot_view(slot)));
                ui.song = Some(song);
                a.song_changed = true;
                let mut m = text_with("song add: ", parts[2].as_slice());
                push_str(&mut m, ".pat.toml");
                log_to(ui, ts, LogTag::Cmd, m);
            },
            None => {
                log_to(ui, ts, LogTag::Error, text_of("song add: no song loaded"));
            },
        }
    } else {
        log_to(ui, ts, LogTag::Error, text_of("song add: missing filename"));
    }
    a
}

fn song_remove(parts: &[Vec<char>], ui: &mut UiState, ts: u64) -> (a: UiActions)
    requires
        word_at(views(parts@), 1) == Some("remove"@),
    ensures
        final(ui)@ == song_cmd_spec(views(parts@), old(ui)@, ts),
        a.song_changed == song_cmd_changes(views(parts@), old(ui)@),
        song_cmd_file(views(parts@), old(ui)@, a.file),
        a.cmds@.len() == 0,
        a.ctrl@.len() == 0,
{
    proof {
        lemma_song_words_distinct();
    }
    let ghost w = views(parts@);
    let mut a = nothing();
    if parts.len() <= 2 {
        log_to(ui, ts, LogTag::Error, text_of("song remove: missing index"));
        return a;
    }
    assert(w[2] == parts@[2]@);
    match parse_unsigned(parts[2].as_slice(), 10, usize::MAX as u64) {
        Err(_) => {
            log_to(ui, ts, LogTag::Error, text_with_quoted("song remove: invalid index '", parts[2].as_slice()));
        },
        Ok(n64) => {
            let n = n64 as usize;
            if n < 1 {
                log_to(ui, ts, LogTag::Error, text_of("song remove: index must be >= 1"));
            } else {
                match ui.song.take() {
                    None => {
                        log_to(ui, ts, LogTag::Error, text_of("song remove: no song loaded"));
                    },
                    Some(song) => {
                        let mut song = song;
                        if n <= song.slots.len() {
                            let ghost before = slots_view(song.slots@);
                            song.slots.remove(n - 1);
                            assert(slots_view(song.slots@) =~= before.remove(n - 1));
                            let len = song.slots.len();
                            let maxc = if len > 0 {
                                len - 1
                            } else {
                                0
                            };
                            if ui.song_cursor > maxc {
                                ui.song_cursor = maxc;
                            }
                            ui.song = Some(song);
                            a.song_changed = true;
                            log_to(ui, ts, LogTag::Cmd, text_with_number("song remove: slot ", n64, ""));
                            proof {
                                reveal_strlit("");
                            }
                        } else {
                            ui.song = Some(song);
                            log_to(
                                ui,
                                ts,
                                LogTag::Error,
                                text_with_number("song remove: index ", n64, " out of range"),
                            );
                        }
                    },
                }
            }
        },
    }
    a
}

fn song_set_repeats(parts: &[Vec<char>], ui: &mut UiState, ts: u64) -> (a: UiActions)
    requires
        word_at(views(parts@), 1) == Some("set-repeats"@),
    ensures
        final(ui)@ == song_cmd_spec(views(parts@), old(ui)@, ts),
        a.song_changed == song_cmd_changes(views(parts@), old(ui)@),
        song_cmd_file(views(parts@), old(ui)@, a.file),
        a.cmds@.len() == 0,
        a.ctrl@.len() == 0,
{
    proof {
        lemma_song_words_distinct();
    }
    let ghost w = views(parts@);
    let mut a = nothing();
    if parts.len() <= 3 {
        log_to(ui, ts, LogTag::Error, text_of("song set-repeats: expected <n> <r>"));
        return a;
    }
    assert(w[2] == parts@[2]@);
    assert(w[3] == parts@[3]@);
    match parse_unsigned(parts[2].as_slice(), 10, usize::MAX as u64) {
        Err(_) => {
            log_to(
                ui,
                ts,
                LogTag::Error,
                text_with_quoted("song set-repeats: invalid index '", parts[2].as_slice()),
            );
        },
        Ok(n64) => match parse_unsigned(parts[3].as_slice(), 10, 255) {
            Err(_) => {
                log_to(
                    ui,
                    ts,
                    LogTag::Error,
                    text_with_quoted("song set-repeats: invalid repeat count '", parts[3].as_slice()),
                );
            },
            Ok(r64) => {
                let n = n64 as usize;
                let r = r64 as u8;
                if n < 1 {
                    log_to(ui, ts, LogTag::Error, text_of("song set-repeats: index must be >= 1"));
                } else {
                    match ui.song.take() {
                        None => {
                            log_to(ui, ts, LogTag::Error, text_of("song set-repeats: no song loaded"));
                        },
                        Some(song) => {
                            let mut song = song;
                            if n <= song.slots.len() {
                                let ghost before = slots_view(song.slots@);
                                let filename = song.slots[n - 1].filename.clone();
                                let slot = PatternRef { filename, repeats: r };
                                song.slots.set(n - 1, slot);
                                assert(slots_view(song.slots@) =~= before.update(
                                    n - 1,
                                    SlotModel { repeats: r, ..before[n - 1] },
                                ));
                                ui.song = Some(song);
                                a.song_changed = true;
                                let mut m = text_with_number("song set-repeats: slot ", n64, " \u{2192} ");
                                push_decimal(&mut m, r64);
                                log_to(ui, ts, LogTag::Cmd, m);
                            } else {
                                ui.song = Some(song);
                                log_to(
                                    ui,
                                    ts,
                                    LogTag::Error,
                                    text_with_number("song set-repeats: index ", n64, " out of range"),
                                );
                            }
                        },
                    }
                }
            },
        },
    }
    a
}

/// Handle `song new|load|save|list|add|remove|set-repeats` CLI sub-commands
/// (`parts[0]` is `song`).
pub fn handle_cli_song_cmd(parts: &[Vec<char>], ui: &mut UiState, ts: u64) -> (a: UiActions)
    ensures
        final(ui)@ == song_cmd_spec(views(parts@), old(ui)@, ts),
        a.song_changed == song_cmd_changes(views(parts@), old(ui)@),
        song_cmd_file(views(parts@), old(ui)@, a.file),
        a.cmds@.len() == 0,
        a.ctrl@.len() == 0,
{
    proof {
        lemma_song_words_distinct();
    }
    let ghost w = views(parts@);
    if word_is(parts, 1, "new") {
        song_new(parts, ui, ts)
    } else if word_is(parts, 1, "load") {
        let mut a = nothing();
        if parts.len() > 2 {
            assert(w[2] == parts@[2]@);
            let mut filename = string_from_chars(parts[2].as_slice());
            push_str(&mut filename, ".song.toml");
            a.file = Some(FileRequest::LoadSong { filename });
        } else {
            log_to(ui, ts, LogTag::Error, text_of("song load: missing name"));
        }
        a
    } else if word_is(parts, 1, "save") {
        let mut a = nothing();
        if parts.len() > 2 {
            assert(w[2] == parts@[2]@);
            match &ui.song {
                Some(song) => {
                    let mut filename = string_from_chars(parts[2].as_slice());
                    push_str(&mut filename, ".song.toml");
                    a.file = Some(FileRequest::SaveSong { filename, song: clone_song(song) });
                },
                None => {
                    log_to(ui, ts, LogTag::Error, text_of("song save: no song loaded"));
                },
            }
        } else {
            log_to(ui, ts, LogTag::Error, text_of("song save: missing name"));
        }
        a
    } else if word_is(parts, 1, "list") {
        let mut a = nothing();
        a.file = Some(FileRequest::ListSongs);
        a
    } else if word_is(parts, 1, "add") {
        song_add(parts, ui, ts)
    } else if word_is(parts, 1, "remove") {
        song_remove(parts, ui, ts)
    } else if word_is(parts, 1, "set-repeats") {
        song_set_repeats(parts, ui, ts)
    } else {
        let sub: Vec<char> = if parts.len() > 1 {
            parts[1].clone()
        } else {
            Vec::new()
        };
        assert(sub@ == or_empty(word_at(w, 1)));
        log_to(ui, ts, LogTag::Error, text_with("unknown song command: ", sub.as_slice()));
        nothing()
    }
}

// ── note set ──────────────────────────────────────────────────────────────────

/// `note set <step> <note> [velocity]` with the words `v` after `note set`:
/// the log effect and the command sent. The step is 1–16 (sent 0-indexed),
/// the note a note name, the velocity 0–127 (127 when left out); anything
/// after the velocity is refused.
pub open spec fn note_set_spec(v: Seq<Seq<char>>, u: UiModel, ts: u64) -> (UiModel, Option<
    InputCommand,
>) {
    let bad = |m: Seq<char>| (logged(u, ts, LogTag::Error, m), None::<InputCommand>);
    if v.len() == 0 || parse_usize(v[0]) is Err {
        bad("note set: expected <step> <note> [velocity]"@)
    } else {
        let user_step = parse_usize(v[0])->Ok_0;
        if !(1 <= user_step <= 16) {
            bad("step must be 1\u{2013}16"@)
        } else if v.len() < 2 {
            bad("note set: missing note name"@)
        } else {
            match parse_note_chars(v[1]) {
                None => bad("note set: invalid note '"@ + v[1] + "'"@),
                Some(midi_note) => {
                    let vel = if v.len() > 2 {
                        parse_u8(v[2])
                    } else {
                        Ok(127)
                    };
                    match vel {
                        Err(_) => bad("note set: invalid velocity '"@ + v[2] + "'"@),
                        Ok(velocity) => if velocity > 127 {
                            bad("velocity must be 0\u{2013}127"@)
                        } else if v.len() > 3 {
                            bad("note set: unexpected trailing input"@)
                        } else {
                            (
                                logged(
                                    u,
                                    ts,
                                    LogTag::Cmd,
                                    "note set "@ + decimal_chars(user_step as nat) + " \u{2192} "@
                                        + note_name_chars(midi_note) + " vel "@ + decimal_chars(
                                        velocity as nat,
                                    ),
                                ),
                                Some(
                                    InputCommand::NoteSet {
                                        step: (user_step - 1) as usize,
                                        midi_note: midi_note as u8,
                                        velocity: velocity as u8,
                                    },
                                ),
                            )
                        },
                    }
                },
            }
        }
    }
}

/// Parse and apply `note set <step> <note> [velocity]` (the words after
/// `note set`), logging an error on any parse failure.
fn handle_cli_note_set(ui: &mut UiState, ts: u64, rest: &[Vec<char>]) -> (a: UiActions)
    ensures
        final(ui)@ == note_set_spec(views(rest@), old(ui)@, ts).0,
        match note_set_spec(views(rest@), old(ui)@, ts).1 {
            Some(c) => only_cmds(a, seq![c]),
            None => no_actions(a),
        },
{
    let ghost v = views(rest@);
    if rest.len() == 0 {
        log_to(ui, ts, LogTag::Error, text_of("note set: expected <step> <note> [velocity]"));
        return nothing();
    }
    assert(v[0] == rest@[0]@);
    let user_step = match parse_unsigned(rest[0].as_slice(), 10, usize::MAX as u64) {
        Err(_) => {
            log_to(ui, ts, LogTag::Error, text_of("note set: expected <step> <note> [velocity]"));
            return nothing();
        },
        Ok(s) => s,
    };
    if !(1 <= user_step && user_step <= 16) {
        log_to(ui, ts, LogTag::Error, text_of("step must be 1\u{2013}16"));
        return nothing();
    }
    if rest.len() < 2 {
        log_to(ui, ts, LogTag::Error, text_of("note set: missing note name"));
        return nothing();
    }
    assert(v[1] == rest@[1]@);
    let note_str = string_from_chars(rest[1].as_slice());
    let midi_note = match parse_note_name(note_str.as_str()) {
        None => {
            log_to(ui, ts, LogTag::Error, text_with_quoted("note set: invalid note '", rest[1].as_slice()));
            return nothing();
        },
        Some(n) => n,
    };
    let velocity: u8 = if rest.len() > 2 {
        assert(v[2] == rest@[2]@);
        match parse_unsigned(rest[2].as_slice(), 10, 255) {
            Err(_) => {
                log_to(
                    ui,
                    ts,
                    LogTag::Error,
                    text_with_quoted("note set: invalid velocity '", rest[2].as_slice()),
                );
                return nothing();
            },
            Ok(x) => {
                if x > 127 {
                    log_to(ui, ts, LogTag::Error, text_of("velocity must be 0\u{2013}127"));
                    return nothing();
                }
                x as u8
            },
        }
    } else {
        127
    };
    if rest.len() > 3 {
        log_to(ui, ts, LogTag::Error, text_of("note set: unexpected trailing input"));
        return nothing();
    }
    let step = (user_step - 1) as usize;
    let mut m = text_with_number("note set ", user_step, " \u{2192} ");
    push_str(&mut m, note_name(midi_note).as_str());
    push_str(&mut m, " vel ");
    push_decimal(&mut m, velocity as u64);
    log_to(ui, ts, LogTag::Cmd, m);
    one_cmd(InputCommand::NoteSet { step, midi_note, velocity })
}

// ── help ──────────────────────────────────────────────────────────────────────

/// The help line of entry `i`: the command, an em dash, the description.
pub open spec fn help_line(i: int) -> Seq<char> {
    HELP_ENTRIES@[i].0@ + "  \u{2014}  "@ + HELP_ENTRIES@[i].1@
}

/// The log after pushing help lines `0..n`.
pub open spec fn help_pushed(lines: Seq<LogLine>, ts: u64, n: nat) -> Seq<LogLine>
    decreases n,
{
    if n == 0 {
        lines
    } else {
        pushed(
            help_pushed(lines, ts, (n - 1) as nat),
            LogLine { timestamp_ms: ts, tag: LogTag::Info, text: help_line(n - 1) },
        )
    }
}

fn push_help(ui: &mut UiState, ts: u64)
    ensures
        final(ui)@ == (UiModel { cli_log: help_pushed(old(ui)@.cli_log, ts, 21), ..old(ui)@ }),
{
    let ghost start = ui@;
    let mut i: usize = 0;
    while i < 21
        invariant
            0 <= i <= 21,
            ui@ == (UiModel { cli_log: help_pushed(start.cli_log, ts, i as nat), ..start }),
        decreases 21 - i,
    {
        let (cmd, desc) = HELP_ENTRIES[i];
        let mut m = cmd.to_owned();
        push_str(&mut m, "  \u{2014}  ");
        push_str(&mut m, desc);
        log_to(ui, ts, LogTag::Info, m);
        i = i + 1;
    }
}

// ── handle_cli_submit ─────────────────────────────────────────────────────────

/// The UI effect of the `port <name>` command: the name is shown and logged.
pub open spec fn port_spec(rest: Seq<char>, u: UiModel, ts: u64) -> UiModel {
    let name = trim(rest);
    logged(
        UiModel { midi_device_name: name, ..u },
        ts,
        LogTag::Midi,
        "port \u{2192} "@ + name + " (requesting)"@,
    )
}

/// The UI effect of `channel <n>`: 1–16 is shown and logged, anything else
/// is an error.
pub open spec fn channel_spec(rest: Seq<char>, u: UiModel, ts: u64) -> UiModel {
    match parse_u8(trim(rest)) {
        Ok(n) => if 1 <= n <= 16 {
            logged(
                UiModel { midi_channel_display: n as u8, ..u },
                ts,
                LogTag::Midi,
                "channel \u{2192} "@ + decimal_chars(n as nat),
            )
        } else {
            logged(u, ts, LogTag::Error, "channel must be 1\u{2013}16"@)
        },
        Err(_) => logged(u, ts, LogTag::Error, "invalid channel: "@ + rest),
    }
}

/// The hexadecimal digits of a `seed` argument: trimmed, then every
/// leading `0x` and every leading `0X` removed.
pub open spec fn seed_digits(rest: Seq<char>) -> Seq<char> {
    strip_all_prefix(strip_all_prefix(trim(rest), "0x"@), "0X"@)
}

/// The seed the random-parameters panel shows, typed after `seed `, reads
/// back as the same seed.
pub proof fn law_shown_seed_reads_back(s: StateModel)
    ensures
        parse_unsigned_spec(seed_digits(rand_cell_value(s, 7)), 16, u32::MAX as int) == Ok::<
            int,
            IntErrorKind,
        >(s.rand_seed as int),
{
    reveal_strlit("0x");
    reveal_strlit("0X");
    let h = hex_chars_padded(s.rand_seed as nat, 4);
    let shown = rand_cell_value(s, 7);
    assert(shown == "0x"@ + h);
    lemma_hex_chars_are_digits(s.rand_seed as nat, 4);
    assert(h[1] != 'x' && h[1] != 'X' && is_upper_hex_digit(h[h.len() - 1]));
    assert(trim_start(shown) == shown);
    assert(shown.last() == h[h.len() - 1]);
    assert(trim_end(shown) == shown);
    assert(shown.subrange(0, 2) =~= "0x"@);
    assert(shown.subrange(2, shown.len() as int) =~= h);
    assert(strip_all_prefix(shown, "0x"@) == strip_all_prefix(h, "0x"@));
    assert(h.subrange(0, 2) != "0x"@) by {
        assert(h.subrange(0, 2)[1] == h[1]);
    }
    assert(strip_all_prefix(h, "0x"@) == h);
    assert(h.subrange(0, 2) != "0X"@) by {
        assert(h.subrange(0, 2)[1] == h[1]);
    }
    assert(strip_all_prefix(h, "0X"@) == h);
    lemma_hex_reads_back(s.rand_seed as nat, 4, u32::MAX as int);
}

/// The UI effect of `seed <hex>`.
pub open spec fn seed_spec(rest: Seq<char>, u: UiModel, ts: u64) -> UiModel {
    match parse_unsigned_spec(seed_digits(rest), 16, u32::MAX as int) {
        Ok(v) => logged(u, ts, LogTag::Cmd, "seed \u{2192} 0x"@ + hex_chars_padded(v as nat, 4)),
        Err(_) => logged(u, ts, LogTag::Error, "invalid hex: "@ + rest),
    }
}

/// The submitted line: the input line without surrounding whitespace.
pub open spec fn submitted_line(u: UiModel) -> Seq<char> {
    trim(u.cli_line)
}

/// The UI after submitting the input line (the line itself is cleared).
pub open spec fn submit_spec(u: UiModel, ts: u64) -> UiModel {
    let line = submitted_line(u);
    let w = words(line);
    let u0 = UiModel { cli_line: Seq::empty(), ..u };
    if line.len() == 0 {
        u0
    } else if word_at(w, 0) == Some("pattern"@) {
        pattern_cmd_log(w, u0, ts)
    } else if word_at(w, 0) == Some("song"@) {
        song_cmd_spec(w, u0, ts)
    } else if line == "port list"@ {
        logged(u0, ts, LogTag::Cmd, "port list (querying...)"@)
    } else if has_prefix(line, "port "@) {
        port_spec(line.subrange(5, line.len() as int), u0, ts)
    } else if has_prefix(line, "channel "@) {
        channel_spec(line.subrange(8, line.len() as int), u0, ts)
    } else if has_prefix(line, "seed "@) {
        seed_spec(line.subrange(5, line.len() as int), u0, ts)
    } else if line == "rand all"@ {
        logged(u0, ts, LogTag::Cmd, "rand all"@)
    } else if line == "rand velo"@ {
        logged(u0, ts, LogTag::Cmd, "rand velo"@)
    } else if line == "rand notes"@ {
        logged(u0, ts, LogTag::Cmd, "rand notes"@)
    } else if has_prefix(line, "note set "@) {
        note_set_spec(words(trim(line.subrange(9, line.len() as int))), u0, ts).0
    } else if line == "clear"@ || line == "ok"@ {
        UiModel { cli_log: Seq::empty(), ..u0 }
    } else if line == "help"@ {
        UiModel { cli_log: help_pushed(u0.cli_log, ts, 21), ..u0 }
    } else {
        logged(u0, ts, LogTag::Error, "unknown command: "@ + line)
    }
}

/// The actions of submitting the input line; `device` is the device name
/// the UI holds afterwards.
pub open spec fn submit_actions(u: UiModel, s: StateModel, ts: u64, device: String, a: UiActions) -> bool {
    let line = submitted_line(u);
    let w = words(line);
    let u0 = UiModel { cli_line: Seq::empty(), ..u };
    if line.len() == 0 {
        no_actions(a)
    } else if word_at(w, 0) == Some("pattern"@) {
        &&& pattern_cmd_file(w, s, a.file)
        &&& a.cmds@.len() == 0
        &&& a.ctrl@.len() == 0
        &&& !a.song_changed
    } else if word_at(w, 0) == Some("song"@) {
        &&& song_cmd_file(w, u0, a.file)
        &&& a.song_changed == song_cmd_changes(w, u0)
        &&& a.cmds@.len() == 0
        &&& a.ctrl@.len() == 0
    } else if line == "port list"@ {
        &&& a.cmds@.len() == 0
        &&& a.ctrl@ == seq![MidiCtrlMsg::ListPorts]
        &&& a.file is None
        &&& !a.song_changed
    } else if has_prefix(line, "port "@) {
        &&& a.cmds@ == seq![InputCommand::MidiDeviceName(device)]
        &&& a.ctrl@ == seq![MidiCtrlMsg::ChangePort(device)]
        &&& a.file is None
        &&& !a.song_changed
    } else if has_prefix(line, "channel "@) {
        match parse_u8(trim(line.subrange(8, line.len() as int))) {
            Ok(n) => if 1 <= n <= 16 {
                &&& a.cmds@ == seq![InputCommand::ChannelSet(n as u8)]
                &&& a.ctrl@ == seq![MidiCtrlMsg::ChangeChannel(n as u8)]
                &&& a.file is None
                &&& !a.song_changed
            } else {
                no_actions(a)
            },
            Err(_) => no_actions(a),
        }
    } else if has_prefix(line, "seed "@) {
        match parse_unsigned_spec(seed_digits(line.subrange(5, line.len() as int)), 16, u32::MAX as int) {
            Ok(v) => only_cmds(a, seq![InputCommand::SeedSet(v as u32)]),
            Err(_) => no_actions(a),
        }
    } else if line == "rand all"@ {
        only_cmds(a, seq![InputCommand::RandAll])
    } else if line == "rand velo"@ {
        only_cmds(a, seq![InputCommand::RandVelocities])
    } else if line == "rand notes"@ {
        only_cmds(a, seq![InputCommand::GenerateRandomSequence])
    } else if has_prefix(line, "note set "@) {
        match note_set_spec(words(trim(line.subrange(9, line.len() as int))), u0, ts).1 {
            Some(c) => only_cmds(a, seq![c]),
            None => no_actions(a),
        }
    } else {
        no_actions(a)
    }
}

fn submit_port(ui: &mut UiState, ts: u64, rest: &[char]) -> (a: UiActions)
    ensures
        final(ui)@ == port_spec(rest@, old(ui)@, ts),
        a.cmds@ == seq![InputCommand::MidiDeviceName(final(ui).midi_device_name)],
        a.ctrl@ == seq![MidiCtrlMsg::ChangePort(final(ui).midi_device_name)],
        a.file is None,
        !a.song_changed,
{
    let name_chars = trim_chars(rest);
    let name = string_from_chars(name_chars.as_slice());
    let mut ctrl: Vec<MidiCtrlMsg> = Vec::new();
    ctrl.push(MidiCtrlMsg::ChangePort(name.clone()));
    let mut cmds: Vec<InputCommand> = Vec::new();
    cmds.push(InputCommand::MidiDeviceName(name.clone()));
    ui.midi_device_name = name.clone();
    assert(cmds@ =~= seq![InputCommand::MidiDeviceName(ui.midi_device_name)]);
    assert(ctrl@ =~= seq![MidiCtrlMsg::ChangePort(ui.midi_device_name)]);
    let mut m = text_with("port \u{2192} ", name_chars.as_slice());
    push_str(&mut m, " (requesting)");
    log_to(ui, ts, LogTag::Midi, m);
    UiActions { cmds, ctrl, file: None, song_changed: false }
}

fn submit_channel(ui: &mut UiState, ts: u64, rest: &[char]) -> (a: UiActions)
    ensures
        final(ui)@ == channel_spec(rest@, old(ui)@, ts),
        match parse_u8(trim(rest@)) {
            Ok(n) => if 1 <= n <= 16 {
                &&& a.cmds@ == seq![InputCommand::ChannelSet(n as u8)]
                &&& a.ctrl@ == seq![MidiCtrlMsg::ChangeChannel(n as u8)]
                &&& a.file is None
                &&& !a.song_changed
            } else {
                no_actions(a)
            },
            Err(_) => no_actions(a),
        },
{
    let t = trim_chars(rest);
    match parse_unsigned(t.as_slice(), 10, 255) {
        Ok(n64) => {
            let n = n64 as u8;
            if 1 <= n && n <= 16 {
                let mut ctrl: Vec<MidiCtrlMsg> = Vec::new();
                ctrl.push(MidiCtrlMsg::ChangeChannel(n));
                let mut cmds: Vec<InputCommand> = Vec::new();
                cmds.push(InputCommand::ChannelSet(n));
                ui.midi_channel_display = n;
                log_to(ui, ts, LogTag::Midi, text_with_number("channel \u{2192} ", n64, ""));
                proof {
                    reveal_strlit("");
                }
                UiActions { cmds, ctrl, file: None, song_changed: false }
            } else {
                log_to(ui, ts, LogTag::Error, text_of("channel must be 1\u{2013}16"));
                nothing()
            }
        },
        Err(_) => {
            log_to(ui, ts, LogTag::Error, text_with("invalid channel: ", rest));
            nothing()
        },
    }
}

fn submit_seed(ui: &mut UiState, ts: u64, rest: &[char]) -> (a: UiActions)
    ensures
        final(ui)@ == seed_spec(rest@, old(ui)@, ts),
        match parse_unsigned_spec(seed_digits(rest@), 16, u32::MAX as int) {
            Ok(v) => only_cmds(a, seq![InputCommand::SeedSet(v as u32)]),
            Err(_) => no_actions(a),
        },
{
    let t = trim_chars(rest);
    let lower = chars_of("0x");
    let upper = chars_of("0X");
    let h1 = strip_all_prefix_chars(t.as_slice(), lower.as_slice());
    let hex = strip_all_prefix_chars(h1.as_slice(), upper.as_slice());
    match parse_unsigned(hex.as_slice(), 16, u32::MAX as u64) {
        Ok(v) => {
            let mut m = text_of("seed \u{2192} 0x");
            push_hex_padded(&mut m, v, 4);
            log_to(ui, ts, LogTag::Cmd, m);
            one_cmd(InputCommand::SeedSet(v as u32))
        },
        Err(_) => {
            log_to(ui, ts, LogTag::Error, text_with("invalid hex: ", rest));
            nothing()
        },
    }
}

fn prefix_rest(line: &[char], p: &str) -> (r: Option<Vec<char>>)
    ensures
        match r {
            Some(rest) => has_prefix(line@, p@) && rest@ == line@.subrange(p@.len() as int, line@.len() as int),
            None => !has_prefix(line@, p@),
        },
{
    let pc = chars_of(p);
    if starts_with_chars(line, pc.as_slice()) {
        Some(chars_from(line, pc.len()))
    } else {
        None
    }
}

/// Process the current `cli_line`: clear it, then run the command it holds
/// (see `submit_spec` for the UI effect and `submit_actions` for what the
/// caller sends and does).
///
/// Handles:
/// - `pattern save|load|list` → pattern file operations
/// - `song new|load|save|list|add|remove|set-repeats` → song operations
/// - `port <name>`   → `MidiCtrlMsg::ChangePort` + `InputCommand::MidiDeviceName`
/// - `channel <n>`   → `MidiCtrlMsg::ChangeChannel` + `InputCommand::ChannelSet`
/// - `seed <hex>`    → `InputCommand::SeedSet`
/// - unknown         → error log entry
pub fn handle_cli_submit(ui: &mut UiState, state: &SequencerState, ts: u64) -> (a: UiActions)
    ensures
        final(ui)@ == submit_spec(old(ui)@, ts),
        submit_actions(old(ui)@, state@, ts, final(ui).midi_device_name, a),
{
    proof {
        reveal_strlit("port ");
        reveal_strlit("channel ");
        reveal_strlit("seed ");
        reveal_strlit("note set ");
    }
    let cs = chars_of(ui.cli_line.as_str());
    let line = trim_chars(cs.as_slice());
    ui.cli_line = String::new();
    if line.len() == 0 {
        return nothing();
    }
    let parts = split_words(line.as_slice());
    if word_is(parts.as_slice(), 0, "pattern") {
        return handle_cli_pattern_cmd(parts.as_slice(), ui, state, ts);
    }
    if word_is(parts.as_slice(), 0, "song") {
        return handle_cli_song_cmd(parts.as_slice(), ui, ts);
    }
    if chars_are(line.as_slice(), "port list") {
        log_to(ui, ts, LogTag::Cmd, text_of("port list (querying...)"));
        let mut ctrl: Vec<MidiCtrlMsg> = Vec::new();
        ctrl.push(MidiCtrlMsg::ListPorts);
        return UiActions { cmds: Vec::new(), ctrl, file: None, song_changed: false };
    }
    if let Some(rest) = prefix_rest(line.as_slice(), "port ") {
        return submit_port(ui, ts, rest.as_slice());
    }
    if let Some(rest) = prefix_rest(line.as_slice(), "channel ") {
        return submit_channel(ui, ts, rest.as_slice());
    }
    if let Some(rest) = prefix_rest(line.as_slice(), "seed ") {
        return submit_seed(ui, ts, rest.as_slice());
    }
    if chars_are(line.as_slice(), "rand all") {
        log_to(ui, ts, LogTag::Cmd, text_of("rand all"));
        return one_cmd(InputCommand::RandAll);
    }
    if chars_are(line.as_slice(), "rand velo") {
        log_to(ui, ts, LogTag::Cmd, text_of("rand velo"));
        return one_cmd(InputCommand::RandVelocities);
    }
    if chars_are(line.as_slice(), "rand notes") {
        log_to(ui, ts, LogTag::Cmd, text_of("rand notes"));
        return one_cmd(InputCommand::GenerateRandomSequence);
    }
    if let Some(rest) = prefix_rest(line.as_slice(), "note set ") {
        let t = trim_chars(rest.as_slice());
        let w = split_words(t.as_slice());
        return handle_cli_note_set(ui, ts, w.as_slice());
    }
    if chars_are(line.as_slice(), "clear") || chars_are(line.as_slice(), "ok") {
        ui.cli_log.clear();
        assert(log_lines(ui.cli_log@) =~= Seq::<LogLine>::empty());
        return nothing();
    }
    if chars_are(line.as_slice(), "help") {
        push_help(ui, ts);
        return nothing();
    }
    log_to(ui, ts, LogTag::Error, text_with("unknown command: ", line.as_slice()));
    nothing()
}

// ── File outcomes ─────────────────────────────────────────────────────────────

/// Log the outcome of a pattern save the caller performed.
pub fn finish_pattern_save(ui: &mut UiState, ts: u64, filename: &str, result: Result<(), String>)
    ensures
        final(ui)@ == match result {
            Ok(_) => logged(old(ui)@, ts, LogTag::Cmd, "pattern saved: "@ + filename@),
            Err(e) => logged(old(ui)@, ts, LogTag::Error, "pattern save error: "@ + e@),
        },
{
    match result {
        Ok(_) => {
            let mut m = text_of("pattern saved: ");
            push_str(&mut m, filename);
            log_to(ui, ts, LogTag::Cmd, m);
        },
        Err(e) => {
            let mut m = text_of("pattern save error: ");
            push_str(&mut m, e.as_str());
            log_to(ui, ts, LogTag::Error, m);
        },
    }
}

/// Log the outcome of a pattern load the caller performed (the pattern is
/// not applied to the running state).
pub fn finish_pattern_load(
    ui: &mut UiState,
    ts: u64,
    filename: &str,
    result: Result<PatternData, String>,
)
    ensures
        final(ui)@ == match result {
            Ok(_) => logged(old(ui)@, ts, LogTag::Cmd, "pattern loaded: "@ + filename@),
            Err(e) => logged(old(ui)@, ts, LogTag::Error, "pattern load error: "@ + e@),
        },
{
    match result {
        Ok(_) => {
            let mut m = text_of("pattern loaded: ");
            push_str(&mut m, filename);
            log_to(ui, ts, LogTag::Cmd, m);
        },
        Err(e) => {
            let mut m = text_of("pattern load error: ");
            push_str(&mut m, e.as_str());
            log_to(ui, ts, LogTag::Error, m);
        },
    }
}

/// Log the outcome of a song save the caller performed.
pub fn finish_song_save(ui: &mut UiState, ts: u64, filename: &str, result: Result<(), String>)
    ensures
        final(ui)@ == match result {
            Ok(_) => logged(old(ui)@, ts, LogTag::Cmd, "song saved: "@ + filename@),
            Err(e) => logged(old(ui)@, ts, LogTag::Error, "song save error: "@ + e@),
        },
{
    match result {
        Ok(_) => {
            let mut m = text_of("song saved: ");
            push_str(&mut m, filename);
            log_to(ui, ts, LogTag::Cmd, m);
        },
        Err(e) => {
            let mut m = text_of("song save error: ");
            push_str(&mut m, e.as_str());
            log_to(ui, ts, LogTag::Error, m);
        },
    }
}

/// Take a song the caller loaded as the current song (returning whether it
/// changed), or log the error.
pub fn finish_song_load(ui: &mut UiState, ts: u64, filename: &str, result: Result<Song, String>) -> (changed: bool)
    ensures
        changed == result is Ok,
        final(ui)@ == match result {
            Ok(song) => logged(
                UiModel { song: Some(song_view(song)), ..old(ui)@ },
                ts,
                LogTag::Cmd,
                "song loaded: "@ + filename@,
            ),
            Err(e) => logged(old(ui)@, ts, LogTag::Error, "song load error: "@ + e@),
        },
{
    match result {
        Ok(song) => {
            ui.song = Some(song);
            let mut m = text_of("song loaded: ");
            push_str(&mut m, filename);
            log_to(ui, ts, LogTag::Cmd, m);
            true
        },
        Err(e) => {
            let mut m = text_of("song load error: ");
            push_str(&mut m, e.as_str());
            log_to(ui, ts, LogTag::Error, m);
            false
        },
    }
}

/// The names among `names` that end in `suffix`, in order.
pub open spec fn with_suffix(names: Seq<Seq<char>>, suffix: Seq<char>) -> Seq<Seq<char>>
    decreases names.len(),
{
    if names.len() == 0 {
        Seq::empty()
    } else {
        let r = with_suffix(names.drop_last(), suffix);
        if has_suffix(names.last(), suffix) {
            r.push(names.last())
        } else {
            r
        }
    }
}

/// The log after pushing `texts` in order under `tag` at `ts`.
pub open spec fn pushed_all(lines: Seq<LogLine>, ts: u64, tag: LogTag, texts: Seq<Seq<char>>) -> Seq<
    LogLine,
>
    decreases texts.len(),
{
    if texts.len() == 0 {
        lines
    } else {
        pushed(
            pushed_all(lines, ts, tag, texts.drop_last()),
            LogLine { timestamp_ms: ts, tag, text: texts.last() },
        )
    }
}

/// The suffix of the files a listing shows: pattern or song files.
pub open spec fn listing_suffix(songs: bool) -> Seq<char> {
    if songs {
        ".song.toml"@
    } else {
        ".pat.toml"@
    }
}

/// The log effect of a directory listing: one info line per pattern (or
/// song) file, a notice when there is none, or the error.
pub open spec fn listing_spec(u: UiModel, ts: u64, songs: bool, result: Result<Seq<Seq<char>>, Seq<char>>) -> UiModel {
    match result {
        Ok(names) => {
            let shown = with_suffix(names, listing_suffix(songs));
            if shown.len() == 0 {
                logged(
                    u,
                    ts,
                    LogTag::Info,
                    if songs {
                        "(no song files)"@
                    } else {
                        "(no pattern files)"@
                    },
                )
            } else {
                UiModel { cli_log: pushed_all(u.cli_log, ts, LogTag::Info, shown), ..u }
            }
        },
        Err(e) => logged(
            u,
            ts,
            LogTag::Error,
            (if songs {
                "song list error: "@
            } else {
                "pattern list error: "@
            }) + e,
        ),
    }
}

/// The listing outcome as plain values.
pub open spec fn listing_view(result: Result<Vec<String>, String>) -> Result<Seq<Seq<char>>, Seq<char>> {
    match result {
        Ok(names) => Ok(names@.map_values(|n: String| n@)),
        Err(e) => Err(e@),
    }
}

/// Log a directory listing the caller performed (`songs` picks the song
/// directory, else the pattern one); `result` holds the file names.
pub fn finish_listing(ui: &mut UiState, ts: u64, songs: bool, result: Result<Vec<String>, String>)
    ensures
        final(ui)@ == listing_spec(old(ui)@, ts, songs, listing_view(result)),
{
    match result {
        Ok(names) => {
            let ghost all = names@.map_values(|n: String| n@);
            let suffix = if songs {
                chars_of(".song.toml")
            } else {
                chars_of(".pat.toml")
            };
            let ghost start = ui@;
            let mut found = false;
            let mut i: usize = 0;
            while i < names.len()
                invariant
                    0 <= i <= names@.len(),
                    all == names@.map_values(|n: String| n@),
                    suffix@ == listing_suffix(songs),
                    found == (with_suffix(all.subrange(0, i as int), suffix@).len() > 0),
                    ui@ == (UiModel {
                        cli_log: pushed_all(
                            start.cli_log,
                            ts,
                            LogTag::Info,
                            with_suffix(all.subrange(0, i as int), suffix@),
                        ),
                        ..start
                    }),
                decreases names.len() - i,
            {
                assert(all.subrange(0, i + 1).drop_last() =~= all.subrange(0, i as int));
                assert(all.subrange(0, i + 1).last() == names@[i as int]@);
                let ghost r = with_suffix(all.subrange(0, i as int), suffix@);
                let cs = chars_of(names[i].as_str());
                if ends_with_chars(cs.as_slice(), suffix.as_slice()) {
                    assert(r.push(names@[i as int]@).drop_last() =~= r);
                    log_to(ui, ts, LogTag::Info, names[i].clone());
                    found = true;
                }
                i = i + 1;
            }
            assert(all.subrange(0, i as int) =~= all);
            if !found {
                if songs {
                    log_to(ui, ts, LogTag::Info, text_of("(no song files)"));
                } else {
                    log_to(ui, ts, LogTag::Info, text_of("(no pattern files)"));
                }
            }
        },
        Err(e) => {
            let mut m = if songs {
                text_of("song list error: ")
            } else {
                text_of("pattern list error: ")
            };
            push_str(&mut m, e.as_str());
            log_to(ui, ts, LogTag::Error, m);
        },
    }
}

// ── Keys ──────────────────────────────────────────────────────────────────────

/// Whether a key acts globally: F1–F4 always, the other global keys only
/// outside the CLI panel (there they type characters).
pub open spec fn key_is_global(key: KeyCodeSimple, u: UiModel) -> bool {
    match global_key_command(key) {
        Some(cmd) => cmd is SetFocus || u.focus != FocusPanel::Cli,
        None => false,
    }
}

/// Longest CLI input line, in bytes.
pub const CLI_LINE_MAX_BYTES: usize = 256;

/// The UI after a key press (see `translate_key`).
pub open spec fn key_spec(key: KeyCodeSimple, u: UiModel, ts: u64) -> UiModel {
    if key_is_global(key, u) {
        match global_key_command(key) {
            Some(InputCommand::SetFocus(p)) => UiModel { focus: p, ..u },
            _ => u,
        }
    } else {
        match u.focus {
            FocusPanel::Sequencer => match key {
                KeyCodeSimple::Left => UiModel {
                    selected_step: ((u.selected_step + 15) % 16) as usize,
                    ..u
                },
                KeyCodeSimple::Right => UiModel {
                    selected_step: ((u.selected_step + 1) % 16) as usize,
                    ..u
                },
                _ => u,
            },
            FocusPanel::SeqParams => match key {
                KeyCodeSimple::Left => UiModel {
                    seq_param_idx: if u.seq_param_idx > 0 {
                        (u.seq_param_idx - 1) as u8
                    } else {
                        0
                    },
                    ..u
                },
                KeyCodeSimple::Right => UiModel {
                    seq_param_idx: if u.seq_param_idx >= 7 {
                        7
                    } else {
                        (u.seq_param_idx + 1) as u8
                    },
                    ..u
                },
                _ => u,
            },
            FocusPanel::RandParams => match key {
                KeyCodeSimple::Left => UiModel {
                    rand_param_idx: if u.rand_param_idx > 0 {
                        (u.rand_param_idx - 1) as u8
                    } else {
                        0
                    },
                    ..u
                },
                KeyCodeSimple::Right => UiModel {
                    rand_param_idx: if u.rand_param_idx >= 7 {
                        7
                    } else {
                        (u.rand_param_idx + 1) as u8
                    },
                    ..u
                },
                _ => u,
            },
            FocusPanel::Cli => match key {
                KeyCodeSimple::Enter => submit_spec(u, ts),
                KeyCodeSimple::Backspace => UiModel {
                    cli_line: if u.cli_line.len() > 0 {
                        u.cli_line.drop_last()
                    } else {
                        u.cli_line
                    },
                    ..u
                },
                _ => match cli_key_char(key) {
                    Some(c) => if (vstd::utf8::encode_utf8(u.cli_line).len() as usize) < CLI_LINE_MAX_BYTES {
                        UiModel { cli_line: u.cli_line.push(c), ..u }
                    } else {
                        u
                    },
                    None => u,
                },
            },
        }
    }
}

/// The commands and other actions of a key press; `device` is the device
/// name the UI holds afterwards.
pub open spec fn key_actions(
    key: KeyCodeSimple,
    u: UiModel,
    s: StateModel,
    ts: u64,
    device: String,
    a: UiActions,
) -> bool {
    if key_is_global(key, u) {
        match global_key_command(key) {
            Some(InputCommand::SetFocus(_)) => no_actions(a),
            Some(cmd) => only_cmds(a, seq![cmd]),
            None => no_actions(a),
        }
    } else {
        match u.focus {
            FocusPanel::Sequencer => match key {
                KeyCodeSimple::Left => only_cmds(a, seq![InputCommand::StepSelectDelta(-1i8)]),
                KeyCodeSimple::Right => only_cmds(a, seq![InputCommand::StepSelectDelta(1i8)]),
                _ => match panel_key_command(key, FocusPanel::Sequencer) {
                    Some(c) => only_cmds(a, seq![c]),
                    None => no_actions(a),
                },
            },
            FocusPanel::SeqParams => match key {
                KeyCodeSimple::Left | KeyCodeSimple::Right => only_cmds(
                    a,
                    seq![InputCommand::PanelParamSelect(key_spec(key, u, ts).seq_param_idx)],
                ),
                KeyCodeSimple::Up => only_cmds(a, seq![InputCommand::PanelParamDelta(1i8)]),
                KeyCodeSimple::Down => only_cmds(a, seq![InputCommand::PanelParamDelta(-1i8)]),
                _ => no_actions(a),
            },
            FocusPanel::RandParams => match key {
                KeyCodeSimple::Left | KeyCodeSimple::Right => only_cmds(
                    a,
                    seq![InputCommand::RandParamSelect(key_spec(key, u, ts).rand_param_idx)],
                ),
                KeyCodeSimple::Up => only_cmds(a, seq![InputCommand::RandParamDelta(1i8)]),
                KeyCodeSimple::Down => only_cmds(a, seq![InputCommand::RandParamDelta(-1i8)]),
                _ => no_actions(a),
            },
            FocusPanel::Cli => match key {
                KeyCodeSimple::Enter => submit_actions(u, s, ts, device, a),
                _ => no_actions(a),
            },
        }
    }
}

fn keys_in_cli(key: KeyCodeSimple, ui: &mut UiState) -> (a: UiActions)
    requires
        old(ui).focus == FocusPanel::Cli,
        key != KeyCodeSimple::Enter,
    ensures
        !key_is_global(key, old(ui)@) ==> final(ui)@ == key_spec(key, old(ui)@, 0),
        no_actions(a),
        final(ui).midi_device_name == old(ui).midi_device_name,
{
    match key {
        KeyCodeSimple::Backspace => {
            let shorter = crate::text::without_last_char(ui.cli_line.as_str());
            ui.cli_line = shorter;
        },
        _ => {
            if let Some(c) = cli_key_to_char(key) {
                if ui.cli_line.as_str().len() < CLI_LINE_MAX_BYTES {
                    crate::text::push_char(&mut ui.cli_line, c);
                }
            }
        },
    }
    nothing()
}

/// Dispatch a key press to the handler for the current focus.
///
/// F1–F4, +/- and P/p act globally, except that in the CLI panel only
/// F1–F4 do (the others type characters). Arrow keys move the selection in
/// the panels (mirrored into the UI state) and send the matching command;
/// in the CLI panel Enter submits the line, Backspace deletes and other
/// keys type, up to 256 bytes.
#[verifier::spinoff_prover]
#[verifier::rlimit(40)]
pub fn translate_key(key: KeyCodeSimple, ui: &mut UiState, state: &SequencerState, ts: u64) -> (a: UiActions)
    ensures
        final(ui)@ == key_spec(key, old(ui)@, ts),
        key_actions(key, old(ui)@, state@, ts, final(ui).midi_device_name, a),
{
    if let Some(cmd) = global_key_to_command(key) {
        let is_set_focus = match cmd {
            InputCommand::SetFocus(_) => true,
            _ => false,
        };
        if is_set_focus || ui.focus != FocusPanel::Cli {
            match cmd {
                InputCommand::SetFocus(panel) => {
                    ui.focus = panel;
                    return nothing();
                },
                other => {
                    return one_cmd(other);
                },
            }
        }
    }
    match ui.focus {
        FocusPanel::Sequencer => match key {
            KeyCodeSimple::Left => {
                ui.selected_step = (ui.selected_step % 16 + 15) % 16;
                one_cmd(InputCommand::StepSelectDelta(-1))
            },
            KeyCodeSimple::Right => {
                ui.selected_step = (ui.selected_step % 16 + 1) % 16;
                one_cmd(InputCommand::StepSelectDelta(1))
            },
            _ => match panel_key_to_command(key, FocusPanel::Sequencer) {
                Some(c) => one_cmd(c),
                None => nothing(),
            },
        },
        FocusPanel::SeqParams => match key {
            KeyCodeSimple::Left => {
                ui.seq_param_idx = if ui.seq_param_idx > 0 {
                    ui.seq_param_idx - 1
                } else {
                    0
                };
                one_cmd(InputCommand::PanelParamSelect(ui.seq_param_idx))
            },
            KeyCodeSimple::Right => {
                ui.seq_param_idx = if ui.seq_param_idx >= 7 {
                    7
                } else {
                    ui.seq_param_idx + 1
                };
                one_cmd(InputCommand::PanelParamSelect(ui.seq_param_idx))
            },
            KeyCodeSimple::Up => one_cmd(InputCommand::PanelParamDelta(1)),
            KeyCodeSimple::Down => one_cmd(InputCommand::PanelParamDelta(-1)),
            _ => nothing(),
        },
        FocusPanel::RandParams => match key {
            KeyCodeSimple::Left => {
                ui.rand_param_idx = if ui.rand_param_idx > 0 {
                    ui.rand_param_idx - 1
                } else {
                    0
                };
                one_cmd(InputCommand::RandParamSelect(ui.rand_param_idx))
            },
            KeyCodeSimple::Right => {
                ui.rand_param_idx = if ui.rand_param_idx >= 7 {
                    7
                } else {
                    ui.rand_param_idx + 1
                };
                one_cmd(InputCommand::RandParamSelect(ui.rand_param_idx))
            },
            KeyCodeSimple::Up => one_cmd(InputCommand::RandParamDelta(1)),
            KeyCodeSimple::Down => one_cmd(InputCommand::RandParamDelta(-1)),
            _ => nothing(),
        },
        FocusPanel::Cli => match key {
            KeyCodeSimple::Enter => handle_cli_submit(ui, state, ts),
            _ => keys_in_cli(key, ui),
        },
    }
}

// ── Port listings ─────────────────────────────────────────────────────────────

proof fn lemma_split_shift(x: Seq<char>, y: Seq<char>, sep: char, j: int, cur: Seq<char>)
    requires
        0 <= j <= y.len(),
    ensures
        split_on_from(x + y, sep, x.len() + j, cur) == split_on_from(y, sep, j, cur),
    decreases y.len() - j,
{
    if j < y.len() {
        assert((x + y)[x.len() + j] == y[j]);
        lemma_split_shift(x, y, sep, j + 1, seq![]);
        lemma_split_shift(x, y, sep, j + 1, cur.push(y[j]));
    }
}

proof fn lemma_split_scan(s: Seq<char>, sep: char, i: int, k: int, cur: Seq<char>)
    requires
        0 <= i,
        0 <= k,
        i + k <= s.len(),
        forall|t: int| i <= t < i + k ==> s[t] != sep,
    ensures
        split_on_from(s, sep, i, cur) == split_on_from(s, sep, i + k, cur + s.subrange(i, i + k)),
    decreases k,
{
    if k == 0 {
        assert(cur + s.subrange(i, i) =~= cur);
    } else {
        lemma_split_scan(s, sep, i + 1, k - 1, cur.push(s[i]));
        assert(cur.push(s[i]) + s.subrange(i + 1, i + k) =~= cur + s.subrange(i, i + k));
    }
}

proof fn lemma_split_join(names: Seq<Seq<char>>, sep: char)
    requires
        names.len() >= 1,
        forall|k: int, j: int| 0 <= k < names.len() && 0 <= j < names[k].len() ==> names[k][j] != sep,
    ensures
        split_on(join_on(names, sep), sep) == names,
    decreases names.len(),
{
    let n0 = names[0];
    if names.len() == 1 {
        lemma_split_scan(n0, sep, 0, n0.len() as int, seq![]);
        assert(Seq::<char>::empty() + n0.subrange(0, n0.len() as int) =~= n0);
        assert(names =~= seq![n0]);
    } else {
        let rest = names.drop_first();
        let jr = join_on(rest, sep);
        let head = n0 + seq![sep];
        let j = join_on(names, sep);
        assert(j == head + jr);
        lemma_split_join(rest, sep);
        assert forall|t: int| 0 <= t < n0.len() implies j[t] != sep by {
            assert(j[t] == n0[t]);
        }
        lemma_split_scan(j, sep, 0, n0.len() as int, seq![]);
        assert(j.subrange(0, n0.len() as int) =~= n0);
        assert(Seq::<char>::empty() + n0 =~= n0);
        assert(j[n0.len() as int] == sep);
        lemma_split_shift(head, jr, sep, 0, seq![]);
        assert(names =~= seq![n0] + rest);
    }
}

/// A port listing the MIDI output sends is logged back as one info line
/// per port, in order, as long as the names do not contain the separator
/// and the listing is not a single empty name.
pub proof fn law_port_listing_roundtrip(names: Seq<Seq<char>>)
    requires
        names.len() >= 1,
        !(names.len() == 1 && names[0].len() == 0),
        forall|k: int, j: int|
            0 <= k < names.len() && 0 <= j < names[k].len() ==> names[k][j] != PORT_NAME_SEPARATOR,
    ensures
        ports_sentinel_spec(true, port_listing_chars(names)) == Some(
            names.map_values(|n: Seq<char>| (LogTag::Info, n)),
        ),
{
    reveal_strlit("[ports]");
    let j = join_on(names, PORT_NAME_SEPARATOR);
    let msg = port_listing_chars(names);
    assert(msg.subrange(0, 7) =~= "[ports]"@);
    assert(msg.subrange(7, msg.len() as int) =~= j);
    if names.len() == 1 {
        assert(j.len() > 0);
    } else {
        assert(j.len() > 0) by {
            assert(j == names[0] + seq![PORT_NAME_SEPARATOR] + join_on(names.drop_first(), PORT_NAME_SEPARATOR));
        }
    }
    lemma_split_join(names, PORT_NAME_SEPARATOR);
}

/// The CLI log never holds more than `CLI_LOG_CAPACITY` entries, and the
/// entry pushed last is the newest.
pub proof fn law_log_capacity(lines: Seq<LogLine>, line: LogLine)
    requires
        lines.len() <= CLI_LOG_CAPACITY,
    ensures
        pushed(lines, line).len() <= CLI_LOG_CAPACITY,
        pushed(lines, line).last() == line,
        lines.len() < CLI_LOG_CAPACITY ==> pushed(lines, line) == lines.push(line),
{
}

} // verus!
