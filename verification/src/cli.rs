//! Command-line argument parsing for the engine binary.

use vstd::prelude::*;

use crate::text::{
    chars_of, has_prefix, hex_chars, hex_chars_padded, int_error_chars, int_error_text,
    lemma_hex_reads_back, parse_unsigned, parse_unsigned_spec, push_str, str_eq, IntErrorKind,
};

verus! {

/// Parsed CLI arguments.
pub struct CliArgs {
    /// MIDI port name substring to match (None = first available).
    pub midi_port: Option<String>,
    /// HID Vendor ID override (None = use HID_VID constant).
    pub hid_vid: Option<u16>,
    /// HID Product ID override (None = use HID_PID constant).
    pub hid_pid: Option<u16>,
}

/// `s` with one leading `0x` or `0X` removed.
pub open spec fn strip_hex_prefix(s: Seq<char>) -> Seq<char> {
    if has_prefix(s, "0x"@) || has_prefix(s, "0X"@) {
        s.subrange(2, s.len() as int)
    } else {
        s
    }
}

/// The outcome of parsing `s` as a hexadecimal `u16`: the value, or the
/// message `invalid hex '<s>': <reason>` with std's reason.
pub open spec fn parse_hex_u16_spec(s: Seq<char>) -> Result<u16, Seq<char>> {
    match parse_unsigned_spec(strip_hex_prefix(s), 16, 0xFFFF) {
        Ok(v) => Ok(v as u16),
        Err(k) => Err("invalid hex '"@ + s + "': "@ + int_error_chars(k)),
    }
}

/// An ID written as `0x` and its upper-case hexadecimal digits, as the
/// usage text shows `--hid-vid 0xCAFE`, is read back as the same ID.
pub proof fn law_hex_id_reads_back(v: u16)
    ensures
        parse_hex_u16_spec("0x"@ + hex_chars(v as nat)) == Ok::<u16, Seq<char>>(v),
{
    reveal_strlit("0x");
    let h = hex_chars(v as nat);
    let s = "0x"@ + h;
    assert(s.subrange(0, 2) =~= "0x"@);
    assert(s.subrange(2, s.len() as int) =~= h);
    lemma_hex_reads_back(v as nat, 0, 0xFFFF);
    assert(hex_chars_padded(v as nat, 0) == h);
}

/// Parse a hex string (with or without leading "0x") into a u16.
pub fn parse_hex_u16(s: &str) -> (r: Result<u16, String>)
    ensures
        match parse_hex_u16_spec(s@) {
            Ok(v) => r == Ok::<u16, String>(v),
            Err(m) => (r matches Err(e) && e@ == m),
        },
{
    let cs = chars_of(s);
    proof {
        reveal_strlit("0x");
        reveal_strlit("0X");
    }
    let start: usize = if cs.len() >= 2 && cs[0] == '0' && (cs[1] == 'x' || cs[1] == 'X') {
        assert(has_prefix(s@, "0x"@) || has_prefix(s@, "0X"@)) by {
            if cs@[1] == 'x' {
                assert(s@.subrange(0, 2) =~= "0x"@);
            } else {
                assert(s@.subrange(0, 2) =~= "0X"@);
            }
        }
        2
    } else {
        assert(!has_prefix(s@, "0x"@) && !has_prefix(s@, "0X"@)) by {
            if s@.len() >= 2 {
                assert(s@.subrange(0, 2)[0] == s@[0]);
                assert(s@.subrange(0, 2)[1] == s@[1]);
            }
        }
        0
    };
    let mut digits: Vec<char> = Vec::new();
    let mut k: usize = start;
    while k < cs.len()
        invariant
            start <= k <= cs@.len(),
            digits@ == cs@.subrange(start as int, k as int),
        decreases cs.len() - k,
    {
        digits.push(cs[k]);
        k = k + 1;
        assert(digits@ =~= cs@.subrange(start as int, k as int));
    }
    assert(digits@ == strip_hex_prefix(s@));
    match parse_unsigned(digits.as_slice(), 16, 0xFFFF) {
        Ok(v) => Ok(v as u16),
        Err(kind) => {
            let mut e = "invalid hex '".to_owned();
            push_str(&mut e, s);
            push_str(&mut e, "': ");
            push_str(&mut e, int_error_text(kind).as_str());
            Err(e)
        },
    }
}

/// The parsed arguments as plain values.
pub struct ArgsModel {
    pub midi_port: Option<Seq<char>>,
    pub hid_vid: Option<u16>,
    pub hid_pid: Option<u16>,
    /// Messages about arguments that were ignored, in order.
    pub warnings: Seq<Seq<char>>,
}

/// The effect of the arguments from `i` on: `--midi-port` takes the next
/// argument (none when it is missing); `--hid-vid` and `--hid-pid` take the
/// next argument as hexadecimal, keeping the previous value and warning
/// when it does not parse; anything else is warned about and skipped.
pub open spec fn args_from(args: Seq<Seq<char>>, i: int, acc: ArgsModel) -> ArgsModel
    decreases args.len() + 1 - i,
{
    if i < 0 || i >= args.len() {
        acc
    } else if args[i] == "--midi-port"@ {
        args_from(
            args,
            i + 2,
            ArgsModel {
                midi_port: if i + 1 < args.len() {
                    Some(args[i + 1])
                } else {
                    None
                },
                ..acc
            },
        )
    } else if args[i] == "--hid-vid"@ {
        if i + 1 < args.len() {
            match parse_hex_u16_spec(args[i + 1]) {
                Ok(v) => args_from(args, i + 2, ArgsModel { hid_vid: Some(v), ..acc }),
                Err(m) => args_from(
                    args,
                    i + 2,
                    ArgsModel { warnings: acc.warnings.push("[main] --hid-vid: "@ + m), ..acc },
                ),
            }
        } else {
            acc
        }
    } else if args[i] == "--hid-pid"@ {
        if i + 1 < args.len() {
            match parse_hex_u16_spec(args[i + 1]) {
                Ok(v) => args_from(args, i + 2, ArgsModel { hid_pid: Some(v), ..acc }),
                Err(m) => args_from(
                    args,
                    i + 2,
                    ArgsModel { warnings: acc.warnings.push("[main] --hid-pid: "@ + m), ..acc },
                ),
            }
        } else {
            acc
        }
    } else {
        args_from(
            args,
            i + 1,
            ArgsModel {
                warnings: acc.warnings.push("[main] unknown argument: "@ + args[i]),
                ..acc
            },
        )
    }
}

/// The characters of each argument.
pub open spec fn arg_views(args: Seq<String>) -> Seq<Seq<char>> {
    args.map_values(|a: String| a@)
}

/// The parsed arguments: all fields unset, no warnings, then every argument
/// in turn (see `args_from`).
pub open spec fn parse_args_spec(args: Seq<String>) -> ArgsModel {
    args_from(
        arg_views(args),
        0,
        ArgsModel { midi_port: None, hid_vid: None, hid_pid: None, warnings: Seq::empty() },
    )
}

/// The arguments as plain values.
pub open spec fn args_model(a: CliArgs, warnings: Seq<Seq<char>>) -> ArgsModel {
    ArgsModel {
        midi_port: match a.midi_port {
            Some(p) => Some(p@),
            None => None,
        },
        hid_vid: a.hid_vid,
        hid_pid: a.hid_pid,
        warnings,
    }
}

/// Parse CLI arguments (as `std::env::args().skip(1)` yields them), with the
/// messages about ignored arguments.
pub fn parse_args_with_warnings(args: &[String]) -> (r: (CliArgs, Vec<String>))
    ensures
        args_model(r.0, arg_views(r.1@)) == parse_args_spec(args@),
{
    let mut midi_port: Option<String> = None;
    let mut hid_vid: Option<u16> = None;
    let mut hid_pid: Option<u16> = None;
    let mut warnings: Vec<String> = Vec::new();
    let mut i: usize = 0;
    let ghost views = arg_views(args@);
    assert(arg_views(warnings@) =~= Seq::<Seq<char>>::empty());
    while i < args.len()
        invariant
            i <= args@.len(),
            views == arg_views(args@),
            views.len() == args@.len(),
            parse_args_spec(args@) == args_from(
                views,
                i as int,
                args_model(CliArgs { midi_port, hid_vid, hid_pid }, arg_views(warnings@)),
            ),
        decreases args.len() - i,
    {
        let ghost before = arg_views(warnings@);
        let ghost i0 = i as int;
        let ghost m0 = args_model(CliArgs { midi_port, hid_vid, hid_pid }, before);
        let arg = args[i].as_str();
        assert(arg@ == views[i as int]);
        if str_eq(arg, "--midi-port") {
            if i + 1 < args.len() {
                assert(args@[i + 1]@ == views[i + 1]);
                midi_port = Some(args[i + 1].clone());
                i = i + 2;
            } else {
                midi_port = None;
                i = i + 1;
                assert(args_from(views, i0 + 2, ArgsModel { midi_port: None, ..m0 }) == ArgsModel {
                    midi_port: None,
                    ..m0
                });
            }
        } else if str_eq(arg, "--hid-vid") {
            if i + 1 < args.len() {
                assert(args@[i + 1]@ == views[i + 1]);
                match parse_hex_u16(args[i + 1].as_str()) {
                    Ok(v) => hid_vid = Some(v),
                    Err(e) => {
                        let mut w = "[main] --hid-vid: ".to_owned();
                        push_str(&mut w, e.as_str());
                        warnings.push(w);
                        assert(arg_views(warnings@) =~= before.push(w@));
                    },
                }
                i = i + 2;
            } else {
                i = args.len();
            }
        } else if str_eq(arg, "--hid-pid") {
            if i + 1 < args.len() {
                assert(args@[i + 1]@ == views[i + 1]);
                match parse_hex_u16(args[i + 1].as_str()) {
                    Ok(v) => hid_pid = Some(v),
                    Err(e) => {
                        let mut w = "[main] --hid-pid: ".to_owned();
                        push_str(&mut w, e.as_str());
                        warnings.push(w);
                        assert(arg_views(warnings@) =~= before.push(w@));
                    },
                }
                i = i + 2;
            } else {
                i = args.len();
            }
        } else {
            let mut w = "[main] unknown argument: ".to_owned();
            push_str(&mut w, arg);
            warnings.push(w);
            assert(arg_views(warnings@) =~= before.push(w@));
            i = i + 1;
        }
    }
    (CliArgs { midi_port, hid_vid, hid_pid }, warnings)
}

/// Parse CLI arguments (as `std::env::args().skip(1)` yields them); messages
/// about ignored arguments are dropped.
pub fn parse_args_from_iter(args: Vec<String>) -> (r: CliArgs)
    ensures
        ({
            let m = parse_args_spec(args@);
            &&& r.hid_vid == m.hid_vid
            &&& r.hid_pid == m.hid_pid
            &&& match r.midi_port {
                Some(p) => m.midi_port == Some(p@),
                None => m.midi_port is None,
            }
        }),
{
    let (a, _warnings) = parse_args_with_warnings(args.as_slice());
    a
}

} // verus!
