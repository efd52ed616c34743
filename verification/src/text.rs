//! Character-level text helpers: reading a string as characters, building
//! strings, decimal and hexadecimal rendering, whitespace handling and the
//! integer parsers used by the command line.

use vstd::prelude::*;

verus! {

/// Appends one character to a string.
///
/// Wraps `String::push`; the contract claims that the string's characters
/// afterwards are the old characters followed by `c`.
#[verifier::external_body]
pub(crate) fn push_char(s: &mut String, c: char)
    ensures
        final(s)@ == old(s)@.push(c),
{
    s.push(c);
}

/// The characters of a string slice.
pub fn chars_of(s: &str) -> (v: Vec<char>)
    ensures
        v@ == s@,
{
    let n = s.unicode_len();
    let mut v: Vec<char> = Vec::new();
    let mut i: usize = 0;
    while i < n
        invariant
            n == s@.len(),
            i <= n,
            v@ == s@.subrange(0, i as int),
        decreases n - i,
    {
        let c = s.get_char(i);
        v.push(c);
        i = i + 1;
    }
    v
}

/// Appends a sequence of characters to a string.
pub fn push_chars(s: &mut String, cs: &[char])
    ensures
        final(s)@ == old(s)@ + cs@,
{
    let mut i: usize = 0;
    while i < cs.len()
        invariant
            i <= cs@.len(),
            s@ == old(s)@ + cs@.subrange(0, i as int),
        decreases cs.len() - i,
    {
        push_char(s, cs[i]);
        proof {
            assert(cs@.subrange(0, i + 1) == cs@.subrange(0, i as int).push(cs@[i as int]));
        }
        i = i + 1;
    }
    proof {
        assert(cs@.subrange(0, cs@.len() as int) == cs@);
    }
}

/// A string holding the given characters.
pub fn string_from_chars(cs: &[char]) -> (s: String)
    ensures
        s@ == cs@,
{
    let mut s = String::new();
    push_chars(&mut s, cs);
    s
}

/// Appends the characters of a string slice to a string.
pub fn push_str(s: &mut String, t: &str)
    ensures
        final(s)@ == old(s)@ + t@,
{
    s.append(t);
}

/// The ASCII digit for `d` in `0..=9`.
pub open spec fn digit_char(d: int) -> char {
    ((d + 48) as u8) as char
}

/// Decimal rendering of a natural number, without leading zeros.
pub open spec fn decimal_chars(n: nat) -> Seq<char>
    decreases n,
{
    if n < 10 {
        seq![digit_char(n as int)]
    } else {
        decimal_chars(n / 10).push(digit_char((n % 10) as int))
    }
}

/// Decimal rendering of an integer with a leading `-` when negative.
pub open spec fn signed_decimal_chars(v: int) -> Seq<char> {
    if v < 0 {
        seq!['-'] + decimal_chars((-v) as nat)
    } else {
        decimal_chars(v as nat)
    }
}

/// Decimal rendering of an integer with an explicit sign (`+` for zero and
/// positive values), as `{:+}` formats it.
pub open spec fn plus_signed_decimal_chars(v: int) -> Seq<char> {
    if v < 0 {
        seq!['-'] + decimal_chars((-v) as nat)
    } else {
        seq!['+'] + decimal_chars(v as nat)
    }
}

/// The digit character of `d` in `0..=9`.
pub fn digit_to_char(d: u64) -> (c: char)
    requires
        d < 10,
    ensures
        c == digit_char(d as int),
{
    let b: u8 = 48 + d as u8;
    b as char
}

/// Appends the decimal rendering of `n`.
pub fn push_decimal(s: &mut String, n: u64)
    ensures
        final(s)@ == old(s)@ + decimal_chars(n as nat),
    decreases n,
{
    if n < 10 {
        push_char(s, digit_to_char(n));
        proof {
            assert(decimal_chars(n as nat) == seq![digit_char(n as int)]);
        }
    } else {
        push_decimal(s, n / 10);
        push_char(s, digit_to_char(n % 10));
        proof {
            assert(decimal_chars(n as nat) == decimal_chars((n / 10) as nat).push(
                digit_char((n % 10) as int),
            ));
        }
    }
}

/// Appends the decimal rendering of a signed value (`-` when negative).
pub fn push_signed_decimal(s: &mut String, v: i64)
    ensures
        final(s)@ == old(s)@ + signed_decimal_chars(v as int),
{
    if v < 0 {
        push_char(s, '-');
        let mag: u64 = if v == i64::MIN {
            9223372036854775808u64
        } else {
            (-v) as u64
        };
        push_decimal(s, mag);
        proof {
            assert(s@ == old(s)@ + seq!['-'] + decimal_chars((-v) as nat));
        }
    } else {
        push_decimal(s, v as u64);
    }
}

/// Upper-case hexadecimal digit for `d` in `0..16`.
pub open spec fn hex_digit_char(d: int) -> char {
    if d < 10 {
        digit_char(d)
    } else {
        ((d - 10 + 65) as u8) as char
    }
}

/// Upper-case hexadecimal rendering without leading zeros.
pub open spec fn hex_chars(n: nat) -> Seq<char>
    decreases n,
{
    if n < 16 {
        seq![hex_digit_char(n as int)]
    } else {
        hex_chars(n / 16).push(hex_digit_char((n % 16) as int))
    }
}

/// Upper-case hexadecimal rendering padded with zeros to at least `w` digits,
/// as `{:0w$X}` formats it.
pub open spec fn hex_chars_padded(n: nat, w: nat) -> Seq<char> {
    let h = hex_chars(n);
    if h.len() >= w {
        h
    } else {
        Seq::new((w - h.len()) as nat, |i: int| '0') + h
    }
}

/// Appends the upper-case hexadecimal rendering of `n`.
pub fn push_hex(s: &mut String, n: u64)
    ensures
        final(s)@ == old(s)@ + hex_chars(n as nat),
    decreases n,
{
    let d = n % 16;
    let c: char = if d < 10 {
        digit_to_char(d)
    } else {
        let b: u8 = 65 + (d - 10) as u8;
        b as char
    };
    if n < 16 {
        push_char(s, c);
    } else {
        push_hex(s, n / 16);
        push_char(s, c);
    }
}

/// Appends the upper-case hexadecimal rendering of `n`, zero-padded to `w` digits.
pub fn push_hex_padded(s: &mut String, n: u64, w: usize)
    ensures
        final(s)@ == old(s)@ + hex_chars_padded(n as nat, w as nat),
{
    let mut h = String::new();
    push_hex(&mut h, n);
    let l = h.as_str().unicode_len();
    if l < w {
        let mut i: usize = 0;
        while i < w - l
            invariant
                l < w,
                i <= w - l,
                s@ == old(s)@ + Seq::new(i as nat, |j: int| '0'),
            decreases w - l - i,
        {
            push_char(s, '0');
            proof {
                assert(Seq::new((i + 1) as nat, |j: int| '0') == Seq::new(i as nat, |j: int| '0').push(
                    '0',
                ));
            }
            i = i + 1;
        }
    }
    push_str(s, h.as_str());
    proof {
        if l < w {
            assert(s@ == old(s)@ + (Seq::new((w - l) as nat, |j: int| '0') + hex_chars(n as nat)));
        }
    }
}


/// Value of `c` as a digit in the given radix (`0-9`, then letters of either
/// case), if it is one.
pub open spec fn radix_digit(c: char, radix: int) -> Option<int> {
    let v = if '0' <= c <= '9' {
        c as int - 48
    } else if 'a' <= c <= 'z' {
        c as int - 97 + 10
    } else if 'A' <= c <= 'Z' {
        c as int - 65 + 10
    } else {
        radix
    };
    if v < radix {
        Some(v)
    } else {
        None
    }
}

/// Value of a string of digits in the given radix, most significant first;
/// `None` when some character is not a digit. The empty string has value 0.
pub open spec fn digits_value(t: Seq<char>, radix: int) -> Option<int>
    decreases t.len(),
{
    if t.len() == 0 {
        Some(0)
    } else {
        match digits_value(t.drop_last(), radix) {
            None => None,
            Some(v) => match radix_digit(t.last(), radix) {
                None => None,
                Some(d) => Some(v * radix + d),
            },
        }
    }
}

/// Integer parsing as std's `from_str_radix` does it for a type whose range
/// is `lo..=hi`: an optional `+` (or `-` when `lo < 0`), then at least one
/// digit; `None` when the text is malformed or the value is out of range.
pub open spec fn parse_int_chars(t: Seq<char>, radix: int, lo: int, hi: int) -> Option<int> {
    let neg = parse_negative(t, lo);
    let body = parse_body(t, lo);
    if body.len() == 0 {
        None
    } else {
        match digits_value(body, radix) {
            None => None,
            Some(v) => {
                let x = if neg {
                    -v
                } else {
                    v
                };
                if lo <= x <= hi {
                    Some(x)
                } else {
                    None
                }
            },
        }
    }
}

/// The text starts with a minus sign that the range admits.
pub open spec fn parse_negative(t: Seq<char>, lo: int) -> bool {
    t.len() > 0 && t[0] == '-' && lo < 0
}

/// The text after an admitted sign.
pub open spec fn parse_body(t: Seq<char>, lo: int) -> Seq<char> {
    if t.len() > 0 && (t[0] == '+' || parse_negative(t, lo)) {
        t.drop_first()
    } else {
        t
    }
}

proof fn lemma_digits_value_nonneg(t: Seq<char>, radix: int)
    requires
        radix >= 2,
    ensures
        digits_value(t, radix) matches Some(v) ==> v >= 0,
    decreases t.len(),
{
    if t.len() > 0 {
        lemma_digits_value_nonneg(t.drop_last(), radix);
    }
}

/// Once a prefix is too large, every extension is too large or malformed.
proof fn lemma_digits_value_grows(t: Seq<char>, i: int, radix: int, bound: int)
    requires
        radix >= 2,
        0 <= i <= t.len(),
        bound >= 0,
        digits_value(t.subrange(0, i), radix) matches Some(v) && v > bound,
    ensures
        digits_value(t, radix) matches Some(w) ==> w > bound,
    decreases t.len() - i,
{
    if i < t.len() {
        let p = t.subrange(0, i + 1);
        assert(p.drop_last() == t.subrange(0, i));
        assert(p.last() == t[i]);
        lemma_digits_value_nonneg(t.subrange(0, i), radix);
        if digits_value(p, radix) is Some {
            let v = digits_value(t.subrange(0, i), radix)->0;
            let d = radix_digit(t[i], radix)->0;
            assert(v * radix >= v) by (nonlinear_arith)
                requires
                    v >= 0,
                    radix >= 2,
            ;
        }
        if digits_value(p, radix) is Some {
            lemma_digits_value_grows(t, i + 1, radix, bound);
        } else {
            lemma_none_extends(t, i + 1, radix);
        }
    } else {
        assert(t.subrange(0, i) == t);
    }
}

/// A malformed prefix makes every extension malformed.
proof fn lemma_none_extends(t: Seq<char>, i: int, radix: int)
    requires
        0 <= i <= t.len(),
        digits_value(t.subrange(0, i), radix) is None,
    ensures
        digits_value(t, radix) is None,
    decreases t.len() - i,
{
    if i < t.len() {
        let p = t.subrange(0, i + 1);
        assert(p.drop_last() == t.subrange(0, i));
        lemma_none_extends(t, i + 1, radix);
    } else {
        assert(t.subrange(0, i) == t);
    }
}

/// The digit value of a character in the given radix.
fn char_digit(c: char, radix: u32) -> (r: Option<u32>)
    requires
        2 <= radix <= 36,
    ensures
        r matches Some(v) ==> radix_digit(c, radix as int) == Some(v as int),
        r is None ==> radix_digit(c, radix as int) is None,
{
    let v: u32 = if '0' <= c && c <= '9' {
        (c as u32) - 48
    } else if 'a' <= c && c <= 'z' {
        (c as u32) - 97 + 10
    } else if 'A' <= c && c <= 'Z' {
        (c as u32) - 65 + 10
    } else {
        radix
    };
    if v < radix {
        Some(v)
    } else {
        None
    }
}

/// Parses an integer of the range `lo..=hi` written in `radix`, as std's
/// `from_str_radix` does for a type with that range.
pub fn parse_int(t: &[char], radix: u32, lo: i64, hi: i64) -> (r: Option<i64>)
    requires
        2 <= radix <= 36,
        -0x1_0000_0000 <= lo <= 0 <= hi <= 0x1_0000_0000,
    ensures
        r matches Some(x) ==> parse_int_chars(t@, radix as int, lo as int, hi as int) == Some(
            x as int,
        ),
        r is None ==> parse_int_chars(t@, radix as int, lo as int, hi as int) is None,
{
    let n = t.len();
    let neg = n > 0 && t[0] == '-' && lo < 0;
    let start: usize = if n > 0 && (t[0] == '+' || neg) {
        1
    } else {
        0
    };
    let ghost body = parse_body(t@, lo as int);
    proof {
        assert(neg == parse_negative(t@, lo as int));
        assert(body == t@.subrange(start as int, n as int));
    }
    if start >= n {
        return None;
    }
    let bound: i64 = if neg {
        -lo
    } else {
        hi
    };
    let mut v: i64 = 0;
    let mut i: usize = start;
    while i < n
        invariant
            2 <= radix <= 36,
            start <= i <= n,
            n == t@.len(),
            body == t@.subrange(start as int, n as int),
            body == parse_body(t@, lo as int),
            body.len() > 0,
            neg == parse_negative(t@, lo as int),
            bound == (if neg { -lo } else { hi as int }),
            -0x1_0000_0000 <= lo <= 0 <= hi <= 0x1_0000_0000,
            0 <= bound <= 0x1_0000_0000,
            0 <= v <= bound,
            digits_value(body.subrange(0, i - start), radix as int) == Some(v as int),
        decreases n - i,
    {
        let ghost pre = body.subrange(0, i - start);
        let ghost pre1 = body.subrange(0, i - start + 1);
        proof {
            assert(pre1.drop_last() == pre);
            assert(pre1.last() == t@[i as int]);
        }
        match char_digit(t[i], radix) {
            None => {
                proof {
                    assert(digits_value(pre1, radix as int) is None);
                    lemma_none_extends(body, i - start + 1, radix as int);
                }
                return None;
            },
            Some(d) => {
                proof {
                    assert(v * (radix as int) <= 0x1_0000_0000 * 36) by (nonlinear_arith)
                        requires
                            0 <= v <= 0x1_0000_0000,
                            radix <= 36,
                    ;
                    assert(v * (radix as int) >= 0) by (nonlinear_arith)
                        requires
                            0 <= v,
                            radix >= 0,
                    ;
                }
                let nv = v * (radix as i64) + d as i64;
                if nv > bound {
                    proof {
                        lemma_digits_value_grows(body, i - start + 1, radix as int, bound as int);
                    }
                    return None;
                }
                v = nv;
            },
        }
        i = i + 1;
    }
    proof {
        assert(body.subrange(0, n - start) == body);
    }
    if neg {
        Some(-v)
    } else {
        Some(v)
    }
}

// ── Whitespace, trimming, splitting and searching ──────────────────────────

/// Unicode `White_Space`, as `char::is_whitespace` defines it.
pub open spec fn is_ws(c: char) -> bool {
    ||| '\u{9}' <= c <= '\u{d}'
    ||| c == ' '
    ||| c == '\u{85}'
    ||| c == '\u{a0}'
    ||| c == '\u{1680}'
    ||| '\u{2000}' <= c <= '\u{200a}'
    ||| c == '\u{2028}'
    ||| c == '\u{2029}'
    ||| c == '\u{202f}'
    ||| c == '\u{205f}'
    ||| c == '\u{3000}'
}

/// Whether `c` is whitespace (see `is_ws`).
pub fn is_whitespace(c: char) -> (r: bool)
    ensures
        r == is_ws(c),
{
    ('\u{9}' <= c && c <= '\u{d}') || c == ' ' || c == '\u{85}' || c == '\u{a0}' || c
        == '\u{1680}' || ('\u{2000}' <= c && c <= '\u{200a}') || c == '\u{2028}' || c
        == '\u{2029}' || c == '\u{202f}' || c == '\u{205f}' || c == '\u{3000}'
}

/// `s` without its leading whitespace.
pub open spec fn trim_start(s: Seq<char>) -> Seq<char>
    decreases s.len(),
{
    if s.len() > 0 && is_ws(s[0]) {
        trim_start(s.drop_first())
    } else {
        s
    }
}

/// `s` without its trailing whitespace.
pub open spec fn trim_end(s: Seq<char>) -> Seq<char>
    decreases s.len(),
{
    if s.len() > 0 && is_ws(s.last()) {
        trim_end(s.drop_last())
    } else {
        s
    }
}

/// `s` without leading and trailing whitespace.
pub open spec fn trim(s: Seq<char>) -> Seq<char> {
    trim_end(trim_start(s))
}

/// The characters of `s` without leading and trailing whitespace.
pub fn trim_chars(s: &[char]) -> (r: Vec<char>)
    ensures
        r@ == trim(s@),
{
    let n = s.len();
    let mut i: usize = 0;
    assert(s@.subrange(0, n as int) =~= s@);
    while i < n && is_whitespace(s[i])
        invariant
            0 <= i <= n,
            n == s@.len(),
            trim_start(s@) == trim_start(s@.subrange(i as int, n as int)),
        decreases n - i,
    {
        assert(s@.subrange(i as int, n as int).drop_first() =~= s@.subrange(i + 1, n as int));
        i = i + 1;
    }
    let ghost t = s@.subrange(i as int, n as int);
    assert(trim_start(s@) == t);
    let mut j: usize = n;
    while j > i && is_whitespace(s[j - 1])
        invariant
            0 <= i <= j <= n,
            n == s@.len(),
            trim_end(t) == trim_end(s@.subrange(i as int, j as int)),
        decreases j - i,
    {
        assert(s@.subrange(i as int, j as int).drop_last() =~= s@.subrange(i as int, j - 1));
        j = j - 1;
    }
    let mut r: Vec<char> = Vec::new();
    let mut k: usize = i;
    while k < j
        invariant
            i <= k <= j <= n,
            n == s@.len(),
            r@ == s@.subrange(i as int, k as int),
        decreases j - k,
    {
        r.push(s[k]);
        k = k + 1;
        assert(r@ =~= s@.subrange(i as int, k as int));
    }
    r
}

/// The words of `s[i..]` (maximal runs of non-whitespace), the first of
/// which starts with the characters `cur` already read.
pub open spec fn split_ws_from(s: Seq<char>, i: int, cur: Seq<char>) -> Seq<Seq<char>>
    decreases s.len() - i,
{
    if i >= s.len() || i < 0 {
        if cur.len() > 0 {
            seq![cur]
        } else {
            seq![]
        }
    } else if is_ws(s[i]) {
        (if cur.len() > 0 {
            seq![cur]
        } else {
            seq![]
        }) + split_ws_from(s, i + 1, seq![])
    } else {
        split_ws_from(s, i + 1, cur.push(s[i]))
    }
}

/// The whitespace-separated words of `s`, as `str::split_whitespace` gives them.
pub open spec fn words(s: Seq<char>) -> Seq<Seq<char>> {
    split_ws_from(s, 0, seq![])
}

/// The views of a vector of character vectors.
pub open spec fn views(v: Seq<Vec<char>>) -> Seq<Seq<char>> {
    v.map_values(|w: Vec<char>| w@)
}

/// The whitespace-separated words of `s` (see `words`).
pub fn split_words(s: &[char]) -> (r: Vec<Vec<char>>)
    ensures
        views(r@) == words(s@),
{
    let n = s.len();
    let mut out: Vec<Vec<char>> = Vec::new();
    let mut cur: Vec<char> = Vec::new();
    let mut i: usize = 0;
    while i < n
        invariant
            0 <= i <= n,
            n == s@.len(),
            views(out@) + split_ws_from(s@, i as int, cur@) == words(s@),
        decreases n - i,
    {
        if is_whitespace(s[i]) {
            if cur.len() > 0 {
                let ghost before = out@;
                let w = cur;
                out.push(w);
                cur = Vec::new();
                assert(views(out@) =~= views(before) + seq![w@]);
            }
            assert(cur@ =~= Seq::<char>::empty());
        } else {
            cur.push(s[i]);
        }
        i = i + 1;
    }
    if cur.len() > 0 {
        let ghost before = out@;
        let w = cur;
        out.push(w);
        assert(views(out@) =~= views(before) + seq![w@]);
    } else {
        assert(views(out@) =~= views(out@) + Seq::<Seq<char>>::empty());
    }
    out
}

/// `p` is a prefix of `s`.
pub open spec fn has_prefix(s: Seq<char>, p: Seq<char>) -> bool {
    p.len() <= s.len() && s.subrange(0, p.len() as int) == p
}

/// Whether `s` starts with `p`.
pub fn starts_with_chars(s: &[char], p: &[char]) -> (r: bool)
    ensures
        r == has_prefix(s@, p@),
{
    if p.len() > s.len() {
        return false;
    }
    let mut i: usize = 0;
    while i < p.len()
        invariant
            0 <= i <= p@.len() <= s@.len(),
            forall|k: int| 0 <= k < i ==> s@[k] == p@[k],
        decreases p.len() - i,
    {
        if s[i] != p[i] {
            assert(s@.subrange(0, p@.len() as int)[i as int] != p@[i as int]);
            return false;
        }
        i = i + 1;
    }
    assert(s@.subrange(0, p@.len() as int) =~= p@);
    true
}

/// The characters of `s` from `start` on.
pub fn chars_from(s: &[char], start: usize) -> (r: Vec<char>)
    requires
        start <= s@.len(),
    ensures
        r@ == s@.subrange(start as int, s@.len() as int),
{
    let mut r: Vec<char> = Vec::new();
    let mut k: usize = start;
    while k < s.len()
        invariant
            start <= k <= s@.len(),
            r@ == s@.subrange(start as int, k as int),
        decreases s.len() - k,
    {
        r.push(s[k]);
        k = k + 1;
        assert(r@ =~= s@.subrange(start as int, k as int));
    }
    r
}

/// `needle` occurs in `hay` at position `i`.
pub open spec fn occurs_at(hay: Seq<char>, needle: Seq<char>, i: int) -> bool {
    0 <= i && i + needle.len() <= hay.len() && hay.subrange(i, i + needle.len()) == needle
}

/// `needle` occurs somewhere in `hay`.
pub open spec fn contains_seq(hay: Seq<char>, needle: Seq<char>) -> bool {
    exists|i: int| occurs_at(hay, needle, i)
}

/// Whether `needle` occurs in `hay`.
pub fn contains_chars(hay: &[char], needle: &[char]) -> (r: bool)
    ensures
        r == contains_seq(hay@, needle@),
{
    if needle.len() > hay.len() {
        return false;
    }
    if needle.len() == 0 {
        assert(hay@.subrange(0, 0) =~= needle@);
        assert(occurs_at(hay@, needle@, 0));
        return true;
    }
    let last = hay.len() - needle.len();
    let mut i: usize = 0;
    while i <= last
        invariant
            0 <= i <= last + 1,
            last + needle@.len() == hay@.len(),
            forall|k: int| 0 <= k < i ==> !occurs_at(hay@, needle@, k),
        decreases last + 1 - i,
    {
        let mut j: usize = 0;
        let mut same = true;
        while j < needle.len()
            invariant
                0 <= j <= needle@.len(),
                i <= last,
                last + needle@.len() == hay@.len(),
                hay@.len() == hay.len(),
                same == (forall|k: int| 0 <= k < j ==> hay@[i + k] == needle@[k]),
            decreases needle.len() - j,
        {
            if hay[i + j] != needle[j] {
                same = false;
            }
            j = j + 1;
        }
        if same {
            assert(hay@.subrange(i as int, i + needle@.len()) =~= needle@);
            assert(occurs_at(hay@, needle@, i as int));
            return true;
        }
        proof {
            let k0 = choose|k: int| 0 <= k < needle@.len() && hay@[i + k] != needle@[k];
            assert(hay@.subrange(i as int, i + needle@.len())[k0] != needle@[k0]);
        }
        i = i + 1;
    }
    false
}

/// What `str::to_lowercase` returns for a string: its Unicode lower-case
/// mapping, which may turn one character into several and reads some
/// characters in context (a final capital sigma).
pub uninterp spec fn lowercase(s: Seq<char>) -> Seq<char>;

/// Lower-cases a string.
///
/// Wraps `str::to_lowercase`; the contract only names the result: the
/// characters returned are `lowercase` of the characters given.
#[verifier::external_body]
pub(crate) fn to_lowercase(s: &str) -> (r: String)
    ensures
        r@ == lowercase(s@),
{
    s.to_lowercase()
}

/// Whether two strings hold the same characters.
pub fn str_eq(a: &str, b: &str) -> (r: bool)
    ensures
        r == (a@ == b@),
{
    a.to_owned() == b.to_owned()
}

/// Why text does not parse as an unsigned integer, as std's `ParseIntError`
/// reports it.
#[derive(Clone, Copy, Debug, PartialEq, Eq, Structural)]
pub enum IntErrorKind {
    /// The text is empty.
    Empty,
    /// A character is not a digit of the radix (a lone sign counts too).
    InvalidDigit,
    /// The value is above the type's maximum.
    PosOverflow,
}

/// Reading the digits `t` after the value `acc` read so far: the first
/// character that is not a digit, or the first digit that takes the value
/// above `max`, decides the error.
pub open spec fn scan_digits(t: Seq<char>, radix: int, max: int, acc: int) -> Result<int, IntErrorKind>
    decreases t.len(),
{
    if t.len() == 0 {
        Ok(acc)
    } else {
        match radix_digit(t[0], radix) {
            None => Err(IntErrorKind::InvalidDigit),
            Some(d) => if acc * radix + d > max {
                Err(IntErrorKind::PosOverflow)
            } else {
                scan_digits(t.drop_first(), radix, max, acc * radix + d)
            },
        }
    }
}

/// Unsigned parsing as std's `from_str_radix` does it for a type whose
/// maximum is `max`: empty text, a lone sign, a non-digit or an overflow
/// are the errors; one leading `+` is allowed.
pub open spec fn parse_unsigned_spec(t: Seq<char>, radix: int, max: int) -> Result<int, IntErrorKind> {
    if t.len() == 0 {
        Err(IntErrorKind::Empty)
    } else if (t[0] == '+' || t[0] == '-') && t.len() == 1 {
        Err(IntErrorKind::InvalidDigit)
    } else if t[0] == '+' {
        scan_digits(t.drop_first(), radix, max, 0)
    } else {
        scan_digits(t, radix, max, 0)
    }
}

/// Parses an unsigned integer of at most `max` written in `radix`, with the
/// error std reports.
pub fn parse_unsigned(t: &[char], radix: u32, max: u64) -> (r: Result<u64, IntErrorKind>)
    requires
        2 <= radix <= 36,
    ensures
        match parse_unsigned_spec(t@, radix as int, max as int) {
            Ok(v) => r == Ok::<u64, IntErrorKind>(v as u64) && 0 <= v <= max,
            Err(k) => r == Err::<u64, IntErrorKind>(k),
        },
{
    let n = t.len();
    if n == 0 {
        return Err(IntErrorKind::Empty);
    }
    if (t[0] == '+' || t[0] == '-') && n == 1 {
        return Err(IntErrorKind::InvalidDigit);
    }
    let start: usize = if t[0] == '+' {
        1
    } else {
        0
    };
    let ghost body = if t@[0] == '+' {
        t@.drop_first()
    } else {
        t@
    };
    assert(body == t@.subrange(start as int, n as int));
    let mut acc: u64 = 0;
    let mut i: usize = start;
    while i < n
        invariant
            2 <= radix <= 36,
            start <= i <= n,
            n == t@.len(),
            acc <= max,
            parse_unsigned_spec(t@, radix as int, max as int) == scan_digits(body, radix as int, max as int, 0),
            scan_digits(body, radix as int, max as int, 0) == scan_digits(
                t@.subrange(i as int, n as int),
                radix as int,
                max as int,
                acc as int,
            ),
        decreases n - i,
    {
        let ghost rest = t@.subrange(i as int, n as int);
        assert(rest.drop_first() =~= t@.subrange(i + 1, n as int));
        assert(rest.len() > 0 && rest[0] == t@[i as int]);
        match char_digit(t[i], radix) {
            None => {
                return Err(IntErrorKind::InvalidDigit);
            },
            Some(d) => {
                proof {
                    assert(acc * (radix as int) <= 0xFFFF_FFFF_FFFF_FFFF * 36) by (nonlinear_arith)
                        requires
                            acc <= 0xFFFF_FFFF_FFFF_FFFF,
                            radix <= 36,
                    ;
                    assert(acc * (radix as int) >= 0) by (nonlinear_arith)
                        requires
                            acc >= 0,
                            radix >= 0,
                    ;
                }
                let next: u128 = acc as u128 * (radix as u128) + d as u128;
                if next > max as u128 {
                    return Err(IntErrorKind::PosOverflow);
                }
                acc = next as u64;
            },
        }
        i = i + 1;
    }
    assert(t@.subrange(n as int, n as int) =~= Seq::<char>::empty());
    Ok(acc)
}

/// An upper-case hexadecimal digit reads back as its value.
proof fn lemma_hex_digit_reads_back(d: int)
    requires
        0 <= d < 16,
    ensures
        radix_digit(hex_digit_char(d), 16) == Some(d),
{
    if d < 10 {
        assert((((d + 48) as u8) as char) as int == d + 48);
    } else {
        assert((((d - 10 + 65) as u8) as char) as int == d + 55);
    }
}

/// Reading the hexadecimal rendering of `n` from a zero start reaches `n`.
proof fn lemma_scan_hex(n: nat, t: Seq<char>, max: int)
    requires
        n <= max,
    ensures
        scan_digits(hex_chars(n) + t, 16, max, 0) == scan_digits(t, 16, max, n as int),
    decreases n,
{
    let d = (n % 16) as int;
    lemma_hex_digit_reads_back(d);
    if n < 16 {
        let s = hex_chars(n) + t;
        assert(s[0] == hex_digit_char(n as int));
        assert(s.drop_first() =~= t);
    } else {
        let q = n / 16;
        let rest = seq![hex_digit_char(d)] + t;
        assert(hex_chars(n) + t =~= hex_chars(q) + rest);
        lemma_scan_hex(q, rest, max);
        assert(rest.drop_first() =~= t);
        assert(q * 16 + d == n);
    }
}

/// Leading zeros read as nothing.
proof fn lemma_scan_zeros(k: nat, t: Seq<char>, max: int)
    requires
        0 <= max,
    ensures
        scan_digits(Seq::new(k, |i: int| '0') + t, 16, max, 0) == scan_digits(t, 16, max, 0),
    decreases k,
{
    if k > 0 {
        let s = Seq::new(k, |i: int| '0') + t;
        assert(s[0] == '0');
        assert(s.drop_first() =~= Seq::new((k - 1) as nat, |i: int| '0') + t);
        lemma_scan_zeros((k - 1) as nat, t, max);
    }
}

/// The padded upper-case hexadecimal rendering of `n` reads back as `n`.
pub proof fn lemma_hex_reads_back(n: nat, w: nat, max: int)
    requires
        n <= max,
    ensures
        parse_unsigned_spec(hex_chars_padded(n, w), 16, max) == Ok::<int, IntErrorKind>(n as int),
{
    let h = hex_chars(n);
    lemma_scan_hex(n, Seq::empty(), max);
    assert(h + Seq::<char>::empty() =~= h);
    assert(h.len() >= 1) by {
        reveal_with_fuel(hex_chars, 1);
    }
    if h.len() < w {
        let z = Seq::new((w - h.len()) as nat, |i: int| '0');
        lemma_scan_zeros((w - h.len()) as nat, h, max);
        assert((z + h)[0] == '0');
    } else {
        lemma_hex_first_is_digit(n);
    }
}

/// The rendering of `n` starts with a hexadecimal digit, never a sign.
proof fn lemma_hex_first_is_digit(n: nat)
    ensures
        hex_chars(n).len() >= 1,
        hex_chars(n)[0] != '+' && hex_chars(n)[0] != '-',
    decreases n,
{
    if n < 16 {
        lemma_hex_digit_reads_back(n as int);
    } else {
        lemma_hex_first_is_digit(n / 16);
    }
}

/// `c` is an upper-case hexadecimal digit.
pub open spec fn is_upper_hex_digit(c: char) -> bool {
    ('0' <= c <= '9') || ('A' <= c <= 'F')
}

/// Every character of a padded hexadecimal rendering is a hexadecimal digit.
pub proof fn lemma_hex_chars_are_digits(n: nat, w: nat)
    ensures
        hex_chars_padded(n, w).len() >= 1,
        hex_chars_padded(n, w).len() >= w,
        forall|i: int|
            0 <= i < hex_chars_padded(n, w).len() ==> is_upper_hex_digit(
                #[trigger] hex_chars_padded(n, w)[i],
            ),
{
    lemma_hex_unpadded_digits(n);
}

proof fn lemma_hex_unpadded_digits(n: nat)
    ensures
        hex_chars(n).len() >= 1,
        forall|i: int| 0 <= i < hex_chars(n).len() ==> is_upper_hex_digit(#[trigger] hex_chars(n)[i]),
    decreases n,
{
    let d = (n % 16) as int;
    lemma_hex_digit_reads_back(d);
    if d < 10 {
        assert((((d + 48) as u8) as char) as int == d + 48);
    } else {
        assert((((d - 10 + 65) as u8) as char) as int == d + 55);
    }
    if n >= 16 {
        lemma_hex_unpadded_digits(n / 16);
    }
}

/// How std's `ParseIntError` displays each kind.
pub open spec fn int_error_chars(k: IntErrorKind) -> Seq<char> {
    match k {
        IntErrorKind::Empty => "cannot parse integer from empty string"@,
        IntErrorKind::InvalidDigit => "invalid digit found in string"@,
        IntErrorKind::PosOverflow => "number too large to fit in target type"@,
    }
}

/// The display text of a parse error.
pub fn int_error_text(k: IntErrorKind) -> (r: String)
    ensures
        r@ == int_error_chars(k),
{
    match k {
        IntErrorKind::Empty => "cannot parse integer from empty string".to_owned(),
        IntErrorKind::InvalidDigit => "invalid digit found in string".to_owned(),
        IntErrorKind::PosOverflow => "number too large to fit in target type".to_owned(),
    }
}

/// The pieces of `s[i..]` between occurrences of `sep`, the first of which
/// starts with the characters `cur` already read.
pub open spec fn split_on_from(s: Seq<char>, sep: char, i: int, cur: Seq<char>) -> Seq<Seq<char>>
    decreases s.len() - i,
{
    if i >= s.len() || i < 0 {
        seq![cur]
    } else if s[i] == sep {
        seq![cur] + split_on_from(s, sep, i + 1, seq![])
    } else {
        split_on_from(s, sep, i + 1, cur.push(s[i]))
    }
}

/// The pieces of `s` between occurrences of `sep`, as `str::split` with a
/// character gives them (always at least one, possibly empty).
pub open spec fn split_on(s: Seq<char>, sep: char) -> Seq<Seq<char>> {
    split_on_from(s, sep, 0, seq![])
}

/// The pieces of `s` between occurrences of `sep` (see `split_on`).
pub fn split_chars_on(s: &[char], sep: char) -> (r: Vec<Vec<char>>)
    ensures
        views(r@) == split_on(s@, sep),
{
    let n = s.len();
    let mut out: Vec<Vec<char>> = Vec::new();
    let mut cur: Vec<char> = Vec::new();
    let mut i: usize = 0;
    while i < n
        invariant
            0 <= i <= n,
            n == s@.len(),
            views(out@) + split_on_from(s@, sep, i as int, cur@) == split_on(s@, sep),
        decreases n - i,
    {
        if s[i] == sep {
            let ghost before = out@;
            let w = cur;
            out.push(w);
            cur = Vec::new();
            assert(views(out@) =~= views(before) + seq![w@]);
            assert(cur@ =~= Seq::<char>::empty());
        } else {
            cur.push(s[i]);
        }
        i = i + 1;
    }
    let ghost before = out@;
    let w = cur;
    out.push(w);
    assert(views(out@) =~= views(before) + seq![w@]);
    out
}

/// `s` with every leading repetition of `p` removed, as
/// `str::trim_start_matches` does it.
pub open spec fn strip_all_prefix(s: Seq<char>, p: Seq<char>) -> Seq<char>
    decreases s.len(),
{
    if p.len() > 0 && has_prefix(s, p) {
        strip_all_prefix(s.subrange(p.len() as int, s.len() as int), p)
    } else {
        s
    }
}

/// `s` with every leading repetition of `p` removed (see `strip_all_prefix`).
pub fn strip_all_prefix_chars(s: &[char], p: &[char]) -> (r: Vec<char>)
    ensures
        r@ == strip_all_prefix(s@, p@),
{
    let mut cur: Vec<char> = chars_from(s, 0);
    assert(cur@ =~= s@);
    if p.len() == 0 {
        return cur;
    }
    while starts_with_chars(cur.as_slice(), p)
        invariant
            p@.len() > 0,
            strip_all_prefix(s@, p@) == strip_all_prefix(cur@, p@),
        decreases cur@.len(),
    {
        let next = chars_from(cur.as_slice(), p.len());
        cur = next;
    }
    cur
}

/// The string without its last character (unchanged when empty).
pub fn without_last_char(s: &str) -> (r: String)
    ensures
        r@ == (if s@.len() > 0 {
            s@.drop_last()
        } else {
            s@
        }),
{
    let cs = chars_of(s);
    let n = cs.len();
    let m = if n > 0 {
        n - 1
    } else {
        0
    };
    let mut r = String::new();
    let mut i: usize = 0;
    while i < m
        invariant
            i <= m <= n,
            n == s@.len(),
            cs@ == s@,
            m == (if n > 0 { n - 1 } else { 0 }),
            r@ == s@.subrange(0, i as int),
        decreases m - i,
    {
        push_char(&mut r, cs[i]);
        i = i + 1;
        assert(r@ =~= s@.subrange(0, i as int));
    }
    assert(s@.len() > 0 ==> s@.drop_last() =~= s@.subrange(0, m as int));
    assert(s@.len() == 0 ==> s@ =~= s@.subrange(0, 0));
    r
}

/// Whether two character sequences are the same.
pub fn chars_eq(a: &[char], b: &[char]) -> (r: bool)
    ensures
        r == (a@ == b@),
{
    if a.len() != b.len() {
        return false;
    }
    let mut i: usize = 0;
    while i < a.len()
        invariant
            a@.len() == b@.len(),
            0 <= i <= a@.len(),
            forall|k: int| 0 <= k < i ==> a@[k] == b@[k],
        decreases a.len() - i,
    {
        if a[i] != b[i] {
            return false;
        }
        i = i + 1;
    }
    assert(a@ =~= b@);
    true
}

/// Whether the characters `a` spell the string `lit`.
pub fn chars_are(a: &[char], lit: &str) -> (r: bool)
    ensures
        r == (a@ == lit@),
{
    let b = chars_of(lit);
    chars_eq(a, b.as_slice())
}

/// `p` is a suffix of `s`.
pub open spec fn has_suffix(s: Seq<char>, p: Seq<char>) -> bool {
    p.len() <= s.len() && s.subrange(s.len() - p.len(), s.len() as int) == p
}

/// Whether `s` ends with `p`.
pub fn ends_with_chars(s: &[char], p: &[char]) -> (r: bool)
    ensures
        r == has_suffix(s@, p@),
{
    if p.len() > s.len() {
        return false;
    }
    let off = s.len() - p.len();
    let tail = chars_from(s, off);
    chars_eq(tail.as_slice(), p)
}

} // verus!
