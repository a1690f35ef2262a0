//! Verified text helpers: character access, decimal formatting, JSON string
//! escaping, and the suffix / trim / search operations the request builder
//! needs.

use vstd::prelude::*;

verus! {

/// Relies on `FromIterator` for `String` over `char`: the string of exactly
/// these characters.
#[verifier::external_body]
pub fn chars_to_string(chars: &Vec<char>) -> (r: String)
    ensures
        r@ == chars@,
{
    chars.iter().collect()
}

/// The characters of a text, in order.
pub fn str_to_chars(s: &str) -> (r: Vec<char>)
    ensures
        r@ == s@,
{
    let n = s.unicode_len();
    let mut out: Vec<char> = Vec::new();
    let mut i: usize = 0;
    while i < n
        invariant
            n == s@.len(),
            i <= n,
            out@ =~= s@.subrange(0, i as int),
        decreases n - i,
    {
        out.push(s.get_char(i));
        i = i + 1;
    }
    proof {
        assert(s@.subrange(0, n as int) =~= s@);
    }
    out
}

/// The decimal digit character for a value below ten.
pub open spec fn digit_char(d: int) -> char
    recommends
        0 <= d < 10,
{
    (((48 + d) as u8) as char)
}

/// The decimal text of a number, most significant digit first.
pub open spec fn dec_spec(n: nat) -> Seq<char>
    decreases n,
{
    if n < 10 {
        seq![digit_char(n as int)]
    } else {
        dec_spec(n / 10) + seq![digit_char((n % 10) as int)]
    }
}

/// Format a number in decimal.
pub fn u64_to_string(n: u64) -> (r: String)
    ensures
        r@ == dec_spec(n as nat),
{
    let mut out: Vec<char> = Vec::new();
    let mut m = n;
    if m == 0 {
        out.push('0');
        assert(out@ =~= dec_spec(0));
    }
    while m > 0
        invariant
            m > 0 ==> dec_spec(n as nat) == dec_spec(m as nat) + out@,
            m == 0 ==> dec_spec(n as nat) =~= out@,
        decreases m,
    {
        let ghost m_old = m as nat;
        let ghost out_old = out@;
        let d = m % 10;
        let c = ((48 + d) as u8) as char;
        out.insert(0, c);
        m = m / 10;
        proof {
            assert(c == digit_char(d as int));
            if m_old < 10 {
                assert(dec_spec(m_old) == seq![digit_char(m_old as int)]);
                assert(dec_spec(n as nat) =~= out@);
            } else {
                assert(dec_spec(m_old) == dec_spec(m_old / 10) + seq![
                    digit_char((m_old % 10) as int),
                ]);
                assert(dec_spec(m as nat) + out@ =~= dec_spec(m_old) + out_old);
            }
        }
    }
    chars_to_string(&out)
}

/// The decimal text of a signed number: a minus sign and the magnitude.
pub open spec fn i32_dec_spec(n: int) -> Seq<char> {
    if n < 0 {
        seq!['-'] + dec_spec((-n) as nat)
    } else {
        dec_spec(n as nat)
    }
}

/// Format a signed number in decimal.
pub fn i32_to_string(n: i32) -> (r: String)
    ensures
        r@ == i32_dec_spec(n as int),
{
    if n >= 0 {
        u64_to_string(n as u64)
    } else {
        proof {
            reveal_strlit("-");
        }
        let mag = (-(n as i64)) as u64;
        let digits = u64_to_string(mag);
        let out = "-".to_owned().concat(digits.as_str());
        proof {
            assert("-"@ =~= seq!['-']);
            assert(out@ =~= i32_dec_spec(n as int));
        }
        out
    }
}

/// The hexadecimal digit character (lower case) for a value below sixteen.
pub open spec fn lower_hex_char(d: int) -> char
    recommends
        0 <= d < 16,
{
    if d < 10 {
        (((48 + d) as u8) as char)
    } else {
        (((87 + d) as u8) as char)
    }
}

/// What a character becomes inside a JSON string literal: quotes and
/// backslashes escaped, the named control characters short-escaped, any
/// other control character hex-escaped, everything else itself.
pub open spec fn escape_char(c: char) -> Seq<char> {
    if c == '"' {
        seq!['\\', '"']
    } else if c == '\\' {
        seq!['\\', '\\']
    } else if c == '\u{08}' {
        seq!['\\', 'b']
    } else if c == '\u{09}' {
        seq!['\\', 't']
    } else if c == '\u{0a}' {
        seq!['\\', 'n']
    } else if c == '\u{0c}' {
        seq!['\\', 'f']
    } else if c == '\u{0d}' {
        seq!['\\', 'r']
    } else if (c as u32) < 32 {
        seq!['\\', 'u', '0', '0', lower_hex_char((c as u32) as int / 16), lower_hex_char(
            (c as u32) as int % 16,
        )]
    } else {
        seq![c]
    }
}

/// A text escaped for use inside a JSON string literal.
pub open spec fn json_escape(s: Seq<char>) -> Seq<char>
    decreases s.len(),
{
    if s.len() == 0 {
        Seq::empty()
    } else {
        escape_char(s[0]) + json_escape(s.drop_first())
    }
}

fn push_escaped(out: &mut Vec<char>, c: char)
    ensures
        final(out)@ == old(out)@ + escape_char(c),
{
    let ghost prev = out@;
    if c == '"' {
        out.push('\\');
        out.push('"');
    } else if c == '\\' {
        out.push('\\');
        out.push('\\');
    } else if c == '\u{08}' {
        out.push('\\');
        out.push('b');
    } else if c == '\u{09}' {
        out.push('\\');
        out.push('t');
    } else if c == '\u{0a}' {
        out.push('\\');
        out.push('n');
    } else if c == '\u{0c}' {
        out.push('\\');
        out.push('f');
    } else if c == '\u{0d}' {
        out.push('\\');
        out.push('r');
    } else if (c as u32) < 32 {
        let hi = (c as u32) / 16;
        let lo = (c as u32) % 16;
        let hi_c = if hi < 10 {
            ((48 + hi) as u8) as char
        } else {
            ((87 + hi) as u8) as char
        };
        let lo_c = if lo < 10 {
            ((48 + lo) as u8) as char
        } else {
            ((87 + lo) as u8) as char
        };
        out.push('\\');
        out.push('u');
        out.push('0');
        out.push('0');
        out.push(hi_c);
        out.push(lo_c);
    } else {
        out.push(c);
    }
    proof {
        assert(final(out)@ =~= prev + escape_char(c));
    }
}

/// Escape a text for use inside a JSON string literal, as `json_escape`
/// says.
pub fn json_escape_string(s: &str) -> (r: String)
    ensures
        r@ == json_escape(s@),
{
    let chars = str_to_chars(s);
    let mut out: Vec<char> = Vec::new();
    let mut i: usize = 0;
    proof {
        assert(s@.skip(0) =~= s@);
    }
    while i < chars.len()
        invariant
            chars@ == s@,
            i <= chars@.len(),
            json_escape(s@) =~= out@ + json_escape(s@.skip(i as int)),
        decreases chars@.len() - i,
    {
        let ghost prev = out@;
        push_escaped(&mut out, chars[i]);
        proof {
            assert(s@.skip(i as int)[0] == s@[i as int]);
            assert(s@.skip(i as int).drop_first() =~= s@.skip(i as int + 1));
            assert(prev + json_escape(s@.skip(i as int)) =~= out@ + json_escape(
                s@.skip(i as int + 1),
            ));
        }
        i = i + 1;
    }
    proof {
        assert(json_escape(s@) =~= out@);
    }
    chars_to_string(&out)
}

/// A character with any ASCII upper-case letter lowered; every other
/// character stays.
pub open spec fn lower_ascii_char(c: char) -> char {
    if 'A' <= c && c <= 'Z' {
        ((c as u32 + 32) as u8) as char
    } else {
        c
    }
}

/// The text with its ASCII upper-case letters lowered.
pub open spec fn lower_ascii(s: Seq<char>) -> Seq<char> {
    Seq::new(s.len(), |i: int| lower_ascii_char(s[i]))
}

/// Lower the ASCII upper-case letters of a text.
pub fn str_lower_ascii(s: &str) -> (r: String)
    ensures
        r@ == lower_ascii(s@),
{
    let chars = str_to_chars(s);
    let mut out: Vec<char> = Vec::new();
    let mut i: usize = 0;
    while i < chars.len()
        invariant
            chars@ == s@,
            i <= chars@.len(),
            out@.len() == i,
            forall|j: int| 0 <= j < i ==> out@[j] == lower_ascii_char(s@[j]),
        decreases chars@.len() - i,
    {
        let c = chars[i];
        if 'A' <= c && c <= 'Z' {
            out.push(((c as u32 + 32) as u8) as char);
        } else {
            out.push(c);
        }
        i = i + 1;
    }
    proof {
        assert(out@ =~= lower_ascii(s@));
    }
    chars_to_string(&out)
}

/// The text ends with the given suffix.
pub open spec fn ends_with_spec(s: Seq<char>, suffix: Seq<char>) -> bool {
    suffix.len() <= s.len() && s.skip(s.len() - suffix.len()) == suffix
}

/// Whether a text ends with a suffix.
pub fn str_ends_with(s: &str, suffix: &str) -> (r: bool)
    ensures
        r == ends_with_spec(s@, suffix@),
{
    let sc = str_to_chars(s);
    let pc = str_to_chars(suffix);
    let n = sc.len();
    let m = pc.len();
    if m > n {
        return false;
    }
    let off = n - m;
    let mut i: usize = 0;
    while i < m
        invariant
            sc@ == s@,
            pc@ == suffix@,
            n == sc@.len(),
            m == pc@.len(),
            m <= n,
            off == n - m,
            i <= m,
            forall|j: int| 0 <= j < i ==> s@[off + j] == suffix@[j],
        decreases m - i,
    {
        if sc[off + i] != pc[i] {
            proof {
                assert(s@.skip(off as int)[i as int] != suffix@[i as int]);
            }
            return false;
        }
        i = i + 1;
    }
    proof {
        assert(s@.skip(off as int) =~= suffix@);
    }
    true
}

/// The text with every trailing slash removed.
pub open spec fn trim_end_slashes_spec(s: Seq<char>) -> Seq<char>
    decreases s.len(),
{
    if s.len() > 0 && s[s.len() - 1] == '/' {
        trim_end_slashes_spec(s.drop_last())
    } else {
        s
    }
}

/// Remove every trailing slash.
pub fn trim_end_slashes(s: &str) -> (r: String)
    ensures
        r@ == trim_end_slashes_spec(s@),
{
    let mut chars = str_to_chars(s);
    loop
        invariant
            trim_end_slashes_spec(s@) == trim_end_slashes_spec(chars@),
        decreases chars@.len(),
    {
        let n = chars.len();
        if n == 0 {
            return chars_to_string(&chars);
        }
        if chars[n - 1] != '/' {
            return chars_to_string(&chars);
        }
        let ghost prev = chars@;
        chars.pop();
        proof {
            assert(chars@ =~= prev.drop_last());
        }
    }
}

/// The pattern occurs in the text starting at position `i`.
pub open spec fn matches_at(s: Seq<char>, pat: Seq<char>, i: int) -> bool {
    0 <= i && i + pat.len() <= s.len() && s.subrange(i, i + pat.len()) == pat
}

/// Find the first occurrence of a pattern: `Some(i)` with `i` the least
/// match position, `None` when the pattern occurs nowhere.
pub fn find_substring(s: &str, pat: &str) -> (r: Option<usize>)
    ensures
        match r {
            Some(i) => matches_at(s@, pat@, i as int) && forall|j: int|
                0 <= j < i ==> !matches_at(s@, pat@, j),
            None => forall|j: int| !matches_at(s@, pat@, j),
        },
{
    let sc = str_to_chars(s);
    let pc = str_to_chars(pat);
    let n = sc.len();
    let m = pc.len();
    if m > n {
        return None;
    }
    if m == 0 {
        proof {
            assert(s@.subrange(0, 0) =~= pat@);
        }
        return Some(0);
    }
    let last = n - m;
    let mut i: usize = 0;
    while i <= last
        invariant
            sc@ == s@,
            pc@ == pat@,
            n == sc@.len(),
            m == pc@.len(),
            m <= n,
            last == n - m,
            i <= last + 1,
            m >= 1,
            forall|j: int| 0 <= j < i ==> !matches_at(s@, pat@, j),
        decreases last + 1 - i,
    {
        if chars_match_at(&sc, &pc, i) {
            return Some(i);
        }
        i = i + 1;
    }
    assert forall|j: int| !matches_at(s@, pat@, j) by {
        if 0 <= j <= last {
            assert(!matches_at(s@, pat@, j));
        }
    }
    None
}

/// The pattern matches the text at position `i`.
fn chars_match_at(sc: &Vec<char>, pc: &Vec<char>, i: usize) -> (r: bool)
    requires
        i + pc@.len() <= sc@.len(),
    ensures
        r == matches_at(sc@, pc@, i as int),
{
    let n = sc.len();
    let m = pc.len();
    let mut k: usize = 0;
    while k < m
        invariant
            n == sc@.len(),
            m == pc@.len(),
            i + m <= n,
            k <= m,
            forall|j: int| 0 <= j < k ==> sc@[i + j] == pc@[j],
        decreases m - k,
    {
        if sc[i + k] != pc[k] {
            proof {
                assert(sc@.subrange(i as int, i + pc@.len())[k as int] == sc@[i + k]);
            }
            return false;
        }
        k = k + 1;
    }
    proof {
        assert(sc@.subrange(i as int, i + pc@.len()) =~= pc@);
    }
    true
}

} // verus!
