//! Escape repair for response bodies.
//!
//! The remote service sometimes leaves literal `\uXXXX` escape sequences in
//! a body that the wire encoding did not decode.  The repair scans the text
//! left to right and replaces each four-hex-digit escape with the character
//! it names, leaving any sequence it cannot resolve (a surrogate code point,
//! or malformed hex) untouched.  It never fails.

use vstd::prelude::*;

verus! {

use vstd::utf8::is_scalar;

/// One of the sixteen hexadecimal digits, either case.
pub open spec fn is_hex_digit(c: char) -> bool {
    ('0' <= c && c <= '9') || ('a' <= c && c <= 'f') || ('A' <= c && c <= 'F')
}

/// The value of a hexadecimal digit.
pub open spec fn hex_val(c: char) -> u32
    recommends
        is_hex_digit(c),
{
    if '0' <= c && c <= '9' {
        ((c as u32) - ('0' as u32)) as u32
    } else if 'a' <= c && c <= 'f' {
        ((c as u32) - ('a' as u32) + 10) as u32
    } else {
        ((c as u32) - ('A' as u32) + 10) as u32
    }
}

/// A `\uXXXX` escape sequence starts at position `i`.
pub open spec fn escape_at(s: Seq<char>, i: int) -> bool {
    &&& 0 <= i
    &&& i + 6 <= s.len()
    &&& s[i] == '\\'
    &&& s[i + 1] == 'u'
    &&& is_hex_digit(s[i + 2])
    &&& is_hex_digit(s[i + 3])
    &&& is_hex_digit(s[i + 4])
    &&& is_hex_digit(s[i + 5])
}

/// The code point named by the escape sequence at position `i`.
pub open spec fn code_at(s: Seq<char>, i: int) -> u32
    recommends
        escape_at(s, i),
{
    (4096 * hex_val(s[i + 2]) + 256 * hex_val(s[i + 3]) + 16 * hex_val(s[i + 4]) + hex_val(
        s[i + 5],
    )) as u32
}

/// The repaired text from position `i` on: each escape naming a Unicode
/// scalar becomes that character, an escape naming a surrogate stays as it
/// is, and everything else is copied through.
pub open spec fn decode_from(s: Seq<char>, i: int) -> Seq<char>
    decreases s.len() - i,
    when 0 <= i <= s.len()
{
    if i >= s.len() {
        Seq::empty()
    } else if escape_at(s, i) {
        if is_scalar(code_at(s, i)) {
            seq![code_at(s, i) as char] + decode_from(s, i + 6)
        } else {
            s.subrange(i, i + 6) + decode_from(s, i + 6)
        }
    } else {
        seq![s[i]] + decode_from(s, i + 1)
    }
}

/// The whole text, repaired.
pub open spec fn decode_escapes_spec(s: Seq<char>) -> Seq<char> {
    decode_from(s, 0)
}

/// Relies on `char::from_u32`: `Some` exactly on Unicode scalar values
/// (anything below `0x110000` that is not a surrogate).
#[verifier::external_body]
fn char_from_u32(code: u32) -> (r: Option<char>)
    ensures
        r == (if is_scalar(code) {
            Some(code as char)
        } else {
            None::<char>
        }),
{
    char::from_u32(code)
}

/// Relies on `FromIterator` for `String` over `char`: the string of exactly
/// these characters.
#[verifier::external_body]
fn chars_to_string(chars: &Vec<char>) -> (r: String)
    ensures
        r@ == chars@,
{
    chars.iter().collect()
}

/// The characters of a text, in order.
fn str_to_chars(s: &str) -> (r: Vec<char>)
    ensures
        r@ == s@,
{
    let n = s.unicode_len();
    let mut out: Vec<char> = Vec::new();
    let mut i: usize = 0;
    while i < n
        invariant
            n == s@.len(),
            i <= n,
            out@ =~= s@.subrange(0, i as int),
        decreases n - i,
    {
        out.push(s.get_char(i));
        i = i + 1;
    }
    proof {
        assert(s@.subrange(0, n as int) =~= s@);
    }
    out
}

fn hex_digit_check(c: char) -> (r: bool)
    ensures
        r == is_hex_digit(c),
{
    ('0' <= c && c <= '9') || ('a' <= c && c <= 'f') || ('A' <= c && c <= 'F')
}

fn hex_digit_val(c: char) -> (r: u32)
    requires
        is_hex_digit(c),
    ensures
        r == hex_val(c),
        r < 16,
{
    if '0' <= c && c <= '9' {
        (c as u32) - ('0' as u32)
    } else if 'a' <= c && c <= 'f' {
        (c as u32) - ('a' as u32) + 10
    } else {
        (c as u32) - ('A' as u32) + 10
    }
}

/// Repair every `\uXXXX` escape in the input, as `decode_escapes_spec` says:
/// an escape naming a Unicode scalar becomes that character, any sequence
/// that cannot be resolved is left untouched, and nothing else changes.
pub fn decode_unicode_escapes(input: &str) -> (r: String)
    ensures
        r@ == decode_escapes_spec(input@),
{
    let chars = str_to_chars(input);
    let mut out: Vec<char> = Vec::new();
    let mut i: usize = 0;
    while i < chars.len()
        invariant
            chars@ == input@,
            i <= chars@.len(),
            decode_escapes_spec(input@) =~= out@ + decode_from(input@, i as int),
        decreases chars@.len() - i,
    {
        let ghost prev_out = out@;
        let n = chars.len();
        let mut matched = false;
        if n - i >= 6 && chars[i] == '\\' && chars[i + 1] == 'u' {
            if hex_digit_check(chars[i + 2]) && hex_digit_check(chars[i + 3]) && hex_digit_check(
                chars[i + 4],
            ) && hex_digit_check(chars[i + 5]) {
                matched = true;
                let code = 4096 * hex_digit_val(chars[i + 2]) + 256 * hex_digit_val(chars[i + 3])
                    + 16 * hex_digit_val(chars[i + 4]) + hex_digit_val(chars[i + 5]);
                assert(code == code_at(input@, i as int));
                match char_from_u32(code) {
                    Some(c) => {
                        out.push(c);
                        proof {
                            assert(out@ =~= prev_out + seq![code_at(input@, i as int) as char]);
                            assert(prev_out + decode_from(input@, i as int) =~= out@ + decode_from(
                                input@,
                                i as int + 6,
                            ));
                        }
                    },
                    None => {
                        out.push(chars[i]);
                        out.push(chars[i + 1]);
                        out.push(chars[i + 2]);
                        out.push(chars[i + 3]);
                        out.push(chars[i + 4]);
                        out.push(chars[i + 5]);
                        proof {
                            assert(out@ =~= prev_out + input@.subrange(
                                i as int,
                                i as int + 6,
                            ));
                            assert(prev_out + decode_from(input@, i as int) =~= out@ + decode_from(
                                input@,
                                i as int + 6,
                            ));
                        }
                    },
                }
                i = i + 6;
            }
        }
        if !matched {
            proof {
                assert(!escape_at(input@, i as int));
            }
            out.push(chars[i]);
            proof {
                assert(prev_out + decode_from(input@, i as int) =~= out@ + decode_from(
                    input@,
                    i as int + 1,
                ));
            }
            i = i + 1;
        }
    }
    proof {
        assert(decode_escapes_spec(input@) =~= out@);
    }
    chars_to_string(&out)
}

} // verus!
