//! Best-effort un-escaping of JSON string-escape sequences.
//!
//! Input that parses as a JSON string is decoded by the parser; any other
//! valid JSON value is returned trimmed.  Everything else has one layer of
//! surrounding quotes stripped and its escape sequences decoded; if that
//! strict pass fails, a lossy replacement of `\"` and `\\` is returned.

use vstd::prelude::*;
use vstd::string::*;
use vstd::utf8::is_scalar;
use crate::args::ArgMap;
use crate::errors::{EscapeError, TransformError};
use crate::json::{classify_json, json_is_string, json_parses, json_string_content, ParsedJson};
use crate::strutil::{char_from_u32, push_char, spec_trim, trim};

verus! {

/// Whether `c` is an ASCII hex digit.
pub open spec fn is_hex_digit(c: char) -> bool {
    ('0' as u32 <= c as u32 && c as u32 <= '9' as u32) || ('a' as u32 <= c as u32 && c as u32
        <= 'f' as u32) || ('A' as u32 <= c as u32 && c as u32 <= 'F' as u32)
}

/// The value of a hex digit.
pub open spec fn hex_val(c: char) -> u32 {
    if '0' as u32 <= c as u32 && c as u32 <= '9' as u32 {
        (c as u32 - '0' as u32) as u32
    } else if 'a' as u32 <= c as u32 && c as u32 <= 'f' as u32 {
        (c as u32 - 'a' as u32 + 10) as u32
    } else {
        (c as u32 - 'A' as u32 + 10) as u32
    }
}

/// The value of `c` as a hex digit, if it is one.
fn hex_digit_value(c: char) -> (r: Option<u32>)
    ensures
        r matches Some(v) ==> is_hex_digit(c) && v == hex_val(c) && v <= 15,
        r is None ==> !is_hex_digit(c),
{
    let u = c as u32;
    if '0' as u32 <= u && u <= '9' as u32 {
        Some(u - '0' as u32)
    } else if 'a' as u32 <= u && u <= 'f' as u32 {
        Some(u - 'a' as u32 + 10)
    } else if 'A' as u32 <= u && u <= 'F' as u32 {
        Some(u - 'A' as u32 + 10)
    } else {
        None
    }
}

/// What one escaped character decodes to: the recognized specials become
/// control characters, and any other character passes through as itself.
pub open spec fn escape_char(c: char) -> char {
    if c == 'b' {
        '\u{0008}'
    } else if c == 'f' {
        '\u{000C}'
    } else if c == 'n' {
        '\n'
    } else if c == 'r' {
        '\r'
    } else if c == 't' {
        '\t'
    } else {
        c
    }
}

fn escape_char_exec(c: char) -> (r: char)
    ensures
        r == escape_char(c),
{
    if c == 'b' {
        '\u{0008}'
    } else if c == 'f' {
        '\u{000C}'
    } else if c == 'n' {
        '\n'
    } else if c == 'r' {
        '\r'
    } else if c == 't' {
        '\t'
    } else {
        c
    }
}

/// The code point named by the first four characters of `t`.
pub open spec fn spec_u_value(t: Seq<char>) -> u32 {
    (hex_val(t[0]) * 4096 + hex_val(t[1]) * 256 + hex_val(t[2]) * 16 + hex_val(t[3])) as u32
}

/// The result of reading a `\u` escape whose remaining text is `t`: the
/// digits are checked in order, so a malformed digit is reported before the
/// input running short behind it.
pub open spec fn spec_u_escape(t: Seq<char>) -> Result<char, EscapeError> {
    if exists|k: int| 0 <= k < 4 && k < t.len() && !is_hex_digit(#[trigger] t[k]) {
        Err(EscapeError::BadHexDigit)
    } else if t.len() < 4 {
        Err(EscapeError::TruncatedUnicode)
    } else if !is_scalar(spec_u_value(t)) {
        Err(EscapeError::BadCodepoint)
    } else {
        Ok(spec_u_value(t) as char)
    }
}

pub open spec fn spec_prepend(c: char, r: Result<Seq<char>, EscapeError>) -> Result<
    Seq<char>,
    EscapeError,
> {
    match r {
        Ok(t) => Ok(seq![c] + t),
        Err(e) => Err(e),
    }
}

/// `s` with every escape sequence decoded, or the first failure.
pub open spec fn spec_unescape(s: Seq<char>) -> Result<Seq<char>, EscapeError>
    decreases s.len(),
{
    if s.len() == 0 {
        Ok(Seq::empty())
    } else if s[0] != '\\' {
        spec_prepend(s[0], spec_unescape(s.skip(1)))
    } else if s.len() == 1 {
        Err(EscapeError::TruncatedEscape)
    } else if s[1] == 'u' {
        match spec_u_escape(s.skip(2)) {
            Ok(c) => spec_prepend(c, spec_unescape(s.skip(6))),
            Err(e) => Err(e),
        }
    } else {
        spec_prepend(escape_char(s[1]), spec_unescape(s.skip(2)))
    }
}

pub open spec fn spec_append(p: Seq<char>, r: Result<Seq<char>, EscapeError>) -> Result<
    Seq<char>,
    EscapeError,
> {
    match r {
        Ok(t) => Ok(p + t),
        Err(e) => Err(e),
    }
}

proof fn lemma_append_prepend(p: Seq<char>, c: char, r: Result<Seq<char>, EscapeError>)
    ensures
        spec_append(p, spec_prepend(c, r)) == spec_append(p.push(c), r),
{
    match r {
        Ok(t) => {
            assert(p + (seq![c] + t) =~= p.push(c) + t);
        },
        Err(_) => {},
    }
}

/// One hex digit of a `\u` escape, at offset `k` behind `base`.
fn read_hex(s: &str, base: usize, k: usize, n: usize) -> (r: Result<u32, EscapeError>)
    requires
        n == s@.len(),
        base <= n,
        k < 4,
    ensures
        r matches Ok(v) ==> base + k < n && is_hex_digit(s@[base + k]) && v == hex_val(
            s@[base + k],
        ) && v <= 15,
        r == Err::<u32, EscapeError>(EscapeError::TruncatedUnicode) ==> base + k >= n,
        r == Err::<u32, EscapeError>(EscapeError::BadHexDigit) ==> base + k < n && !is_hex_digit(
            s@[base + k],
        ),
        r is Err ==> r == Err::<u32, EscapeError>(EscapeError::TruncatedUnicode) || r == Err::<
            u32,
            EscapeError,
        >(EscapeError::BadHexDigit),
{
    if n - base <= k {
        return Err(EscapeError::TruncatedUnicode);
    }
    let c = s.get_char(base + k);
    match hex_digit_value(c) {
        Some(v) => Ok(v),
        None => Err(EscapeError::BadHexDigit),
    }
}

/// Decodes every escape sequence in `s`, or reports the first failure.
#[verifier::rlimit(100)]
pub fn unescape_json_string(s: &str) -> (r: Result<String, EscapeError>)
    ensures
        r matches Ok(t) ==> spec_unescape(s@) == Ok::<Seq<char>, EscapeError>(t@),
        r matches Err(e) ==> spec_unescape(s@) == Err::<Seq<char>, EscapeError>(e),
{
    let n = s.unicode_len();
    let mut out = String::new();
    let mut i: usize = 0;
    proof {
        assert(s@.skip(0) =~= s@);
    }
    while i < n
        invariant
            n == s@.len(),
            i <= n,
            spec_unescape(s@) == spec_append(out@, spec_unescape(s@.skip(i as int))),
        decreases n - i,
    {
        let ghost rem = s@.skip(i as int);
        proof {
            assert(rem[0] == s@[i as int]);
        }
        let c = s.get_char(i);
        if c != '\\' {
            let ghost o = out@;
            push_char(&mut out, c);
            proof {
                assert(rem.skip(1) =~= s@.skip(i as int + 1));
                lemma_append_prepend(o, c, spec_unescape(s@.skip(i as int + 1)));
            }
            i = i + 1;
        } else if i + 1 >= n {
            proof {
                assert(rem.len() == 1);
                assert(spec_unescape(rem) == Err::<Seq<char>, EscapeError>(
                    EscapeError::TruncatedEscape,
                ));
            }
            return Err(EscapeError::TruncatedEscape);
        } else {
            proof {
                assert(rem[1] == s@[i as int + 1]);
            }
            let e = s.get_char(i + 1);
            if e == 'u' {
                let base = i + 2;
                let ghost t = s@.skip(base as int);
                proof {
                    assert(rem.skip(2) =~= t);
                }
                let d0 = match read_hex(s, base, 0, n) {
                    Ok(v) => v,
                    Err(er) => {
                        proof {
                            assert(spec_u_escape(t) == Err::<char, EscapeError>(er));
                        }
                        return Err(er);
                    },
                };
                proof {
                    assert(t[0] == s@[base as int]);
                }
                let d1 = match read_hex(s, base, 1, n) {
                    Ok(v) => v,
                    Err(er) => {
                        proof {
                            assert(spec_u_escape(t) == Err::<char, EscapeError>(er));
                        }
                        return Err(er);
                    },
                };
                proof {
                    assert(t[1] == s@[base as int + 1]);
                }
                let d2 = match read_hex(s, base, 2, n) {
                    Ok(v) => v,
                    Err(er) => {
                        proof {
                            assert(spec_u_escape(t) == Err::<char, EscapeError>(er));
                        }
                        return Err(er);
                    },
                };
                proof {
                    assert(t[2] == s@[base as int + 2]);
                }
                let d3 = match read_hex(s, base, 3, n) {
                    Ok(v) => v,
                    Err(er) => {
                        proof {
                            assert(spec_u_escape(t) == Err::<char, EscapeError>(er));
                        }
                        return Err(er);
                    },
                };
                proof {
                    assert(t[3] == s@[base as int + 3]);
                }
                let cp: u32 = d0 * 4096 + d1 * 256 + d2 * 16 + d3;
                proof {
                    assert(cp == spec_u_value(t));
                }
                match char_from_u32(cp) {
                    Some(ch) => {
                        proof {
                            assert(spec_u_escape(t) == Ok::<char, EscapeError>(ch));
                        }
                        let ghost o = out@;
                        push_char(&mut out, ch);
                        proof {
                            assert(rem.skip(6) =~= s@.skip(i as int + 6));
                            lemma_append_prepend(o, ch, spec_unescape(s@.skip(i as int + 6)));
                        }
                        i = i + 6;
                    },
                    None => {
                        proof {
                            assert(spec_u_escape(t) == Err::<char, EscapeError>(
                                EscapeError::BadCodepoint,
                            ));
                        }
                        return Err(EscapeError::BadCodepoint);
                    },
                }
            } else {
                let decoded = escape_char_exec(e);
                let ghost o = out@;
                push_char(&mut out, decoded);
                proof {
                    assert(rem.skip(2) =~= s@.skip(i as int + 2));
                    lemma_append_prepend(o, decoded, spec_unescape(s@.skip(i as int + 2)));
                }
                i = i + 2;
            }
        }
    }
    proof {
        assert(s@.skip(n as int) =~= Seq::<char>::empty());
        assert(out@ + Seq::<char>::empty() =~= out@);
    }
    Ok(out)
}

/// Sequential leftmost replacement of the two-character sequence `[a, b]` by
/// the single character `c`.
pub open spec fn spec_replace_pair(s: Seq<char>, a: char, b: char, c: char) -> Seq<char>
    decreases s.len(),
{
    if s.len() >= 2 && s[0] == a && s[1] == b {
        seq![c] + spec_replace_pair(s.skip(2), a, b, c)
    } else if s.len() > 0 {
        seq![s[0]] + spec_replace_pair(s.skip(1), a, b, c)
    } else {
        Seq::empty()
    }
}

/// The lossy fallback: `\"` becomes `"`, then `\\` becomes `\`.
pub open spec fn spec_fallback(s: Seq<char>) -> Seq<char> {
    spec_replace_pair(spec_replace_pair(s, '\\', '"', '"'), '\\', '\\', '\\')
}

fn replace_pair(s: &str, a: char, b: char, c: char) -> (r: String)
    ensures
        r@ == spec_replace_pair(s@, a, b, c),
{
    let n = s.unicode_len();
    let mut out = String::new();
    let mut i: usize = 0;
    proof {
        assert(s@.skip(0) =~= s@);
    }
    while i < n
        invariant
            n == s@.len(),
            i <= n,
            spec_replace_pair(s@, a, b, c) == out@ + spec_replace_pair(
                s@.skip(i as int),
                a,
                b,
                c,
            ),
        decreases n - i,
    {
        let ghost rem = s@.skip(i as int);
        proof {
            assert(rem[0] == s@[i as int]);
            if i + 1 < n {
                assert(rem[1] == s@[i as int + 1]);
            }
        }
        let ch = s.get_char(i);
        if ch == a && i + 1 < n && s.get_char(i + 1) == b {
            let ghost o = out@;
            push_char(&mut out, c);
            proof {
                assert(rem.skip(2) =~= s@.skip(i as int + 2));
                assert(o + (seq![c] + spec_replace_pair(s@.skip(i as int + 2), a, b, c)) =~= o.push(
                    c,
                ) + spec_replace_pair(s@.skip(i as int + 2), a, b, c));
            }
            i = i + 2;
        } else {
            let ghost o = out@;
            push_char(&mut out, ch);
            proof {
                assert(rem.skip(1) =~= s@.skip(i as int + 1));
                assert(o + (seq![ch] + spec_replace_pair(s@.skip(i as int + 1), a, b, c)) =~= o.push(
                    ch,
                ) + spec_replace_pair(s@.skip(i as int + 1), a, b, c));
            }
            i = i + 1;
        }
    }
    proof {
        assert(s@.skip(n as int) =~= Seq::<char>::empty());
        assert(out@ + Seq::<char>::empty() =~= out@);
    }
    out
}

/// One layer of surrounding double quotes taken off, if present.
pub open spec fn spec_strip_quotes(t: Seq<char>) -> Seq<char> {
    if t.len() >= 2 && t[0] == '"' && t.last() == '"' {
        t.subrange(1, t.len() - 1)
    } else {
        t
    }
}

/// What this transformer returns on `input`: a JSON string is decoded by the
/// parser and then un-escaped; another JSON value is returned trimmed; any
/// other text is quote-stripped and un-escaped, with the lossy fallback when
/// the strict pass fails.
pub open spec fn spec_json_unescape(input: Seq<char>) -> Result<Seq<char>, EscapeError> {
    let t = spec_trim(input);
    if json_parses(t) {
        if json_is_string(t) {
            spec_unescape(json_string_content(t))
        } else {
            Ok(t)
        }
    } else {
        let inner = spec_strip_quotes(t);
        match spec_unescape(inner) {
            Ok(u) => Ok(u),
            Err(_) => Ok(spec_fallback(inner)),
        }
    }
}

/// Un-escapes JSON string-escape sequences found in the input, best-effort.
pub fn transform(input: &str, _extra_args: Option<&ArgMap>) -> (r: Result<String, TransformError>)
    ensures
        r matches Ok(s) ==> spec_json_unescape(input@) == Ok::<Seq<char>, EscapeError>(s@),
        r matches Err(e) ==> e matches TransformError::Escape(k) && spec_json_unescape(input@)
            == Err::<Seq<char>, EscapeError>(k),
{
    let t = trim(input);
    match classify_json(t.as_str()) {
        ParsedJson::Str(inner) => match unescape_json_string(inner.as_str()) {
            Ok(u) => Ok(u),
            Err(k) => Err(TransformError::Escape(k)),
        },
        ParsedJson::Other => Ok(t),
        ParsedJson::Invalid => {
            let n = t.as_str().unicode_len();
            let inner: String = if n >= 2 && t.as_str().get_char(0) == '"' && t.as_str().get_char(
                n - 1,
            ) == '"' {
                t.as_str().substring_char(1, n - 1).to_owned()
            } else {
                t
            };
            match unescape_json_string(inner.as_str()) {
                Ok(u) => Ok(u),
                Err(_) => {
                    let first = replace_pair(inner.as_str(), '\\', '"', '"');
                    Ok(replace_pair(first.as_str(), '\\', '\\', '\\'))
                },
            }
        },
    }
}

} // verus!

