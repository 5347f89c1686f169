//! Framing and checking of the wire format.
//!
//! The wire carries flat JSON-compatible records whose fields are strings or
//! null. Encoding and decoding of the textual frame are the library's own,
//! verified against the spec-level grammar below; turning host-side values
//! into these frames is the host side's concern.

use crate::text::char_from_u32;
use crate::text::chars_eq_str;
use vstd::prelude::*;

verus! {

broadcast use vstd::string::group_string_axioms;

/// The lower-case hexadecimal digit for `n`.
pub open spec fn hex_digit(n: int) -> char {
    if n == 0 {
        '0'
    } else if n == 1 {
        '1'
    } else if n == 2 {
        '2'
    } else if n == 3 {
        '3'
    } else if n == 4 {
        '4'
    } else if n == 5 {
        '5'
    } else if n == 6 {
        '6'
    } else if n == 7 {
        '7'
    } else if n == 8 {
        '8'
    } else if n == 9 {
        '9'
    } else if n == 10 {
        'a'
    } else if n == 11 {
        'b'
    } else if n == 12 {
        'c'
    } else if n == 13 {
        'd'
    } else if n == 14 {
        'e'
    } else {
        'f'
    }
}

/// How one character is written inside a JSON string literal.
pub open spec fn esc_char(c: char) -> Seq<char> {
    if c == '"' {
        seq!['\\', '"']
    } else if c == '\\' {
        seq!['\\', '\\']
    } else if c == '\u{8}' {
        seq!['\\', 'b']
    } else if c == '\u{c}' {
        seq!['\\', 'f']
    } else if c == '\n' {
        seq!['\\', 'n']
    } else if c == '\r' {
        seq!['\\', 'r']
    } else if c == '\t' {
        seq!['\\', 't']
    } else if (c as u32) < 0x20 {
        seq!['\\', 'u', '0', '0', hex_digit((c as u32) as int / 16), hex_digit(
            (c as u32) as int % 16,
        )]
    } else {
        seq![c]
    }
}

/// The body of a JSON string literal for `s`: each character escaped.
pub open spec fn escaped(s: Seq<char>) -> Seq<char>
    decreases s.len(),
{
    if s.len() == 0 {
        Seq::empty()
    } else {
        escaped(s.drop_last()) + esc_char(s.last())
    }
}

/// The complete JSON string literal for `s`, quotes included.
pub open spec fn json_string_of(s: Seq<char>) -> Seq<char> {
    seq!['"'] + escaped(s) + seq!['"']
}

/// JSON inter-token whitespace.
pub open spec fn is_json_ws(c: char) -> bool {
    c == ' ' || c == '\t' || c == '\n' || c == '\r'
}

/// The first index at or after `i` holding a non-whitespace character.
pub open spec fn sp_skip_ws(s: Seq<char>, i: int) -> int
    decreases s.len() - i,
{
    if 0 <= i < s.len() && is_json_ws(s[i]) {
        sp_skip_ws(s, i + 1)
    } else {
        i
    }
}

/// The value of a hexadecimal digit, either case.
pub open spec fn hex_val(c: char) -> Option<int> {
    let n = c as u32 as int;
    if 48 <= n <= 57 {
        Some(n - 48)
    } else if 97 <= n <= 102 {
        Some(n - 87)
    } else if 65 <= n <= 70 {
        Some(n - 55)
    } else {
        None
    }
}

/// The value of the four hexadecimal digits at `i`.
pub open spec fn sp_hex4(s: Seq<char>, i: int) -> Option<int> {
    match (hex_val(s[i]), hex_val(s[i + 1]), hex_val(s[i + 2]), hex_val(s[i + 3])) {
        (Some(h0), Some(h1), Some(h2), Some(h3)) => Some(h0 * 4096 + h1 * 256 + h2 * 16 + h3),
        _ => None,
    }
}

/// Decode the rest of a JSON string literal whose opening quote stands just
/// before `i`, appending to `acc`: the decoded content and the index past
/// the closing quote, or `None` if the literal is malformed. An escaped
/// high surrogate must be followed by an escaped low surrogate; raw control
/// characters are not valid inside a literal.
pub open spec fn sp_string_body(s: Seq<char>, i: int, acc: Seq<char>) -> Option<(Seq<char>, int)>
    decreases s.len() - i,
{
    if i < 0 || i >= s.len() {
        None
    } else if s[i] == '"' {
        Some((acc, i + 1))
    } else if s[i] == '\\' {
        if i + 2 > s.len() {
            None
        } else {
            let e = s[i + 1];
            if e == '"' {
                sp_string_body(s, i + 2, acc.push('"'))
            } else if e == '\\' {
                sp_string_body(s, i + 2, acc.push('\\'))
            } else if e == '/' {
                sp_string_body(s, i + 2, acc.push('/'))
            } else if e == 'b' {
                sp_string_body(s, i + 2, acc.push('\u{8}'))
            } else if e == 'f' {
                sp_string_body(s, i + 2, acc.push('\u{c}'))
            } else if e == 'n' {
                sp_string_body(s, i + 2, acc.push('\n'))
            } else if e == 'r' {
                sp_string_body(s, i + 2, acc.push('\r'))
            } else if e == 't' {
                sp_string_body(s, i + 2, acc.push('\t'))
            } else if e == 'u' {
                if i + 6 > s.len() {
                    None
                } else {
                    match sp_hex4(s, i + 2) {
                        None => None,
                        Some(n) => {
                            if 0xD800 <= n < 0xDC00 {
                                if i + 12 > s.len() || s[i + 6] != '\\' || s[i + 7] != 'u' {
                                    None
                                } else {
                                    match sp_hex4(s, i + 8) {
                                        None => None,
                                        Some(n2) => {
                                            if 0xDC00 <= n2 < 0xE000 {
                                                sp_string_body(
                                                    s,
                                                    i + 12,
                                                    acc.push(
                                                        (((0x10000 + (n - 0xD800) * 0x400 + (n2
                                                            - 0xDC00)) as u32) as char),
                                                    ),
                                                )
                                            } else {
                                                None
                                            }
                                        },
                                    }
                                }
                            } else if 0xDC00 <= n < 0xE000 {
                                None
                            } else {
                                sp_string_body(s, i + 6, acc.push(((n as u32) as char)))
                            }
                        },
                    }
                }
            } else {
                None
            }
        }
    } else if (s[i] as u32) < 0x20 {
        None
    } else {
        sp_string_body(s, i + 1, acc.push(s[i]))
    }
}


/// Decoding a hexadecimal digit undoes encoding one.
pub proof fn lemma_hex_digit_round_trip(n: int)
    requires
        0 <= n < 16,
    ensures
        hex_val(hex_digit(n)) == Some(n),
{
}

/// `escaped` unfolded from the front: the first character's escape,
/// followed by the escaped remainder.
pub proof fn lemma_escaped_first(s: Seq<char>)
    requires
        s.len() > 0,
    ensures
        escaped(s) == esc_char(s.first()) + escaped(s.drop_first()),
    decreases s.len(),
{
    if s.len() == 1 {
        assert(s.drop_last() =~= Seq::<char>::empty());
        assert(s.drop_first() =~= Seq::<char>::empty());
        assert(escaped(s) =~= esc_char(s.first()) + escaped(s.drop_first()));
    } else {
        lemma_escaped_first(s.drop_last());
        assert(s.drop_last().first() == s.first());
        assert(s.drop_last().drop_first() =~= s.drop_first().drop_last());
        assert(s.drop_first().last() == s.last());
        assert(escaped(s) == escaped(s.drop_last()) + esc_char(s.last()));
        assert(escaped(s.drop_first()) == escaped(s.drop_first().drop_last()) + esc_char(
            s.last(),
        ));
        assert(esc_char(s.first()) + (escaped(s.drop_first().drop_last()) + esc_char(s.last()))
            =~= (esc_char(s.first()) + escaped(s.drop_first().drop_last())) + esc_char(s.last()));
    }
}

proof fn lemma_body_round_trip(t: Seq<char>, i: int, s: Seq<char>, acc: Seq<char>)
    requires
        0 <= i,
        i + escaped(s).len() + 1 <= t.len(),
        t.subrange(i, i + escaped(s).len()) == escaped(s),
        t[i + escaped(s).len()] == '"',
    ensures
        sp_string_body(t, i, acc) == Some((acc + s, i + escaped(s).len() + 1)),
    decreases s.len(),
{
    broadcast use vstd::utf8::char_u32_cast;

    if s.len() == 0 {
        assert(escaped(s).len() == 0);
        assert(t[i] == '"');
        assert(acc + s =~= acc);
    } else {
        let c = s.first();
        let s1 = s.drop_first();
        lemma_escaped_first(s);
        let e = esc_char(c);
        let el = e.len() as int;
        assert(escaped(s) == e + escaped(s1));
        assert forall|k: int| 0 <= k < el implies t[i + k] == e[k] by {
            assert(t.subrange(i, i + escaped(s).len())[k] == t[i + k]);
        }
        assert forall|k: int| 0 <= k < escaped(s1).len() implies t[i + el + k] == escaped(s1)[k]
            by {
            assert(t.subrange(i, i + escaped(s).len())[el + k] == t[i + el + k]);
        }
        assert(t.subrange(i + el, i + el + escaped(s1).len()) =~= escaped(s1));
        assert(s =~= seq![c] + s1);
        if c == '"' || c == '\\' || c == '\u{8}' || c == '\u{c}' || c == '\n' || c == '\r' || c
            == '\t' {
            // A two-character escape: backslash, then the marker.
            assert(t[i] == '\\' && t[i + 1] == e[1]);
            lemma_body_round_trip(t, i + 2, s1, acc.push(c));
            assert(acc.push(c) + s1 =~= acc + s);
        } else if (c as u32) < 0x20 {
            // The six-character form: backslash, u, and four hex digits.
            let n = c as u32 as int;
            let hi = n / 16;
            let lo = n % 16;
            assert(t[i] == '\\' && t[i + 1] == 'u' && t[i + 2] == '0' && t[i + 3] == '0' && t[i
                + 4] == hex_digit(hi) && t[i + 5] == hex_digit(lo));
            lemma_hex_digit_round_trip(hi);
            lemma_hex_digit_round_trip(lo);
            assert(hex_val('0') == Some(0int));
            assert(sp_hex4(t, i + 2) == Some(n));
            assert((n as u32) == c as u32);
            vstd::utf8::char_u32_cast(c, n as u32);
            assert(((n as u32) as char) == c);
            lemma_body_round_trip(t, i + 6, s1, acc.push(c));
            assert(acc.push(c) + s1 =~= acc + s);
        } else {
            // The character stands for itself.
            assert(t[i] == c);
            assert(c != '"' && c != '\\' && (c as u32) >= 0x20);
            lemma_body_round_trip(t, i + 1, s1, acc.push(c));
            assert(acc.push(c) + s1 =~= acc + s);
        }
    }
}

/// Decoding inverts the wire escaping: a string framed as a JSON literal,
/// whatever follows it, parses back to exactly that string, the position
/// ending just past the closing quote.
pub proof fn lemma_string_frame_round_trip(s: Seq<char>, rest: Seq<char>)
    ensures
        sp_string_body(json_string_of(s) + rest, 1, Seq::empty()) == Some(
            (s, json_string_of(s).len() as int),
        ),
{
    let t = json_string_of(s) + rest;
    assert(t.subrange(1, 1 + escaped(s).len() as int) =~= escaped(s));
    assert(t[1 + escaped(s).len() as int] == '"');
    lemma_body_round_trip(t, 1, s, Seq::empty());
    assert(Seq::<char>::empty() + s =~= s);
}

/// A member value: a string literal, or `null` for an absent value.
pub open spec fn sp_value(s: Seq<char>, i: int) -> Option<(Option<Seq<char>>, int)> {
    if 0 <= i < s.len() && s[i] == '"' {
        match sp_string_body(s, i + 1, Seq::empty()) {
            Some(p) => Some((Some(p.0), p.1)),
            None => None,
        }
    } else if 0 <= i && i + 4 <= s.len() && s[i] == 'n' && s[i + 1] == 'u' && s[i + 2] == 'l' && s[i
        + 3] == 'l' {
        Some((None, i + 4))
    } else {
        None
    }
}

/// One object member: decoded key, value, and the index past the value.
pub open spec fn sp_member(s: Seq<char>, i: int) -> Option<(Seq<char>, Option<Seq<char>>, int)> {
    if 0 <= i < s.len() && s[i] == '"' {
        match sp_string_body(s, i + 1, Seq::empty()) {
            None => None,
            Some(p) => {
                let j = sp_skip_ws(s, p.1);
                if j < s.len() && s[j] == ':' {
                    match sp_value(s, sp_skip_ws(s, j + 1)) {
                        None => None,
                        Some(q) => Some((p.0, q.0, q.1)),
                    }
                } else {
                    None
                }
            },
        }
    } else {
        None
    }
}

/// Fold the one or two members of a wire response object into the record:
/// exactly one `output` member, which must be a string, and at most one
/// `error` member, a string or null; any other shape is rejected.
pub open spec fn sp_assemble(
    members: Seq<(Seq<char>, Option<Seq<char>>)>,
) -> Option<(Seq<char>, Option<Seq<char>>)> {
    if members.len() == 1 {
        if members[0].0 == "output"@ && members[0].1 is Some {
            Some((members[0].1->0, None))
        } else {
            None
        }
    } else if members.len() == 2 {
        if members[0].0 == "output"@ && members[0].1 is Some && members[1].0 == "error"@ {
            Some((members[0].1->0, members[1].1))
        } else if members[0].0 == "error"@ && members[1].0 == "output"@ && members[1].1 is Some {
            Some((members[1].1->0, members[0].1))
        } else {
            None
        }
    } else {
        None
    }
}

/// Parse a complete wire response: one JSON object holding an `output`
/// string and optionally an `error` member, with nothing but whitespace
/// around the tokens. The result is the decoded output and error fields.
pub open spec fn sp_response(s: Seq<char>) -> Option<(Seq<char>, Option<Seq<char>>)> {
    let i = sp_skip_ws(s, 0);
    if i < s.len() && s[i] == '{' {
        match sp_member(s, sp_skip_ws(s, i + 1)) {
            None => None,
            Some(m1) => {
                let j = sp_skip_ws(s, m1.2);
                if j < s.len() && s[j] == ',' {
                    match sp_member(s, sp_skip_ws(s, j + 1)) {
                        None => None,
                        Some(m2) => {
                            let j2 = sp_skip_ws(s, m2.2);
                            if j2 < s.len() && s[j2] == '}' && sp_skip_ws(s, j2 + 1) == s.len() {
                                sp_assemble(seq![(m1.0, m1.1), (m2.0, m2.1)])
                            } else {
                                None
                            }
                        },
                    }
                } else if j < s.len() && s[j] == '}' && sp_skip_ws(s, j + 1) == s.len() {
                    sp_assemble(seq![(m1.0, m1.1)])
                } else {
                    None
                }
            },
        }
    } else {
        None
    }
}

/// The view of an optional character vector.
pub open spec fn opt_chars_view(o: Option<Vec<char>>) -> Option<Seq<char>> {
    match o {
        None => None,
        Some(v) => Some(v@),
    }
}

/// The view of an exec parsed-response result.
pub open spec fn view_ar(r: Option<(Vec<char>, Option<Vec<char>>)>) -> Option<(
    Seq<char>,
    Option<Seq<char>>,
)> {
    match r {
        None => None,
        Some(p) => Some((p.0@, opt_chars_view(p.1))),
    }
}

/// The view of an exec string-body result.
pub open spec fn view_sr(r: Option<(Vec<char>, usize)>) -> Option<(Seq<char>, int)> {
    match r {
        None => None,
        Some(p) => Some((p.0@, p.1 as int)),
    }
}

/// The view of an exec value result.
pub open spec fn view_vr(r: Option<(Option<Vec<char>>, usize)>) -> Option<(
    Option<Seq<char>>,
    int,
)> {
    match r {
        None => None,
        Some(p) => Some(
            (
                match p.0 {
                    None => None,
                    Some(v) => Some(v@),
                },
                p.1 as int,
            ),
        ),
    }
}

/// The view of an exec member result.
pub open spec fn view_mr(r: Option<(Vec<char>, Option<Vec<char>>, usize)>) -> Option<(
    Seq<char>,
    Option<Seq<char>>,
    int,
)> {
    match r {
        None => None,
        Some(p) => Some(
            (
                p.0@,
                match p.1 {
                    None => None,
                    Some(v) => Some(v@),
                },
                p.2 as int,
            ),
        ),
    }
}

fn is_json_ws_exec(c: char) -> (r: bool)
    ensures
        r == is_json_ws(c),
{
    c == ' ' || c == '\t' || c == '\n' || c == '\r'
}

pub fn skip_ws(v: &Vec<char>, i: usize) -> (r: usize)
    requires
        i <= v@.len(),
    ensures
        r == sp_skip_ws(v@, i as int),
        i <= r <= v@.len(),
    decreases v@.len() - i,
{
    if i < v.len() && is_json_ws_exec(v[i]) {
        skip_ws(v, i + 1)
    } else {
        i
    }
}

fn hex_val_exec(c: char) -> (r: Option<u8>)
    ensures
        match r {
            None => hex_val(c) is None,
            Some(h) => hex_val(c) == Some(h as int) && h < 16,
        },
{
    let n = c as u32;
    if 48 <= n && n <= 57 {
        Some((n - 48) as u8)
    } else if 97 <= n && n <= 102 {
        Some((n - 87) as u8)
    } else if 65 <= n && n <= 70 {
        Some((n - 55) as u8)
    } else {
        None
    }
}

fn hex4_exec(v: &Vec<char>, i: usize) -> (r: Option<u32>)
    requires
        i + 4 <= v@.len(),
    ensures
        match r {
            None => sp_hex4(v@, i as int) is None,
            Some(n) => sp_hex4(v@, i as int) == Some(n as int) && n < 0x10000,
        },
{
    let n = v.len();
    assert(i + 4 <= n);
    let h0 = hex_val_exec(v[i]);
    let h1 = hex_val_exec(v[i + 1]);
    let h2 = hex_val_exec(v[i + 2]);
    let h3 = hex_val_exec(v[i + 3]);
    match (h0, h1, h2, h3) {
        (Some(a), Some(b), Some(c), Some(d)) => Some(
            (a as u32) * 4096 + (b as u32) * 256 + (c as u32) * 16 + (d as u32),
        ),
        _ => None,
    }
}

fn parse_string_body(v: &Vec<char>, i: usize, acc: Vec<char>) -> (r: Option<(Vec<char>, usize)>)
    requires
        i <= v@.len(),
    ensures
        view_sr(r) == sp_string_body(v@, i as int, acc@),
        r matches Some(p) ==> p.1 <= v@.len(),
    decreases v@.len() - i,
{
    let mut acc = acc;
    if i >= v.len() {
        None
    } else {
        let c = v[i];
        if c == '"' {
            Some((acc, i + 1))
        } else if c == '\\' {
            if v.len() - i < 2 {
                None
            } else {
                let e = v[i + 1];
                if e == '"' {
                    acc.push('"');
                    parse_string_body(v, i + 2, acc)
                } else if e == '\\' {
                    acc.push('\\');
                    parse_string_body(v, i + 2, acc)
                } else if e == '/' {
                    acc.push('/');
                    parse_string_body(v, i + 2, acc)
                } else if e == 'b' {
                    acc.push('\u{8}');
                    parse_string_body(v, i + 2, acc)
                } else if e == 'f' {
                    acc.push('\u{c}');
                    parse_string_body(v, i + 2, acc)
                } else if e == 'n' {
                    acc.push('\n');
                    parse_string_body(v, i + 2, acc)
                } else if e == 'r' {
                    acc.push('\r');
                    parse_string_body(v, i + 2, acc)
                } else if e == 't' {
                    acc.push('\t');
                    parse_string_body(v, i + 2, acc)
                } else if e == 'u' {
                    if v.len() - i < 6 {
                        None
                    } else {
                        match hex4_exec(v, i + 2) {
                            None => None,
                            Some(n) => {
                                if 0xD800 <= n && n < 0xDC00 {
                                    if v.len() - i < 12 {
                                        None
                                    } else if !(v[i + 6] == '\\' && v[i + 7] == 'u') {
                                        None
                                    } else {
                                        match hex4_exec(v, i + 8) {
                                            None => None,
                                            Some(n2) => {
                                                if 0xDC00 <= n2 && n2 < 0xE000 {
                                                    let code = 0x10000 + (n - 0xD800) * 0x400 + (n2
                                                        - 0xDC00);
                                                    match char_from_u32(code) {
                                                        Some(ch) => {
                                                            acc.push(ch);
                                                            parse_string_body(v, i + 12, acc)
                                                        },
                                                        None => {
                                                            proof {
                                                                assert(false);
                                                            }
                                                            None
                                                        },
                                                    }
                                                } else {
                                                    None
                                                }
                                            },
                                        }
                                    }
                                } else if 0xDC00 <= n && n < 0xE000 {
                                    None
                                } else {
                                    match char_from_u32(n) {
                                        Some(ch) => {
                                            acc.push(ch);
                                            parse_string_body(v, i + 6, acc)
                                        },
                                        None => {
                                            proof {
                                                assert(false);
                                            }
                                            None
                                        },
                                    }
                                }
                            },
                        }
                    }
                } else {
                    None
                }
            }
        } else if (c as u32) < 0x20 {
            None
        } else {
            acc.push(c);
            parse_string_body(v, i + 1, acc)
        }
    }
}

fn parse_value(v: &Vec<char>, i: usize) -> (r: Option<(Option<Vec<char>>, usize)>)
    requires
        i <= v@.len(),
    ensures
        view_vr(r) == sp_value(v@, i as int),
        r matches Some(p) ==> p.1 <= v@.len(),
{
    if i < v.len() && v[i] == '"' {
        match parse_string_body(v, i + 1, Vec::new()) {
            Some(p) => Some((Some(p.0), p.1)),
            None => None,
        }
    } else if v.len() - i >= 4 && v[i] == 'n' && v[i + 1] == 'u' && v[i + 2] == 'l' && v[i + 3]
        == 'l' {
        Some((None, i + 4))
    } else {
        None
    }
}

fn parse_member(v: &Vec<char>, i: usize) -> (r: Option<(Vec<char>, Option<Vec<char>>, usize)>)
    requires
        i <= v@.len(),
    ensures
        view_mr(r) == sp_member(v@, i as int),
        r matches Some(p) ==> p.2 <= v@.len(),
{
    if i < v.len() && v[i] == '"' {
        match parse_string_body(v, i + 1, Vec::new()) {
            None => None,
            Some(p) => {
                let j = skip_ws(v, p.1);
                if j < v.len() && v[j] == ':' {
                    match parse_value(v, skip_ws(v, j + 1)) {
                        None => None,
                        Some(q) => Some((p.0, q.0, q.1)),
                    }
                } else {
                    None
                }
            },
        }
    } else {
        None
    }
}

/// Parse a complete wire response from its characters: the decoded output
/// and error fields, or `None` if the text is not valid wire format.
pub fn parse_response_chars(v: &Vec<char>) -> (r: Option<(Vec<char>, Option<Vec<char>>)>)
    ensures
        view_ar(r) == sp_response(v@),
{
    let i = skip_ws(v, 0);
    if i < v.len() && v[i] == '{' {
        match parse_member(v, skip_ws(v, i + 1)) {
            None => None,
            Some(m1) => {
                let j = skip_ws(v, m1.2);
                if j < v.len() && v[j] == ',' {
                    match parse_member(v, skip_ws(v, j + 1)) {
                        None => None,
                        Some(m2) => {
                            let j2 = skip_ws(v, m2.2);
                            if j2 < v.len() && v[j2] == '}' && skip_ws(v, j2 + 1) == v.len() {
                                assemble2(m1.0, m1.1, m2.0, m2.1)
                            } else {
                                None
                            }
                        },
                    }
                } else if j < v.len() && v[j] == '}' && skip_ws(v, j + 1) == v.len() {
                    assemble1(m1.0, m1.1)
                } else {
                    None
                }
            },
        }
    } else {
        None
    }
}

fn assemble1(k: Vec<char>, val: Option<Vec<char>>) -> (r: Option<(Vec<char>, Option<Vec<char>>)>)
    ensures
        view_ar(r) == sp_assemble(seq![(k@, opt_chars_view(val))]),
{
    proof {
        reveal_strlit("output");
        reveal_strlit("error");
    }
    if chars_eq_str(&k, "output") {
        match val {
            Some(out) => Some((out, None)),
            None => None,
        }
    } else {
        None
    }
}

fn assemble2(
    k1: Vec<char>,
    v1: Option<Vec<char>>,
    k2: Vec<char>,
    v2: Option<Vec<char>>,
) -> (r: Option<(Vec<char>, Option<Vec<char>>)>)
    ensures
        view_ar(r) == sp_assemble(seq![(k1@, opt_chars_view(v1)), (k2@, opt_chars_view(v2))]),
{
    proof {
        reveal_strlit("output");
        reveal_strlit("error");
        assert("output"@.len() == 6);
        assert("error"@.len() == 5);
    }
    if chars_eq_str(&k1, "output") {
        match v1 {
            Some(out) => {
                if chars_eq_str(&k2, "error") {
                    Some((out, v2))
                } else {
                    None
                }
            },
            None => None,
        }
    } else if chars_eq_str(&k1, "error") && chars_eq_str(&k2, "output") {
        match v2 {
            Some(out) => Some((out, v1)),
            None => None,
        }
    } else {
        None
    }
}

} // verus!
