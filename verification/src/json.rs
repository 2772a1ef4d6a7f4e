//! Character-level JSON text machinery: string escaping with its exact
//! specification, suffix-style parsers for strings, fixed literals and
//! whitespace, and the lemma that parsing inverts escaping.

use vstd::prelude::*;

verus! {

/// View of an optional string as an optional character sequence.
pub open spec fn opt_view(o: Option<String>) -> Option<Seq<char>> {
    match o {
        Some(s) => Some(s@),
        None => None,
    }
}

/// Characters below U+0020 must be escaped inside a JSON string.
pub open spec fn is_control(c: char) -> bool {
    (c as u32) < 0x20
}

/// JSON insignificant whitespace.
pub open spec fn is_json_ws(c: char) -> bool {
    c == ' ' || c == '\t' || c == '\n' || c == '\r'
}

/// Lowercase hex digit for a value below 16.
pub open spec fn hex_digit(n: int) -> char {
    if n == 0 { '0' }
    else if n == 1 { '1' }
    else if n == 2 { '2' }
    else if n == 3 { '3' }
    else if n == 4 { '4' }
    else if n == 5 { '5' }
    else if n == 6 { '6' }
    else if n == 7 { '7' }
    else if n == 8 { '8' }
    else if n == 9 { '9' }
    else if n == 10 { 'a' }
    else if n == 11 { 'b' }
    else if n == 12 { 'c' }
    else if n == 13 { 'd' }
    else if n == 14 { 'e' }
    else { 'f' }
}

/// Value of a hex digit, either case; -1 for any other character.
pub open spec fn hex_val(c: char) -> int {
    if c == '0' { 0 }
    else if c == '1' { 1 }
    else if c == '2' { 2 }
    else if c == '3' { 3 }
    else if c == '4' { 4 }
    else if c == '5' { 5 }
    else if c == '6' { 6 }
    else if c == '7' { 7 }
    else if c == '8' { 8 }
    else if c == '9' { 9 }
    else if c == 'a' || c == 'A' { 10 }
    else if c == 'b' || c == 'B' { 11 }
    else if c == 'c' || c == 'C' { 12 }
    else if c == 'd' || c == 'D' { 13 }
    else if c == 'e' || c == 'E' { 14 }
    else if c == 'f' || c == 'F' { 15 }
    else { -1 }
}

pub open spec fn is_hex(c: char) -> bool {
    hex_val(c) >= 0
}

/// The value of four hex digits read as one code unit.
pub open spec fn hex4_val(a: char, b: char, c: char, d: char) -> int {
    4096 * hex_val(a) + 256 * hex_val(b) + 16 * hex_val(c) + hex_val(d)
}

/// Whether a code unit written as `\uXXXX` stands for a character on its
/// own: anything in the basic plane but the surrogate range.
pub open spec fn is_bmp_scalar(n: int) -> bool {
    0 <= n <= 0xFFFF && !(0xD800 <= n <= 0xDFFF)
}

/// How one character is written inside a JSON string: quote and backslash
/// get a two-character escape, control characters a `\u00XY` escape, and
/// everything else stands as itself.
pub open spec fn escape_char(c: char) -> Seq<char> {
    if c == '"' {
        seq!['\\', '"']
    } else if c == '\\' {
        seq!['\\', '\\']
    } else if is_control(c) {
        seq!['\\', 'u', '0', '0', hex_digit((c as u32) as int / 16), hex_digit((c as u32) as int % 16)]
    } else {
        seq![c]
    }
}

/// The escaped form of a whole character sequence.
pub open spec fn escape_seq(s: Seq<char>) -> Seq<char>
    decreases s.len(),
{
    if s.len() == 0 {
        Seq::empty()
    } else {
        escape_char(s[0]) + escape_seq(s.drop_first())
    }
}

/// A string value as JSON text: the escaped content between quotes.
pub open spec fn json_string(s: Seq<char>) -> Seq<char> {
    seq!['"'] + escape_seq(s) + seq!['"']
}

pub proof fn lemma_escape_push(s: Seq<char>, c: char)
    ensures
        escape_seq(s.push(c)) == escape_seq(s) + escape_char(c),
    decreases s.len(),
{
    if s.len() == 0 {
        assert(s.push(c)[0] == c);
        assert(s.push(c).drop_first() =~= Seq::<char>::empty());
        assert(escape_seq(s.push(c)) == escape_char(c) + escape_seq(Seq::<char>::empty()));
        assert(escape_char(c) + Seq::<char>::empty() =~= Seq::<char>::empty() + escape_char(c));
    } else {
        let d = s.drop_first();
        assert(s.push(c)[0] == s[0]);
        assert(s.push(c).drop_first() =~= d.push(c));
        lemma_escape_push(d, c);
        assert(escape_seq(s.push(c)) == escape_char(s[0]) + escape_seq(d.push(c)));
        assert(escape_seq(s) == escape_char(s[0]) + escape_seq(d));
        assert(escape_char(s[0]) + (escape_seq(d) + escape_char(c)) =~= (escape_char(s[0])
            + escape_seq(d)) + escape_char(c));
    }
}

/// Exec counterpart of `hex_digit`.
pub fn hex_digit_exec(n: u8) -> (c: char)
    requires
        n < 16,
    ensures
        c == hex_digit(n as int),
{
    if n == 0 { '0' }
    else if n == 1 { '1' }
    else if n == 2 { '2' }
    else if n == 3 { '3' }
    else if n == 4 { '4' }
    else if n == 5 { '5' }
    else if n == 6 { '6' }
    else if n == 7 { '7' }
    else if n == 8 { '8' }
    else if n == 9 { '9' }
    else if n == 10 { 'a' }
    else if n == 11 { 'b' }
    else if n == 12 { 'c' }
    else if n == 13 { 'd' }
    else if n == 14 { 'e' }
    else { 'f' }
}

/// Exec counterpart of `hex_val`, as an option.
pub fn hex_val_exec(c: char) -> (r: Option<u8>)
    ensures
        match r {
            Some(n) => is_hex(c) && n == hex_val(c),
            None => !is_hex(c),
        },
{
    if c == '0' { Some(0) }
    else if c == '1' { Some(1) }
    else if c == '2' { Some(2) }
    else if c == '3' { Some(3) }
    else if c == '4' { Some(4) }
    else if c == '5' { Some(5) }
    else if c == '6' { Some(6) }
    else if c == '7' { Some(7) }
    else if c == '8' { Some(8) }
    else if c == '9' { Some(9) }
    else if c == 'a' || c == 'A' { Some(10) }
    else if c == 'b' || c == 'B' { Some(11) }
    else if c == 'c' || c == 'C' { Some(12) }
    else if c == 'd' || c == 'D' { Some(13) }
    else if c == 'e' || c == 'E' { Some(14) }
    else if c == 'f' || c == 'F' { Some(15) }
    else { None }
}

/// Escapes a character sequence for inclusion in a JSON string.
pub fn escape_chars(v: &Vec<char>) -> (out: Vec<char>)
    ensures
        out@ == escape_seq(v@),
{
    let mut out: Vec<char> = Vec::new();
    let mut i: usize = 0;
    while i < v.len()
        invariant
            i <= v.len(),
            out@ == escape_seq(v@.take(i as int)),
        decreases v.len() - i,
    {
        let c = v[i];
        proof {
            lemma_escape_push(v@.take(i as int), c);
            assert(v@.take(i as int).push(c) =~= v@.take(i + 1 as int));
        }
        if c == '"' {
            out.push('\\');
            out.push('"');
        } else if c == '\\' {
            out.push('\\');
            out.push('\\');
        } else if (c as u32) < 0x20 {
            let n = c as u32;
            out.push('\\');
            out.push('u');
            out.push('0');
            out.push('0');
            out.push(hex_digit_exec((n / 16) as u8));
            out.push(hex_digit_exec((n % 16) as u8));
        } else {
            out.push(c);
        }
        assert(out@ =~= escape_seq(v@.take(i as int)) + escape_char(c));
        i += 1;
    }
    assert(v@.take(v.len() as int) =~= v@);
    out
}

/// The character a short escape after a backslash stands for, if any.
pub open spec fn esc_short(e: char) -> Option<char> {
    if e == '"' { Some('"') }
    else if e == '\\' { Some('\\') }
    else if e == '/' { Some('/') }
    else if e == 'b' { Some('\u{8}') }
    else if e == 'f' { Some('\u{c}') }
    else if e == 'n' { Some('\n') }
    else if e == 'r' { Some('\r') }
    else if e == 't' { Some('\t') }
    else { None }
}

/// Prepends a character to the parsed content of a parse result.
pub open spec fn cons_char(c: char, r: Option<(Seq<char>, Seq<char>)>) -> Option<
    (Seq<char>, Seq<char>),
> {
    match r {
        Some(p) => Some((seq![c] + p.0, p.1)),
        None => None,
    }
}

/// Parses the body of a JSON string after its opening quote: the decoded
/// content up to an unescaped closing quote, and the text after that quote.
/// Escapes accepted are the short ones and `\u00XY`.
pub open spec fn parse_string_body(s: Seq<char>) -> Option<(Seq<char>, Seq<char>)>
    decreases s.len(),
{
    if s.len() == 0 {
        None
    } else if s[0] == '"' {
        Some((Seq::empty(), s.drop_first()))
    } else if s[0] == '\\' {
        if s.len() < 2 {
            None
        } else if esc_short(s[1]) is Some {
            cons_char(esc_short(s[1])->Some_0, parse_string_body(s.skip(2)))
        } else if s[1] == 'u' {
            if s.len() >= 6 && is_hex(s[2]) && is_hex(s[3]) && is_hex(s[4]) && is_hex(s[5])
                && is_bmp_scalar(hex4_val(s[2], s[3], s[4], s[5])) {
                cons_char(
                    (hex4_val(s[2], s[3], s[4], s[5]) as u32) as char,
                    parse_string_body(s.skip(6)),
                )
            } else {
                None
            }
        } else {
            None
        }
    } else {
        cons_char(s[0], parse_string_body(s.drop_first()))
    }
}

/// One step of the inversion: parsing the escaped form of a single character
/// followed by anything decodes that character and goes on with the rest.
pub proof fn lemma_parse_escape_char(c: char, w: Seq<char>)
    ensures
        parse_string_body(escape_char(c) + w) == cons_char(c, parse_string_body(w)),
{
    let s = escape_char(c) + w;
    if c == '"' {
        assert(s.len() == 2 + w.len());
        assert(s[0] == '\\');
        assert(s[1] == '"');
        assert(esc_short('"') == Some('"'));
        assert(s.skip(2) =~= w);
    } else if c == '\\' {
        assert(s.len() == 2 + w.len());
        assert(s[0] == '\\');
        assert(s[1] == '\\');
        assert(esc_short('\\') == Some('\\'));
        assert(s.skip(2) =~= w);
    } else if is_control(c) {
        let n = (c as u32) as int;
        assert(s.len() == 6 + w.len());
        assert(s[0] == '\\');
        assert(s[1] == 'u');
        assert(s[2] == '0');
        assert(s[3] == '0');
        assert(s[4] == hex_digit(n / 16));
        assert(s[5] == hex_digit(n % 16));
        assert(esc_short('u') is None);
        assert(hex_val(hex_digit(n / 16)) == n / 16);
        assert(hex_val(hex_digit(n % 16)) == n % 16);
        assert(is_hex(s[2]) && is_hex(s[3]) && is_hex(s[4]) && is_hex(s[5]));
        assert(hex4_val(s[2], s[3], s[4], s[5]) == n);
        assert(n == (c as u32) as int);
        assert(is_bmp_scalar(n));
        vstd::utf8::char_u32_cast(c, c as u32);
        assert((n as u32) as char == c);
        assert(s.skip(6) =~= w);
    } else {
        assert(s.len() == 1 + w.len());
        assert(s[0] == c);
        assert(s.drop_first() =~= w);
    }
}

/// Parsing a JSON string body inverts escaping: the escaped form of any
/// content, followed by the closing quote and any remainder, parses back to
/// exactly that content and that remainder.
pub proof fn lemma_parse_escaped(t: Seq<char>, rest: Seq<char>)
    ensures
        parse_string_body(escape_seq(t) + seq!['"'] + rest) == Some((t, rest)),
    decreases t.len(),
{
    let s = escape_seq(t) + seq!['"'] + rest;
    if t.len() == 0 {
        assert(s =~= seq!['"'] + rest);
        assert(s[0] == '"');
        assert(s.drop_first() =~= rest);
    } else {
        let c = t[0];
        let t1 = t.drop_first();
        lemma_parse_escaped(t1, rest);
        let s1 = escape_seq(t1) + seq!['"'] + rest;
        assert(s =~= escape_char(c) + s1);
        lemma_parse_escape_char(c, s1);
        assert(parse_string_body(s) == cons_char(c, Some((t1, rest))));
        assert(seq![c] + t1 =~= t);
    }
}

/// Parses a fixed literal off the front of the text.
pub open spec fn parse_lit(s: Seq<char>, lit: Seq<char>) -> Option<Seq<char>> {
    if lit.len() <= s.len() && s.take(lit.len() as int) == lit {
        Some(s.skip(lit.len() as int))
    } else {
        None
    }
}

pub proof fn lemma_parse_lit(lit: Seq<char>, rest: Seq<char>)
    ensures
        parse_lit(lit + rest, lit) == Some(rest),
{
    assert((lit + rest).take(lit.len() as int) =~= lit);
    assert((lit + rest).skip(lit.len() as int) =~= rest);
}

/// The text with leading JSON whitespace removed.
pub open spec fn skip_ws(s: Seq<char>) -> Seq<char>
    decreases s.len(),
{
    if s.len() > 0 && is_json_ws(s[0]) {
        skip_ws(s.drop_first())
    } else {
        s
    }
}

/// Advances an index over the leading whitespace of the text at `i`.
pub fn skip_ws_exec(v: &Vec<char>, i: usize) -> (j: usize)
    requires
        i <= v.len(),
    ensures
        i <= j <= v.len(),
        skip_ws(v@.skip(i as int)) == v@.skip(j as int),
    decreases v.len() - i,
{
    let mut j: usize = i;
    while j < v.len() && (v[j] == ' ' || v[j] == '\t' || v[j] == '\n' || v[j] == '\r')
        invariant
            i <= j <= v.len(),
            skip_ws(v@.skip(i as int)) == skip_ws(v@.skip(j as int)),
        decreases v.len() - j,
    {
        proof {
            assert(v@.skip(j as int)[0] == v@[j as int]);
            assert(v@.skip(j as int).drop_first() =~= v@.skip(j + 1 as int));
        }
        j += 1;
    }
    proof {
        if j < v.len() {
            assert(v@.skip(j as int)[0] == v@[j as int]);
        }
    }
    j
}

/// Checks a fixed literal at index `i`, yielding the index after it.
pub fn expect_lit(v: &Vec<char>, i: usize, lit: &Vec<char>) -> (r: Option<usize>)
    requires
        i <= v.len(),
    ensures
        match r {
            Some(j) => {
                &&& i <= j <= v.len()
                &&& parse_lit(v@.skip(i as int), lit@) == Some(v@.skip(j as int))
            },
            None => parse_lit(v@.skip(i as int), lit@) is None,
        },
{
    if v.len() - i < lit.len() {
        return None;
    }
    let mut k: usize = 0;
    while k < lit.len()
        invariant
            i + lit@.len() <= v.len(),
            k <= lit@.len(),
            forall|m: int| 0 <= m < k ==> v@[i + m] == lit@[m],
        decreases lit@.len() - k,
    {
        if v[i + k] != lit[k] {
            proof {
                let s = v@.skip(i as int);
                assert(s.take(lit@.len() as int)[k as int] == v@[i + k]);
                assert(s.take(lit@.len() as int) != lit@);
            }
            return None;
        }
        k += 1;
    }
    proof {
        let s = v@.skip(i as int);
        assert(s.take(lit@.len() as int) =~= lit@);
        assert(s.skip(lit@.len() as int) =~= v@.skip((i + lit.len()) as int));
    }
    Some(i + lit.len())
}

/// Decodes the body of a JSON string at index `i` (just past the opening
/// quote): the content and the index past the closing quote.
pub fn parse_string_body_exec(v: &Vec<char>, i: usize) -> (r: Option<(Vec<char>, usize)>)
    requires
        i <= v.len(),
    ensures
        match r {
            Some(p) => {
                &&& i <= p.1 <= v.len()
                &&& parse_string_body(v@.skip(i as int)) == Some((p.0@, v@.skip(p.1 as int)))
            },
            None => parse_string_body(v@.skip(i as int)) is None,
        },
    decreases v.len() - i,
{
    let ghost s = v@.skip(i as int);
    if i == v.len() {
        return None;
    }
    let c = v[i];
    proof {
        assert(s[0] == c);
        assert(s.drop_first() =~= v@.skip(i + 1 as int));
    }
    if c == '"' {
        return Some((Vec::new(), i + 1));
    }
    if c == '\\' {
        if i + 1 == v.len() {
            return None;
        }
        let e = v[i + 1];
        proof {
            assert(s[1] == e);
            assert(s.skip(2) =~= v@.skip(i + 2 as int));
        }
        let decoded: char = if e == '"' { '"' }
            else if e == '\\' { '\\' }
            else if e == '/' { '/' }
            else if e == 'b' { '\u{8}' }
            else if e == 'f' { '\u{c}' }
            else if e == 'n' { '\n' }
            else if e == 'r' { '\r' }
            else if e == 't' { '\t' }
            else { '\u{0}' };
        if e == '"' || e == '\\' || e == '/' || e == 'b' || e == 'f' || e == 'n' || e == 'r'
            || e == 't' {
            match parse_string_body_exec(v, i + 2) {
                Some((mut t, j)) => {
                    t.insert(0, decoded);
                    proof {
                        assert(t@ =~= seq![decoded] + t@.skip(1));
                    }
                    return Some((t, j));
                },
                None => {
                    return None;
                },
            }
        }
        if e == 'u' {
            if v.len() - i < 6 {
                return None;
            }
            proof {
                assert(s[2] == v@[i + 2]);
                assert(s[3] == v@[i + 3]);
                assert(s[4] == v@[i + 4]);
                assert(s[5] == v@[i + 5]);
                assert(s.skip(6) =~= v@.skip(i + 6 as int));
            }
            let d1 = hex_val_exec(v[i + 2]);
            let d2 = hex_val_exec(v[i + 3]);
            let d3 = hex_val_exec(v[i + 4]);
            let d4 = hex_val_exec(v[i + 5]);
            match (d1, d2, d3, d4) {
                (Some(a), Some(b), Some(x), Some(y)) => {
                    let code: u32 = 4096 * (a as u32) + 256 * (b as u32) + 16 * (x as u32) + (
                    y as u32);
                    proof {
                        assert(code as int == hex4_val(s[2], s[3], s[4], s[5]));
                    }
                    if 0xD800 <= code && code <= 0xDFFF {
                        return None;
                    }
                    let decoded: char = match char::from_u32(code) {
                        Some(ch) => ch,
                        None => {
                            return None;
                        },
                    };
                    proof {
                        vstd::utf8::char_u32_cast(decoded, code);
                    }
                    match parse_string_body_exec(v, i + 6) {
                        Some((mut t, j)) => {
                            t.insert(0, decoded);
                            proof {
                                assert(t@ =~= seq![decoded] + t@.skip(1));
                            }
                            return Some((t, j));
                        },
                        None => {
                            return None;
                        },
                    }
                },
                _ => {
                    return None;
                },
            }
        }
        return None;
    }
    match parse_string_body_exec(v, i + 1) {
        Some((mut t, j)) => {
            t.insert(0, c);
            proof {
                assert(t@ =~= seq![c] + t@.skip(1));
            }
            Some((t, j))
        },
        None => None,
    }
}

/// Relies on char::from_u32: the conversion succeeds exactly for Unicode
/// scalar values, and yields the character with that code.
pub assume_specification[ char::from_u32 ](u: u32) -> (r: Option<char>)
    ensures
        match r {
            Some(c) => c as u32 == u,
            None => 0xD800 <= u <= 0xDFFF || u > 0x10FFFF,
        },
;

/// A trusted wrapper for String::push: appends one character to the string.
#[verifier::external_body]
pub fn push_char(s: &mut String, c: char)
    ensures
        final(s)@ == old(s)@.push(c),
{
    s.push(c);
}

/// Collects a character vector into a String.
pub fn chars_to_string(v: &Vec<char>) -> (s: String)
    ensures
        s@ == v@,
{
    let mut s = String::new();
    let mut i: usize = 0;
    while i < v.len()
        invariant
            i <= v.len(),
            s@ == v@.take(i as int),
        decreases v.len() - i,
    {
        push_char(&mut s, v[i]);
        proof {
            assert(v@.take(i as int).push(v@[i as int]) =~= v@.take(i + 1 as int));
        }
        i += 1;
    }
    assert(v@.take(v.len() as int) =~= v@);
    s
}

/// Splits a string into its characters.
pub fn str_to_chars(s: &str) -> (v: Vec<char>)
    ensures
        v@ == s@,
{
    let n = s.unicode_len();
    let mut v: Vec<char> = Vec::new();
    let mut i: usize = 0;
    while i < n
        invariant
            i <= n,
            n == s@.len(),
            v@ == s@.take(i as int),
        decreases n - i,
    {
        v.push(s.get_char(i));
        proof {
            assert(s@.take(i as int).push(s@[i as int]) =~= s@.take(i + 1 as int));
        }
        i += 1;
    }
    assert(s@.take(s@.len() as int) =~= s@);
    v
}

} // verus!
