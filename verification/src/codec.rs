//! The wire shapes of the library's values: the exact JSON text of a task
//! DTO, of a task list, and of an error body, with an encoder and a decoder
//! proved against them, and the round-trip law tying the two together.

use vstd::prelude::*;
use crate::json::{
    escape_chars, escape_seq, expect_lit, json_string, opt_view, parse_lit, parse_string_body,
    parse_string_body_exec, str_to_chars, chars_to_string, lemma_parse_lit, lemma_parse_escaped,
};
use crate::error::ErrorResponse;
use crate::task::{TaskResponse, TaskView};

verus! {

// --- The JSON text of a task DTO, field by field, in declaration order. ---

pub open spec fn lit_obj_id() -> Seq<char> {
    seq!['{', '"', 'i', 'd', '"', ':']
}

pub open spec fn lit_title() -> Seq<char> {
    seq![',', '"', 't', 'i', 't', 'l', 'e', '"', ':']
}

pub open spec fn lit_description() -> Seq<char> {
    seq![',', '"', 'd', 'e', 's', 'c', 'r', 'i', 'p', 't', 'i', 'o', 'n', '"', ':']
}

pub open spec fn lit_completed() -> Seq<char> {
    seq![',', '"', 'c', 'o', 'm', 'p', 'l', 'e', 't', 'e', 'd', '"', ':']
}

pub open spec fn lit_created_at() -> Seq<char> {
    seq![',', '"', 'c', 'r', 'e', 'a', 't', 'e', 'd', '_', 'a', 't', '"', ':']
}

pub open spec fn lit_updated_at() -> Seq<char> {
    seq![',', '"', 'u', 'p', 'd', 'a', 't', 'e', 'd', '_', 'a', 't', '"', ':']
}

pub open spec fn lit_null() -> Seq<char> {
    seq!['n', 'u', 'l', 'l']
}

pub open spec fn lit_true() -> Seq<char> {
    seq!['t', 'r', 'u', 'e']
}

pub open spec fn lit_false() -> Seq<char> {
    seq!['f', 'a', 'l', 's', 'e']
}

/// A boolean as JSON text.
pub open spec fn json_bool(b: bool) -> Seq<char> {
    if b {
        lit_true()
    } else {
        lit_false()
    }
}

/// An optional string as JSON text: `null` when absent.
pub open spec fn json_opt_string(o: Option<Seq<char>>) -> Seq<char> {
    match o {
        Some(s) => json_string(s),
        None => lit_null(),
    }
}

/// The complete JSON text of a task DTO: a flat object with the six fields
/// in declaration order and no extra keys.
pub open spec fn task_json(t: TaskView) -> Seq<char> {
    lit_obj_id() + json_string(t.id) + lit_title() + json_string(t.title) + lit_description()
        + json_opt_string(t.description) + lit_completed() + json_bool(t.completed)
        + lit_created_at() + json_string(t.created_at) + lit_updated_at()
        + json_string(t.updated_at) + seq!['}']
}

// --- Exec building blocks. ---

/// Appends the characters of `add` to `out`.
pub fn push_chars(out: &mut Vec<char>, add: &Vec<char>)
    ensures
        final(out)@ == old(out)@ + add@,
{
    let mut i: usize = 0;
    while i < add.len()
        invariant
            i <= add.len(),
            out@ == old(out)@ + add@.take(i as int),
        decreases add.len() - i,
    {
        out.push(add[i]);
        proof {
            assert(add@.take(i as int).push(add@[i as int]) =~= add@.take(i + 1 as int));
            assert(old(out)@ + add@.take(i as int).push(add@[i as int]) =~= (old(out)@
                + add@.take(i as int)).push(add@[i as int]));
        }
        i += 1;
    }
    assert(add@.take(add.len() as int) =~= add@);
}

/// Appends a fixed literal to `out`.
pub fn push_lit(out: &mut Vec<char>, lit: &str)
    ensures
        final(out)@ == old(out)@ + lit@,
{
    let l = str_to_chars(lit);
    push_chars(out, &l);
}

/// Appends a string value as JSON text: quoted and escaped.
pub fn push_json_string(out: &mut Vec<char>, s: &String)
    ensures
        final(out)@ == old(out)@ + json_string(s@),
{
    out.push('"');
    let cs = str_to_chars(s.as_str());
    let esc = escape_chars(&cs);
    push_chars(out, &esc);
    out.push('"');
    proof {
        assert(final(out)@ =~= old(out)@ + json_string(s@));
    }
}

/// Appends an optional string value: `null` when absent.
pub fn push_json_opt_string(out: &mut Vec<char>, o: &Option<String>)
    ensures
        final(out)@ == old(out)@ + json_opt_string(opt_view(*o)),
{
    match o {
        Some(s) => push_json_string(out, s),
        None => {
            push_lit(out, "null");
            proof {
                reveal_strlit("null");
                assert("null"@ =~= lit_null());
            }
        },
    }
}

/// Appends a boolean value.
pub fn push_json_bool(out: &mut Vec<char>, b: bool)
    ensures
        final(out)@ == old(out)@ + json_bool(b),
{
    if b {
        push_lit(out, "true");
        proof {
            reveal_strlit("true");
            assert("true"@ =~= lit_true());
        }
    } else {
        push_lit(out, "false");
        proof {
            reveal_strlit("false");
            assert("false"@ =~= lit_false());
        }
    }
}

/// Encodes a task DTO to its JSON characters.
pub fn encode_task_chars(t: &TaskResponse) -> (out: Vec<char>)
    ensures
        out@ == task_json(t@),
{
    let mut out: Vec<char> = Vec::new();
    push_lit(&mut out, "{\"id\":");
    proof {
        reveal_strlit("{\"id\":");
        assert("{\"id\":"@ =~= lit_obj_id());
    }
    push_json_string(&mut out, &t.id);
    push_lit(&mut out, ",\"title\":");
    proof {
        reveal_strlit(",\"title\":");
        assert(",\"title\":"@ =~= lit_title());
    }
    push_json_string(&mut out, &t.title);
    push_lit(&mut out, ",\"description\":");
    proof {
        reveal_strlit(",\"description\":");
        assert(",\"description\":"@ =~= lit_description());
    }
    push_json_opt_string(&mut out, &t.description);
    push_lit(&mut out, ",\"completed\":");
    proof {
        reveal_strlit(",\"completed\":");
        assert(",\"completed\":"@ =~= lit_completed());
    }
    push_json_bool(&mut out, t.completed);
    push_lit(&mut out, ",\"created_at\":");
    proof {
        reveal_strlit(",\"created_at\":");
        assert(",\"created_at\":"@ =~= lit_created_at());
    }
    push_json_string(&mut out, &t.created_at);
    push_lit(&mut out, ",\"updated_at\":");
    proof {
        reveal_strlit(",\"updated_at\":");
        assert(",\"updated_at\":"@ =~= lit_updated_at());
    }
    push_json_string(&mut out, &t.updated_at);
    out.push('}');
    proof {
        assert(out@ =~= task_json(t@));
    }
    out
}

/// Encodes a task DTO to its JSON text.
pub fn encode_task(t: &TaskResponse) -> (s: String)
    ensures
        s@ == task_json(t@),
{
    let out = encode_task_chars(t);
    chars_to_string(&out)
}

// --- Task lists. ---

/// The comma-separated items of a task array.
pub open spec fn tasks_json_items(ts: Seq<TaskView>) -> Seq<char>
    decreases ts.len(),
{
    if ts.len() == 0 {
        Seq::empty()
    } else if ts.len() == 1 {
        task_json(ts[0])
    } else {
        tasks_json_items(ts.drop_last()) + seq![','] + task_json(ts.last())
    }
}

/// The JSON text of a task list: a flat array of task objects.
pub open spec fn tasks_json(ts: Seq<TaskView>) -> Seq<char> {
    seq!['['] + tasks_json_items(ts) + seq![']']
}

/// Encodes a list of task DTOs to its JSON text.
pub fn encode_task_list(ts: &Vec<TaskResponse>) -> (s: String)
    ensures
        s@ == tasks_json(ts.deep_view()),
{
    let mut out: Vec<char> = Vec::new();
    out.push('[');
    let mut i: usize = 0;
    while i < ts.len()
        invariant
            i <= ts.len(),
            out@ == seq!['['] + tasks_json_items(ts.deep_view().take(i as int)),
        decreases ts.len() - i,
    {
        if i > 0 {
            out.push(',');
        }
        let item = encode_task_chars(&ts[i]);
        push_chars(&mut out, &item);
        proof {
            let pre = ts.deep_view().take(i as int);
            assert(ts.deep_view().take(i + 1 as int).drop_last() =~= pre);
            assert(ts.deep_view().take(i + 1 as int).last() == ts.deep_view()[i as int]);
            assert(ts.deep_view()[i as int] == ts[i as int]@);
            if i == 0 {
                assert(out@ =~= seq!['['] + tasks_json_items(ts.deep_view().take(i + 1 as int)));
            } else {
                assert(out@ =~= seq!['['] + tasks_json_items(ts.deep_view().take(i + 1 as int)));
            }
        }
        i += 1;
    }
    out.push(']');
    proof {
        assert(ts.deep_view().take(ts.len() as int) =~= ts.deep_view());
        assert(out@ =~= tasks_json(ts.deep_view()));
    }
    chars_to_string(&out)
}

// --- Error bodies. ---

pub open spec fn lit_obj_error() -> Seq<char> {
    seq!['{', '"', 'e', 'r', 'r', 'o', 'r', '"', ':']
}

pub open spec fn lit_message() -> Seq<char> {
    seq![',', '"', 'm', 'e', 's', 's', 'a', 'g', 'e', '"', ':']
}

pub open spec fn lit_details() -> Seq<char> {
    seq![',', '"', 'd', 'e', 't', 'a', 'i', 'l', 's', '"', ':']
}

/// The JSON text of an error body: machine code and message, and the
/// diagnostic details only when present.
pub open spec fn error_body_json(code: Seq<char>, message: Seq<char>, details: Option<Seq<char>>)
    -> Seq<char> {
    lit_obj_error() + json_string(code) + lit_message() + json_string(message) + (match details {
        Some(d) => lit_details() + json_string(d),
        None => Seq::empty(),
    }) + seq!['}']
}

/// Encodes an error body to its JSON text.
pub fn encode_error_body(code: &String, message: &String, details: &Option<String>) -> (s: String)
    ensures
        s@ == error_body_json(code@, message@, opt_view(*details)),
{
    let mut out: Vec<char> = Vec::new();
    push_lit(&mut out, "{\"error\":");
    proof {
        reveal_strlit("{\"error\":");
        assert("{\"error\":"@ =~= lit_obj_error());
    }
    push_json_string(&mut out, code);
    push_lit(&mut out, ",\"message\":");
    proof {
        reveal_strlit(",\"message\":");
        assert(",\"message\":"@ =~= lit_message());
    }
    push_json_string(&mut out, message);
    match details {
        Some(d) => {
            push_lit(&mut out, ",\"details\":");
            proof {
                reveal_strlit(",\"details\":");
                assert(",\"details\":"@ =~= lit_details());
            }
            push_json_string(&mut out, d);
        },
        None => {},
    }
    out.push('}');
    proof {
        assert(out@ =~= error_body_json(code@, message@, opt_view(*details)));
    }
    chars_to_string(&out)
}

// --- What a value's JSON text is, as a capability. ---

/// A value that has an exact JSON wire form.
pub trait JsonEncode {
    /// The JSON text of this value.
    spec fn json_spec(&self) -> Seq<char>;

    /// Serializes the value to exactly its JSON text.
    fn to_json(&self) -> (s: String)
        ensures
            s@ == self.json_spec(),
    ;
}

impl JsonEncode for TaskResponse {
    open spec fn json_spec(&self) -> Seq<char> {
        task_json(self@)
    }

    fn to_json(&self) -> (s: String)
        ensures
            s@ == self.json_spec(),
    {
        encode_task(self)
    }
}

impl JsonEncode for Vec<TaskResponse> {
    open spec fn json_spec(&self) -> Seq<char> {
        tasks_json(self.deep_view())
    }

    fn to_json(&self) -> (s: String)
        ensures
            s@ == self.json_spec(),
    {
        encode_task_list(self)
    }
}

impl JsonEncode for ErrorResponse {
    open spec fn json_spec(&self) -> Seq<char> {
        error_body_json(self.error@, self.message@, opt_view(self.details))
    }

    fn to_json(&self) -> (s: String)
        ensures
            s@ == self.json_spec(),
    {
        encode_error_body(&self.error, &self.message, &self.details)
    }
}

impl JsonEncode for () {
    open spec fn json_spec(&self) -> Seq<char> {
        lit_null()
    }

    fn to_json(&self) -> (s: String)
        ensures
            s@ == self.json_spec(),
    {
        let s = String::from_str("null");
        proof {
            reveal_strlit("null");
            assert("null"@ =~= lit_null());
        }
        s
    }
}

// --- Decoding a task DTO. ---

/// View of an optional character vector.
pub open spec fn opt_chars_view(o: Option<Vec<char>>) -> Option<Seq<char>> {
    match o {
        Some(v) => Some(v@),
        None => None,
    }
}

/// Parses a quoted JSON string value.
pub open spec fn parse_quoted(s: Seq<char>) -> Option<(Seq<char>, Seq<char>)> {
    if s.len() > 0 && s[0] == '"' {
        parse_string_body(s.drop_first())
    } else {
        None
    }
}

/// Parses a fixed key literal followed by a string value.
pub open spec fn parse_field_str(s: Seq<char>, key: Seq<char>) -> Option<(Seq<char>, Seq<char>)> {
    match parse_lit(s, key) {
        Some(s1) => parse_quoted(s1),
        None => None,
    }
}

/// Parses a fixed key literal followed by a string value or `null`.
pub open spec fn parse_field_opt_str(s: Seq<char>, key: Seq<char>) -> Option<
    (Option<Seq<char>>, Seq<char>),
> {
    match parse_lit(s, key) {
        Some(s1) => match parse_lit(s1, lit_null()) {
            Some(s2) => Some((None, s2)),
            None => match parse_quoted(s1) {
                Some(p) => Some((Some(p.0), p.1)),
                None => None,
            },
        },
        None => None,
    }
}

/// Parses a boolean value.
pub open spec fn parse_bool_val(s: Seq<char>) -> Option<(bool, Seq<char>)> {
    match parse_lit(s, lit_true()) {
        Some(r) => Some((true, r)),
        None => match parse_lit(s, lit_false()) {
            Some(r) => Some((false, r)),
            None => None,
        },
    }
}

/// Parses a fixed key literal followed by a boolean value.
pub open spec fn parse_field_bool(s: Seq<char>, key: Seq<char>) -> Option<(bool, Seq<char>)> {
    match parse_lit(s, key) {
        Some(s1) => parse_bool_val(s1),
        None => None,
    }
}

/// Parses the complete JSON text of a task DTO: the six fields in
/// declaration order, nothing before or after.
pub open spec fn parse_task(s: Seq<char>) -> Option<TaskView> {
    match parse_field_str(s, lit_obj_id()) {
        None => None,
        Some((id, s1)) => match parse_field_str(s1, lit_title()) {
            None => None,
            Some((title, s2)) => match parse_field_opt_str(s2, lit_description()) {
                None => None,
                Some((description, s3)) => match parse_field_bool(s3, lit_completed()) {
                    None => None,
                    Some((completed, s4)) => match parse_field_str(s4, lit_created_at()) {
                        None => None,
                        Some((created_at, s5)) => match parse_field_str(s5, lit_updated_at()) {
                            None => None,
                            Some((updated_at, s6)) => if s6 == seq!['}'] {
                                Some(
                                    TaskView {
                                        id,
                                        title,
                                        description,
                                        completed,
                                        created_at,
                                        updated_at,
                                    },
                                )
                            } else {
                                None
                            },
                        },
                    },
                },
            },
        },
    }
}

pub proof fn lemma_parse_field_str(key: Seq<char>, x: Seq<char>, rest: Seq<char>)
    ensures
        parse_field_str(key + json_string(x) + rest, key) == Some((x, rest)),
{
    let s = key + json_string(x) + rest;
    let tail = json_string(x) + rest;
    assert(s =~= key + tail);
    lemma_parse_lit(key, tail);
    assert(tail[0] == '"');
    assert(tail.drop_first() =~= escape_seq(x) + seq!['"'] + rest);
    lemma_parse_escaped(x, rest);
}

pub proof fn lemma_parse_field_opt_str(key: Seq<char>, o: Option<Seq<char>>, rest: Seq<char>)
    ensures
        parse_field_opt_str(key + json_opt_string(o) + rest, key) == Some((o, rest)),
{
    let s = key + json_opt_string(o) + rest;
    let tail = json_opt_string(o) + rest;
    assert(s =~= key + tail);
    lemma_parse_lit(key, tail);
    match o {
        None => {
            lemma_parse_lit(lit_null(), rest);
            assert(tail =~= lit_null() + rest);
        },
        Some(x) => {
            assert(tail[0] == '"');
            assert(tail.len() >= 4 ==> tail.take(4)[0] == '"');
            assert(parse_lit(tail, lit_null()) is None);
            assert(tail.drop_first() =~= escape_seq(x) + seq!['"'] + rest);
            lemma_parse_escaped(x, rest);
        },
    }
}

pub proof fn lemma_parse_field_bool(key: Seq<char>, b: bool, rest: Seq<char>)
    ensures
        parse_field_bool(key + json_bool(b) + rest, key) == Some((b, rest)),
{
    let s = key + json_bool(b) + rest;
    let tail = json_bool(b) + rest;
    assert(s =~= key + tail);
    lemma_parse_lit(key, tail);
    if b {
        lemma_parse_lit(lit_true(), rest);
        assert(tail =~= lit_true() + rest);
    } else {
        lemma_parse_lit(lit_false(), rest);
        assert(tail =~= lit_false() + rest);
        assert(tail.take(4)[0] == 'f');
        assert(parse_lit(tail, lit_true()) is None);
    }
}

/// Round trip: the JSON text of any task DTO parses back to a DTO equal in
/// all fields to the original.
#[verifier::rlimit(60)]
pub proof fn lemma_task_json_round_trip(t: TaskView)
    ensures
        parse_task(task_json(t)) == Some(t),
{
    let s = task_json(t);
    let r6 = seq!['}'];
    let r5 = lit_updated_at() + json_string(t.updated_at) + r6;
    let r4 = lit_created_at() + json_string(t.created_at) + r5;
    let r3 = lit_completed() + json_bool(t.completed) + r4;
    let r2 = lit_description() + json_opt_string(t.description) + r3;
    let r1 = lit_title() + json_string(t.title) + r2;
    assert(s =~= lit_obj_id() + json_string(t.id) + r1);
    lemma_parse_field_str(lit_obj_id(), t.id, r1);
    assert(r1 =~= lit_title() + json_string(t.title) + r2);
    lemma_parse_field_str(lit_title(), t.title, r2);
    assert(r2 =~= lit_description() + json_opt_string(t.description) + r3);
    lemma_parse_field_opt_str(lit_description(), t.description, r3);
    assert(r3 =~= lit_completed() + json_bool(t.completed) + r4);
    lemma_parse_field_bool(lit_completed(), t.completed, r4);
    assert(r4 =~= lit_created_at() + json_string(t.created_at) + r5);
    lemma_parse_field_str(lit_created_at(), t.created_at, r5);
    assert(r5 =~= lit_updated_at() + json_string(t.updated_at) + r6);
    lemma_parse_field_str(lit_updated_at(), t.updated_at, r6);
}

/// Decodes a quoted string value at index `i`.
pub fn parse_quoted_exec(v: &Vec<char>, i: usize) -> (r: Option<(Vec<char>, usize)>)
    requires
        i <= v.len(),
    ensures
        match r {
            Some(p) => {
                &&& i <= p.1 <= v.len()
                &&& parse_quoted(v@.skip(i as int)) == Some((p.0@, v@.skip(p.1 as int)))
            },
            None => parse_quoted(v@.skip(i as int)) is None,
        },
{
    if i == v.len() {
        return None;
    }
    proof {
        assert(v@.skip(i as int)[0] == v@[i as int]);
        assert(v@.skip(i as int).drop_first() =~= v@.skip(i + 1 as int));
    }
    if v[i] != '"' {
        return None;
    }
    parse_string_body_exec(v, i + 1)
}

/// Decodes a key literal followed by a string value.
pub fn parse_field_str_exec(v: &Vec<char>, i: usize, key: &Vec<char>) -> (r: Option<
    (Vec<char>, usize),
>)
    requires
        i <= v.len(),
    ensures
        match r {
            Some(p) => {
                &&& i <= p.1 <= v.len()
                &&& parse_field_str(v@.skip(i as int), key@) == Some((p.0@, v@.skip(p.1 as int)))
            },
            None => parse_field_str(v@.skip(i as int), key@) is None,
        },
{
    match expect_lit(v, i, key) {
        Some(j) => parse_quoted_exec(v, j),
        None => None,
    }
}

/// Decodes a key literal followed by a string value or `null`.
pub fn parse_field_opt_str_exec(v: &Vec<char>, i: usize, key: &Vec<char>, null_lit: &Vec<char>)
    -> (r: Option<(Option<Vec<char>>, usize)>)
    requires
        i <= v.len(),
        null_lit@ == lit_null(),
    ensures
        match r {
            Some(p) => {
                &&& i <= p.1 <= v.len()
                &&& parse_field_opt_str(v@.skip(i as int), key@) == Some(
                    (opt_chars_view(p.0), v@.skip(p.1 as int)),
                )
            },
            None => parse_field_opt_str(v@.skip(i as int), key@) is None,
        },
{
    match expect_lit(v, i, key) {
        Some(j) => {
            match expect_lit(v, j, null_lit) {
                Some(k) => Some((None, k)),
                None => match parse_quoted_exec(v, j) {
                    Some((val, k)) => Some((Some(val), k)),
                    None => None,
                },
            }
        },
        None => None,
    }
}

/// Decodes a key literal followed by a boolean value.
pub fn parse_field_bool_exec(
    v: &Vec<char>,
    i: usize,
    key: &Vec<char>,
    true_lit: &Vec<char>,
    false_lit: &Vec<char>,
) -> (r: Option<(bool, usize)>)
    requires
        i <= v.len(),
        true_lit@ == lit_true(),
        false_lit@ == lit_false(),
    ensures
        match r {
            Some(p) => {
                &&& i <= p.1 <= v.len()
                &&& parse_field_bool(v@.skip(i as int), key@) == Some((p.0, v@.skip(p.1 as int)))
            },
            None => parse_field_bool(v@.skip(i as int), key@) is None,
        },
{
    match expect_lit(v, i, key) {
        Some(j) => {
            match expect_lit(v, j, true_lit) {
                Some(k) => Some((true, k)),
                None => match expect_lit(v, j, false_lit) {
                    Some(k) => Some((false, k)),
                    None => None,
                },
            }
        },
        None => None,
    }
}

/// Decodes the JSON text of a task DTO. Yields the DTO exactly when the text
/// is the task wire form; every field of the result is the decoded field of
/// the text.
#[verifier::rlimit(90)]
pub fn decode_task(s: &str) -> (r: Option<TaskResponse>)
    ensures
        match r {
            Some(dto) => parse_task(s@) == Some(dto@),
            None => parse_task(s@) is None,
        },
{
    let v = str_to_chars(s);
    proof {
        assert(v@.skip(0) =~= s@);
    }
    let key_id = str_to_chars("{\"id\":");
    let key_title = str_to_chars(",\"title\":");
    let key_description = str_to_chars(",\"description\":");
    let key_completed = str_to_chars(",\"completed\":");
    let key_created_at = str_to_chars(",\"created_at\":");
    let key_updated_at = str_to_chars(",\"updated_at\":");
    let null_lit = str_to_chars("null");
    let true_lit = str_to_chars("true");
    let false_lit = str_to_chars("false");
    proof {
        reveal_strlit("{\"id\":");
        reveal_strlit(",\"title\":");
        reveal_strlit(",\"description\":");
        reveal_strlit(",\"completed\":");
        reveal_strlit(",\"created_at\":");
        reveal_strlit(",\"updated_at\":");
        reveal_strlit("null");
        reveal_strlit("true");
        reveal_strlit("false");
        assert(key_id@ =~= lit_obj_id());
        assert(key_title@ =~= lit_title());
        assert(key_description@ =~= lit_description());
        assert(key_completed@ =~= lit_completed());
        assert(key_created_at@ =~= lit_created_at());
        assert(key_updated_at@ =~= lit_updated_at());
        assert(null_lit@ =~= lit_null());
        assert(true_lit@ =~= lit_true());
        assert(false_lit@ =~= lit_false());
    }
    let (id, i1) = match parse_field_str_exec(&v, 0, &key_id) {
        Some(p) => p,
        None => {
            return None;
        },
    };
    let (title, i2) = match parse_field_str_exec(&v, i1, &key_title) {
        Some(p) => p,
        None => {
            return None;
        },
    };
    let (description, i3) = match parse_field_opt_str_exec(&v, i2, &key_description, &null_lit) {
        Some(p) => p,
        None => {
            return None;
        },
    };
    let (completed, i4) = match parse_field_bool_exec(&v, i3, &key_completed, &true_lit, &false_lit)
        {
        Some(p) => p,
        None => {
            return None;
        },
    };
    let (created_at, i5) = match parse_field_str_exec(&v, i4, &key_created_at) {
        Some(p) => p,
        None => {
            return None;
        },
    };
    let (updated_at, i6) = match parse_field_str_exec(&v, i5, &key_updated_at) {
        Some(p) => p,
        None => {
            return None;
        },
    };
    let ghost s6 = v@.skip(i6 as int);
    if v.len() - i6 != 1 {
        proof {
            assert(s6.len() != 1);
            assert(s6 != seq!['}']);
        }
        return None;
    }
    proof {
        assert(s6[0] == v@[i6 as int]);
    }
    if v[i6] != '}' {
        proof {
            assert(s6 != seq!['}']);
        }
        return None;
    }
    proof {
        assert(s6 =~= seq!['}']);
    }
    let dto = TaskResponse {
        id: chars_to_string(&id),
        title: chars_to_string(&title),
        description: match description {
            Some(d) => Some(chars_to_string(&d)),
            None => None,
        },
        completed,
        created_at: chars_to_string(&created_at),
        updated_at: chars_to_string(&updated_at),
    };
    Some(dto)
}


} // verus!
