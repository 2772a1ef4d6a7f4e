//! Decoding of request bodies at the transport boundary: a small JSON
//! object reader for the creation and update requests. Keys may come in any
//! order with insignificant whitespace; a duplicate or unknown key, or a
//! missing required field, rejects the body. Rejecting unknown keys is a
//! deliberate tightening: a body is either understood whole or refused,
//! never partly ignored.

use vstd::prelude::*;
use crate::codec::{lit_false, lit_null, lit_true, parse_quoted, parse_quoted_exec};
use crate::json::{chars_to_string, expect_lit, parse_lit, skip_ws, skip_ws_exec, str_to_chars};
use crate::task::{CreateTaskRequest, UpdateTaskRequest};

verus! {

pub open spec fn key_title() -> Seq<char> {
    seq!['t', 'i', 't', 'l', 'e']
}

pub open spec fn key_description() -> Seq<char> {
    seq!['d', 'e', 's', 'c', 'r', 'i', 'p', 't', 'i', 'o', 'n']
}

pub open spec fn key_completed() -> Seq<char> {
    seq!['c', 'o', 'm', 'p', 'l', 'e', 't', 'e', 'd']
}

/// The fields a request object may set. A description is tracked as
/// seen-with-value, so a duplicate key is caught even when one occurrence
/// is `null`.
pub struct ReqFields {
    pub title: Option<Seq<char>>,
    pub description: Option<Option<Seq<char>>>,
    pub completed: Option<bool>,
}

pub open spec fn no_fields() -> ReqFields {
    ReqFields { title: None, description: None, completed: None }
}

/// Whether only insignificant whitespace is left.
pub open spec fn ends_clean(s: Seq<char>) -> bool {
    skip_ws(s).len() == 0
}

/// Parses one `"key": value` member and folds it into the accumulator;
/// rejects an unknown key and a key already seen.
pub open spec fn parse_member(s: Seq<char>, acc: ReqFields) -> Option<(ReqFields, Seq<char>)> {
    let s0 = skip_ws(s);
    match parse_quoted(s0) {
        None => None,
        Some((key, s1)) => {
            let s2 = skip_ws(s1);
            if s2.len() == 0 || s2[0] != ':' {
                None
            } else {
                let s3 = skip_ws(s2.drop_first());
                if key == key_title() {
                    if acc.title is Some {
                        None
                    } else {
                        match parse_quoted(s3) {
                            Some((v, s4)) => Some(
                                (ReqFields { title: Some(v), ..acc }, s4),
                            ),
                            None => None,
                        }
                    }
                } else if key == key_description() {
                    if acc.description is Some {
                        None
                    } else {
                        match parse_lit(s3, lit_null()) {
                            Some(s4) => Some(
                                (ReqFields { description: Some(None), ..acc }, s4),
                            ),
                            None => match parse_quoted(s3) {
                                Some((v, s4)) => Some(
                                    (ReqFields { description: Some(Some(v)), ..acc }, s4),
                                ),
                                None => None,
                            },
                        }
                    }
                } else if key == key_completed() {
                    if acc.completed is Some {
                        None
                    } else {
                        match parse_lit(s3, lit_true()) {
                            Some(s4) => Some(
                                (ReqFields { completed: Some(true), ..acc }, s4),
                            ),
                            None => match parse_lit(s3, lit_false()) {
                                Some(s4) => Some(
                                    (ReqFields { completed: Some(false), ..acc }, s4),
                                ),
                                None => None,
                            },
                        }
                    }
                } else {
                    None
                }
            }
        },
    }
}

/// After all allowed members: only the closing brace and trailing
/// whitespace may remain.
pub open spec fn parse_tail0(s: Seq<char>, acc: ReqFields) -> Option<ReqFields> {
    let s0 = skip_ws(s);
    if s0.len() > 0 && s0[0] == '}' && ends_clean(s0.drop_first()) {
        Some(acc)
    } else {
        None
    }
}

/// Either the closing brace, or a comma and one more member.
pub open spec fn parse_tail1(s: Seq<char>, acc: ReqFields) -> Option<ReqFields> {
    let s0 = skip_ws(s);
    if s0.len() > 0 && s0[0] == '}' {
        if ends_clean(s0.drop_first()) {
            Some(acc)
        } else {
            None
        }
    } else if s0.len() > 0 && s0[0] == ',' {
        match parse_member(s0.drop_first(), acc) {
            Some((acc2, r)) => parse_tail0(r, acc2),
            None => None,
        }
    } else {
        None
    }
}

/// Either the closing brace, or a comma and up to two more members.
pub open spec fn parse_tail2(s: Seq<char>, acc: ReqFields) -> Option<ReqFields> {
    let s0 = skip_ws(s);
    if s0.len() > 0 && s0[0] == '}' {
        if ends_clean(s0.drop_first()) {
            Some(acc)
        } else {
            None
        }
    } else if s0.len() > 0 && s0[0] == ',' {
        match parse_member(s0.drop_first(), acc) {
            Some((acc2, r)) => parse_tail1(r, acc2),
            None => None,
        }
    } else {
        None
    }
}

/// Parses a whole request object: three keys at most, each at most once.
pub open spec fn parse_request_fields(s: Seq<char>) -> Option<ReqFields> {
    let s0 = skip_ws(s);
    if s0.len() == 0 || s0[0] != '{' {
        None
    } else {
        let s1 = s0.drop_first();
        let s2 = skip_ws(s1);
        if s2.len() > 0 && s2[0] == '}' {
            if ends_clean(s2.drop_first()) {
                Some(no_fields())
            } else {
                None
            }
        } else {
            match parse_member(s1, no_fields()) {
                Some((acc, r)) => parse_tail2(r, acc),
                None => None,
            }
        }
    }
}

/// A seen description folded to its stored meaning: an explicit `null`
/// counts as absent.
pub open spec fn flat_desc(d: Option<Option<Seq<char>>>) -> Option<Seq<char>> {
    match d {
        Some(Some(v)) => Some(v),
        _ => None,
    }
}

/// The decoded creation request: the title is required; a missing completed
/// flag defaults to false.
pub open spec fn parse_create_request(s: Seq<char>) -> Option<(Seq<char>, Option<Seq<char>>, bool)> {
    match parse_request_fields(s) {
        None => None,
        Some(f) => match f.title {
            None => None,
            Some(t) => Some(
                (
                    t,
                    flat_desc(f.description),
                    match f.completed {
                        Some(b) => b,
                        None => false,
                    },
                ),
            ),
        },
    }
}

/// The decoded update request: every field optional.
pub open spec fn parse_update_request(s: Seq<char>) -> Option<
    (Option<Seq<char>>, Option<Seq<char>>, Option<bool>),
> {
    match parse_request_fields(s) {
        None => None,
        Some(f) => Some((f.title, flat_desc(f.description), f.completed)),
    }
}

// --- Exec side. ---

/// The exec accumulator, viewed as `ReqFields`.
pub struct ReqAcc {
    pub title: Option<Vec<char>>,
    pub description: Option<Option<Vec<char>>>,
    pub completed: Option<bool>,
}

impl View for ReqAcc {
    type V = ReqFields;

    open spec fn view(&self) -> ReqFields {
        ReqFields {
            title: match self.title {
                Some(v) => Some(v@),
                None => None,
            },
            description: match self.description {
                Some(Some(v)) => Some(Some(v@)),
                Some(None) => Some(None),
                None => None,
            },
            completed: self.completed,
        }
    }
}

/// Compares two character vectors.
pub fn chars_eq(a: &Vec<char>, b: &Vec<char>) -> (r: bool)
    ensures
        r == (a@ == b@),
{
    if a.len() != b.len() {
        return false;
    }
    let mut i: usize = 0;
    while i < a.len()
        invariant
            i <= a.len(),
            a@.len() == b@.len(),
            forall|k: int| 0 <= k < i ==> a@[k] == b@[k],
        decreases a.len() - i,
    {
        if a[i] != b[i] {
            return false;
        }
        i += 1;
    }
    proof {
        assert(a@ =~= b@);
    }
    true
}

/// Exec counterpart of `parse_member`.
#[verifier::rlimit(60)]
pub fn parse_member_exec(v: &Vec<char>, i: usize, acc: ReqAcc) -> (r: Option<(ReqAcc, usize)>)
    requires
        i <= v.len(),
    ensures
        match r {
            Some(p) => {
                &&& p.1 <= v.len()
                &&& parse_member(v@.skip(i as int), acc@) == Some((p.0@, v@.skip(p.1 as int)))
            },
            None => parse_member(v@.skip(i as int), acc@) is None,
        },
{
    let title_key = str_to_chars("title");
    let description_key = str_to_chars("description");
    let completed_key = str_to_chars("completed");
    let null_lit = str_to_chars("null");
    let true_lit = str_to_chars("true");
    let false_lit = str_to_chars("false");
    proof {
        reveal_strlit("title");
        reveal_strlit("description");
        reveal_strlit("completed");
        reveal_strlit("null");
        reveal_strlit("true");
        reveal_strlit("false");
        assert(title_key@ =~= key_title());
        assert(description_key@ =~= key_description());
        assert(completed_key@ =~= key_completed());
        assert(null_lit@ =~= lit_null());
        assert(true_lit@ =~= lit_true());
        assert(false_lit@ =~= lit_false());
    }
    let j0 = skip_ws_exec(v, i);
    let (key, j1) = match parse_quoted_exec(v, j0) {
        Some(p) => p,
        None => {
            return None;
        },
    };
    let j2 = skip_ws_exec(v, j1);
    proof {
        if j2 < v.len() {
            assert(v@.skip(j2 as int)[0] == v@[j2 as int]);
        }
    }
    if j2 == v.len() {
        return None;
    }
    if v[j2] != ':' {
        return None;
    }
    proof {
        assert(v@.skip(j2 as int).drop_first() =~= v@.skip(j2 + 1 as int));
    }
    let j3 = skip_ws_exec(v, j2 + 1);
    if chars_eq(&key, &title_key) {
        if acc.title.is_some() {
            return None;
        }
        match parse_quoted_exec(v, j3) {
            Some((val, j4)) => Some((ReqAcc { title: Some(val), ..acc }, j4)),
            None => None,
        }
    } else if chars_eq(&key, &description_key) {
        if acc.description.is_some() {
            return None;
        }
        match expect_lit(v, j3, &null_lit) {
            Some(j4) => Some((ReqAcc { description: Some(None), ..acc }, j4)),
            None => match parse_quoted_exec(v, j3) {
                Some((val, j4)) => Some((ReqAcc { description: Some(Some(val)), ..acc }, j4)),
                None => None,
            },
        }
    } else if chars_eq(&key, &completed_key) {
        if acc.completed.is_some() {
            return None;
        }
        match expect_lit(v, j3, &true_lit) {
            Some(j4) => Some((ReqAcc { completed: Some(true), ..acc }, j4)),
            None => match expect_lit(v, j3, &false_lit) {
                Some(j4) => Some((ReqAcc { completed: Some(false), ..acc }, j4)),
                None => None,
            },
        }
    } else {
        None
    }
}

/// Exec counterpart of the unrolled member tails: `depth` many further
/// members are allowed before the object must close.
pub fn parse_tail_exec(v: &Vec<char>, i: usize, acc: ReqAcc, depth: u8) -> (r: Option<ReqAcc>)
    requires
        i <= v.len(),
        depth <= 2,
    ensures
        ({
            let spec_r = if depth == 0 {
                parse_tail0(v@.skip(i as int), acc@)
            } else if depth == 1 {
                parse_tail1(v@.skip(i as int), acc@)
            } else {
                parse_tail2(v@.skip(i as int), acc@)
            };
            match r {
                Some(a) => spec_r == Some(a@),
                None => spec_r is None,
            }
        }),
    decreases depth,
{
    let j0 = skip_ws_exec(v, i);
    proof {
        if j0 < v.len() {
            assert(v@.skip(j0 as int)[0] == v@[j0 as int]);
        }
    }
    if j0 == v.len() {
        return None;
    }
    if v[j0] == '}' {
        proof {
            assert(v@.skip(j0 as int).drop_first() =~= v@.skip(j0 + 1 as int));
        }
        let j1 = skip_ws_exec(v, j0 + 1);
        if j1 == v.len() {
            return Some(acc);
        }
        return None;
    }
    if depth == 0 {
        return None;
    }
    if v[j0] != ',' {
        return None;
    }
    proof {
        assert(v@.skip(j0 as int).drop_first() =~= v@.skip(j0 + 1 as int));
    }
    match parse_member_exec(v, j0 + 1, acc) {
        Some((acc2, j1)) => parse_tail_exec(v, j1, acc2, depth - 1),
        None => None,
    }
}

/// Exec counterpart of `parse_request_fields`.
pub fn parse_request_fields_exec(v: &Vec<char>) -> (r: Option<ReqAcc>)
    ensures
        match r {
            Some(a) => parse_request_fields(v@) == Some(a@),
            None => parse_request_fields(v@) is None,
        },
{
    proof {
        assert(v@.skip(0) =~= v@);
    }
    let j0 = skip_ws_exec(v, 0);
    proof {
        if j0 < v.len() {
            assert(v@.skip(j0 as int)[0] == v@[j0 as int]);
        }
    }
    if j0 == v.len() {
        return None;
    }
    if v[j0] != '{' {
        return None;
    }
    proof {
        assert(v@.skip(j0 as int).drop_first() =~= v@.skip(j0 + 1 as int));
    }
    let j1 = j0 + 1;
    let j2 = skip_ws_exec(v, j1);
    proof {
        if j2 < v.len() {
            assert(v@.skip(j2 as int)[0] == v@[j2 as int]);
        }
    }
    let empty = ReqAcc { title: None, description: None, completed: None };
    proof {
        assert(empty@ == no_fields());
    }
    if j2 < v.len() && v[j2] == '}' {
        proof {
            assert(v@.skip(j2 as int).drop_first() =~= v@.skip(j2 + 1 as int));
        }
        let j3 = skip_ws_exec(v, j2 + 1);
        if j3 == v.len() {
            return Some(empty);
        }
        return None;
    }
    match parse_member_exec(v, j1, empty) {
        Some((acc, j3)) => parse_tail_exec(v, j3, acc, 2),
        None => None,
    }
}

/// Decodes the body of a creation request: the title is required, the
/// completed flag defaults to false, and an explicit `null` description
/// counts as absent.
pub fn decode_create_request(s: &str) -> (r: Option<CreateTaskRequest>)
    ensures
        match r {
            Some(req) => parse_create_request(s@) == Some(
                (req.title@, crate::json::opt_view(req.description), req.completed),
            ),
            None => parse_create_request(s@) is None,
        },
{
    let v = str_to_chars(s);
    let acc = match parse_request_fields_exec(&v) {
        Some(a) => a,
        None => {
            return None;
        },
    };
    let title = match acc.title {
        Some(t) => t,
        None => {
            return None;
        },
    };
    let description = match acc.description {
        Some(Some(d)) => Some(chars_to_string(&d)),
        _ => None,
    };
    let completed = match acc.completed {
        Some(b) => b,
        None => false,
    };
    Some(CreateTaskRequest { title: chars_to_string(&title), description, completed })
}

/// Decodes the body of an update request: every field optional, an explicit
/// `null` description counting as absent.
pub fn decode_update_request(s: &str) -> (r: Option<UpdateTaskRequest>)
    ensures
        match r {
            Some(req) => parse_update_request(s@) == Some(
                (
                    crate::json::opt_view(req.title),
                    crate::json::opt_view(req.description),
                    req.completed,
                ),
            ),
            None => parse_update_request(s@) is None,
        },
{
    let v = str_to_chars(s);
    let acc = match parse_request_fields_exec(&v) {
        Some(a) => a,
        None => {
            return None;
        },
    };
    let title = match acc.title {
        Some(t) => Some(chars_to_string(&t)),
        None => None,
    };
    let description = match acc.description {
        Some(Some(d)) => Some(chars_to_string(&d)),
        _ => None,
    };
    Some(UpdateTaskRequest { title, description, completed: acc.completed })
}

} // verus!
