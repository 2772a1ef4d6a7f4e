//! Transport renderer: the pure mapping from an envelope or a domain error
//! to a concrete wire response, a numeric status with an optional JSON body
//! and headers. Default headers come first; caller-supplied ones are added
//! last and may override them.

use vstd::prelude::*;
use crate::codec::{JsonEncode, error_body_json, task_json, tasks_json};
use crate::error::{AppError, ErrorResponse};
use crate::json::opt_view;
use crate::response::AppResponse;
use crate::task::TaskView;

verus! {

/// A wire-level response: numeric status, optional body text, headers in
/// order.
pub struct Rendered {
    pub status: u16,
    pub body: Option<String>,
    pub headers: Vec<(String, String)>,
}

/// Spec-level image of a wire response.
pub struct RenderedView {
    pub status: u16,
    pub body: Option<Seq<char>>,
    pub headers: Seq<(Seq<char>, Seq<char>)>,
}

/// View of a header list as plain character sequences.
pub open spec fn pairs_view(h: Seq<(String, String)>) -> Seq<(Seq<char>, Seq<char>)> {
    Seq::new(h.len(), |i: int| (h[i].0@, h[i].1@))
}

impl View for Rendered {
    type V = RenderedView;

    open spec fn view(&self) -> RenderedView {
        RenderedView {
            status: self.status,
            body: opt_view(self.body),
            headers: pairs_view(self.headers@),
        }
    }
}

/// The default header set: a JSON content type whenever a body is present.
pub open spec fn spec_default_headers(has_body: bool) -> Seq<(Seq<char>, Seq<char>)> {
    if has_body {
        seq![("content-type"@, "application/json"@)]
    } else {
        Seq::empty()
    }
}

/// The headers a rendered envelope carries: the defaults, then the
/// caller-supplied ones.
pub open spec fn spec_render_headers<T>(resp: &AppResponse<T>) -> Seq<(Seq<char>, Seq<char>)> {
    spec_default_headers(resp.data is Some) + (match resp.headers {
        Some(h) => pairs_view(h@),
        None => Seq::empty(),
    })
}

/// What rendering an envelope yields: the classification's numeric status,
/// the payload's own serialization as the whole body (or no body at all),
/// and the headers.
pub open spec fn spec_render<T: JsonEncode>(resp: &AppResponse<T>) -> RenderedView {
    RenderedView {
        status: resp.status.spec_as_u16(),
        body: match resp.data {
            Some(d) => Some(d.json_spec()),
            None => None,
        },
        headers: spec_render_headers(resp),
    }
}

/// Renders a success envelope: the body is exactly the payload's JSON text,
/// with no wrapping keys, and is omitted entirely when there is no payload.
pub fn render<T: JsonEncode>(resp: AppResponse<T>) -> (r: Rendered)
    ensures
        r@ == spec_render(&resp),
        resp.data is None ==> r.body is None,
        resp.data matches Some(d) ==> r@.body == Some(d.json_spec()),
{
    let status = resp.status.as_u16();
    let mut headers: Vec<(String, String)> = Vec::new();
    let body = match &resp.data {
        Some(d) => {
            headers.push((String::from_str("content-type"), String::from_str("application/json")));
            Some(d.to_json())
        },
        None => None,
    };
    proof {
        assert(pairs_view(headers@) =~= spec_default_headers(resp.data is Some));
    }
    match resp.headers {
        Some(extra) => {
            let ghost base = headers@;
            let mut extra = extra;
            headers.append(&mut extra);
            proof {
                assert(pairs_view(headers@) =~= pairs_view(base) + pairs_view(
                    resp.headers->Some_0@,
                ));
            }
        },
        None => {},
    }
    let r = Rendered { status, body, headers };
    proof {
        assert(r@.headers =~= spec_render_headers(&resp));
    }
    r
}

/// What rendering a domain error yields, per kind: its status, and a body
/// holding the machine code, the exposed message, and the diagnostic details
/// exactly when the kind is server-side.
pub open spec fn spec_render_error(e: &AppError) -> RenderedView {
    RenderedView {
        status: e.spec_status().spec_as_u16(),
        body: Some(error_body_json(e.spec_code(), e.spec_body_message(), e.spec_details())),
        headers: seq![("content-type"@, "application/json"@)],
    }
}

/// Renders a domain error into its wire response.
pub fn render_error(e: &AppError) -> (r: Rendered)
    ensures
        r@ == spec_render_error(e),
{
    let (status, code, message, details) = e.get_error_info();
    let body = ErrorResponse { error: code, message, details }.to_json();
    let mut headers: Vec<(String, String)> = Vec::new();
    headers.push((String::from_str("content-type"), String::from_str("application/json")));
    let r = Rendered { status: status.as_u16(), body: Some(body), headers };
    proof {
        assert(r@.headers =~= spec_render_error(e).headers);
    }
    r
}

/// Law: every error kind renders to its own (status, code) pair: two errors
/// of different kinds never share both the status and the machine code.
pub proof fn lemma_error_rendering_unique(e1: AppError, e2: AppError)
    ensures
        !e1.same_kind(&e2) ==> !(e1.spec_status() == e2.spec_status() && e1.spec_code()
            == e2.spec_code()),
{
    reveal_strlit("NOT_FOUND");
    reveal_strlit("DUPLICATE_ENTRY");
    reveal_strlit("VALIDATION_ERROR");
    reveal_strlit("INVALID_INPUT");
    reveal_strlit("DATABASE_ERROR");
    reveal_strlit("INTERNAL_ERROR");
    assert("VALIDATION_ERROR"@.len() == 16);
    assert("INVALID_INPUT"@.len() == 13);
    assert("DATABASE_ERROR"@[0] == 'D');
    assert("INTERNAL_ERROR"@[0] == 'I');
}

/// Law: rendering an error is a function of the error alone, so re-rendering
/// the same error yields byte-identical output.
pub proof fn lemma_error_rendering_stable(e: AppError, r1: RenderedView, r2: RenderedView)
    requires
        r1 == spec_render_error(&e),
        r2 == spec_render_error(&e),
    ensures
        r1 == r2,
{
}

/// Law: a well-formed no-content envelope renders with an empty body,
/// whatever payload type it declares.
pub proof fn lemma_no_content_renders_empty<T: JsonEncode>(resp: AppResponse<T>)
    requires
        resp.well_formed(),
        resp.status is NoContent,
    ensures
        spec_render(&resp).body is None,
{
}

/// Law: an envelope carrying a payload renders a body that is exactly the
/// payload's own serialization, with no envelope keys around it.
pub proof fn lemma_payload_renders_flat<T: JsonEncode>(resp: AppResponse<T>, d: T)
    requires
        resp.data == Some(d),
    ensures
        spec_render(&resp).body == Some(d.json_spec()),
{
}

/// Law: the JSON text of a task, of a task list, and of an error body is
/// never empty.
pub proof fn lemma_json_bodies_nonempty(
    t: TaskView,
    ts: Seq<TaskView>,
    code: Seq<char>,
    message: Seq<char>,
    details: Option<Seq<char>>,
)
    ensures
        task_json(t).len() > 0,
        tasks_json(ts).len() > 0,
        error_body_json(code, message, details).len() > 0,
{
}

} // verus!
