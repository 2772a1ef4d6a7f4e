//! Request handlers: the full pipeline from a decoded path id and raw body
//! to a rendered wire response, one per route. Generated values — the id
//! and the timestamp of a creation — are passed in by the caller.

use vstd::prelude::*;
use crate::codec::{task_json, tasks_json, JsonEncode, error_body_json};
use crate::error::AppError;
use crate::json::{is_hex, json_string, str_to_chars};
use crate::render::{render, render_error, Rendered, RenderedView};
use crate::repository::{has_id, idx_of, TaskRepository};
use crate::requests::{
    decode_create_request, decode_update_request, parse_create_request, parse_update_request,
};
use crate::response::{AppResponse, StatusCode};
use crate::service::{norm_desc, trimmed, update_title_ok, updated_view, TaskService};
use crate::task::TaskView;

verus! {

/// What an error renders to, written out by its parts.
pub open spec fn spec_error_rendered(
    status: StatusCode,
    code: Seq<char>,
    message: Seq<char>,
    details: Option<Seq<char>>,
) -> RenderedView {
    RenderedView {
        status: status.spec_as_u16(),
        body: Some(error_body_json(code, message, details)),
        headers: seq![("content-type"@, "application/json"@)],
    }
}

/// What a payload-bearing success renders to.
pub open spec fn spec_ok_rendered(status: StatusCode, body: Seq<char>) -> RenderedView {
    RenderedView {
        status: status.spec_as_u16(),
        body: Some(body),
        headers: seq![("content-type"@, "application/json"@)],
    }
}

/// What a bodyless success renders to.
pub open spec fn spec_empty_rendered(status: StatusCode) -> RenderedView {
    RenderedView { status: status.spec_as_u16(), body: None, headers: Seq::empty() }
}

/// The shape of a task id: the hyphenated hexadecimal form.
pub open spec fn is_uuid(s: Seq<char>) -> bool {
    s.len() == 36 && forall|i: int|
        0 <= i < 36 ==> (if i == 8 || i == 13 || i == 18 || i == 23 {
            s[i] == '-'
        } else {
            is_hex(s[i])
        })
}

/// Checks that an id has the hyphenated hexadecimal shape.
pub fn check_uuid(id: &String) -> (r: bool)
    ensures
        r == is_uuid(id@),
{
    let v = str_to_chars(id.as_str());
    if v.len() != 36 {
        return false;
    }
    let mut i: usize = 0;
    while i < 36
        invariant
            i <= 36,
            v@ == id@,
            v@.len() == 36,
            forall|k: int|
                0 <= k < i ==> (if k == 8 || k == 13 || k == 18 || k == 23 {
                    v@[k] == '-'
                } else {
                    is_hex(v@[k])
                }),
        decreases 36 - i,
    {
        let c = v[i];
        if i == 8 || i == 13 || i == 18 || i == 23 {
            if c != '-' {
                return false;
            }
        } else {
            let ok = match crate::json::hex_val_exec(c) {
                Some(_) => true,
                None => false,
            };
            if !ok {
                return false;
            }
        }
        i += 1;
    }
    true
}

/// The health report.
pub struct HealthResponse {
    pub status: String,
}

/// The JSON text of the health report.
pub open spec fn health_json(s: Seq<char>) -> Seq<char> {
    seq!['{', '"', 's', 't', 'a', 't', 'u', 's', '"', ':'] + json_string(s) + seq!['}']
}

impl JsonEncode for HealthResponse {
    open spec fn json_spec(&self) -> Seq<char> {
        health_json(self.status@)
    }

    fn to_json(&self) -> (s: String)
        ensures
            s@ == self.json_spec(),
    {
        let mut out: Vec<char> = Vec::new();
        crate::codec::push_lit(&mut out, "{\"status\":");
        proof {
            reveal_strlit("{\"status\":");
            assert("{\"status\":"@ =~= seq!['{', '"', 's', 't', 'a', 't', 'u', 's', '"', ':']);
        }
        crate::codec::push_json_string(&mut out, &self.status);
        out.push('}');
        proof {
            assert(out@ =~= self.json_spec());
        }
        crate::json::chars_to_string(&out)
    }
}

/// Reports service health.
pub fn health() -> (r: Rendered)
    ensures
        r@ == spec_ok_rendered(StatusCode::Okay, health_json("ok"@)),
{
    let body = HealthResponse { status: String::from_str("ok") };
    let resp = AppResponse::ok(body);
    let r = render(resp);
    proof {
        assert(r@.headers =~= spec_ok_rendered(StatusCode::Okay, health_json("ok"@)).headers);
    }
    r
}

/// Lists every task: a 200 with the JSON array of all rows, in storage
/// order.
pub fn list_tasks(repo: &TaskRepository) -> (r: Rendered)
    ensures
        r@ == spec_ok_rendered(StatusCode::Okay, tasks_json(repo@)),
{
    match TaskService::get_all(repo) {
        Ok(ts) => {
            let r = render(AppResponse::ok(ts));
            proof {
                assert(r@.headers =~= spec_ok_rendered(StatusCode::Okay, tasks_json(repo@)).headers);
            }
            r
        },
        Err(e) => render_error(&e),
    }
}

/// Fetches one task: a 200 with its DTO, a 404 when the id is absent, and
/// a 400 when the id is not even uuid-shaped.
pub fn get_task(repo: &TaskRepository, id: &String) -> (r: Rendered)
    requires
        repo.wf(),
    ensures
        !is_uuid(id@) ==> r@ == spec_error_rendered(
            StatusCode::BadRequest,
            "INVALID_INPUT"@,
            "Invalid UUID"@,
            None,
        ),
        is_uuid(id@) && has_id(repo@, id@) ==> r@ == spec_ok_rendered(
            StatusCode::Okay,
            task_json(repo@[idx_of(repo@, id@)]),
        ),
        is_uuid(id@) && !has_id(repo@, id@) ==> r@ == spec_error_rendered(
            StatusCode::NotFound,
            "NOT_FOUND"@,
            "Resource not found"@,
            None,
        ),
{
    if !check_uuid(id) {
        return render_error(&AppError::invalid_input(String::from_str("Invalid UUID")));
    }
    match TaskService::get_by_id(repo, id) {
        Ok(dto) => {
            let ghost expected = spec_ok_rendered(
                StatusCode::Okay,
                task_json(repo@[idx_of(repo@, id@)]),
            );
            let r = render(AppResponse::ok(dto));
            proof {
                assert(r@.headers =~= expected.headers);
            }
            r
        },
        Err(e) => render_error(&e),
    }
}

/// Creates a task from a raw request body, under a caller-generated id and
/// timestamp: a 201 with the persisted DTO, a 400 on an undecodable body or
/// an invalid title, and a 409 when the id collides.
pub fn create_task(repo: &mut TaskRepository, body: &str, id: String, now: String) -> (r: Rendered)
    requires
        old(repo).wf(),
    ensures
        final(repo).wf(),
        parse_create_request(body@) is None ==> (r@ == spec_error_rendered(
            StatusCode::BadRequest,
            "INVALID_INPUT"@,
            "Invalid JSON"@,
            None,
        ) && final(repo)@ == old(repo)@),
        parse_create_request(body@) matches Some(p) && trimmed(p.0).len() == 0 ==> (r@
            == spec_error_rendered(
            StatusCode::BadRequest,
            "VALIDATION_ERROR"@,
            "Title cannot be empty"@,
            None,
        ) && final(repo)@ == old(repo)@),
        parse_create_request(body@) matches Some(p) && trimmed(p.0).len() > 0 && p.0.len() > 255
            ==> (r@ == spec_error_rendered(
            StatusCode::BadRequest,
            "VALIDATION_ERROR"@,
            "Title must be less than 255 characters"@,
            None,
        ) && final(repo)@ == old(repo)@),
        parse_create_request(body@) matches Some(p) && trimmed(p.0).len() > 0 && p.0.len() <= 255
            && has_id(old(repo)@, id@) ==> (r@ == spec_error_rendered(
            StatusCode::Conflict,
            "DUPLICATE_ENTRY"@,
            "Resource already exists"@,
            None,
        ) && final(repo)@ == old(repo)@),
        ({
            let p = parse_create_request(body@)->Some_0;
            let created = TaskView {
                id: id@,
                title: trimmed(p.0),
                description: norm_desc(p.1),
                completed: p.2,
                created_at: now@,
                updated_at: now@,
            };
            parse_create_request(body@) is Some && trimmed(p.0).len() > 0 && p.0.len() <= 255
                && !has_id(old(repo)@, id@) ==> (r@ == spec_ok_rendered(
                StatusCode::Created,
                task_json(created),
            ) && final(repo)@ == old(repo)@.push(created))
        }),
{
    let req = match decode_create_request(body) {
        Some(req) => req,
        None => {
            return render_error(&AppError::invalid_input(String::from_str("Invalid JSON")));
        },
    };
    match TaskService::create(repo, req, id, now) {
        Ok(dto) => {
            let ghost created = dto@;
            let r = render(AppResponse::created(dto));
            proof {
                assert(r@.headers =~= spec_ok_rendered(StatusCode::Created, task_json(created)).headers);
            }
            r
        },
        Err(e) => render_error(&e),
    }
}

/// Updates a task from a raw request body: a 200 with the updated DTO, a
/// 400 on an undecodable body, an invalid title or a malformed id, and a
/// 404 when the id is absent — checked before any storage mutation.
pub fn update_task(repo: &mut TaskRepository, id: &String, body: &str) -> (r: Rendered)
    requires
        old(repo).wf(),
    ensures
        final(repo).wf(),
        !is_uuid(id@) ==> (r@ == spec_error_rendered(
            StatusCode::BadRequest,
            "INVALID_INPUT"@,
            "Invalid UUID"@,
            None,
        ) && final(repo)@ == old(repo)@),
        is_uuid(id@) && parse_update_request(body@) is None ==> (r@ == spec_error_rendered(
            StatusCode::BadRequest,
            "INVALID_INPUT"@,
            "Invalid JSON"@,
            None,
        ) && final(repo)@ == old(repo)@),
        ({
            let p = parse_update_request(body@)->Some_0;
            let t = p.0->Some_0;
            is_uuid(id@) && parse_update_request(body@) is Some && p.0 is Some && trimmed(
                t,
            ).len() == 0 ==> (r@ == spec_error_rendered(
                StatusCode::BadRequest,
                "VALIDATION_ERROR"@,
                "Title cannot be empty"@,
                None,
            ) && final(repo)@ == old(repo)@)
        }),
        ({
            let p = parse_update_request(body@)->Some_0;
            let t = p.0->Some_0;
            is_uuid(id@) && parse_update_request(body@) is Some && p.0 is Some && trimmed(
                t,
            ).len() > 0 && t.len() > 255 ==> (r@ == spec_error_rendered(
                StatusCode::BadRequest,
                "VALIDATION_ERROR"@,
                "Title must be less than 255 characters"@,
                None,
            ) && final(repo)@ == old(repo)@)
        }),
        ({
            let p = parse_update_request(body@)->Some_0;
            is_uuid(id@) && parse_update_request(body@) is Some && update_title_ok(p.0)
                && !has_id(old(repo)@, id@) ==> (r@ == spec_error_rendered(
                StatusCode::NotFound,
                "NOT_FOUND"@,
                "Resource not found"@,
                None,
            ) && final(repo)@ == old(repo)@)
        }),
        ({
            let p = parse_update_request(body@)->Some_0;
            let updated = updated_view(old(repo)@[idx_of(old(repo)@, id@)], p.0, p.1, p.2);
            is_uuid(id@) && parse_update_request(body@) is Some && update_title_ok(p.0)
                && has_id(old(repo)@, id@) ==> (r@ == spec_ok_rendered(
                StatusCode::Okay,
                task_json(updated),
            ) && final(repo)@ == old(repo)@.update(idx_of(old(repo)@, id@), updated))
        }),
{
    if !check_uuid(id) {
        return render_error(&AppError::invalid_input(String::from_str("Invalid UUID")));
    }
    let req = match decode_update_request(body) {
        Some(req) => req,
        None => {
            return render_error(&AppError::invalid_input(String::from_str("Invalid JSON")));
        },
    };
    match TaskService::update(repo, id, req) {
        Ok(dto) => {
            let ghost updated = dto@;
            let r = render(AppResponse::ok(dto));
            proof {
                assert(r@.headers =~= spec_ok_rendered(StatusCode::Okay, task_json(updated)).headers);
            }
            r
        },
        Err(e) => render_error(&e),
    }
}

/// Deletes a task: a 204 with an empty body, a 404 when the id is absent —
/// checked before the removal — and a 400 on a malformed id.
pub fn delete_task(repo: &mut TaskRepository, id: &String) -> (r: Rendered)
    requires
        old(repo).wf(),
    ensures
        final(repo).wf(),
        !is_uuid(id@) ==> (r@ == spec_error_rendered(
            StatusCode::BadRequest,
            "INVALID_INPUT"@,
            "Invalid UUID"@,
            None,
        ) && final(repo)@ == old(repo)@),
        is_uuid(id@) && !has_id(old(repo)@, id@) ==> (r@ == spec_error_rendered(
            StatusCode::NotFound,
            "NOT_FOUND"@,
            "Resource not found"@,
            None,
        ) && final(repo)@ == old(repo)@),
        is_uuid(id@) && has_id(old(repo)@, id@) ==> (r@ == spec_empty_rendered(
            StatusCode::NoContent,
        ) && final(repo)@ == old(repo)@.remove(idx_of(old(repo)@, id@))),
{
    if !check_uuid(id) {
        return render_error(&AppError::invalid_input(String::from_str("Invalid UUID")));
    }
    match TaskService::delete(repo, id) {
        Ok(_) => {
            let r = render(AppResponse::no_content());
            proof {
                assert(r@.headers =~= Seq::<(Seq<char>, Seq<char>)>::empty());
            }
            r
        },
        Err(e) => render_error(&e),
    }
}

} // verus!
