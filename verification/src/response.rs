//! Transport-agnostic response envelope: a status classification plus an
//! optional payload, with optional caller-supplied headers that the renderer
//! merges in last.

use vstd::prelude::*;

verus! {

/// The closed set of status classifications an envelope may carry.
#[derive(Clone, Copy, Debug, PartialEq, Eq, Structural)]
pub enum StatusCode {
    Okay,
    Created,
    Accepted,
    NoContent,
    BadRequest,
    Unauthorized,
    Forbidden,
    NotFound,
    Conflict,
    UnprocessableEntity,
    InternalServerError,
}

impl StatusCode {
    /// The numeric HTTP status each classification stands for.
    pub open spec fn spec_as_u16(self) -> u16 {
        match self {
            StatusCode::Okay => 200,
            StatusCode::Created => 201,
            StatusCode::Accepted => 202,
            StatusCode::NoContent => 204,
            StatusCode::BadRequest => 400,
            StatusCode::Unauthorized => 401,
            StatusCode::Forbidden => 403,
            StatusCode::NotFound => 404,
            StatusCode::Conflict => 409,
            StatusCode::UnprocessableEntity => 422,
            StatusCode::InternalServerError => 500,
        }
    }

    /// Numeric HTTP status code of this classification.
    pub fn as_u16(self) -> (n: u16)
        ensures
            n == self.spec_as_u16(),
    {
        match self {
            StatusCode::Okay => 200,
            StatusCode::Created => 201,
            StatusCode::Accepted => 202,
            StatusCode::NoContent => 204,
            StatusCode::BadRequest => 400,
            StatusCode::Unauthorized => 401,
            StatusCode::Forbidden => 403,
            StatusCode::NotFound => 404,
            StatusCode::Conflict => 409,
            StatusCode::UnprocessableEntity => 422,
            StatusCode::InternalServerError => 500,
        }
    }
}

/// Success-result wrapper: a status classification with an optional payload.
/// It never serializes anything itself; rendering is the transport renderer's
/// job.
pub struct AppResponse<T> {
    pub data: Option<T>,
    pub status: StatusCode,
    pub headers: Option<Vec<(String, String)>>,
}

impl<T> AppResponse<T> {
    /// Invariant: `NoContent` carries no payload; the payload-bearing success
    /// classifications always carry one.
    pub open spec fn well_formed(&self) -> bool {
        &&& self.status is NoContent ==> self.data is None
        &&& (self.status is Okay || self.status is Created || self.status is Accepted)
            ==> self.data is Some
    }

    /// Creates a new response with a status code and data.
    pub fn new(status: StatusCode, body: T) -> (r: Self)
        ensures
            r.status == status,
            r.data == Some(body),
            r.headers is None,
    {
        Self { data: Some(body), status, headers: None }
    }

    /// Creates an empty response with a status code.
    pub fn empty(status: StatusCode) -> (r: Self)
        ensures
            r.status == status,
            r.data is None,
            r.headers is None,
    {
        Self { data: None, status, headers: None }
    }

    /// Adds headers to the response; the renderer appends them after the
    /// default headers, so they may override those.
    pub fn with_headers(self, headers: Vec<(String, String)>) -> (r: Self)
        ensures
            r.status == self.status,
            r.data == self.data,
            r.headers == Some(headers),
    {
        Self { headers: Some(headers), ..self }
    }

    /// 200 OK with data.
    pub fn ok(body: T) -> (r: Self)
        ensures
            r.status == StatusCode::Okay,
            r.data == Some(body),
            r.headers is None,
            r.well_formed(),
    {
        Self::new(StatusCode::Okay, body)
    }

    /// 201 Created with data.
    pub fn created(body: T) -> (r: Self)
        ensures
            r.status == StatusCode::Created,
            r.data == Some(body),
            r.headers is None,
            r.well_formed(),
    {
        Self::new(StatusCode::Created, body)
    }

    /// 202 Accepted with data.
    pub fn accepted(body: T) -> (r: Self)
        ensures
            r.status == StatusCode::Accepted,
            r.data == Some(body),
            r.headers is None,
            r.well_formed(),
    {
        Self::new(StatusCode::Accepted, body)
    }
}

impl AppResponse<()> {
    /// 204 No Content.
    pub fn no_content() -> (r: Self)
        ensures
            r.status == StatusCode::NoContent,
            r.data is None,
            r.headers is None,
            r.well_formed(),
    {
        Self::empty(StatusCode::NoContent)
    }
}

} // verus!
