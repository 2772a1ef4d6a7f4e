use task_api::response::{AppResponse, StatusCode};
use task_api::render::render;
use task_api::task::TaskResponse;

struct TestData {
    message: String,
}

fn sample_task() -> TaskResponse {
    TaskResponse {
        id: "00000000-0000-0000-0000-000000000001".to_string(),
        title: "Test".to_string(),
        description: None,
        completed: false,
        created_at: "2024-01-01T00:00:00Z".to_string(),
        updated_at: "2024-01-01T00:00:00Z".to_string(),
    }
}

#[test]
fn test_ok_response() {
    let data = TestData {
        message: "success".to_string(),
    };
    let response = AppResponse::ok(data);
    assert_eq!(response.status, StatusCode::Okay);
    assert!(response.data.is_some());
    assert_eq!(response.data.unwrap().message, "success");
}

#[test]
fn test_created_response() {
    let data = TestData {
        message: "created".to_string(),
    };
    let response = AppResponse::created(data);
    assert_eq!(response.status, StatusCode::Created);
}

#[test]
fn test_accepted_response() {
    let data = TestData {
        message: "accepted".to_string(),
    };
    let response = AppResponse::accepted(data);
    assert_eq!(response.status, StatusCode::Accepted);
    assert!(response.data.is_some());
}

#[test]
fn test_no_content_response() {
    let response = AppResponse::no_content();
    assert_eq!(response.status, StatusCode::NoContent);
    assert!(response.data.is_none());
}

#[test]
fn test_response_with_headers() {
    let mut headers: Vec<(String, String)> = Vec::new();
    headers.push(("X-Custom-Header".to_string(), "value".to_string()));

    let data = TestData {
        message: "with headers".to_string(),
    };
    let response = AppResponse::ok(data).with_headers(headers);
    assert!(response.headers.is_some());
}

#[test]
fn test_new_and_empty() {
    let response = AppResponse::new(StatusCode::Accepted, 7u32);
    assert_eq!(response.status, StatusCode::Accepted);
    assert_eq!(response.data, Some(7));
    assert!(response.headers.is_none());

    let empty: AppResponse<u32> = AppResponse::empty(StatusCode::Forbidden);
    assert_eq!(empty.status, StatusCode::Forbidden);
    assert!(empty.data.is_none());
}

#[test]
fn test_status_codes_numeric() {
    assert_eq!(StatusCode::Okay.as_u16(), 200);
    assert_eq!(StatusCode::Created.as_u16(), 201);
    assert_eq!(StatusCode::Accepted.as_u16(), 202);
    assert_eq!(StatusCode::NoContent.as_u16(), 204);
    assert_eq!(StatusCode::BadRequest.as_u16(), 400);
    assert_eq!(StatusCode::Unauthorized.as_u16(), 401);
    assert_eq!(StatusCode::Forbidden.as_u16(), 403);
    assert_eq!(StatusCode::NotFound.as_u16(), 404);
    assert_eq!(StatusCode::Conflict.as_u16(), 409);
    assert_eq!(StatusCode::UnprocessableEntity.as_u16(), 422);
    assert_eq!(StatusCode::InternalServerError.as_u16(), 500);
}

#[test]
fn test_no_content_renders_empty_body() {
    let rendered = render(AppResponse::no_content());
    assert_eq!(rendered.status, 204);
    assert!(rendered.body.is_none());
    assert!(rendered.headers.is_empty());
}

#[test]
fn test_empty_envelope_renders_empty_body_for_any_type() {
    let resp: AppResponse<TaskResponse> = AppResponse::empty(StatusCode::NoContent);
    let rendered = render(resp);
    assert_eq!(rendered.status, 204);
    assert!(rendered.body.is_none());
}

#[test]
fn test_payload_renders_flat_body() {
    let task = sample_task();
    let expected = task_api::codec::encode_task(&task);
    let rendered = render(AppResponse::ok(task));
    assert_eq!(rendered.status, 200);
    let body = rendered.body.unwrap();
    assert_eq!(body, expected);
    assert!(body.starts_with("{\"id\":"));
    assert!(!body.contains("\"data\""));
    assert!(!body.contains("\"status\""));
    assert_eq!(
        rendered.headers,
        vec![("content-type".to_string(), "application/json".to_string())]
    );
}

#[test]
fn test_created_renders_201_with_body() {
    let task = sample_task();
    let expected = task_api::codec::encode_task(&task);
    let rendered = render(AppResponse::created(task));
    assert_eq!(rendered.status, 201);
    assert_eq!(rendered.body.unwrap(), expected);
}

#[test]
fn test_render_merges_custom_headers_last() {
    let task = sample_task();
    let mut headers: Vec<(String, String)> = Vec::new();
    headers.push(("content-type".to_string(), "text/plain".to_string()));
    let rendered = render(AppResponse::ok(task).with_headers(headers));
    assert_eq!(rendered.headers.len(), 2);
    assert_eq!(rendered.headers[0].1, "application/json");
    assert_eq!(rendered.headers[1].1, "text/plain");
}
