use task_api::handlers::{create_task, delete_task, get_task, health, list_tasks, update_task};
use task_api::repository::TaskRepository;

const ID1: &str = "00000000-0000-0000-0000-000000000001";
const NOW: &str = "2024-01-01T00:00:00Z";

#[test]
fn test_health() {
    let rendered = health();
    assert_eq!(rendered.status, 200);
    assert_eq!(rendered.body.unwrap(), "{\"status\":\"ok\"}");
}

#[test]
fn test_list_tasks_empty() {
    let repo = TaskRepository::new();
    let rendered = list_tasks(&repo);
    assert_eq!(rendered.status, 200);
    assert_eq!(rendered.body.unwrap(), "[]");
}

#[test]
fn test_end_to_end_task_lifecycle() {
    let mut repo = TaskRepository::new();

    let created = create_task(&mut repo, "{\"title\":\"Test\"}", ID1.to_string(), NOW.to_string());
    assert_eq!(created.status, 201);
    let created_body = created.body.unwrap();
    assert!(created_body.contains(&format!("\"id\":\"{}\"", ID1)));
    assert!(created_body.contains("\"completed\":false"));
    assert!(created_body.contains("\"description\":null"));

    let fetched = get_task(&repo, &ID1.to_string());
    assert_eq!(fetched.status, 200);
    assert_eq!(fetched.body.unwrap(), created_body);

    let deleted = delete_task(&mut repo, &ID1.to_string());
    assert_eq!(deleted.status, 204);
    assert!(deleted.body.is_none());

    let missing = get_task(&repo, &ID1.to_string());
    assert_eq!(missing.status, 404);
    assert_eq!(
        missing.body.unwrap(),
        "{\"error\":\"NOT_FOUND\",\"message\":\"Resource not found\"}"
    );
}

#[test]
fn test_create_task_invalid_json() {
    let mut repo = TaskRepository::new();
    let rendered = create_task(&mut repo, "{not json", ID1.to_string(), NOW.to_string());
    assert_eq!(rendered.status, 400);
    assert_eq!(
        rendered.body.unwrap(),
        "{\"error\":\"INVALID_INPUT\",\"message\":\"Invalid JSON\"}"
    );
}

#[test]
fn test_create_task_validation_error() {
    let mut repo = TaskRepository::new();
    let rendered = create_task(&mut repo, "{\"title\":\"  \"}", ID1.to_string(), NOW.to_string());
    assert_eq!(rendered.status, 400);
    assert_eq!(
        rendered.body.unwrap(),
        "{\"error\":\"VALIDATION_ERROR\",\"message\":\"Title cannot be empty\"}"
    );
}

#[test]
fn test_create_task_duplicate() {
    let mut repo = TaskRepository::new();
    let first = create_task(&mut repo, "{\"title\":\"A\"}", ID1.to_string(), NOW.to_string());
    assert_eq!(first.status, 201);
    let second = create_task(&mut repo, "{\"title\":\"B\"}", ID1.to_string(), NOW.to_string());
    assert_eq!(second.status, 409);
    assert_eq!(
        second.body.unwrap(),
        "{\"error\":\"DUPLICATE_ENTRY\",\"message\":\"Resource already exists\"}"
    );
}

#[test]
fn test_update_task_lifecycle() {
    let mut repo = TaskRepository::new();
    create_task(&mut repo, "{\"title\":\"A\"}", ID1.to_string(), NOW.to_string());
    let updated = update_task(&mut repo, &ID1.to_string(), "{\"completed\":true}");
    assert_eq!(updated.status, 200);
    let body = updated.body.unwrap();
    assert!(body.contains("\"title\":\"A\""));
    assert!(body.contains("\"completed\":true"));
}

#[test]
fn test_update_task_not_found() {
    let mut repo = TaskRepository::new();
    let rendered = update_task(&mut repo, &ID1.to_string(), "{\"title\":\"X\"}");
    assert_eq!(rendered.status, 404);
}

#[test]
fn test_invalid_uuid_is_rejected() {
    let mut repo = TaskRepository::new();
    let bad = "not-a-uuid".to_string();
    let rendered = get_task(&repo, &bad);
    assert_eq!(rendered.status, 400);
    assert_eq!(
        rendered.body.unwrap(),
        "{\"error\":\"INVALID_INPUT\",\"message\":\"Invalid UUID\"}"
    );
    assert_eq!(update_task(&mut repo, &bad, "{}").status, 400);
    assert_eq!(delete_task(&mut repo, &bad).status, 400);
}

#[test]
fn test_list_tasks_renders_array() {
    let mut repo = TaskRepository::new();
    create_task(&mut repo, "{\"title\":\"A\"}", ID1.to_string(), NOW.to_string());
    let rendered = list_tasks(&repo);
    assert_eq!(rendered.status, 200);
    let body = rendered.body.unwrap();
    assert!(body.starts_with("[{\"id\":"));
    assert!(body.ends_with("}]"));
}

#[test]
fn test_rendered_content_type() {
    let repo = TaskRepository::new();
    let rendered = list_tasks(&repo);
    assert_eq!(
        rendered.headers,
        vec![("content-type".to_string(), "application/json".to_string())]
    );
}
