use task_api::error::AppError;
use task_api::repository::TaskRepository;
use task_api::service::TaskService;
use task_api::task::{CreateTaskRequest, UpdateTaskRequest};

fn create_req(title: &str) -> CreateTaskRequest {
    CreateTaskRequest {
        title: title.to_string(),
        description: None,
        completed: false,
    }
}

const ID1: &str = "00000000-0000-0000-0000-000000000001";
const ID2: &str = "00000000-0000-0000-0000-000000000002";
const NOW: &str = "2024-01-01T00:00:00Z";

#[test]
fn test_create_rejects_whitespace_title() {
    let mut repo = TaskRepository::new();
    let result = TaskService::create(&mut repo, create_req("  "), ID1.to_string(), NOW.to_string());
    match result {
        Err(AppError::ValidationError(m)) => assert_eq!(m, "Title cannot be empty"),
        _ => panic!("expected a validation error"),
    }
    assert!(TaskService::get_all(&repo).unwrap().is_empty());
}

#[test]
fn test_create_rejects_long_title() {
    let mut repo = TaskRepository::new();
    let long_title: String = std::iter::repeat('x').take(256).collect();
    let result = TaskService::create(
        &mut repo,
        create_req(&long_title),
        ID1.to_string(),
        NOW.to_string(),
    );
    match result {
        Err(AppError::ValidationError(m)) => {
            assert_eq!(m, "Title must be less than 255 characters")
        }
        _ => panic!("expected a validation error"),
    }
}

#[test]
fn test_create_accepts_255_char_title() {
    let mut repo = TaskRepository::new();
    let title: String = std::iter::repeat('x').take(255).collect();
    let result = TaskService::create(&mut repo, create_req(&title), ID1.to_string(), NOW.to_string());
    assert_eq!(result.unwrap().title, title);
}

#[test]
fn test_create_without_description_stores_absent() {
    let mut repo = TaskRepository::new();
    let dto = TaskService::create(
        &mut repo,
        create_req("Buy milk"),
        ID1.to_string(),
        NOW.to_string(),
    )
    .unwrap();
    assert_eq!(dto.title, "Buy milk");
    assert_eq!(dto.description, None);
    assert_eq!(dto.completed, false);
    assert_eq!(dto.id, ID1);
    assert_eq!(dto.created_at, NOW);
    assert_eq!(dto.updated_at, NOW);
}

#[test]
fn test_create_trims_title_and_description() {
    let mut repo = TaskRepository::new();
    let req = CreateTaskRequest {
        title: "  Buy milk \u{a0}".to_string(),
        description: Some("  near the shop  ".to_string()),
        completed: true,
    };
    let dto = TaskService::create(&mut repo, req, ID1.to_string(), NOW.to_string()).unwrap();
    assert_eq!(dto.title, "Buy milk");
    assert_eq!(dto.description, Some("near the shop".to_string()));
    assert_eq!(dto.completed, true);
}

#[test]
fn test_create_empty_description_becomes_absent() {
    let mut repo = TaskRepository::new();
    let req = CreateTaskRequest {
        title: "T".to_string(),
        description: Some("   ".to_string()),
        completed: false,
    };
    let dto = TaskService::create(&mut repo, req, ID1.to_string(), NOW.to_string()).unwrap();
    assert_eq!(dto.description, None);
}

#[test]
fn test_repository_create_conflict() {
    let mut repo = TaskRepository::new();
    let first = TaskService::create(&mut repo, create_req("A"), ID1.to_string(), NOW.to_string());
    assert!(first.is_ok());
    let second = TaskService::create(&mut repo, create_req("B"), ID1.to_string(), NOW.to_string());
    match second {
        Err(AppError::Duplicate(m)) => assert_eq!(m, "Resource already exists"),
        _ => panic!("expected a duplicate error"),
    }
    assert_eq!(TaskService::get_all(&repo).unwrap().len(), 1);
}

#[test]
fn test_get_by_id() {
    let mut repo = TaskRepository::new();
    TaskService::create(&mut repo, create_req("A"), ID1.to_string(), NOW.to_string()).unwrap();
    let dto = TaskService::get_by_id(&repo, &ID1.to_string()).unwrap();
    assert_eq!(dto.title, "A");
    match TaskService::get_by_id(&repo, &ID2.to_string()) {
        Err(AppError::NotFound(m)) => assert_eq!(m, "Resource not found"),
        _ => panic!("expected not-found"),
    }
}

#[test]
fn test_update_nonexistent_id_fails_before_mutation() {
    let mut repo = TaskRepository::new();
    TaskService::create(&mut repo, create_req("A"), ID1.to_string(), NOW.to_string()).unwrap();
    let before = TaskService::get_all(&repo).unwrap();
    let req = UpdateTaskRequest {
        title: Some("changed".to_string()),
        description: None,
        completed: Some(true),
    };
    match TaskService::update(&mut repo, &ID2.to_string(), req) {
        Err(AppError::NotFound(m)) => assert_eq!(m, "Resource not found"),
        _ => panic!("expected not-found"),
    }
    let after = TaskService::get_all(&repo).unwrap();
    assert_eq!(after.len(), before.len());
    assert_eq!(after[0].title, "A");
    assert_eq!(after[0].completed, false);
}

#[test]
fn test_update_partial_semantics() {
    let mut repo = TaskRepository::new();
    let req = CreateTaskRequest {
        title: "A".to_string(),
        description: Some("keep me".to_string()),
        completed: false,
    };
    TaskService::create(&mut repo, req, ID1.to_string(), NOW.to_string()).unwrap();

    let up = UpdateTaskRequest {
        title: None,
        description: None,
        completed: Some(true),
    };
    let dto = TaskService::update(&mut repo, &ID1.to_string(), up).unwrap();
    assert_eq!(dto.title, "A");
    assert_eq!(dto.description, Some("keep me".to_string()));
    assert_eq!(dto.completed, true);

    let up = UpdateTaskRequest {
        title: Some("  B  ".to_string()),
        description: Some("  ".to_string()),
        completed: None,
    };
    let dto = TaskService::update(&mut repo, &ID1.to_string(), up).unwrap();
    assert_eq!(dto.title, "B");
    assert_eq!(dto.description, Some("keep me".to_string()));
    assert_eq!(dto.completed, true);
}

#[test]
fn test_update_validates_title() {
    let mut repo = TaskRepository::new();
    TaskService::create(&mut repo, create_req("A"), ID1.to_string(), NOW.to_string()).unwrap();
    let up = UpdateTaskRequest {
        title: Some(" ".to_string()),
        description: None,
        completed: None,
    };
    match TaskService::update(&mut repo, &ID1.to_string(), up) {
        Err(AppError::ValidationError(m)) => assert_eq!(m, "Title cannot be empty"),
        _ => panic!("expected a validation error"),
    }
}

#[test]
fn test_delete() {
    let mut repo = TaskRepository::new();
    TaskService::create(&mut repo, create_req("A"), ID1.to_string(), NOW.to_string()).unwrap();
    TaskService::create(&mut repo, create_req("B"), ID2.to_string(), NOW.to_string()).unwrap();
    assert!(TaskService::delete(&mut repo, &ID1.to_string()).is_ok());
    let rest = TaskService::get_all(&repo).unwrap();
    assert_eq!(rest.len(), 1);
    assert_eq!(rest[0].title, "B");
    match TaskService::delete(&mut repo, &ID1.to_string()) {
        Err(AppError::NotFound(m)) => assert_eq!(m, "Resource not found"),
        _ => panic!("expected not-found"),
    }
}

#[test]
fn test_get_all_keeps_storage_order() {
    let mut repo = TaskRepository::new();
    TaskService::create(&mut repo, create_req("A"), ID1.to_string(), NOW.to_string()).unwrap();
    TaskService::create(&mut repo, create_req("B"), ID2.to_string(), NOW.to_string()).unwrap();
    let all = TaskService::get_all(&repo).unwrap();
    assert_eq!(all.len(), 2);
    assert_eq!(all[0].title, "A");
    assert_eq!(all[1].title, "B");
}
