use task_api::codec::JsonEncode;
use task_api::error::{
    map_diesel_error, map_storage_failure, AppError, ErrorResponse, RepositoryError,
    StorageFailure,
};
use task_api::render::render_error;
use task_api::response::StatusCode;

struct FakeDbError;

impl diesel::result::DatabaseErrorInformation for FakeDbError {
    fn message(&self) -> &str {
        "duplicate key value violates unique constraint"
    }
    fn details(&self) -> Option<&str> {
        None
    }
    fn hint(&self) -> Option<&str> {
        None
    }
    fn table_name(&self) -> Option<&str> {
        Some("tasks")
    }
    fn column_name(&self) -> Option<&str> {
        None
    }
    fn constraint_name(&self) -> Option<&str> {
        Some("tasks_pkey")
    }
    fn statement_position(&self) -> Option<i32> {
        None
    }
}

#[test]
fn test_error_display() {
    let err = AppError::not_found("Task".to_string());
    assert_eq!(err.to_display_string(), "Not found: Task");
}

#[test]
fn test_not_found_status() {
    assert_eq!(
        AppError::not_found("test".to_string()).status_code(),
        StatusCode::NotFound
    );
}

#[test]
fn test_validation_status() {
    assert_eq!(
        AppError::validation("test".to_string()).status_code(),
        StatusCode::BadRequest
    );
}

#[test]
fn test_internal_status() {
    assert_eq!(
        AppError::internal("test".to_string()).status_code(),
        StatusCode::InternalServerError
    );
}

#[test]
fn test_error_response() {
    let err = AppError::not_found("Task".to_string());
    let response = render_error(&err);
    assert_eq!(response.status, 404);
}

#[test]
fn test_error_info_per_kind() {
    let cases = vec![
        (AppError::not_found("m".to_string()), 404, "NOT_FOUND"),
        (AppError::duplicate("m".to_string()), 409, "DUPLICATE_ENTRY"),
        (AppError::validation("m".to_string()), 400, "VALIDATION_ERROR"),
        (AppError::invalid_input("m".to_string()), 400, "INVALID_INPUT"),
        (AppError::database("m".to_string()), 500, "DATABASE_ERROR"),
        (AppError::internal("m".to_string()), 500, "INTERNAL_ERROR"),
    ];
    for (err, status, code) in &cases {
        let info = err.get_error_info();
        assert_eq!(info.0.as_u16(), *status);
        assert_eq!(&info.1, code);
    }
    for i in 0..cases.len() {
        for j in 0..cases.len() {
            if i != j {
                let a = cases[i].0.get_error_info();
                let b = cases[j].0.get_error_info();
                assert!((a.0.as_u16(), a.1) != (b.0.as_u16(), b.1));
            }
        }
    }
}

#[test]
fn test_client_errors_expose_message_without_details() {
    let info = AppError::validation("Title cannot be empty".to_string()).get_error_info();
    assert_eq!(info.2, "Title cannot be empty");
    assert!(info.3.is_none());
}

#[test]
fn test_server_errors_hide_message_in_details() {
    let info = AppError::database("connection refused".to_string()).get_error_info();
    assert_eq!(info.2, "An error occurred with the database");
    assert_eq!(info.3.unwrap(), "connection refused");

    let info = AppError::internal("boom".to_string()).get_error_info();
    assert_eq!(info.2, "An internal server error occurred");
    assert_eq!(info.3.unwrap(), "boom");
}

#[test]
fn test_rendering_same_error_twice_is_byte_identical() {
    let err = AppError::database("connection refused".to_string());
    let first = render_error(&err);
    let second = render_error(&err);
    assert_eq!(first.status, second.status);
    assert_eq!(first.body, second.body);
    assert_eq!(first.headers, second.headers);
    assert_eq!(
        first.body.unwrap(),
        "{\"error\":\"DATABASE_ERROR\",\"message\":\"An error occurred with the database\",\"details\":\"connection refused\"}"
    );
}

#[test]
fn test_client_error_body_omits_details() {
    let rendered = render_error(&AppError::not_found("Resource not found".to_string()));
    assert_eq!(
        rendered.body.unwrap(),
        "{\"error\":\"NOT_FOUND\",\"message\":\"Resource not found\"}"
    );
}

#[test]
fn test_map_storage_failure() {
    assert!(matches!(
        map_storage_failure(StorageFailure::RecordAbsent),
        RepositoryError::NotFound
    ));
    assert!(matches!(
        map_storage_failure(StorageFailure::UniqueViolation),
        RepositoryError::Duplicate
    ));
    match map_storage_failure(StorageFailure::Other("disk full".to_string())) {
        RepositoryError::Database(msg) => assert_eq!(msg, "disk full"),
        _ => panic!("expected a database failure"),
    }
}

#[test]
fn test_map_diesel_not_found() {
    assert!(matches!(
        map_diesel_error(diesel::result::Error::NotFound),
        RepositoryError::NotFound
    ));
}

#[test]
fn test_map_diesel_unique_violation() {
    let err = diesel::result::Error::DatabaseError(
        diesel::result::DatabaseErrorKind::UniqueViolation,
        Box::new(FakeDbError),
    );
    assert!(matches!(map_diesel_error(err), RepositoryError::Duplicate));
}

#[test]
fn test_map_diesel_other_keeps_message() {
    let err = diesel::result::Error::QueryBuilderError(Box::new(std::fmt::Error));
    match map_diesel_error(err) {
        RepositoryError::Database(msg) => assert!(!msg.is_empty()),
        _ => panic!("expected a database failure"),
    }
}

#[test]
fn test_from_repository_error() {
    match AppError::from_repository(RepositoryError::NotFound) {
        AppError::NotFound(m) => assert_eq!(m, "Resource not found"),
        _ => panic!("expected not-found"),
    }
    match AppError::from_repository(RepositoryError::Duplicate) {
        AppError::Duplicate(m) => assert_eq!(m, "Resource already exists"),
        _ => panic!("expected duplicate"),
    }
    match AppError::from_repository(RepositoryError::Database("oops".to_string())) {
        AppError::DatabaseError(m) => assert_eq!(m, "oops"),
        _ => panic!("expected database error"),
    }
}

#[test]
fn test_error_response_body_shape() {
    let er = ErrorResponse {
        error: "NOT_FOUND".to_string(),
        message: "Resource not found".to_string(),
        details: None,
    };
    assert_eq!(
        er.to_json(),
        "{\"error\":\"NOT_FOUND\",\"message\":\"Resource not found\"}"
    );
}

#[test]
fn test_repository_error_display() {
    assert_eq!(RepositoryError::NotFound.to_display_string(), "Resource not found");
    assert_eq!(
        RepositoryError::Duplicate.to_display_string(),
        "Resource already exists"
    );
    assert_eq!(
        RepositoryError::Database("oops".to_string()).to_display_string(),
        "Database error: oops"
    );
}
