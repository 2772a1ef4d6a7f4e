//! Domain errors: a closed taxonomy of failure kinds, each carrying a human
//! message, together with the mapper that classifies low-level storage
//! failures into repository errors and the translation of repository errors
//! into domain errors.

use vstd::prelude::*;
use crate::json::opt_view;
use crate::response::StatusCode;

verus! {

/// Typed failure result produced by the service and repository layers,
/// independent of any transport.
#[derive(Debug, Clone)]
pub enum AppError {
    NotFound(String),
    Duplicate(String),
    DatabaseError(String),
    ValidationError(String),
    InvalidInput(String),
    InternalServerError(String),
}

/// The wire shape of an error body: machine code, human message, and the
/// diagnostic details only server-side kinds carry.
#[derive(Debug, Clone)]
pub struct ErrorResponse {
    pub error: String,
    pub message: String,
    pub details: Option<String>,
}

/// Failure result of the storage-access layer.
#[derive(Debug, Clone)]
pub enum RepositoryError {
    NotFound,
    Duplicate,
    Database(String),
}

/// The classes of low-level storage failure the repository distinguishes:
/// a record that is absent, a uniqueness-constraint conflict, and anything
/// else with its diagnostic message.
#[derive(Debug, Clone)]
pub enum StorageFailure {
    RecordAbsent,
    UniqueViolation,
    Other(String),
}

impl AppError {
    /// The message the error was constructed with.
    pub open spec fn spec_msg(&self) -> Seq<char> {
        match self {
            AppError::NotFound(m) => m@,
            AppError::Duplicate(m) => m@,
            AppError::DatabaseError(m) => m@,
            AppError::ValidationError(m) => m@,
            AppError::InvalidInput(m) => m@,
            AppError::InternalServerError(m) => m@,
        }
    }

    /// The status classification the kind alone determines.
    pub open spec fn spec_status(&self) -> StatusCode {
        match self {
            AppError::NotFound(_) => StatusCode::NotFound,
            AppError::Duplicate(_) => StatusCode::Conflict,
            AppError::ValidationError(_) => StatusCode::BadRequest,
            AppError::InvalidInput(_) => StatusCode::BadRequest,
            AppError::DatabaseError(_) => StatusCode::InternalServerError,
            AppError::InternalServerError(_) => StatusCode::InternalServerError,
        }
    }

    /// The machine code the kind alone determines.
    pub open spec fn spec_code(&self) -> Seq<char> {
        match self {
            AppError::NotFound(_) => "NOT_FOUND"@,
            AppError::Duplicate(_) => "DUPLICATE_ENTRY"@,
            AppError::ValidationError(_) => "VALIDATION_ERROR"@,
            AppError::InvalidInput(_) => "INVALID_INPUT"@,
            AppError::DatabaseError(_) => "DATABASE_ERROR"@,
            AppError::InternalServerError(_) => "INTERNAL_ERROR"@,
        }
    }

    /// Whether the kind is server-side: those expose a fixed generic message
    /// and move the diagnostic into the separate details field.
    pub open spec fn spec_is_internal(&self) -> bool {
        self is DatabaseError || self is InternalServerError
    }

    /// The message the response body exposes: the original message for client
    /// errors, a fixed generic text for server-side ones.
    pub open spec fn spec_body_message(&self) -> Seq<char> {
        match self {
            AppError::DatabaseError(_) => "An error occurred with the database"@,
            AppError::InternalServerError(_) => "An internal server error occurred"@,
            _ => self.spec_msg(),
        }
    }

    /// The diagnostic detail the response body exposes: only server-side
    /// kinds carry one, and it is the original message.
    pub open spec fn spec_details(&self) -> Option<Seq<char>> {
        if self.spec_is_internal() {
            Some(self.spec_msg())
        } else {
            None
        }
    }

    /// Whether two errors are of the same kind, messages aside.
    pub open spec fn same_kind(&self, other: &AppError) -> bool {
        match (self, other) {
            (AppError::NotFound(_), AppError::NotFound(_)) => true,
            (AppError::Duplicate(_), AppError::Duplicate(_)) => true,
            (AppError::DatabaseError(_), AppError::DatabaseError(_)) => true,
            (AppError::ValidationError(_), AppError::ValidationError(_)) => true,
            (AppError::InvalidInput(_), AppError::InvalidInput(_)) => true,
            (AppError::InternalServerError(_), AppError::InternalServerError(_)) => true,
            _ => false,
        }
    }

    /// Retrieves the error information a transport response is built from:
    /// status classification, machine code, exposed message, and optional
    /// diagnostic details.
    pub fn get_error_info(&self) -> (r: (StatusCode, String, String, Option<String>))
        ensures
            r.0 == self.spec_status(),
            r.1@ == self.spec_code(),
            r.2@ == self.spec_body_message(),
            opt_view(r.3) == self.spec_details(),
    {
        match self {
            AppError::NotFound(msg) => (
                StatusCode::NotFound,
                String::from_str("NOT_FOUND"),
                msg.clone(),
                None,
            ),
            AppError::Duplicate(msg) => (
                StatusCode::Conflict,
                String::from_str("DUPLICATE_ENTRY"),
                msg.clone(),
                None,
            ),
            AppError::ValidationError(msg) => (
                StatusCode::BadRequest,
                String::from_str("VALIDATION_ERROR"),
                msg.clone(),
                None,
            ),
            AppError::InvalidInput(msg) => (
                StatusCode::BadRequest,
                String::from_str("INVALID_INPUT"),
                msg.clone(),
                None,
            ),
            AppError::DatabaseError(msg) => (
                StatusCode::InternalServerError,
                String::from_str("DATABASE_ERROR"),
                String::from_str("An error occurred with the database"),
                Some(msg.clone()),
            ),
            AppError::InternalServerError(msg) => (
                StatusCode::InternalServerError,
                String::from_str("INTERNAL_ERROR"),
                String::from_str("An internal server error occurred"),
                Some(msg.clone()),
            ),
        }
    }

    /// Returns the HTTP status classification of this error.
    pub fn status_code(&self) -> (r: StatusCode)
        ensures
            r == self.spec_status(),
    {
        self.get_error_info().0
    }

    /// The full human-readable rendering of the error, kind prefix included.
    pub open spec fn spec_display(&self) -> Seq<char> {
        match self {
            AppError::NotFound(_) => "Not found: "@ + self.spec_msg(),
            AppError::Duplicate(_) => "Already exists: "@ + self.spec_msg(),
            AppError::DatabaseError(_) => "Database error: "@ + self.spec_msg(),
            AppError::ValidationError(_) => "Validation error: "@ + self.spec_msg(),
            AppError::InvalidInput(_) => "Invalid input: "@ + self.spec_msg(),
            AppError::InternalServerError(_) => "Internal server error: "@ + self.spec_msg(),
        }
    }

    /// Human-readable rendering of the error, kind prefix included.
    pub fn to_display_string(&self) -> (r: String)
        ensures
            r@ == self.spec_display(),
    {
        let mut s = match self {
            AppError::NotFound(_) => String::from_str("Not found: "),
            AppError::Duplicate(_) => String::from_str("Already exists: "),
            AppError::DatabaseError(_) => String::from_str("Database error: "),
            AppError::ValidationError(_) => String::from_str("Validation error: "),
            AppError::InvalidInput(_) => String::from_str("Invalid input: "),
            AppError::InternalServerError(_) => String::from_str("Internal server error: "),
        };
        match self {
            AppError::NotFound(msg) => s.append(msg.as_str()),
            AppError::Duplicate(msg) => s.append(msg.as_str()),
            AppError::DatabaseError(msg) => s.append(msg.as_str()),
            AppError::ValidationError(msg) => s.append(msg.as_str()),
            AppError::InvalidInput(msg) => s.append(msg.as_str()),
            AppError::InternalServerError(msg) => s.append(msg.as_str()),
        }
        s
    }

    pub fn not_found(msg: String) -> (r: Self)
        ensures
            r == AppError::NotFound(msg),
    {
        AppError::NotFound(msg)
    }

    pub fn duplicate(msg: String) -> (r: Self)
        ensures
            r == AppError::Duplicate(msg),
    {
        AppError::Duplicate(msg)
    }

    pub fn database(msg: String) -> (r: Self)
        ensures
            r == AppError::DatabaseError(msg),
    {
        AppError::DatabaseError(msg)
    }

    pub fn internal(msg: String) -> (r: Self)
        ensures
            r == AppError::InternalServerError(msg),
    {
        AppError::InternalServerError(msg)
    }

    pub fn validation(msg: String) -> (r: Self)
        ensures
            r == AppError::ValidationError(msg),
    {
        AppError::ValidationError(msg)
    }

    pub fn invalid_input(msg: String) -> (r: Self)
        ensures
            r == AppError::InvalidInput(msg),
    {
        AppError::InvalidInput(msg)
    }

    /// The domain error a repository error translates to: the kind carries
    /// over and the repository's fixed texts become the messages, with the
    /// diagnostic of a database failure kept verbatim.
    pub open spec fn spec_from_repository(err: &RepositoryError) -> (AppError, Seq<char>) {
        match err {
            RepositoryError::NotFound => (
                AppError::NotFound(arbitrary()),
                "Resource not found"@,
            ),
            RepositoryError::Duplicate => (
                AppError::Duplicate(arbitrary()),
                "Resource already exists"@,
            ),
            RepositoryError::Database(m) => (AppError::DatabaseError(arbitrary()), m@),
        }
    }

    /// Translates a repository error into the domain error of the matching
    /// kind, never losing a database failure's diagnostic message.
    pub fn from_repository(err: RepositoryError) -> (r: AppError)
        ensures
            r.same_kind(&AppError::spec_from_repository(&err).0),
            r.spec_msg() == AppError::spec_from_repository(&err).1,
    {
        match err {
            RepositoryError::NotFound => {
                AppError::NotFound(String::from_str("Resource not found"))
            },
            RepositoryError::Duplicate => {
                AppError::Duplicate(String::from_str("Resource already exists"))
            },
            RepositoryError::Database(msg) => AppError::DatabaseError(msg),
        }
    }
}

impl RepositoryError {
    /// The human message each repository failure renders to.
    pub open spec fn spec_display(&self) -> Seq<char> {
        match self {
            RepositoryError::NotFound => "Resource not found"@,
            RepositoryError::Duplicate => "Resource already exists"@,
            RepositoryError::Database(m) => "Database error: "@ + m@,
        }
    }

    /// Human-readable rendering of the repository failure.
    pub fn to_display_string(&self) -> (r: String)
        ensures
            r@ == self.spec_display(),
    {
        match self {
            RepositoryError::NotFound => String::from_str("Resource not found"),
            RepositoryError::Duplicate => String::from_str("Resource already exists"),
            RepositoryError::Database(m) => {
                let mut s = String::from_str("Database error: ");
                s.append(m.as_str());
                s
            },
        }
    }
}

/// The repository error each storage-failure class maps to: an absent record
/// is a not-found, a uniqueness conflict a duplicate, and anything else a
/// database error keeping the original diagnostic.
pub open spec fn spec_map_storage_failure(f: &StorageFailure) -> RepositoryError {
    match f {
        StorageFailure::RecordAbsent => RepositoryError::NotFound,
        StorageFailure::UniqueViolation => RepositoryError::Duplicate,
        StorageFailure::Other(m) => RepositoryError::Database(*m),
    }
}

/// Classifies a low-level storage failure into exactly one repository error
/// kind, keeping the diagnostic message of an unrecognized failure.
pub fn map_storage_failure(f: StorageFailure) -> (r: RepositoryError)
    ensures
        r == spec_map_storage_failure(&f),
{
    match f {
        StorageFailure::RecordAbsent => RepositoryError::NotFound,
        StorageFailure::UniqueViolation => RepositoryError::Duplicate,
        StorageFailure::Other(m) => RepositoryError::Database(m),
    }
}

#[verifier::external_type_specification]
#[verifier::external_body]
pub struct ExDieselError(diesel::result::Error);

/// The storage-failure class a diesel error falls in. The class is a
/// function of the error value alone; the trusted classifier below is the
/// only place it is given meaning.
pub uninterp spec fn storage_class_of(err: diesel::result::Error) -> StorageFailure;

/// Relies on diesel::result::Error being a plain enum: each arm reads which
/// variant the storage layer returned; the catch-all keeps the error's own
/// rendering of itself as the diagnostic message. The result is named
/// storage_class_of, the class of this error and nothing more: callers go
/// on through map_storage_failure, whose contract is exact for every class.
#[verifier::external_body]
fn storage_failure_of(err: diesel::result::Error) -> (r: StorageFailure)
    ensures
        r == storage_class_of(err),
{
    match err {
        diesel::result::Error::NotFound => StorageFailure::RecordAbsent,
        diesel::result::Error::DatabaseError(
            diesel::result::DatabaseErrorKind::UniqueViolation,
            _,
        ) => StorageFailure::UniqueViolation,
        other => StorageFailure::Other(other.to_string()),
    }
}

/// Maps a diesel error to the repository error of exactly its class. The
/// classification of the opaque error is trusted, under the name
/// storage_class_of; the mapping of the class is map_storage_failure,
/// verified.
pub fn map_diesel_error(err: diesel::result::Error) -> (r: RepositoryError)
    ensures
        r == spec_map_storage_failure(&storage_class_of(err)),
{
    map_storage_failure(storage_failure_of(err))
}

} // verus!
