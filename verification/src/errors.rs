//! The error taxonomy shared by every billing operation, and its mapping
//! onto HTTP status codes and response bodies.

use vstd::prelude::*;
use vstd::string::*;

verus! {

/// A failure reported to the caller of a billing operation.
#[derive(Debug, PartialEq, Eq)]
pub enum AppError {
    NotFound(String),
    BadRequest(String),
    Unauthorized(String),
    Forbidden(String),
    Conflict(String),
    InternalError(String),
    DatabaseError(String),
    ValidationError(String),
    InvalidToken(String),
}

/// What a backing store reports when a query fails.
#[derive(Debug, PartialEq, Eq)]
pub enum StoreFailure {
    /// A query that must return a row returned none.
    RowNotFound,
    /// The connection pool was closed.
    PoolClosed,
    /// Any other failure, with the store's own description of it.
    Other(String),
}

/// The status line and the body of an error response.
#[derive(Debug, PartialEq, Eq)]
pub struct ErrorResponse {
    pub status: u16,
    pub error: String,
}

/// The message that replaces a storage failure's own text in a response.
pub open spec fn generic_failure_text() -> Seq<char> {
    "Internal server error"@
}

impl AppError {
    /// The text carried by the error.
    pub open spec fn text(&self) -> Seq<char> {
        match self {
            AppError::NotFound(m) => m@,
            AppError::BadRequest(m) => m@,
            AppError::Unauthorized(m) => m@,
            AppError::Forbidden(m) => m@,
            AppError::Conflict(m) => m@,
            AppError::InternalError(m) => m@,
            AppError::DatabaseError(m) => m@,
            AppError::ValidationError(m) => m@,
            AppError::InvalidToken(m) => m@,
        }
    }

    /// The HTTP status code of the error.
    pub open spec fn status(&self) -> int {
        match self {
            AppError::NotFound(_) => 404,
            AppError::BadRequest(_) => 400,
            AppError::Unauthorized(_) => 401,
            AppError::Forbidden(_) => 403,
            AppError::Conflict(_) => 409,
            AppError::ValidationError(_) => 400,
            AppError::InvalidToken(_) => 401,
            AppError::InternalError(_) => 500,
            AppError::DatabaseError(_) => 500,
        }
    }

    /// The words that open the error's one-line description.
    pub open spec fn heading(&self) -> Seq<char> {
        match self {
            AppError::NotFound(_) => "Not found: "@,
            AppError::BadRequest(_) => "Bad request: "@,
            AppError::Unauthorized(_) => "Unauthorized: "@,
            AppError::Forbidden(_) => "Forbidden: "@,
            AppError::Conflict(_) => "Conflict: "@,
            AppError::InternalError(_) => "Internal error: "@,
            AppError::DatabaseError(_) => "Database error: "@,
            AppError::ValidationError(_) => "Validation error: "@,
            AppError::InvalidToken(_) => "Invalid token: "@,
        }
    }

    /// Whether the error stands for a failure of the server itself, whose
    /// text must not reach a client.
    pub open spec fn is_server_fault(&self) -> bool {
        self.status() == 500
    }

    /// The text shown to a client: the error's own text, except for a
    /// server fault, whose text is replaced by a generic one.
    pub open spec fn public_text(&self) -> Seq<char> {
        if self.is_server_fault() {
            generic_failure_text()
        } else {
            self.text()
        }
    }

    /// Returns the text carried by the error.
    pub fn message(&self) -> (m: &String)
        ensures
            m@ == self.text(),
    {
        match self {
            AppError::NotFound(m) => m,
            AppError::BadRequest(m) => m,
            AppError::Unauthorized(m) => m,
            AppError::Forbidden(m) => m,
            AppError::Conflict(m) => m,
            AppError::InternalError(m) => m,
            AppError::DatabaseError(m) => m,
            AppError::ValidationError(m) => m,
            AppError::InvalidToken(m) => m,
        }
    }

    /// Returns the HTTP status code of the error.
    pub fn status_code(&self) -> (code: u16)
        ensures
            code == self.status(),
    {
        match self {
            AppError::NotFound(_) => 404,
            AppError::BadRequest(_) => 400,
            AppError::Unauthorized(_) => 401,
            AppError::Forbidden(_) => 403,
            AppError::Conflict(_) => 409,
            AppError::ValidationError(_) => 400,
            AppError::InvalidToken(_) => 401,
            AppError::InternalError(_) => 500,
            AppError::DatabaseError(_) => 500,
        }
    }

    /// Returns the one-line description of the error: its heading followed
    /// by its text.
    pub fn fmt(&self) -> (line: String)
        ensures
            line@ == self.heading() + self.text(),
    {
        let heading = match self {
            AppError::NotFound(_) => "Not found: ",
            AppError::BadRequest(_) => "Bad request: ",
            AppError::Unauthorized(_) => "Unauthorized: ",
            AppError::Forbidden(_) => "Forbidden: ",
            AppError::Conflict(_) => "Conflict: ",
            AppError::InternalError(_) => "Internal error: ",
            AppError::DatabaseError(_) => "Database error: ",
            AppError::ValidationError(_) => "Validation error: ",
            AppError::InvalidToken(_) => "Invalid token: ",
        };
        String::from_str(heading).concat(self.message().as_str())
    }

    /// Turns the error into the response sent to the client. A server fault
    /// keeps its status and loses its text.
    pub fn into_response(self) -> (response: ErrorResponse)
        ensures
            response.status == self.status(),
            response.error@ == self.public_text(),
    {
        let status = self.status_code();
        let error = if status == 500 {
            String::from_str("Internal server error")
        } else {
            self.message().clone()
        };
        ErrorResponse { status, error }
    }

    /// Classifies a failure of the backing store: a missing row is
    /// `NotFound`, a closed pool an `InternalError`, anything else a
    /// `DatabaseError` that carries the store's description.
    pub fn from(failure: StoreFailure) -> (error: AppError)
        ensures
            match failure {
                StoreFailure::RowNotFound => error is NotFound && error.text()
                    == "Resource not found"@,
                StoreFailure::PoolClosed => error is InternalError && error.text()
                    == "Database connection pool closed"@,
                StoreFailure::Other(detail) => error is DatabaseError && error.text() == detail@,
            },
    {
        match failure {
            StoreFailure::RowNotFound => AppError::NotFound(
                String::from_str("Resource not found"),
            ),
            StoreFailure::PoolClosed => AppError::InternalError(
                String::from_str("Database connection pool closed"),
            ),
            StoreFailure::Other(detail) => AppError::DatabaseError(detail),
        }
    }
}

} // verus!
