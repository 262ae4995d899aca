use saas_billing::errors::{AppError, ErrorResponse, StoreFailure};

fn all_errors(text: &str) -> Vec<AppError> {
    vec![
        AppError::NotFound(text.to_string()),
        AppError::BadRequest(text.to_string()),
        AppError::Unauthorized(text.to_string()),
        AppError::Forbidden(text.to_string()),
        AppError::Conflict(text.to_string()),
        AppError::InternalError(text.to_string()),
        AppError::DatabaseError(text.to_string()),
        AppError::ValidationError(text.to_string()),
        AppError::InvalidToken(text.to_string()),
    ]
}

#[test]
fn status_codes_follow_the_taxonomy() {
    let codes: Vec<u16> = all_errors("x").iter().map(|e| e.status_code()).collect();
    assert_eq!(codes, vec![404, 400, 401, 403, 409, 500, 500, 400, 401]);
}

#[test]
fn message_is_the_text_carried() {
    for error in all_errors("what went wrong") {
        assert_eq!(error.message(), "what went wrong");
    }
}

#[test]
fn description_has_heading_and_text() {
    let lines: Vec<String> = all_errors("m").iter().map(|e| e.fmt()).collect();
    assert_eq!(
        lines,
        vec![
            "Not found: m",
            "Bad request: m",
            "Unauthorized: m",
            "Forbidden: m",
            "Conflict: m",
            "Internal error: m",
            "Database error: m",
            "Validation error: m",
            "Invalid token: m",
        ]
    );
}

#[test]
fn client_errors_keep_their_text_in_the_response() {
    let response = AppError::ValidationError("Amount must be positive".to_string()).into_response();
    assert_eq!(
        response,
        ErrorResponse { status: 400, error: "Amount must be positive".to_string() }
    );
    let response = AppError::NotFound("Invoice not found".to_string()).into_response();
    assert_eq!(response, ErrorResponse { status: 404, error: "Invoice not found".to_string() });
}

#[test]
fn server_faults_lose_their_text_in_the_response() {
    let response =
        AppError::DatabaseError("relation \"invoices\" does not exist".to_string()).into_response();
    assert_eq!(response, ErrorResponse { status: 500, error: "Internal server error".to_string() });
    let response = AppError::InternalError("pool timed out".to_string()).into_response();
    assert_eq!(response, ErrorResponse { status: 500, error: "Internal server error".to_string() });
}

#[test]
fn store_failures_are_classified() {
    assert_eq!(
        AppError::from(StoreFailure::RowNotFound),
        AppError::NotFound("Resource not found".to_string())
    );
    assert_eq!(
        AppError::from(StoreFailure::PoolClosed),
        AppError::InternalError("Database connection pool closed".to_string())
    );
    assert_eq!(
        AppError::from(StoreFailure::Other("syntax error at or near".to_string())),
        AppError::DatabaseError("syntax error at or near".to_string())
    );
}
