use deploy_dispatcher::error::AppError;

#[test]
fn validation_failure_is_a_bad_request() {
    let err = AppError::invalid("branch");
    assert_eq!(err, AppError::InvalidQueryParameter("branch".to_string()));
    assert_eq!(err.status_code(), 400);
    assert!(err.is_client_error());
    assert_eq!(err.body(), "branch");
    assert_eq!(err.message(), "invalid query parameter: branch");
}

#[test]
fn missing_task_is_not_found() {
    let err = AppError::NotFound;
    assert_eq!(err.status_code(), 404);
    assert!(err.is_client_error());
    assert_eq!(err.body(), "Not Found");
    assert_eq!(err.message(), "not found");
}

#[test]
fn store_failure_is_a_server_error() {
    let err = AppError::internal("connection refused");
    assert_eq!(err, AppError::Internal("connection refused".to_string()));
    assert_eq!(err.status_code(), 500);
    assert!(!err.is_client_error());
    assert_eq!(err.body(), "connection refused");
    assert_eq!(err.message(), "connection refused");
}
