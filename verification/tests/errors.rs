use book_manager::error::{admin_only, found, AppError, NOT_FOUND};

fn every_error() -> Vec<AppError> {
    vec![
        AppError::UnprocessableEntity("a".to_string()),
        AppError::EntityNotFound("b".to_string()),
        AppError::ValidationError("c".to_string()),
        AppError::TransactionError("d".to_string()),
        AppError::SpecificOperationError("e".to_string()),
        AppError::NoRowsAffectedError("f".to_string()),
        AppError::KeyValueStoreError("g".to_string()),
        AppError::BcyptError("h".to_string()),
        AppError::ConvertToUuidError("i".to_string()),
        AppError::UnauthenticatedError,
        AppError::UnauthorizedError,
        AppError::ForbiddenError,
        AppError::ConversionEntityError("j".to_string()),
    ]
}

#[test]
fn every_error_has_its_status() {
    let codes: Vec<u16> = every_error().iter().map(|error| error.status_code()).collect();
    assert_eq!(codes, vec![422, 404, 400, 500, 500, 500, 500, 500, 400, 403, 401, 403, 500]);
}

#[test]
fn every_error_has_its_text() {
    let texts: Vec<String> = every_error().iter().map(|error| error.to_string()).collect();
    assert_eq!(
        texts,
        vec![
            "a",
            "b",
            "c",
            "Does not transaction.",
            "Error occurred in processing the database operation.",
            "No rows affected: f",
            "g",
            "h",
            "i",
            "Failed to login.",
            "Invalid authorization information.",
            "Forbidden operation.",
            "j",
        ]
    );
}

#[test]
fn server_faults_are_the_errors_with_status_500() {
    let unexpected: Vec<bool> = every_error().iter().map(|error| error.is_unexpected()).collect();
    assert_eq!(
        unexpected,
        vec![false, false, false, true, true, true, true, true, false, false, false, false, true]
    );
}

#[test]
fn only_a_transaction_error_is_worth_a_retry() {
    let retryable: Vec<bool> = every_error().iter().map(|error| error.is_retryable()).collect();
    assert_eq!(
        retryable,
        vec![false, false, false, true, false, false, false, false, false, false, false, false, false]
    );
}

#[test]
fn administrators_pass_and_nobody_else() {
    assert_eq!(admin_only(true), Ok(()));
    assert_eq!(admin_only(false), Err(AppError::ForbiddenError));
}

#[test]
fn a_lookup_without_result_is_not_found() {
    assert_eq!(found(Some(7)), Ok(7));
    assert_eq!(found::<u8>(None), Err(AppError::EntityNotFound("not found".to_string())));
    assert_eq!(NOT_FOUND, "not found");
}
