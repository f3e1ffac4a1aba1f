use service_core::errors::{AppError, AuthFailure, Field, FieldFailure, Rule, StoreFailure};
use service_core::repositories::{
    affected_or_missing, assignments, classify_write_failure, page_bounds, row_or_missing, written,
    Assignments,
};
use service_core::models::{User, UserListQuery};

fn user() -> User {
    User::with_identity("u1".to_string(), "Ada".to_string(), "ada@example.com".to_string(), 5)
}

#[test]
fn every_error_has_exactly_one_status() {
    assert_eq!(AppError::ValidationFailed(vec![]).status_code(), 400);
    assert_eq!(AppError::Conflict.status_code(), 400);
    assert_eq!(AppError::NotFound("x".to_string()).status_code(), 404);
    assert_eq!(AppError::Unauthorized(AuthFailure::InvalidToken).status_code(), 401);
    assert_eq!(AppError::Unauthorized(AuthFailure::MissingHeader).status_code(), 401);
    assert_eq!(AppError::Unauthorized(AuthFailure::InvalidCredentials).status_code(), 401);
    assert_eq!(AppError::BadRequest("x".to_string()).status_code(), 400);
    assert_eq!(AppError::StoreError("x".to_string()).status_code(), 500);
    assert_eq!(AppError::Internal("x".to_string()).status_code(), 500);
}

#[test]
fn store_detail_never_reaches_the_body() {
    let e = AppError::StoreError("no such table: users (code 1)".to_string());
    assert_eq!(e.public_message(), "Internal server error");
    assert_eq!(e.log_detail(), Some("no such table: users (code 1)".to_string()));
    assert_eq!(AppError::StoreError(String::new()).public_message(), "Internal server error");
    assert_eq!(AppError::Conflict.log_detail(), None);
}

#[test]
fn public_messages_of_the_other_errors() {
    assert_eq!(AppError::Conflict.public_message(), "Email already exists");
    assert_eq!(AppError::missing_user("42").public_message(), "User with id '42' not found");
    assert_eq!(AppError::NotFound("Blog not found".to_string()).public_message(), "Blog not found");
    assert_eq!(AppError::BadRequest("Invalid user ID".to_string()).public_message(), "Invalid user ID");
    assert_eq!(
        AppError::Unauthorized(AuthFailure::MissingHeader).public_message(),
        "Missing authorization header"
    );
    assert_eq!(AppError::Unauthorized(AuthFailure::InvalidToken).public_message(), "Invalid token");
    assert_eq!(
        AppError::Unauthorized(AuthFailure::InvalidCredentials).public_message(),
        "Invalid credentials"
    );
    assert_eq!(
        AppError::Internal("Failed to create token".to_string()).public_message(),
        "Failed to create token"
    );
}

#[test]
fn validation_message_lists_the_failures_in_order() {
    let name = FieldFailure { field: Field::Name, rule: Rule::EmptyField };
    let email = FieldFailure { field: Field::Email, rule: Rule::InvalidFormat };
    assert_eq!(name.text(), "name must not be empty");
    assert_eq!(email.text(), "email has an invalid format");
    assert_eq!(AppError::ValidationFailed(vec![]).public_message(), "Validation failed: ");
    assert_eq!(
        AppError::ValidationFailed(vec![name]).public_message(),
        "Validation failed: name must not be empty"
    );
    assert_eq!(
        AppError::ValidationFailed(vec![name, email]).public_message(),
        "Validation failed: name must not be empty; email has an invalid format"
    );
    assert_eq!(
        AppError::ValidationFailed(vec![email, name, email]).public_message(),
        "Validation failed: email has an invalid format; name must not be empty; email has an invalid format"
    );
}

#[test]
fn store_failures_become_conflict_or_store_error() {
    assert!(matches!(AppError::from_store(StoreFailure::UniqueViolation), AppError::Conflict));
    match AppError::from_store(StoreFailure::Other("disk full".to_string())) {
        AppError::StoreError(detail) => assert_eq!(detail, "disk full"),
        other => panic!("unexpected {:?}", other),
    }
}

#[test]
fn write_failures_are_classified_by_the_database_message() {
    assert!(matches!(
        classify_write_failure(Some("UNIQUE constraint failed: users.email"), "d".to_string()),
        StoreFailure::UniqueViolation
    ));
    for message in ["UNIQUE constraint failed: users.id", "UNIQUE", "email", "NOT NULL: users.email"] {
        match classify_write_failure(Some(message), "kept".to_string()) {
            StoreFailure::Other(detail) => assert_eq!(detail, "kept"),
            other => panic!("unexpected {:?} for {:?}", other, message),
        }
    }
    match classify_write_failure(Some("unique constraint failed"), "lower case".to_string()) {
        StoreFailure::Other(detail) => assert_eq!(detail, "lower case"),
        other => panic!("unexpected {:?}", other),
    }
    match classify_write_failure(None, "pool timed out: UNIQUE".to_string()) {
        StoreFailure::Other(detail) => assert_eq!(detail, "pool timed out: UNIQUE"),
        other => panic!("unexpected {:?}", other),
    }
}

#[test]
fn lookups_and_writes_map_to_domain_results() {
    assert_eq!(row_or_missing("u1", Some(user())).unwrap().id, "u1");
    match row_or_missing("u9", None) {
        Err(AppError::NotFound(text)) => assert_eq!(text, "User with id 'u9' not found"),
        other => panic!("unexpected {:?}", other),
    }
    assert_eq!(written(user(), Ok(())).unwrap().email, "ada@example.com");
    assert!(matches!(written(user(), Err(StoreFailure::UniqueViolation)), Err(AppError::Conflict)));
    assert!(matches!(
        written(user(), Err(StoreFailure::Other("x".to_string()))),
        Err(AppError::StoreError(_))
    ));
    assert!(affected_or_missing("u1", Ok(1)).is_ok());
    assert!(affected_or_missing("u1", Ok(7)).is_ok());
    assert!(matches!(affected_or_missing("u1", Ok(0)), Err(AppError::NotFound(_))));
    assert!(matches!(
        affected_or_missing("u1", Err(StoreFailure::UniqueViolation)),
        Err(AppError::Conflict)
    ));
    assert!(matches!(
        affected_or_missing("u1", Err(StoreFailure::Other("x".to_string()))),
        Err(AppError::StoreError(_))
    ));
}

#[test]
fn update_statement_is_picked_by_the_fields_present() {
    let some = Some("x".to_string());
    assert_eq!(assignments(&None, &None), Assignments::Touch);
    assert_eq!(assignments(&some, &None), Assignments::Name);
    assert_eq!(assignments(&None, &some), Assignments::Email);
    assert_eq!(assignments(&some, &some), Assignments::NameAndEmail);
}

#[test]
fn page_bounds_default_to_100_and_0() {
    assert_eq!(page_bounds(UserListQuery { limit: None, offset: None }), (100, 0));
    assert_eq!(page_bounds(UserListQuery { limit: Some(5), offset: None }), (5, 0));
    assert_eq!(page_bounds(UserListQuery { limit: None, offset: Some(7) }), (100, 7));
    assert_eq!(page_bounds(UserListQuery { limit: Some(100000), offset: Some(-1) }), (100000, -1));
    let d = UserListQuery::default();
    assert_eq!((d.limit, d.offset), (Some(100), Some(0)));
}
