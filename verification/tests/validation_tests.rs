use service_core::errors::{Field, FieldFailure, Rule};
use service_core::models::{CreateUserRequest, UpdateUserRequest};
use service_core::validation::{
    check_email, email_verdict, validate_create, validate_create_with, validate_update,
    validate_update_with,
};

fn create(name: &str, email: &str) -> CreateUserRequest {
    CreateUserRequest { name: name.to_string(), email: email.to_string() }
}

fn update(name: Option<&str>, email: Option<&str>) -> UpdateUserRequest {
    UpdateUserRequest { name: name.map(|s| s.to_string()), email: email.map(|s| s.to_string()) }
}

const NAME_EMPTY: FieldFailure = FieldFailure { field: Field::Name, rule: Rule::EmptyField };
const EMAIL_INVALID: FieldFailure = FieldFailure { field: Field::Email, rule: Rule::InvalidFormat };

#[test]
fn valid_create_request_has_no_failures() {
    assert_eq!(validate_create(&create("Ada", "ada@example.com")), vec![]);
    assert_eq!(validate_create(&create(" Ada Lovelace ", "a.b+c@mail.example.org")), vec![]);
}

#[test]
fn empty_or_blank_name_fails_as_empty_field() {
    assert_eq!(validate_create(&create("", "ada@example.com")), vec![NAME_EMPTY]);
    assert_eq!(validate_create(&create("   ", "ada@example.com")), vec![NAME_EMPTY]);
    assert_eq!(validate_create(&create("\t\n\u{3000}", "ada@example.com")), vec![NAME_EMPTY]);
}

#[test]
fn email_without_at_or_without_dot_in_domain_fails() {
    for email in ["", "ada", "ada.example.com", "ada@", "ada@localhost", "a.b@localhost",
        "ada@[::1]", "@", "a.b.c@d"]
    {
        assert_eq!(validate_create(&create("Ada", email)), vec![EMAIL_INVALID], "{:?}", email);
    }
}

#[test]
fn email_that_the_grammar_refuses_fails() {
    for email in ["a b@example.com", "ada@exa mple.com", "\"a@b\"@example.com", "ada@example..com",
        "ada@-example.com", "a@b@example.com"]
    {
        assert!(!check_email(email), "{:?}", email);
        assert_eq!(validate_create(&create("Ada", email)), vec![EMAIL_INVALID], "{:?}", email);
    }
}

#[test]
fn email_that_the_grammar_accepts_passes() {
    for email in ["ada@example.com", "email@here.and.there.com", "!def!xyz%abc@example.com",
        "email@[127.0.0.1]", "example@valid-----hyphens.com"]
    {
        assert!(check_email(email), "{:?}", email);
    }
}

#[test]
fn both_failures_come_name_first() {
    assert_eq!(validate_create(&create(" ", "nope")), vec![NAME_EMPTY, EMAIL_INVALID]);
}

#[test]
fn verdict_needs_the_grammar_the_at_and_the_dot() {
    assert!(email_verdict("ada@example.com", true));
    assert!(!email_verdict("ada@example.com", false));
    assert!(!email_verdict("ada.example.com", true));
    assert!(!email_verdict("a.d.a@examplecom", true));
    assert!(email_verdict("x@y@z.w", true));
    assert!(!email_verdict("x@y.z@w", true));
    assert!(!email_verdict("", true));
}

#[test]
fn create_with_uses_the_answer_it_is_given() {
    assert_eq!(validate_create_with(&create("Ada", "ada@example.com"), false), vec![EMAIL_INVALID]);
    assert_eq!(validate_create_with(&create("Ada", "ada@example.com"), true), vec![]);
    assert_eq!(validate_create_with(&create("Ada", "ada"), true), vec![EMAIL_INVALID]);
}

#[test]
fn absent_fields_of_an_update_cannot_fail() {
    assert_eq!(validate_update(&update(None, None)), vec![]);
    assert_eq!(validate_update(&update(Some("Ada"), None)), vec![]);
    assert_eq!(validate_update(&update(None, Some("ada@example.com"))), vec![]);
    assert_eq!(validate_update_with(&update(Some("Ada"), None), false), vec![]);
}

#[test]
fn present_fields_of_an_update_obey_the_rules() {
    assert_eq!(validate_update(&update(Some(""), None)), vec![NAME_EMPTY]);
    assert_eq!(validate_update(&update(Some("  "), None)), vec![NAME_EMPTY]);
    assert_eq!(validate_update(&update(None, Some("ada"))), vec![EMAIL_INVALID]);
    assert_eq!(validate_update(&update(None, Some("ada@host"))), vec![EMAIL_INVALID]);
    assert_eq!(validate_update(&update(Some(""), Some("x"))), vec![NAME_EMPTY, EMAIL_INVALID]);
    assert_eq!(validate_update_with(&update(None, Some("a@b.c")), false), vec![EMAIL_INVALID]);
}
