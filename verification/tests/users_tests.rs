use service_core::errors::{AppError, Field, FieldFailure, Rule, StoreFailure};
use service_core::models::{
    CreateUserRequest, UpdateUserRequest, User, UserListQuery, UserResponse,
};
use service_core::repositories::UserRepository;
use service_core::services::UserService;
use service_core::user_table::UserTable;

const SECOND: i64 = 1_000_000_000;

fn service() -> UserService {
    UserService::new(UserRepository::new(UserTable::new()))
}

fn create(name: &str, email: &str) -> CreateUserRequest {
    CreateUserRequest { name: name.to_string(), email: email.to_string() }
}

fn update(name: Option<&str>, email: Option<&str>) -> UpdateUserRequest {
    UpdateUserRequest { name: name.map(|s| s.to_string()), email: email.map(|s| s.to_string()) }
}

fn all(service: &mut UserService) -> Vec<UserResponse> {
    service.get_users(UserListQuery { limit: Some(-1), offset: None }).unwrap()
}

fn add(service: &mut UserService, id: &str, name: &str, email: &str, at: i64) -> UserResponse {
    service.create_user_with(create(name, email), true, id.to_string(), at).unwrap()
}

#[test]
fn create_with_empty_name_fails_validation_and_stores_nothing() {
    let mut s = service();
    for name in ["", " ", "\t \n"] {
        match s.create_user(create(name, "ada@example.com")) {
            Err(AppError::ValidationFailed(failures)) => assert_eq!(
                failures,
                vec![FieldFailure { field: Field::Name, rule: Rule::EmptyField }]
            ),
            other => panic!("unexpected {:?}", other),
        }
    }
    assert!(all(&mut s).is_empty());
}

#[test]
fn create_with_invalid_email_fails_validation_and_stores_nothing() {
    let mut s = service();
    for email in ["ada", "ada.example.com", "ada@localhost", "a b@example.com", ""] {
        match s.create_user(create("Ada", email)) {
            Err(AppError::ValidationFailed(failures)) => assert_eq!(
                failures,
                vec![FieldFailure { field: Field::Email, rule: Rule::InvalidFormat }]
            ),
            other => panic!("unexpected {:?} for {:?}", other, email),
        }
    }
    assert!(all(&mut s).is_empty());
}

#[test]
fn second_create_with_the_same_email_conflicts() {
    let mut s = service();
    let first = s.create_user(create("Ada", "ada@example.com")).unwrap();
    assert!(matches!(s.create_user(create("Eve", "ada@example.com")), Err(AppError::Conflict)));
    let rows = all(&mut s);
    assert_eq!(rows.len(), 1);
    assert_eq!(rows[0].id, first.id);
    assert_eq!(rows[0].name, "Ada");
    assert_eq!(rows.iter().filter(|u| u.email == "ada@example.com").count(), 1);
}

#[test]
fn create_with_an_identifier_in_use_is_a_store_error() {
    let mut s = service();
    add(&mut s, "u1", "Ada", "ada@example.com", SECOND);
    match s.create_user_with(create("Eve", "eve@example.com"), true, "u1".to_string(), SECOND) {
        Err(e) => {
            assert!(matches!(e, AppError::StoreError(_)));
            assert_eq!(e.status_code(), 500);
            assert_eq!(e.public_message(), "Internal server error");
            assert_eq!(e.log_detail(), Some("UNIQUE constraint failed: users.id".to_string()));
        }
        Ok(r) => panic!("stored {:?}", r),
    }
    assert!(matches!(
        s.create_user_with(create("Eve", "ada@example.com"), true, "u1".to_string(), SECOND),
        Err(AppError::Conflict)
    ));
    let rows = all(&mut s);
    assert_eq!(rows.len(), 1);
    assert_eq!(rows[0].name, "Ada");
}

#[test]
fn an_invalid_second_request_fails_validation_before_the_conflict() {
    let mut s = service();
    s.create_user(create("Ada", "ada@example.com")).unwrap();
    assert!(matches!(
        s.create_user(create(" ", "ada@example.com")),
        Err(AppError::ValidationFailed(_))
    ));
}

#[test]
fn update_to_another_users_email_conflicts() {
    let mut s = service();
    add(&mut s, "u1", "Ada", "ada@example.com", SECOND);
    add(&mut s, "u2", "Eve", "eve@example.com", 2 * SECOND);
    assert!(matches!(
        s.update_user("u2", update(None, Some("ada@example.com"))),
        Err(AppError::Conflict)
    ));
    assert_eq!(s.get_user("u2").unwrap().email, "eve@example.com");
    assert_eq!(s.get_user("u1").unwrap().email, "ada@example.com");
}

#[test]
fn update_to_the_users_own_email_succeeds() {
    let mut s = service();
    add(&mut s, "u1", "Ada", "ada@example.com", SECOND);
    add(&mut s, "u2", "Eve", "eve@example.com", 2 * SECOND);
    let r = s.update_user("u1", update(Some("Ada L."), Some("ada@example.com"))).unwrap();
    assert_eq!(r.id, "u1");
    assert_eq!(r.name, "Ada L.");
    assert_eq!(r.email, "ada@example.com");
    assert_eq!(all(&mut s).len(), 2);
}

#[test]
fn update_changes_only_the_fields_supplied() {
    let mut s = service();
    add(&mut s, "u1", "Ada", "ada@example.com", SECOND);
    let r = s.update_user_with("u1", update(Some("Countess"), None), true, 5 * SECOND).unwrap();
    assert_eq!((r.name.as_str(), r.email.as_str()), ("Countess", "ada@example.com"));
    assert_eq!(r.created_at, "1970-01-01T00:00:01+00:00");
    assert_eq!(r.updated_at, "1970-01-01T00:00:05+00:00");
    let r = s.update_user_with("u1", update(None, Some("c@example.com")), true, 6 * SECOND).unwrap();
    assert_eq!((r.name.as_str(), r.email.as_str()), ("Countess", "c@example.com"));
    assert_eq!(r.updated_at, "1970-01-01T00:00:06+00:00");
    let r = s.update_user_with("u1", update(None, None), true, 7 * SECOND).unwrap();
    assert_eq!((r.name.as_str(), r.email.as_str()), ("Countess", "c@example.com"));
    assert_eq!(r.created_at, "1970-01-01T00:00:01+00:00");
    assert_eq!(r.updated_at, "1970-01-01T00:00:07+00:00");
    assert_eq!(r.id, "u1");
}

#[test]
fn update_never_moves_the_last_update_back() {
    let mut s = service();
    add(&mut s, "u1", "Ada", "ada@example.com", 10 * SECOND);
    let r = s.update_user_with("u1", update(Some("A"), None), true, 3 * SECOND).unwrap();
    assert_eq!(r.name, "A");
    assert_eq!(r.created_at, "1970-01-01T00:00:10+00:00");
    assert_eq!(r.updated_at, "1970-01-01T00:00:10+00:00");
}

#[test]
fn update_of_an_unknown_user_is_not_found() {
    let mut s = service();
    add(&mut s, "u1", "Ada", "ada@example.com", SECOND);
    match s.update_user("nobody", update(Some("X"), None)) {
        Err(AppError::NotFound(text)) => assert_eq!(text, "User with id 'nobody' not found"),
        other => panic!("unexpected {:?}", other),
    }
    assert!(matches!(
        s.update_user("nobody", update(Some(" "), None)),
        Err(AppError::ValidationFailed(_))
    ));
    assert!(matches!(
        s.update_user("nobody", update(None, Some("ada@example.com"))),
        Err(AppError::NotFound(_))
    ));
}

#[test]
fn delete_of_a_missing_user_is_not_found_every_time() {
    let mut s = service();
    add(&mut s, "u1", "Ada", "ada@example.com", SECOND);
    for _ in 0..3 {
        match s.delete_user("ghost") {
            Err(AppError::NotFound(text)) => assert_eq!(text, "User with id 'ghost' not found"),
            other => panic!("unexpected {:?}", other),
        }
    }
    assert_eq!(all(&mut s).len(), 1);
}

#[test]
fn delete_never_succeeds_twice() {
    let mut s = service();
    add(&mut s, "u1", "Ada", "ada@example.com", SECOND);
    add(&mut s, "u2", "Eve", "eve@example.com", SECOND);
    assert!(s.delete_user("u1").is_ok());
    assert!(matches!(s.delete_user("u1"), Err(AppError::NotFound(_))));
    assert!(matches!(s.get_user("u1"), Err(AppError::NotFound(_))));
    let rows = all(&mut s);
    assert_eq!(rows.len(), 1);
    assert_eq!(rows[0].id, "u2");
    add(&mut s, "u1", "Ada again", "ada@example.com", SECOND);
    assert_eq!(all(&mut s).len(), 2);
}

#[test]
fn created_user_can_be_read_back() {
    let mut s = service();
    let created = s.create_user(create("Ada", "ada@example.com")).unwrap();
    let read = s.get_user(&created.id).unwrap();
    assert_eq!(read.id, created.id);
    assert_eq!(read.name, "Ada");
    assert_eq!(read.email, "ada@example.com");
    assert!(!read.created_at.is_empty());
    assert!(!read.updated_at.is_empty());
    assert_eq!(read.created_at, created.created_at);
    assert_eq!(read.created_at, read.updated_at);
    assert_eq!(created.id.len(), 36);
}

#[test]
fn fresh_identifiers_differ() {
    let mut s = service();
    let a = s.create_user(create("Ada", "ada@example.com")).unwrap();
    let b = s.create_user(create("Eve", "eve@example.com")).unwrap();
    assert_ne!(a.id, b.id);
}

#[test]
fn instants_are_shown_as_rfc3339() {
    let mut s = service();
    let r = add(&mut s, "u1", "Ada", "ada@example.com", 1_700_000_000 * SECOND + 123_000_000);
    assert_eq!(r.created_at, "2023-11-14T22:13:20.123+00:00");
    assert_eq!(r.updated_at, "2023-11-14T22:13:20.123+00:00");
    let r = add(&mut s, "u0", "Old", "old@example.com", -SECOND);
    assert_eq!(r.created_at, "1969-12-31T23:59:59+00:00");
}

#[test]
fn listing_is_newest_first_and_ties_keep_their_order() {
    let mut s = service();
    add(&mut s, "a", "A", "a@example.com", 2 * SECOND);
    add(&mut s, "b", "B", "b@example.com", 5 * SECOND);
    add(&mut s, "c", "C", "c@example.com", 2 * SECOND);
    add(&mut s, "d", "D", "d@example.com", SECOND);
    add(&mut s, "e", "E", "e@example.com", 9 * SECOND);
    let ids: Vec<String> = all(&mut s).into_iter().map(|u| u.id).collect();
    assert_eq!(ids, vec!["e", "b", "a", "c", "d"]);
}

#[test]
fn listing_windows_follow_limit_and_offset() {
    let mut s = service();
    for i in 0..5 {
        add(&mut s, &format!("u{}", i), "N", &format!("u{}@example.com", i), (10 - i) * SECOND);
    }
    let ids = |s: &mut UserService, limit: Option<i32>, offset: Option<i32>| -> Vec<String> {
        s.get_users(UserListQuery { limit, offset }).unwrap().into_iter().map(|u| u.id).collect()
    };
    assert_eq!(ids(&mut s, None, None), vec!["u0", "u1", "u2", "u3", "u4"]);
    assert_eq!(ids(&mut s, Some(2), None), vec!["u0", "u1"]);
    assert_eq!(ids(&mut s, Some(2), Some(1)), vec!["u1", "u2"]);
    assert_eq!(ids(&mut s, Some(2), Some(4)), vec!["u4"]);
    assert_eq!(ids(&mut s, Some(2), Some(5)), Vec::<String>::new());
    assert_eq!(ids(&mut s, Some(2), Some(500)), Vec::<String>::new());
    assert_eq!(ids(&mut s, Some(0), None), Vec::<String>::new());
    assert_eq!(ids(&mut s, Some(1000), Some(3)), vec!["u3", "u4"]);
    assert_eq!(ids(&mut s, Some(-1), Some(3)), vec!["u3", "u4"]);
    assert_eq!(ids(&mut s, Some(3), Some(-7)), vec!["u0", "u1", "u2"]);
    assert_eq!(ids(&mut s, Some(i32::MAX), Some(i32::MAX)), Vec::<String>::new());
}

#[test]
fn default_listing_takes_at_most_100() {
    let mut s = service();
    for i in 0..103 {
        add(&mut s, &format!("u{}", i), "N", &format!("u{}@example.com", i), i * SECOND);
    }
    assert_eq!(s.get_users(UserListQuery { limit: None, offset: None }).unwrap().len(), 100);
    assert_eq!(s.get_users(UserListQuery::default()).unwrap().len(), 100);
    assert_eq!(s.get_users(UserListQuery { limit: Some(1000), offset: None }).unwrap().len(), 103);
}

#[test]
fn repository_surfaces_domain_errors() {
    let mut repo = UserRepository::new(UserTable::new());
    let ada = User::with_identity("u1".into(), "Ada".into(), "ada@example.com".into(), SECOND);
    let twin = User::with_identity("u2".into(), "Twin".into(), "ada@example.com".into(), SECOND);
    let eve = User::with_identity("u2".into(), "Eve".into(), "eve@example.com".into(), 2 * SECOND);
    let clash = User::with_identity("u1".into(), "Clash".into(), "c@example.com".into(), SECOND);
    let both = User::with_identity("u1".into(), "Both".into(), "ada@example.com".into(), SECOND);
    assert_eq!(repo.create(ada).unwrap().id, "u1");
    assert!(matches!(repo.create(twin), Err(AppError::Conflict)));
    assert!(matches!(repo.create(both), Err(AppError::Conflict)));
    assert!(matches!(repo.create(clash), Err(AppError::StoreError(_))));
    assert!(repo.find_by_email("c@example.com").unwrap().is_none());
    assert_eq!(repo.create(eve).unwrap().id, "u2");
    assert_eq!(repo.find_by_id("u1").unwrap().name, "Ada");
    assert!(matches!(repo.find_by_id("u3"), Err(AppError::NotFound(_))));
    assert_eq!(repo.find_by_email("eve@example.com").unwrap().unwrap().id, "u2");
    assert!(repo.find_by_email("none@example.com").unwrap().is_none());
    let rows = repo.find_all(UserListQuery { limit: None, offset: None }).unwrap();
    assert_eq!(rows.iter().map(|u| u.id.as_str()).collect::<Vec<_>>(), vec!["u2", "u1"]);
    let changed = repo.update("u1", Some("Ada L.".into()), None, 9 * SECOND).unwrap();
    assert_eq!(changed.name, "Ada L.");
    assert_eq!(changed.email, "ada@example.com");
    assert_eq!(changed.created_at, SECOND);
    assert_eq!(changed.updated_at, 9 * SECOND);
    assert!(matches!(
        repo.update("u1", None, Some("eve@example.com".into()), 9 * SECOND),
        Err(AppError::Conflict)
    ));
    assert!(matches!(repo.update("u9", None, None, 9 * SECOND), Err(AppError::NotFound(_))));
    assert!(repo.delete("u1").is_ok());
    assert!(matches!(repo.delete("u1"), Err(AppError::NotFound(_))));
}

#[test]
fn table_reports_rows_affected_and_violations() {
    let mut t = UserTable::new();
    assert_eq!(t.len(), 0);
    let ada = User::with_identity("u1".into(), "Ada".into(), "ada@example.com".into(), SECOND);
    let same_id = User::with_identity("u1".into(), "X".into(), "x@example.com".into(), SECOND);
    let same_email = User::with_identity("u7".into(), "X".into(), "ada@example.com".into(), SECOND);
    assert!(t.insert(ada).is_ok());
    assert_eq!(
        t.insert(same_id),
        Err(StoreFailure::Other("UNIQUE constraint failed: users.id".to_string()))
    );
    assert_eq!(t.insert(same_email), Err(StoreFailure::UniqueViolation));
    assert_eq!(t.len(), 1);
    assert_eq!(t.update("u1", None, None, 2 * SECOND).unwrap(), 1);
    assert_eq!(t.update("zz", None, None, 2 * SECOND).unwrap(), 0);
    assert_eq!(t.select_by_id("u1").unwrap().updated_at, 2 * SECOND);
    assert_eq!(t.delete("zz"), 0);
    assert_eq!(t.delete("u1"), 1);
    assert_eq!(t.len(), 0);
    assert!(t.select_by_email("ada@example.com").is_none());
}

#[test]
fn new_user_starts_with_equal_instants() {
    let u = User::new("Ada".to_string(), "ada@example.com".to_string());
    assert_eq!(u.name, "Ada");
    assert_eq!(u.email, "ada@example.com");
    assert_eq!(u.created_at, u.updated_at);
    assert!(u.created_at > 1_600_000_000 * SECOND);
    assert_eq!(u.id.len(), 36);
    assert_eq!(u.id.matches('-').count(), 4);
}
