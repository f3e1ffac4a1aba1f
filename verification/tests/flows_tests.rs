use service_core::blogs::ListParams;
use service_core::content_flows::{ContentAnswer, ContentFlow, ContentQuery, ContentReply, ContentStep};
use service_core::content_store::ContentStore;
use service_core::auth::{create_jwt_at, LoginRequest};
use service_core::entities::{Account, BlogPost};
use service_core::errors::{AppError, StoreFailure};
use service_core::flows::{UserAnswer, UserFlow, UserQuery, UserReply, UserStep};
use service_core::handlers::drive;
use service_core::models::{CreateUserRequest, UpdateUserRequest, User, UserListQuery};
use service_core::repositories::UserRepository;
use service_core::services::UserService;
use service_core::user_table::UserTable;

fn create(name: &str, email: &str) -> CreateUserRequest {
    CreateUserRequest { name: name.to_string(), email: email.to_string() }
}

fn update(name: Option<&str>, email: Option<&str>) -> UpdateUserRequest {
    UpdateUserRequest { name: name.map(|s| s.to_string()), email: email.map(|s| s.to_string()) }
}

fn user(id: &str, email: &str) -> User {
    User::with_identity(id.to_string(), "Name".to_string(), email.to_string(), 1_000_000_000)
}

fn other(text: &str) -> StoreFailure {
    StoreFailure::Other(text.to_string())
}

fn post(slug: &str) -> BlogPost {
    BlogPost {
        id: 7,
        author_id: 1,
        title: "T".into(),
        slug: slug.into(),
        excerpt: None,
        content: "C".into(),
        status: Some("published".into()),
        published_at: Some(1),
        created_at: Some(1),
        updated_at: None,
    }
}

fn done(step: UserStep) -> Result<UserReply, AppError> {
    match step {
        UserStep::Done(r) => r,
        UserStep::Ask(q) => panic!("the flow asks {:?}", q),
    }
}

fn asked(step: UserStep) -> UserQuery {
    match step {
        UserStep::Ask(q) => q,
        UserStep::Done(r) => panic!("the flow ended with {:?}", r),
    }
}

fn content_done(step: ContentStep) -> Result<ContentReply, AppError> {
    match step {
        ContentStep::Done(r) => r,
        ContentStep::Ask(q) => panic!("the flow asks {:?}", q),
    }
}

fn content_asked(step: ContentStep) -> ContentQuery {
    match step {
        ContentStep::Ask(q) => q,
        ContentStep::Done(r) => panic!("the flow ended with {:?}", r),
    }
}

#[test]
fn create_flow_validates_looks_up_then_inserts() {
    let (flow, step) = UserFlow::create(create("Ada", "ada@example.com"), true, "u1".into(), 5);
    match asked(step) {
        UserQuery::SelectByEmail { email } => assert_eq!(email, "ada@example.com"),
        q => panic!("unexpected {:?}", q),
    }
    let (flow, step) = flow.resume(UserAnswer::Row(None));
    match asked(step) {
        UserQuery::Insert { user } => {
            assert_eq!((user.id.as_str(), user.name.as_str()), ("u1", "Ada"));
            assert_eq!((user.created_at, user.updated_at), (5, 5));
        }
        q => panic!("unexpected {:?}", q),
    }
    let (flow, step) = flow.resume(UserAnswer::Written);
    match done(step) {
        Ok(UserReply::User(r)) => assert_eq!(r.email, "ada@example.com"),
        r => panic!("unexpected {:?}", r),
    }
    assert!(matches!(flow, UserFlow::Finished));
    let (_, step) = flow.resume(UserAnswer::Written);
    assert!(matches!(done(step), Err(AppError::Internal(_))));
}

#[test]
fn create_flow_ends_early_on_invalid_request_or_taken_address() {
    let (flow, step) = UserFlow::create(create("", "ada@example.com"), true, "u1".into(), 5);
    assert!(matches!(flow, UserFlow::Finished));
    assert!(matches!(done(step), Err(AppError::ValidationFailed(_))));
    let (_, step) = UserFlow::create(create("Ada", "ada@example.com"), false, "u1".into(), 5);
    assert!(matches!(done(step), Err(AppError::ValidationFailed(_))));
    let (flow, _) = UserFlow::create(create("Ada", "ada@example.com"), true, "u1".into(), 5);
    let (_, step) = flow.resume(UserAnswer::Row(Some(user("u0", "ada@example.com"))));
    assert!(matches!(done(step), Err(AppError::Conflict)));
}

#[test]
fn create_flow_ends_when_the_lookup_fails_and_maps_insert_failures() {
    let (flow, _) = UserFlow::create(create("Ada", "ada@example.com"), true, "u1".into(), 5);
    let (flow, step) = flow.resume(UserAnswer::Failed(other("timeout")));
    assert!(matches!(flow, UserFlow::Finished));
    match done(step) {
        Err(e) => {
            assert_eq!(e.status_code(), 500);
            assert_eq!(e.log_detail(), Some("timeout".to_string()));
        }
        r => panic!("unexpected {:?}", r),
    }
    let (flow, _) = UserFlow::create(create("Ada", "ada@example.com"), true, "u1".into(), 5);
    let (_, step) = flow.resume(UserAnswer::Affected(1));
    assert!(matches!(done(step), Err(AppError::Internal(_))));
    let (flow, _) = UserFlow::create(create("Ada", "ada@example.com"), true, "u1".into(), 5);
    let (flow, _) = flow.resume(UserAnswer::Row(None));
    let (_, step) = flow.resume(UserAnswer::Failed(StoreFailure::UniqueViolation));
    assert!(matches!(done(step), Err(AppError::Conflict)));
    let (flow, _) = UserFlow::create(create("Ada", "ada@example.com"), true, "u1".into(), 5);
    let (flow, _) = flow.resume(UserAnswer::Row(None));
    let (_, step) = flow.resume(UserAnswer::Failed(other("disk full")));
    match done(step) {
        Err(AppError::StoreError(detail)) => assert_eq!(detail, "disk full"),
        r => panic!("unexpected {:?}", r),
    }
    let (flow, _) = UserFlow::create(create("Ada", "ada@example.com"), true, "u1".into(), 5);
    let (flow, _) = flow.resume(UserAnswer::Row(None));
    let (_, step) = flow.resume(UserAnswer::Affected(1));
    assert!(matches!(done(step), Err(AppError::Internal(_))));
}

#[test]
fn update_flow_checks_target_then_owner_then_writes_and_rereads() {
    let (flow, step) =
        UserFlow::update("u1", update(Some("New"), Some("new@example.com")), true, 2_000_000_009);
    assert!(matches!(asked(step), UserQuery::SelectById { id } if id == "u1"));
    let (flow, step) = flow.resume(UserAnswer::Row(Some(user("u1", "old@example.com"))));
    assert!(matches!(asked(step), UserQuery::SelectByEmail { email } if email == "new@example.com"));
    let (flow, step) = flow.resume(UserAnswer::Row(None));
    match asked(step) {
        UserQuery::Update { id, name, email, now } => {
            assert_eq!(id, "u1");
            assert_eq!(name, Some("New".to_string()));
            assert_eq!(email, Some("new@example.com".to_string()));
            assert_eq!(now, 2_000_000_009);
        }
        q => panic!("unexpected {:?}", q),
    }
    let (flow, step) = flow.resume(UserAnswer::Affected(1));
    assert!(matches!(asked(step), UserQuery::SelectById { id } if id == "u1"));
    let (_, step) = flow.resume(UserAnswer::Row(Some(user("u1", "new@example.com"))));
    match done(step) {
        Ok(UserReply::User(r)) => assert_eq!(r.email, "new@example.com"),
        r => panic!("unexpected {:?}", r),
    }
}

#[test]
fn update_flow_skips_the_owner_lookup_without_an_address() {
    let (flow, _) = UserFlow::update("u1", update(Some("New"), None), true, 9);
    let (_, step) = flow.resume(UserAnswer::Row(Some(user("u1", "old@example.com"))));
    assert!(matches!(asked(step), UserQuery::Update { email: None, now: 1_000_000_000, .. }));
}

#[test]
fn update_flow_never_writes_an_instant_before_the_rows_own() {
    let (flow, _) = UserFlow::update("u1", update(None, Some("a@b.c")), true, 999_999_999);
    let (flow, _) = flow.resume(UserAnswer::Row(Some(user("u1", "old@example.com"))));
    let (_, step) = flow.resume(UserAnswer::Row(None));
    assert!(matches!(asked(step), UserQuery::Update { now: 1_000_000_000, .. }));
    let (flow, _) = UserFlow::update("u1", update(None, None), true, 1_000_000_001);
    let (_, step) = flow.resume(UserAnswer::Row(Some(user("u1", "old@example.com"))));
    assert!(matches!(asked(step), UserQuery::Update { now: 1_000_000_001, .. }));
}

#[test]
fn update_flow_ends_with_each_error_in_its_place() {
    let (_, step) = UserFlow::update("u1", update(Some(" "), None), true, 9);
    assert!(matches!(done(step), Err(AppError::ValidationFailed(_))));
    let (flow, _) = UserFlow::update("u1", update(None, Some("a@b.c")), true, 9);
    let (_, step) = flow.resume(UserAnswer::Row(None));
    assert!(matches!(done(step), Err(AppError::NotFound(_))));
    let (flow, _) = UserFlow::update("u1", update(None, Some("a@b.c")), true, 9);
    let (_, step) = flow.resume(UserAnswer::Failed(other("down")));
    assert!(matches!(done(step), Err(AppError::StoreError(_))));
    let (flow, _) = UserFlow::update("u1", update(None, Some("a@b.c")), true, 9);
    let (flow, _) = flow.resume(UserAnswer::Row(Some(user("u1", "x@b.c"))));
    let (_, step) = flow.resume(UserAnswer::Row(Some(user("u2", "a@b.c"))));
    assert!(matches!(done(step), Err(AppError::Conflict)));
    let (flow, _) = UserFlow::update("u1", update(None, Some("a@b.c")), true, 9);
    let (flow, _) = flow.resume(UserAnswer::Row(Some(user("u1", "a@b.c"))));
    let (flow, step) = flow.resume(UserAnswer::Row(Some(user("u1", "a@b.c"))));
    assert!(matches!(asked(step), UserQuery::Update { .. }));
    let (_, step) = flow.resume(UserAnswer::Affected(0));
    assert!(matches!(done(step), Err(AppError::NotFound(_))));
    let (flow, _) = UserFlow::update("u1", update(None, None), true, 9);
    let (flow, _) = flow.resume(UserAnswer::Row(Some(user("u1", "a@b.c"))));
    let (_, step) = flow.resume(UserAnswer::Failed(StoreFailure::UniqueViolation));
    assert!(matches!(done(step), Err(AppError::Conflict)));
    let (flow, _) = UserFlow::update("u1", update(None, None), true, 9);
    let (flow, _) = flow.resume(UserAnswer::Row(Some(user("u1", "a@b.c"))));
    let (flow, _) = flow.resume(UserAnswer::Affected(1));
    let (_, step) = flow.resume(UserAnswer::Row(None));
    assert!(matches!(done(step), Err(AppError::NotFound(_))));
}

#[test]
fn update_flow_ends_when_the_owner_lookup_fails() {
    let (flow, _) = UserFlow::update("u1", update(None, Some("a@b.c")), true, 9);
    let (flow, _) = flow.resume(UserAnswer::Row(Some(user("u1", "x@b.c"))));
    let (_, step) = flow.resume(UserAnswer::Failed(other("down")));
    match done(step) {
        Err(AppError::StoreError(detail)) => assert_eq!(detail, "down"),
        r => panic!("unexpected {:?}", r),
    }
    let (flow, _) = UserFlow::update("u1", update(None, Some("a@b.c")), true, 9);
    let (flow, _) = flow.resume(UserAnswer::Row(Some(user("u1", "x@b.c"))));
    let (_, step) = flow.resume(UserAnswer::Written);
    assert!(matches!(done(step), Err(AppError::Internal(_))));
}

#[test]
fn delete_get_and_list_flows() {
    let (flow, step) = UserFlow::delete("u1");
    assert!(matches!(asked(step), UserQuery::Delete { id } if id == "u1"));
    let (_, step) = flow.resume(UserAnswer::Affected(1));
    assert!(matches!(done(step), Ok(UserReply::Deleted)));
    let (flow, _) = UserFlow::delete("u1");
    let (_, step) = flow.resume(UserAnswer::Affected(0));
    match done(step) {
        Err(AppError::NotFound(text)) => assert_eq!(text, "User with id 'u1' not found"),
        r => panic!("unexpected {:?}", r),
    }
    let (flow, _) = UserFlow::delete("u1");
    let (_, step) = flow.resume(UserAnswer::Failed(StoreFailure::UniqueViolation));
    assert!(matches!(done(step), Err(AppError::StoreError(_))));

    let (flow, step) = UserFlow::get("u1");
    assert!(matches!(asked(step), UserQuery::SelectById { id } if id == "u1"));
    let (_, step) = flow.resume(UserAnswer::Row(Some(user("u1", "a@b.c"))));
    assert!(matches!(done(step), Ok(UserReply::User(r)) if r.id == "u1"));
    let (flow, _) = UserFlow::get("u1");
    let (_, step) = flow.resume(UserAnswer::Row(None));
    assert!(matches!(done(step), Err(AppError::NotFound(_))));
    let (flow, _) = UserFlow::get("u1");
    let (_, step) = flow.resume(UserAnswer::Rows(vec![]));
    assert!(matches!(done(step), Err(AppError::Internal(_))));

    let (flow, step) = UserFlow::list(UserListQuery { limit: None, offset: Some(3) });
    assert!(matches!(asked(step), UserQuery::SelectPage { limit: 100, offset: 3 }));
    let (_, step) = flow.resume(UserAnswer::Rows(vec![user("a", "a@b.c"), user("b", "b@b.c")]));
    match done(step) {
        Ok(UserReply::Users(rows)) => {
            assert_eq!(rows.iter().map(|r| r.id.as_str()).collect::<Vec<_>>(), vec!["a", "b"]);
            assert_eq!(rows[0].created_at, "1970-01-01T00:00:01+00:00");
        }
        r => panic!("unexpected {:?}", r),
    }
    let (flow, _) = UserFlow::list(UserListQuery::default());
    let (_, step) = flow.resume(UserAnswer::Failed(other("down")));
    match done(step) {
        Err(e) => assert_eq!((e.status_code(), e.public_message().as_str()), (500, "Internal server error")),
        r => panic!("unexpected {:?}", r),
    }
}

#[test]
fn replies_have_their_success_status() {
    assert_eq!(UserReply::Deleted.status_code(), 204);
    assert_eq!(UserReply::Users(vec![]).status_code(), 200);
    let (flow, _) = UserFlow::get("u1");
    let (_, step) = flow.resume(UserAnswer::Row(Some(user("u1", "a@b.c"))));
    assert_eq!(done(step).unwrap().status_code(), 200);
}

#[test]
fn service_runs_any_flow_on_its_repository() {
    let mut service = UserService::new(UserRepository::new(UserTable::new()));
    let (flow, step) = UserFlow::create(create("Ada", "ada@example.com"), true, "u1".into(), 5);
    assert!(matches!(service.run(flow, step), Ok(UserReply::User(r)) if r.id == "u1"));
    let (flow, step) = UserFlow::create(create("Eve", "ada@example.com"), true, "u2".into(), 6);
    assert!(matches!(service.run(flow, step), Err(AppError::Conflict)));
    let (flow, step) = UserFlow::list(UserListQuery::default());
    assert!(matches!(service.run(flow, step), Ok(UserReply::Users(rows)) if rows.len() == 1));
    let (flow, step) = UserFlow::delete("u1");
    assert!(matches!(service.run(flow, step), Ok(UserReply::Deleted)));
    let (flow, step) = UserFlow::get("u1");
    assert!(matches!(service.run(flow, step), Err(AppError::NotFound(_))));
}

#[test]
fn repository_answers_statements() {
    let mut repo = UserRepository::new(UserTable::new());
    assert!(matches!(repo.run(UserQuery::Insert { user: user("u1", "a@b.c") }), UserAnswer::Written));
    assert!(matches!(
        repo.run(UserQuery::Insert { user: user("u2", "a@b.c") }),
        UserAnswer::Failed(StoreFailure::UniqueViolation)
    ));
    assert!(matches!(repo.run(UserQuery::SelectById { id: "u1".into() }), UserAnswer::Row(Some(_))));
    assert!(matches!(repo.run(UserQuery::SelectByEmail { email: "z".into() }), UserAnswer::Row(None)));
    assert!(matches!(
        repo.run(UserQuery::Update { id: "u1".into(), name: None, email: None, now: 3 }),
        UserAnswer::Affected(1)
    ));
    assert!(matches!(
        repo.run(UserQuery::SelectPage { limit: 10, offset: 0 }),
        UserAnswer::Rows(rows) if rows.len() == 1
    ));
    assert!(matches!(repo.run(UserQuery::Delete { id: "u9".into() }), UserAnswer::Affected(0)));
    assert!(matches!(repo.run(UserQuery::Delete { id: "u1".into() }), UserAnswer::Affected(1)));
}

#[test]
fn reading_flow_survives_a_view_that_cannot_be_recorded() {
    let (flow, step) = ContentFlow::read("hello", "203.0.113.9", 77);
    assert!(matches!(content_asked(step), ContentQuery::FindPostBySlug { slug } if slug == "hello"));
    let (flow, step) = flow.resume(ContentAnswer::Post(Some(post("hello"))));
    match content_asked(step) {
        ContentQuery::InsertView { post_id, ip_address, now } => {
            assert_eq!((post_id, ip_address.as_str(), now), (7, "203.0.113.9", 77));
        }
        q => panic!("unexpected {:?}", q),
    }
    let (flow, step) = flow.resume(ContentAnswer::Failed(other("database is locked")));
    assert!(matches!(content_asked(step), ContentQuery::CountViews { post_id: 7 }));
    let (_, step) = flow.resume(ContentAnswer::Count(4));
    match content_done(step) {
        Ok(ContentReply::Detail(d)) => assert_eq!((d.slug.as_str(), d.views_count), ("hello", 4)),
        r => panic!("unexpected {:?}", r),
    }
}

#[test]
fn reading_flow_ends_when_the_count_fails() {
    let (flow, _) = ContentFlow::read("hello", "::1", 77);
    let (flow, _) = flow.resume(ContentAnswer::Post(Some(post("hello"))));
    let (flow, _) = flow.resume(ContentAnswer::Recorded);
    let (_, step) = flow.resume(ContentAnswer::Failed(other("down")));
    match content_done(step) {
        Err(e) => {
            assert_eq!((e.status_code(), e.public_message().as_str()), (500, "Internal server error"));
            assert_eq!(e.log_detail(), Some("down".to_string()));
        }
        r => panic!("unexpected {:?}", r),
    }
    let (flow, _) = ContentFlow::read("hello", "::1", 77);
    let (flow, _) = flow.resume(ContentAnswer::Post(Some(post("hello"))));
    let (flow, _) = flow.resume(ContentAnswer::Recorded);
    let (_, step) = flow.resume(ContentAnswer::Recorded);
    assert!(matches!(content_done(step), Err(AppError::Internal(_))));
}

#[test]
fn reading_flow_ends_on_missing_post_or_failed_lookup() {
    let (flow, _) = ContentFlow::read("hello", "::1", 77);
    let (_, step) = flow.resume(ContentAnswer::Post(None));
    match content_done(step) {
        Err(e) => assert_eq!((e.status_code(), e.public_message().as_str()), (404, "Blog not found")),
        r => panic!("unexpected {:?}", r),
    }
    let (flow, _) = ContentFlow::read("hello", "::1", 77);
    let (_, step) = flow.resume(ContentAnswer::Failed(other("down")));
    match content_done(step) {
        Err(e) => assert_eq!((e.status_code(), e.public_message().as_str()), (500, "Internal server error")),
        r => panic!("unexpected {:?}", r),
    }
}

#[test]
fn listing_flow_counts_then_fetches_and_ends_on_failures() {
    let params = ListParams { page: Some(3), per_page: Some(1000), status: None };
    let (flow, step) = ContentFlow::list(&params);
    assert!(matches!(content_asked(step), ContentQuery::CountPosts { status } if status == "published"));
    let (flow, step) = flow.resume(ContentAnswer::Count(250));
    match content_asked(step) {
        ContentQuery::SelectPosts { status, size, index } => {
            assert_eq!((status.as_str(), size, index), ("published", 100, 2));
        }
        q => panic!("unexpected {:?}", q),
    }
    let (_, step) = flow.resume(ContentAnswer::Posts(vec![post("a"), post("b")]));
    match content_done(step) {
        Ok(ContentReply::Listing(l)) => {
            assert_eq!((l.page, l.per_page, l.total, l.total_pages), (3, 100, 250, 3));
            assert_eq!(l.items.len(), 2);
        }
        r => panic!("unexpected {:?}", r),
    }
    let params = ListParams { page: None, per_page: None, status: Some(String::new()) };
    let (flow, _) = ContentFlow::list(&params);
    let (flow, step) = flow.resume(ContentAnswer::Failed(other("count failed")));
    assert!(matches!(flow, ContentFlow::Finished));
    match content_done(step) {
        Err(e) => {
            assert_eq!((e.status_code(), e.public_message().as_str()), (500, "Internal server error"));
            assert_eq!(e.log_detail(), Some("count failed".to_string()));
        }
        r => panic!("unexpected {:?}", r),
    }
    let (flow, _) = ContentFlow::list(&params);
    let (flow, step) = flow.resume(ContentAnswer::Count(0));
    assert!(matches!(content_asked(step), ContentQuery::SelectPosts { size: 10, index: 0, .. }));
    let (_, step) = flow.resume(ContentAnswer::Failed(other("fetch failed")));
    match content_done(step) {
        Err(e) => assert_eq!((e.status_code(), e.log_detail()), (500, Some("fetch failed".to_string()))),
        r => panic!("unexpected {:?}", r),
    }
    let (flow, _) = ContentFlow::list(&params);
    let (_, step) = flow.resume(ContentAnswer::Posts(vec![]));
    assert!(matches!(content_done(step), Err(AppError::Internal(_))));
}

#[test]
fn login_flow_looks_up_then_creates() {
    let request = LoginRequest { email: "demo@example.com".into(), password: "pw".into() };
    let (flow, step) = ContentFlow::login(&request, "demo@example.com", "pw", 5);
    assert!(matches!(content_asked(step), ContentQuery::FindAccountByEmail { email } if email == "demo@example.com"));
    let (flow, step) = flow.resume(ContentAnswer::Account(None));
    match content_asked(step) {
        ContentQuery::InsertAccount { email, name, now } => {
            assert_eq!((email.as_str(), name.as_str(), now), ("demo@example.com", "Demo User", 5));
        }
        q => panic!("unexpected {:?}", q),
    }
    let created = Account { id: 4, email: "demo@example.com".into(), name: "Demo User".into(), created_at: None, updated_at: None };
    let (_, step) = flow.resume(ContentAnswer::AccountCreated(created));
    assert!(matches!(content_done(step), Ok(ContentReply::Account(a)) if a.id == 4));
    let (flow, _) = ContentFlow::login(&request, "demo@example.com", "pw", 5);
    let (flow, _) = flow.resume(ContentAnswer::Account(None));
    let (_, step) = flow.resume(ContentAnswer::Failed(StoreFailure::UniqueViolation));
    match content_done(step) {
        Err(e) => assert_eq!(e.status_code(), 500),
        r => panic!("unexpected {:?}", r),
    }
    let (flow, _) = ContentFlow::login(&request, "demo@example.com", "pw", 5);
    let (_, step) = flow.resume(ContentAnswer::Failed(other("down")));
    assert!(matches!(content_done(step), Err(AppError::StoreError(_))));
    let (_, step) = ContentFlow::login(&request, "demo@example.com", "other", 5);
    assert!(matches!(content_done(step), Err(AppError::Unauthorized(_))));
}

#[test]
fn current_user_flow_checks_the_credential_before_the_store() {
    let (_, step) = ContentFlow::current_user(None, "s", 10);
    assert!(matches!(content_done(step), Err(AppError::Unauthorized(_))));
    let header = format!("Bearer {}", create_jwt_at("12", "s", 10).unwrap());
    let (flow, step) = ContentFlow::current_user(Some(&header), "s", 10);
    assert!(matches!(content_asked(step), ContentQuery::FindAccountById { id: 12 }));
    let (_, step) = flow.resume(ContentAnswer::Account(None));
    assert!(matches!(content_done(step), Err(AppError::NotFound(_))));
    let header = format!("Bearer {}", create_jwt_at("x", "s", 10).unwrap());
    let (_, step) = ContentFlow::current_user(Some(&header), "s", 10);
    assert!(matches!(content_done(step), Err(AppError::BadRequest(_))));
}

#[test]
fn store_runs_any_content_flow() {
    let mut store = ContentStore::new();
    let author = store.insert_account("a@example.com".into(), "A".into(), 1).unwrap().id;
    let mut p = post("hello");
    p.author_id = author;
    store.insert_post(p).unwrap();
    let (flow, step) = ContentFlow::read("hello", "::1", 9);
    assert!(matches!(drive(&mut store, flow, step), Ok(ContentReply::Detail(d)) if d.views_count == 1));
    let (flow, step) = ContentFlow::list(&ListParams { page: None, per_page: None, status: None });
    assert!(matches!(drive(&mut store, flow, step), Ok(ContentReply::Listing(l)) if l.total == 1));
    assert!(matches!(store.run(ContentQuery::CountViews { post_id: 1 }), ContentAnswer::Count(1)));
    assert!(matches!(store.run(ContentQuery::FindAccountById { id: 1 }), ContentAnswer::Account(Some(_))));
    assert!(matches!(
        store.run(ContentQuery::InsertView { post_id: 5, ip_address: "x".into(), now: 1 }),
        ContentAnswer::Failed(StoreFailure::Other(_))
    ));
}
