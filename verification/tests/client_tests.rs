use service_core::client::api::ApiService;
use service_core::client::display::{format_date, format_error, truncate_text};
use service_core::client::form::UserForm;
use service_core::client::pager::{has_next, has_previous, next_page, page_label, previous_page};
use service_core::client::state::{
    clear_error, on_created, on_deleted, on_loaded, on_request, on_updated, UsersAction, UsersState,
};
use service_core::models::UserResponse;

fn user(id: &str, name: &str) -> UserResponse {
    UserResponse {
        id: id.to_string(),
        name: name.to_string(),
        email: format!("{}@example.com", name.to_lowercase()),
        created_at: "2024-05-06T07:08:09+00:00".to_string(),
        updated_at: "2024-05-06T07:08:09+00:00".to_string(),
    }
}

fn form(name: &str, email: &str) -> UserForm {
    UserForm { name: name.to_string(), email: email.to_string() }
}

fn names(state: &UsersState) -> Vec<(String, String)> {
    state.users.iter().map(|u| (u.id.clone(), u.name.clone())).collect()
}

fn pair(id: &str, name: &str) -> (String, String) {
    (id.to_string(), name.to_string())
}

#[test]
fn new_form_is_empty_and_not_valid() {
    let f = UserForm::new();
    assert_eq!((f.name.as_str(), f.email.as_str()), ("", ""));
    assert!(!f.is_valid());
    let d = UserForm::default();
    assert_eq!((d.name.as_str(), d.email.as_str()), ("", ""));
}

#[test]
fn form_is_valid_with_name_and_address_holding_an_at() {
    assert!(form("Ada", "ada@example.com").is_valid());
    assert!(form(" Ada ", " a@b ").is_valid());
    assert!(form("Ada", "@").is_valid());
    assert!(!form("", "ada@example.com").is_valid());
    assert!(!form("  ", "ada@example.com").is_valid());
    assert!(!form("Ada", "").is_valid());
    assert!(!form("Ada", "   ").is_valid());
    assert!(!form("Ada", "ada.example.com").is_valid());
}

#[test]
fn form_from_user_and_clear() {
    let mut f = UserForm::from_user(&user("u1", "Ada"));
    assert_eq!((f.name.as_str(), f.email.as_str()), ("Ada", "ada@example.com"));
    let copy = f.clone();
    f.clear();
    assert_eq!((f.name.as_str(), f.email.as_str()), ("", ""));
    assert_eq!((copy.name.as_str(), copy.email.as_str()), ("Ada", "ada@example.com"));
}

#[test]
fn requests_carry_trimmed_fields() {
    let r = form("  Ada Lovelace \n", "\tada@example.com ").to_create_request();
    assert_eq!((r.name.as_str(), r.email.as_str()), ("Ada Lovelace", "ada@example.com"));
    let r = form("", " ").to_create_request();
    assert_eq!((r.name.as_str(), r.email.as_str()), ("", ""));
    let r = form("  Ada ", "   ").to_update_request();
    assert_eq!((r.name, r.email), (Some("Ada".to_string()), None));
    let r = form("", " ada@example.com").to_update_request();
    assert_eq!((r.name, r.email), (None, Some("ada@example.com".to_string())));
    let r = form(" ", "").to_update_request();
    assert_eq!((r.name, r.email), (None, None));
}

#[test]
fn default_state_is_empty_and_idle() {
    let s = UsersState::default();
    assert!(s.users.is_empty());
    assert!(!s.loading);
    assert_eq!(s.error, None);
}

#[test]
fn reduce_follows_each_action() {
    let s = UsersState::default().reduce(UsersAction::SetLoading(true));
    assert!(s.loading);
    let s = s.reduce(UsersAction::SetError(Some("boom".to_string())));
    assert!(!s.loading);
    assert_eq!(s.error, Some("boom".to_string()));
    let s = s.reduce(UsersAction::SetLoading(true));
    assert_eq!(s.error, Some("boom".to_string()));
    let s = s.reduce(UsersAction::SetUsers(vec![user("a", "Ada"), user("b", "Bob")]));
    assert_eq!(names(&s), vec![pair("a", "Ada"), pair("b", "Bob")]);
    assert!(!s.loading);
    assert_eq!(s.error, None);
    let s = s.reduce(UsersAction::SetError(Some("x".to_string()))).reduce(UsersAction::SetLoading(true));
    let s = s.reduce(UsersAction::AddUser(user("c", "Cy")));
    assert_eq!(names(&s), vec![pair("a", "Ada"), pair("b", "Bob"), pair("c", "Cy")]);
    assert!(s.loading);
    assert_eq!(s.error, None);
    let s = s.reduce(UsersAction::UpdateUser(user("b", "Bobby")));
    assert_eq!(names(&s), vec![pair("a", "Ada"), pair("b", "Bobby"), pair("c", "Cy")]);
    let s = s.reduce(UsersAction::UpdateUser(user("zz", "Nobody")));
    assert_eq!(names(&s), vec![pair("a", "Ada"), pair("b", "Bobby"), pair("c", "Cy")]);
    let s = s.reduce(UsersAction::RemoveUser("a".to_string()));
    assert_eq!(names(&s), vec![pair("b", "Bobby"), pair("c", "Cy")]);
    let s = s.reduce(UsersAction::RemoveUser("zz".to_string()));
    assert_eq!(names(&s), vec![pair("b", "Bobby"), pair("c", "Cy")]);
    let s = s.reduce(UsersAction::SetError(None));
    assert_eq!(s.error, None);
    assert!(!s.loading);
}

#[test]
fn update_replaces_only_the_first_and_remove_takes_all_with_the_id() {
    let s = UsersState::default().reduce(UsersAction::SetUsers(vec![
        user("a", "One"),
        user("b", "Bob"),
        user("a", "Two"),
    ]));
    let s = s.reduce(UsersAction::UpdateUser(user("a", "New")));
    assert_eq!(names(&s), vec![pair("a", "New"), pair("b", "Bob"), pair("a", "Two")]);
    let copy = s.clone();
    let s = s.reduce(UsersAction::RemoveUser("a".to_string()));
    assert_eq!(names(&s), vec![pair("b", "Bob")]);
    assert_eq!(names(&copy).len(), 3);
}

#[test]
fn outcomes_become_actions() {
    assert!(matches!(on_request(), UsersAction::SetLoading(true)));
    assert!(matches!(clear_error(), UsersAction::SetError(None)));
    assert!(matches!(on_loaded(Ok(vec![user("a", "Ada")])), UsersAction::SetUsers(u) if u.len() == 1));
    assert!(matches!(on_loaded(Err("e".into())), UsersAction::SetError(Some(e)) if e == "e"));
    let a = on_created(Ok(user("a", "Ada")));
    assert!(matches!(&a[..], [UsersAction::AddUser(u), UsersAction::SetLoading(false)] if u.id == "a"));
    let a = on_created(Err("e".into()));
    assert!(matches!(&a[..], [UsersAction::SetError(Some(e))] if e == "e"));
    let a = on_updated(Ok(user("a", "Ada")));
    assert!(matches!(&a[..], [UsersAction::UpdateUser(u), UsersAction::SetLoading(false)] if u.id == "a"));
    let a = on_updated(Err("e".into()));
    assert!(matches!(&a[..], [UsersAction::SetError(Some(e))] if e == "e"));
    assert!(matches!(on_deleted("a".into(), Ok(())), UsersAction::RemoveUser(id) if id == "a"));
    assert!(matches!(on_deleted("a".into(), Err("e".into())), UsersAction::SetError(Some(e)) if e == "e"));
}

#[test]
fn error_prefixes_are_taken_out() {
    assert_eq!(format_error("Request error: timeout"), "timeout");
    assert_eq!(format_error("Parse error: bad json"), "bad json");
    assert_eq!(format_error("Serialization error: oops"), "oops");
    assert_eq!(format_error("Request error: Parse error: x"), "x");
    assert_eq!(format_error("a Request error: b Request error: c"), "a b c");
    assert_eq!(format_error("Parse Request error: error: x"), "x");
    assert_eq!(format_error("request error: x"), "request error: x");
    assert_eq!(format_error(""), "");
    assert_eq!(format_error("plain"), "plain");
}

#[test]
fn text_is_truncated_to_bytes_with_dots() {
    assert_eq!(truncate_text("hello world", 5), "hello...");
    assert_eq!(truncate_text("hello", 5), "hello");
    assert_eq!(truncate_text("hello", 50), "hello");
    assert_eq!(truncate_text("hello", 0), "...");
    assert_eq!(truncate_text("", 0), "");
    assert_eq!(truncate_text("héllo", 3), "hé...");
    assert_eq!(truncate_text("héllo", 6), "héllo");
    assert_eq!(truncate_text("日本語", 6), "日本...");
}

#[test]
fn date_is_the_first_ten_bytes() {
    assert_eq!(format_date("2024-05-06T07:08:09+00:00"), "2024-05-06");
    assert_eq!(format_date("2024-05-06"), "2024-05-06");
    assert_eq!(format_date("2024-05"), "2024-05");
    assert_eq!(format_date(""), "");
    assert_eq!(format_date("2024-05é"), "2024-05é");
    assert_eq!(format_date("é024-05-0éT"), "é024-05-0");
}

#[test]
fn api_addresses() {
    let base = "http://127.0.0.1:3000/api";
    assert_eq!(ApiService::health_url(base), "http://127.0.0.1:3000/api/health");
    assert_eq!(ApiService::status_url(base), "http://127.0.0.1:3000/api/api/v1/status");
    assert_eq!(ApiService::blogs_url(base, 2, 10), "http://127.0.0.1:3000/api/api/blogs?page=2&per_page=10");
    assert_eq!(ApiService::blogs_url("", 0, u64::MAX), "/api/blogs?page=0&per_page=18446744073709551615");
    assert_eq!(ApiService::blog_url(base, "hello-world"), "http://127.0.0.1:3000/api/api/blogs/hello-world");
}

#[test]
fn api_failures_are_worded() {
    assert_eq!(ApiService::check_status(true, 200), Ok(()));
    assert_eq!(ApiService::check_status(true, 404), Ok(()));
    assert_eq!(ApiService::check_status(false, 404), Err("Request failed with status: 404".to_string()));
    assert_eq!(ApiService::check_status(false, 0), Err("Request failed with status: 0".to_string()));
    assert_eq!(ApiService::request_failed("network down"), "Request failed: network down");
    assert_eq!(ApiService::parse_failed("EOF"), "Failed to parse response: EOF");
}

#[test]
fn pager_moves_within_the_pages() {
    assert!(!has_previous(0) && !has_previous(1) && has_previous(2));
    assert!(has_next(1, 2) && !has_next(2, 2) && !has_next(1, 0) && !has_next(5, 2));
    assert_eq!(previous_page(3), 2);
    assert_eq!(previous_page(1), 1);
    assert_eq!(previous_page(0), 0);
    assert_eq!(next_page(1, Some(3)), 2);
    assert_eq!(next_page(3, Some(3)), 3);
    assert_eq!(next_page(1, Some(0)), 1);
    assert_eq!(next_page(1, None), 1);
    assert_eq!(next_page(u64::MAX - 1, Some(u64::MAX)), u64::MAX);
    assert_eq!(page_label(2, 7), "Page 2 of 7");
    assert_eq!(page_label(1, 0), "Page 1 of 0");
}
