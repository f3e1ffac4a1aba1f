use service_core::clock::{now, to_instant, to_seconds};
use service_core::config::Config;
use service_core::graphql::{is_introspection, playground_page, query_policy, QueryPolicy};
use service_core::handlers::{api_status, health_check};

fn some(s: &str) -> Option<String> {
    Some(s.to_string())
}

#[test]
fn test_health_check() {
    let r = health_check();
    assert_eq!(r.status, "ok");
    assert_eq!(r.message, "Backend service is healthy");
}

#[test]
fn status_names_the_service() {
    let r = api_status();
    assert_eq!((r.service.as_str(), r.version.as_str(), r.status.as_str()), ("backend", "0.1.0", "running"));
}

#[test]
fn configuration_defaults() {
    let c = Config::from_values(None, None, None);
    assert_eq!(c.database_url, "backend.db");
    assert_eq!(c.server_port, 3000);
    assert_eq!(c.server_host, "127.0.0.1");
    assert_eq!(c.server_address(), "127.0.0.1:3000");
}

#[test]
fn configuration_from_settings() {
    let c = Config::from_values(some("sqlite://data.db"), some("8080"), some("0.0.0.0"));
    assert_eq!(c.database_url, "sqlite://data.db");
    assert_eq!(c.server_port, 8080);
    assert_eq!(c.server_address(), "0.0.0.0:8080");
    assert_eq!(Config::from_values(None, some("0"), some("")).server_address(), ":0");
    assert_eq!(Config::from_values(None, some("65535"), some("::1")).server_address(), "::1:65535");
    assert_eq!(Config::from_values(None, some("+80"), None).server_port, 80);
}

#[test]
fn a_port_that_is_no_port_takes_the_default() {
    for bad in ["", "65536", "-1", "http", "80 ", " 80", "8o", "99999999999999999999"] {
        assert_eq!(Config::from_values(None, some(bad), None).server_port, 3000, "{:?}", bad);
    }
}

#[test]
fn introspection_runs_without_limits_and_credential() {
    for q in ["{ __schema { types { name } } }", "query { __type(name: \"X\") { name } }", "__type"] {
        assert!(is_introspection(q));
        assert_eq!(query_policy(q), QueryPolicy { depth: None, complexity: None, needs_credential: false });
    }
}

#[test]
fn other_queries_run_within_limits_and_with_credential() {
    for q in ["{ users { id } }", "", "_schema", "__typ", "__ schema"] {
        assert!(!is_introspection(q));
        assert_eq!(
            query_policy(q),
            QueryPolicy { depth: Some(10), complexity: Some(1000), needs_credential: true }
        );
    }
}

#[test]
fn playground_reads_the_token_from_the_browser() {
    let page = "headers: {\"Authorization\":\"Bearer TOKEN_HERE\"}, x: {\"Authorization\":\"Bearer TOKEN_HERE\"}";
    assert_eq!(
        playground_page(page),
        "headers: {\"Authorization\":`Bearer ${localStorage.getItem('auth_token')}`}, x: {\"Authorization\":`Bearer ${localStorage.getItem('auth_token')}`}"
    );
    assert_eq!(playground_page("<html></html>"), "<html></html>");
    assert_eq!(playground_page("\"Authorization\": \"Bearer TOKEN_HERE\""), "\"Authorization\": \"Bearer TOKEN_HERE\"");
}

#[test]
fn instants_join_and_split() {
    assert_eq!(to_instant(0, 0), 0);
    assert_eq!(to_instant(1, 5), 1_000_000_005);
    assert_eq!(to_instant(-1, 999_999_999), -1);
    assert_eq!(to_instant(i64::MAX, 0), i64::MAX);
    assert_eq!(to_instant(i64::MIN, 0), i64::MIN);
    assert_eq!(to_instant(9_223_372_036, 854_775_807), i64::MAX);
    assert_eq!(to_instant(9_223_372_036, 854_775_808), i64::MAX);
    assert_eq!(to_instant(1_700_000_000, 1_999_999_999), 1_700_000_001_999_999_999);
    assert_eq!(to_seconds(0), 0);
    assert_eq!(to_seconds(999_999_999), 0);
    assert_eq!(to_seconds(1_000_000_000), 1);
    assert_eq!(to_seconds(-1), -1);
    assert_eq!(to_seconds(-1_000_000_000), -1);
    assert_eq!(to_seconds(-1_000_000_001), -2);
    assert_eq!(to_seconds(i64::MIN), -9_223_372_037);
    assert_eq!(to_seconds(i64::MAX), 9_223_372_036);
}

#[test]
fn the_clock_reads_the_present() {
    let a = now();
    let b = now();
    assert!(a > 1_600_000_000_000_000_000);
    assert!(b >= a);
}
