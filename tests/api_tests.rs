use rust_api_gateway::config::{
    cookie_policy, parse_same_site, AppConfig, ProxyConfig, ReliabilityConfig, SameSitePolicy,
    SecurityConfig, ServerConfig,
};
use rust_api_gateway::handlers::{auth_guard, health_check, login, logout};
use rust_api_gateway::headers::{apply_security_headers, set_header, Header};
use rust_api_gateway::outcome::Outcome;
use rust_api_gateway::routing::{dispatch, route, Dispatch, Method, Route};
use rust_api_gateway::session::{SessionStore, INACTIVITY_MS};

fn config(prod: bool) -> AppConfig {
    AppConfig {
        server: ServerConfig {
            port: 0,
            log_level: "info".into(),
            log_format: "text".into(),
        },
        proxy: ProxyConfig {
            target_url: "http://example.com".into(),
        },
        security: SecurityConfig {
            https: prod,
            secure_cookies: prod,
            same_site: if prod { "Strict".into() } else { "Lax".into() },
            enable_hsts: prod,
            enable_csp: prod,
        },
        reliability: ReliabilityConfig {
            rate_limit_per_sec: 100,
            timeout_ms: 1000,
        },
    }
}

fn has(headers: &[Header], name: &str) -> bool {
    headers.iter().any(|h| h.name == name)
}

#[test]
fn health_check_works() {
    let mut store = SessionStore::new();
    let r = route(Method::Get, "/health");
    assert_eq!(r, Route::Health);
    match dispatch(&mut store, r, None, 10) {
        Dispatch::Respond(o) => assert_eq!(o.status(), 200),
        other => panic!("unexpected {:?}", other),
    }
    assert_eq!(health_check(), 200);
}

#[test]
fn protected_routes_require_login() {
    let mut store = SessionStore::new();
    let r = route(Method::Post, "/logout");
    assert_eq!(r, Route::Logout);
    assert_eq!(
        dispatch(&mut store, r, None, 10),
        Dispatch::Respond(Outcome::AuthRequired)
    );
    assert_eq!(Outcome::AuthRequired.status(), 401);
}

#[test]
fn login_flow_works() {
    let mut store = SessionStore::new();
    assert_eq!(route(Method::Post, "/login"), Route::Login);
    let out = login(&mut store, 42, "testuser".to_string(), 1_000);
    assert_eq!(out.status(), 200);
    assert_eq!(store.get(42, 1_000).unwrap().username, "testuser");
    let out = dispatch(&mut store, Route::Logout, Some(42), 2_000);
    assert_eq!(out, Dispatch::Respond(Outcome::Served));
}

#[test]
fn security_headers_in_production() {
    let cfg = config(true);
    let mut headers: Vec<Header> = Vec::new();
    apply_security_headers(&mut headers, &cfg.security);
    assert!(has(&headers, "strict-transport-security"));
    assert!(has(&headers, "content-security-policy"));
}

#[test]
fn security_headers_missing_in_dev() {
    let cfg = config(false);
    let mut headers: Vec<Header> = Vec::new();
    apply_security_headers(&mut headers, &cfg.security);
    assert!(!has(&headers, "strict-transport-security"));
    assert!(!has(&headers, "content-security-policy"));
}

#[test]
fn health_ignores_session_state() {
    let mut store = SessionStore::new();
    assert_eq!(login(&mut store, 7, "alice".to_string(), 0), Outcome::Served);
    for id in [None, Some(7), Some(8)] {
        assert_eq!(
            dispatch(&mut store, Route::Health, id, 5),
            Dispatch::Respond(Outcome::Served)
        );
    }
    assert_eq!(store.len(), 1);
}

#[test]
fn logout_cannot_be_replayed_with_stale_cookie() {
    let mut store = SessionStore::new();
    assert_eq!(login(&mut store, 9, "alice".to_string(), 100), Outcome::Served);
    assert_eq!(logout(&mut store, Some(9), 200).status(), 200);
    assert_eq!(logout(&mut store, Some(9), 300).status(), 401);
    assert_eq!(store.len(), 0);
}

#[test]
fn logout_with_unknown_session_is_refused() {
    let mut store = SessionStore::new();
    assert_eq!(logout(&mut store, Some(1), 0), Outcome::AuthRequired);
    assert_eq!(logout(&mut store, None, 0), Outcome::AuthRequired);
}

#[test]
fn access_renews_and_idle_session_lapses() {
    let mut store = SessionStore::new();
    assert_eq!(login(&mut store, 3, "bob".to_string(), 0), Outcome::Served);
    // still live just before the window closes, and the access slides the window
    let user = auth_guard(&mut store, Some(3), INACTIVITY_MS - 1).unwrap();
    assert_eq!(user.username, "bob");
    assert!(store.get(3, INACTIVITY_MS + 10).is_some());
    // still live at the expiry instant itself
    let expiry = INACTIVITY_MS - 1 + INACTIVITY_MS;
    assert!(store.get(3, expiry).is_some());
    // untouched for longer than the window after the renewal: gone, and evicted
    assert!(store.get(3, expiry + 1).is_none());
    assert_eq!(auth_guard(&mut store, Some(3), expiry + 1).unwrap_err(), Outcome::AuthRequired);
    assert_eq!(store.len(), 0);
}

#[test]
fn access_at_expiry_instant_renews() {
    let mut store = SessionStore::new();
    assert_eq!(login(&mut store, 4, "carol".to_string(), 0), Outcome::Served);
    let user = auth_guard(&mut store, Some(4), INACTIVITY_MS).unwrap();
    assert_eq!(user.username, "carol");
    assert!(store.get(4, 2 * INACTIVITY_MS).is_some());
    assert!(store.get(4, 2 * INACTIVITY_MS + 1).is_none());
}

#[test]
fn login_over_live_id_is_refused() {
    let mut store = SessionStore::new();
    assert_eq!(login(&mut store, 5, "a".to_string(), 0), Outcome::Served);
    assert_eq!(login(&mut store, 5, "b".to_string(), 1), Outcome::StoreUnavailable);
    assert_eq!(store.get(5, 1).unwrap().username, "a");
    assert_eq!(login(&mut store, 5, "b".to_string(), INACTIVITY_MS), Outcome::StoreUnavailable);
    // an expired id can be reused
    assert_eq!(login(&mut store, 5, "c".to_string(), INACTIVITY_MS + 1), Outcome::Served);
    assert_eq!(store.get(5, INACTIVITY_MS + 1).unwrap().username, "c");
}

#[test]
fn proxy_route_is_gated() {
    let mut store = SessionStore::new();
    let r = route(Method::Get, "/api/items");
    assert_eq!(r, Route::Proxy);
    assert!(r.gated());
    assert_eq!(dispatch(&mut store, r, None, 0), Dispatch::Respond(Outcome::AuthRequired));
    assert_eq!(login(&mut store, 1, "u".to_string(), 0), Outcome::Served);
    assert_eq!(dispatch(&mut store, r, Some(1), 1), Dispatch::Forward);
}

#[test]
fn routing_table() {
    assert_eq!(route(Method::Post, "/health"), Route::Proxy);
    assert_eq!(route(Method::Get, "/login"), Route::Proxy);
    assert_eq!(route(Method::Get, "/logout"), Route::Proxy);
    assert_eq!(route(Method::Delete, "/x"), Route::Proxy);
    assert_eq!(route(Method::Get, "/healthz"), Route::Proxy);
    assert!(!Route::Health.gated());
    assert!(!Route::Login.gated());
}

#[test]
fn status_codes() {
    assert_eq!(Outcome::Served.status(), 200);
    assert_eq!(Outcome::StoreUnavailable.status(), 500);
    assert_eq!(Outcome::AdmissionRejected.status(), 503);
    assert_eq!(Outcome::AdmissionTimedOut.status(), 408);
    assert_eq!(Outcome::BadUpstreamRequest.status(), 400);
    assert_eq!(Outcome::UpstreamUnreachable.status(), 502);
}

#[test]
fn same_site_parsing() {
    assert_eq!(parse_same_site("Lax"), SameSitePolicy::Lax);
    assert_eq!(parse_same_site("Strict"), SameSitePolicy::Strict);
    assert_eq!(parse_same_site("None"), SameSitePolicy::Unrestricted);
    assert_eq!(parse_same_site("strict"), SameSitePolicy::Lax);
    let p = cookie_policy(&config(true).security);
    assert!(p.secure && p.http_only);
    assert_eq!(p.same_site, SameSitePolicy::Strict);
    assert_eq!(p.max_idle_ms, 1_800_000);
}

#[test]
fn security_headers_override_and_keep_others() {
    let mut headers = vec![
        Header { name: "x-a".into(), value: "1".into() },
        Header { name: "strict-transport-security".into(), value: "max-age=1".into() },
    ];
    apply_security_headers(&mut headers, &config(true).security);
    assert_eq!(headers.len(), 3);
    assert_eq!(headers[0].name, "x-a");
    let hsts: Vec<&Header> = headers
        .iter()
        .filter(|h| h.name == "strict-transport-security")
        .collect();
    assert_eq!(hsts.len(), 1);
    assert_eq!(hsts[0].value, "max-age=31536000; includeSubDomains");
    let mut plain = vec![Header { name: "x-a".into(), value: "1".into() }];
    apply_security_headers(&mut plain, &config(false).security);
    assert_eq!(plain.len(), 1);
    set_header(&mut plain, "x-a", "2");
    assert_eq!(plain.len(), 1);
    assert_eq!(plain[0].value, "2");
}
