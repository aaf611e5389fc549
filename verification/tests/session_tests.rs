use oauth_filter::cache::{LocalCache, SharedCache};
use oauth_filter::session::{
    find_cookie, AuthorizationResponseVerifiers, AuthorizationTokens, Session, SessionCache,
    SessionType, SessionUpdate, UpdateType,
};

#[test]
fn empty() {
    let session = Session::empty("test".to_string());
    assert!(matches!(session.data, SessionType::Empty));
}

#[test]
fn from_headers() {
    let mut cache = SharedCache::new();
    let cookie_name = "auth_session".to_string();
    let cookie_value = "testsession".to_string();
    let cookie = format!("{}={}", cookie_name, cookie_value);

    let headers: Vec<(&str, &str)> = vec![("cookie", cookie.as_str())];
    let session: Session =
        Session::from_headers(cookie_name.clone(), headers.clone(), &cache).unwrap();
    assert!(matches!(session.data, SessionType::Empty));

    cache.set(SessionUpdate::new(
        cookie_value.clone(),
        UpdateType::AuthorizationRequest(AuthorizationResponseVerifiers::new(
            17,
            "/secure".to_string(),
            "1234".to_string(),
            Some("1234".to_string()),
        )),
    ));

    let session: Session =
        Session::from_headers(cookie_name.clone(), headers.clone(), &cache).unwrap();
    assert!(matches!(session.data, SessionType::AuthorizationRequest { .. }));

    cache.set(SessionUpdate::new(
        cookie_value.clone(),
        UpdateType::Tokens(AuthorizationTokens::new(
            17,
            "SomeJWT".to_string(),
            None,
            None,
            None,
        )),
    ));

    let session: Session = Session::from_headers(cookie_name.clone(), headers, &cache).unwrap();
    assert!(matches!(session.data, SessionType::Tokens { .. }));
}

#[test]
fn from_headers_without_cookie_header_is_none() {
    let cache = LocalCache::new();
    let headers: Vec<(&str, &str)> = vec![("sessioncookie", "value"), (":path", "/")];
    assert!(Session::from_headers("sessioncookie".to_string(), headers, &cache).is_none());
}

#[test]
fn from_headers_keeps_the_id_of_an_unknown_session() {
    let cache = LocalCache::new();
    let headers: Vec<(&str, &str)> = vec![("cookie", "auth_session=testsession")];
    let session = Session::from_headers("auth_session".to_string(), headers, &cache).unwrap();
    assert_eq!(session.id, "testsession");
    assert!(matches!(session.data, SessionType::Empty));
}

#[test]
fn parse_cookie_returns_the_value_as_it_stands() {
    let name = "auth_session".to_string();
    let headers = vec![("accept", "*/*"), ("cookie", "a=b; auth_session=x%20y=z ;c=d")];
    assert_eq!(Session::parse_cookie(&name, &headers), Some("x%20y=z ".to_string()));
}

#[test]
fn parse_cookie_trims_the_name_only() {
    assert_eq!(find_cookie("  id  = v ", "id"), Some(" v ".to_string()));
    assert_eq!(find_cookie("\tid\u{a0}=v", "id"), Some("v".to_string()));
    assert_eq!(find_cookie("i d=v", "id"), None);
}

#[test]
fn parse_cookie_takes_the_first_pair_of_that_name() {
    assert_eq!(find_cookie("id=1;id=2", "id"), Some("1".to_string()));
    assert_eq!(find_cookie("other=1;id=", "id"), Some("".to_string()));
    assert_eq!(find_cookie("", "id"), None);
}

#[test]
fn parse_cookie_reads_the_first_cookie_header_only() {
    let name = "id".to_string();
    let headers = vec![("cookie", "a=b"), ("cookie", "id=1")];
    assert_eq!(Session::parse_cookie(&name, &headers), None);
    let headers = vec![("Cookie", "id=1")];
    assert_eq!(Session::parse_cookie(&name, &headers), None);
}

#[test]
fn cookie_without_equals_matches_no_name() {
    assert_eq!(find_cookie("auth_session", "auth_session"), None);
    assert_eq!(find_cookie("auth_session", ""), None);
    assert_eq!(find_cookie("garbage; more garbage", ""), None);
    let name = "".to_string();
    let headers = vec![("cookie", "testsession")];
    assert_eq!(Session::parse_cookie(&name, &headers), None);
}

#[test]
fn cookie_with_an_empty_name_is_found_by_the_empty_name() {
    assert_eq!(find_cookie("=v", ""), Some("v".to_string()));
    assert_eq!(find_cookie(" =v", ""), Some("v".to_string()));
}

#[test]
fn session_cookie_is_secure_and_http_only() {
    let update = SessionUpdate::new(
        "abc".to_string(),
        UpdateType::Tokens(AuthorizationTokens::new(1, "t".to_string(), None, None, None)),
    );
    let name = "auth_session".to_string();
    assert_eq!(update.cookie(&name), "auth_session=abc; HttpOnly; Secure");
    assert_eq!(
        update.set_cookie_header(&name),
        vec![("set-cookie".to_string(), "auth_session=abc; HttpOnly; Secure".to_string())]
    );
}

#[test]
fn bearer_header_carries_the_access_token() {
    let tokens = AuthorizationTokens::new(1, "SomeJWT".to_string(), Some(5), None, None);
    assert_eq!(
        tokens.bearer(),
        vec![("authorization".to_string(), "bearer SomeJWT".to_string())]
    );
}

#[test]
fn auth_request_opens_a_session_with_a_fresh_id() {
    let first = SessionUpdate::auth_request(
        "/secure".to_string(),
        "1234".to_string(),
        "1234".to_string(),
    )
    .unwrap();
    let second = SessionUpdate::auth_request(
        "/secure".to_string(),
        "1234".to_string(),
        "1234".to_string(),
    )
    .unwrap();
    assert_eq!(first.id.len(), 64);
    assert!(first.id.chars().all(|c| c.is_ascii_digit() || ('a'..='f').contains(&c)));
    assert_ne!(first.id, second.id);
    match first.create_session().data {
        SessionType::AuthorizationRequest(v) => {
            assert_eq!(v.request_url(), "/secure");
            assert_eq!(v.state.csrf_token, "1234");
            assert_eq!(v.pkce_verifier, Some("1234".to_string()));
        }
        _ => panic!("not an authorization request"),
    }
}

#[test]
fn token_response_keeps_the_session_id() {
    let session = Session::verifiers(
        "sid".to_string(),
        3,
        "/secure".to_string(),
        "state".to_string(),
        None,
    );
    let update = session.token_response(
        "access".to_string(),
        Some(60),
        Some("id".to_string()),
        Some("refresh".to_string()),
    );
    assert_eq!(update.id, "sid");
    match update.create_session().data {
        SessionType::Tokens(t) => {
            assert_eq!(t.access_token, "access");
            assert_eq!(t.expires_in, Some(60));
            assert_eq!(t.id_token, Some("id".to_string()));
            assert_eq!(t.refresh_token, Some("refresh".to_string()));
        }
        _ => panic!("not tokens"),
    }
    let made = Session::tokens("sid".to_string(), "a".to_string(), None, None, None);
    assert_eq!(made.id, "sid");
    assert!(matches!(made.data, SessionType::Tokens(_)));
}

#[test]
fn auth_request_needs_an_id() {
    assert!(SessionUpdate::auth_request_with(
        None,
        7,
        "/secure".to_string(),
        "1234".to_string(),
        "5678".to_string()
    )
    .is_none());
    let update = SessionUpdate::auth_request_with(
        Some("sid".to_string()),
        7,
        "/secure".to_string(),
        "1234".to_string(),
        "5678".to_string(),
    )
    .unwrap();
    assert_eq!(update.id, "sid");
    match update.create_session().data {
        SessionType::AuthorizationRequest(v) => {
            assert_eq!(v.created_at, 7);
            assert_eq!(v.state.path, "/secure");
            assert_eq!(v.state.csrf_token, "1234");
            assert_eq!(v.pkce_verifier, Some("5678".to_string()));
        }
        _ => panic!("not an authorization request"),
    }
}
