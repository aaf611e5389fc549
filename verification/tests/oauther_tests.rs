use oauth_filter::cache::{LocalCache, SharedCache};
use oauth_filter::config::{ConfigError, FilterConfig};
use oauth_filter::oauther::{
    callback, is_expired, query, status_code, tokens_from_response, Action, Cache, OAuther,
    Secrets,
};
use oauth_filter::session::{
    AuthorizationResponseVerifiers, AuthorizationTokens, SessionType, SessionUpdate, UpdateType,
};
use std::any::Any;

fn test_config() -> FilterConfig {
    FilterConfig {
        redirect_uri: "http://redirect".to_string(),
        target_header_name: "".to_string(),
        cookie_name: "sessioncookie".to_string(),
        auth_cluster: "some_cluster".to_string(),
        issuer: "".to_string(),
        auth_uri: "http://authorization".to_string(),
        token_uri: "http://token".to_string(),
        client_id: "myclient".to_string(),
        client_secret: "mysecret".to_string(),
    }
}

fn test_oauther() -> OAuther<LocalCache> {
    OAuther::new(test_config(), LocalCache::new()).unwrap()
}

fn secrets(seed: u8) -> Secrets {
    Secrets::from_entropy(&vec![seed; 32], &vec![seed + 1; 32], &vec![seed + 2; 32]).unwrap()
}

fn state_of(url: &str) -> String {
    let url = url::Url::parse(url).unwrap();
    let found = url.query_pairs().find(|(k, _)| k == "state").unwrap();
    found.1.to_string()
}

fn with_tokens(created_at: u64, expires_in: Option<u64>, refresh: Option<&str>) -> OAuther<LocalCache> {
    let mut cache = LocalCache::new();
    cache.set_session(SessionUpdate::new(
        "sid".to_string(),
        UpdateType::Tokens(AuthorizationTokens::new(
            created_at,
            "SomeJWT".to_string(),
            expires_in,
            None,
            refresh.map(|r| r.to_string()),
        )),
    ));
    OAuther::new(test_config(), cache).unwrap()
}

#[test]
fn new() {
    let oauther = test_oauther();
    assert_eq!(oauther.config().authorization_url().as_str(), "http://authorization/");
}

#[test]
fn new_refuses_an_unusable_configuration() {
    let mut config = test_config();
    config.redirect_uri = "redirect".to_string();
    config.auth_uri = "".to_string();
    assert_eq!(OAuther::new(config, LocalCache::new()).err(), Some(ConfigError::RedirectUri));
    let mut config = test_config();
    config.auth_uri = "//authorization".to_string();
    config.client_id = "".to_string();
    assert_eq!(OAuther::new(config, LocalCache::new()).err(), Some(ConfigError::AuthUri));
    let mut config = test_config();
    config.token_uri = "http://".to_string();
    assert_eq!(OAuther::new(config, LocalCache::new()).err(), Some(ConfigError::TokenUri));
    let mut config = test_config();
    config.client_id = "".to_string();
    config.client_secret = "".to_string();
    assert_eq!(OAuther::new(config, LocalCache::new()).err(), Some(ConfigError::ClientId));
    let mut config = test_config();
    config.client_secret = "".to_string();
    assert_eq!(OAuther::new(config, LocalCache::new()).err(), Some(ConfigError::ClientSecret));
}

#[test]
fn new_keeps_urls_as_written_and_in_normal_form() {
    let oauther = test_oauther();
    let config = oauther.config();
    assert_eq!(config.redirect_uri(), "http://redirect");
    assert_eq!(config.redirect_url(), "http://redirect/");
    assert_eq!(config.token_url(), "http://token/");
    assert_eq!(config.cookie_name(), "sessioncookie");
    assert_eq!(config.client_id(), "myclient");
}

#[test]
fn unauthorized_request() {
    let mut oauther = test_oauther();

    let action = oauther.handle_request_header(vec![("random_header", "value")]);

    if let Action::Redirect(url, headers) = action {
        let parsed = url::Url::parse(&url).unwrap();
        assert_eq!(parsed.origin().unicode_serialization().as_str(), "http://authorization");
        let result = oauther.cache().get_verifier_for_state(&state_of(&url));
        assert_ne!(result.unwrap(), "");
        assert!(headers.iter().any(|(name, _)| name == "set-cookie"));
        assert!(oauther.cache().get_verifier_for_state(&"state123".to_string()).is_none());
    } else {
        panic!("action was not redirect, action")
    }
}

#[test]
fn session_cookie_present_request() {
    let mut oauther = test_oauther();
    let action = oauther.handle_request_header(vec![("sessioncookie", "value")]);
    assert_eq!(action.type_id(), Action::Allow(Vec::new()).type_id());
    assert!(matches!(action, Action::Redirect(_, _)));
}

#[test]
fn code_grant_redirect() {
    let mut oauther = test_oauther();
    let action =
        oauther.handle_request_header(vec![(":path", "auth/?code=awesomecode&state=state123")]);
    assert!(matches!(action, Action::Redirect(_, _)));
}

#[test]
fn redirect_is_built_from_the_secrets() {
    let mut oauther = test_oauther();
    let drawn = secrets(1);
    let state = drawn.state().clone();
    let verifier = drawn.pkce_verifier().clone();
    let id = drawn.session_id().clone();
    assert_eq!(state, "01".repeat(32));
    assert_eq!(verifier, "02".repeat(32));
    assert_eq!(id, "03".repeat(32));
    let action = oauther.respond(&vec![(":path", "/secure?x=1")], 42, Some(drawn));
    let (url, headers) = match action {
        Action::Redirect(url, headers) => (url, headers),
        _ => panic!("no redirect"),
    };
    // The challenge is the SHA-256 of the verifier, in base64 for URLs.
    assert_eq!(
        url,
        format!(
            "http://authorization/?response_type=code&client_id=myclient&state={}\
             &code_challenge=dJ8al_9s0A6kbMs6R7sSMoP-Vsj6MkvqKV2Sj1WBYd8\
             &code_challenge_method=S256&redirect_uri=http%3A%2F%2Fredirect%2F&scope=openid",
            state
        )
    );
    assert_eq!(
        headers,
        vec![("set-cookie".to_string(), format!("sessioncookie={}; HttpOnly; Secure", id))]
    );
    assert_eq!(oauther.cache().get_verifier_for_state(&state), Some(verifier.clone()));
    match oauther.cache().get_session(&id).unwrap().data {
        SessionType::AuthorizationRequest(v) => {
            assert_eq!(v.created_at, 42);
            assert_eq!(v.state.path, "/secure?x=1");
            assert_eq!(v.state.csrf_token, state);
            assert_eq!(v.pkce_verifier, Some(verifier));
        }
        _ => panic!("no authorization request"),
    }
}

#[test]
fn without_secrets_nothing_is_decided() {
    let mut oauther = test_oauther();
    let action = oauther.respond(&vec![(":path", "/secure")], 42, None);
    assert!(matches!(action, Action::Noop));
    assert!(Secrets::from_entropy(&vec![0; 31], &vec![0; 32], &vec![0; 32]).is_none());
    assert!(Secrets::from_entropy(&vec![0; 32], &vec![0; 33], &vec![0; 32]).is_none());
    assert!(Secrets::from_entropy(&vec![0; 32], &vec![0; 32], &vec![]).is_none());
}

#[test]
fn two_requests_without_cookie_start_two_flows() {
    let mut oauther = test_oauther();
    let first = oauther.handle_request_header(vec![(":path", "/a")]);
    let second = oauther.handle_request_header(vec![(":path", "/a")]);
    let (first_url, second_url) = match (first, second) {
        (Action::Redirect(a, _), Action::Redirect(b, _)) => (a, b),
        _ => panic!("no redirect"),
    };
    let (one, two) = (state_of(&first_url), state_of(&second_url));
    assert_ne!(one, two);
    let first_verifier = oauther.cache().get_verifier_for_state(&one).unwrap();
    let second_verifier = oauther.cache().get_verifier_for_state(&two).unwrap();
    assert_ne!(first_verifier, second_verifier);
    assert_eq!(first_verifier.len(), 64);
}

#[test]
fn unknown_session_id_starts_a_flow() {
    let mut oauther = test_oauther();
    let action = oauther.handle_request_header(vec![("cookie", "sessioncookie=value")]);
    assert!(matches!(action, Action::Redirect(_, _)));
    assert!(oauther.cache().get_session(&"value".to_string()).is_none());
}

#[test]
fn live_tokens_let_the_request_pass() {
    let headers = vec![("cookie", "a=b; sessioncookie=sid"), (":path", "/secure")];
    let mut oauther = with_tokens(100, Some(60), None);
    for now in [0, 100, 159] {
        match oauther.respond(&headers, now, None) {
            Action::Allow(added) => assert_eq!(
                added,
                vec![("authorization".to_string(), "bearer SomeJWT".to_string())]
            ),
            _ => panic!("not allowed at {}", now),
        }
    }
    let mut oauther = with_tokens(100, None, None);
    assert!(matches!(oauther.respond(&headers, u64::MAX, None), Action::Allow(_)));
    assert!(matches!(oauther.handle_request_header(headers), Action::Allow(_)));
}

#[test]
fn expired_tokens_are_refreshed_or_start_a_flow() {
    let headers = vec![("cookie", "sessioncookie=sid"), (":path", "/secure")];
    let mut oauther = with_tokens(100, Some(60), None);
    assert!(matches!(oauther.respond(&headers, 160, Some(secrets(7))), Action::Redirect(_, _)));
    let mut oauther = with_tokens(100, Some(60), Some("re fresh"));
    let call = match oauther.respond(&headers, 160, None) {
        Action::HttpCall(call) => call,
        _ => panic!("no token call"),
    };
    assert_eq!(call.request.url, "http://token/");
    assert_eq!(call.request.method, "POST");
    assert_eq!(
        call.request.body,
        "grant_type=refresh_token&refresh_token=re+fresh&client_id=myclient&client_secret=mysecret"
    );
    assert_eq!(call.path, "/secure");
    assert_eq!(call.session.id, "sid");

    let answer = br#"{"access_token":"newer","token_type":"bearer","expires_in":5}"#;
    match oauther.resume(&call, 200, answer, 200, None) {
        Action::Allow(added) => {
            assert_eq!(added, vec![("authorization".to_string(), "bearer newer".to_string())])
        }
        _ => panic!("not allowed after refresh"),
    }
    match oauther.cache().get_session(&"sid".to_string()).unwrap().data {
        SessionType::Tokens(t) => {
            assert_eq!(t.created_at, 200);
            assert_eq!(t.access_token, "newer");
            assert_eq!(t.expires_in, Some(5));
            assert_eq!(t.refresh_token, Some("re fresh".to_string()));
        }
        _ => panic!("no tokens"),
    }
    assert!(matches!(oauther.resume(&call, 500, b"", 200, None), Action::Noop));
    assert!(matches!(
        oauther.resume(&call, 400, br#"{"error":"invalid_grant"}"#, 200, Some(secrets(9))),
        Action::Redirect(_, _)
    ));
}

#[test]
fn callback_is_exchanged_and_leads_back_to_the_first_path() {
    let update =
        SessionUpdate::auth_request("/secure".to_string(), "1234".to_string(), "1234".to_string())
            .unwrap();
    let id = update.id.clone();
    let mut cache = SharedCache::new();
    cache.set_session(update);
    let mut oauther = OAuther::new(test_config(), cache).unwrap();
    let cookie = format!("sessioncookie={}", id);
    let headers = vec![("cookie", cookie.as_str()), (":path", "/auth/?code=awesome%20code&state=1234")];

    let call = match oauther.handle_request_header(headers) {
        Action::HttpCall(call) => call,
        _ => panic!("no exchange"),
    };
    assert_eq!(call.request.url, "http://token/");
    assert_eq!(call.request.method, "POST");
    assert_eq!(
        call.request.headers,
        vec![
            ("content-type".to_string(), "application/x-www-form-urlencoded".to_string()),
            ("accept".to_string(), "application/json".to_string()),
        ]
    );
    assert_eq!(
        call.request.body,
        "grant_type=authorization_code&code=awesome+code&redirect_uri=http%3A%2F%2Fredirect%2F\
         &code_verifier=1234&client_id=myclient&client_secret=mysecret"
    );
    assert_eq!(call.session.id, id);
    assert!(matches!(
        oauther.cache().get_session(&id).unwrap().data,
        SessionType::AuthorizationRequest(_)
    ));

    let answer = br#"{"access_token":"SomeJWT","token_type":"bearer","expires_in":3600,
        "id_token":"WhoIAm","refresh_token":"again"}"#;
    match oauther.handle_token_response(&call, 200, answer) {
        Action::Redirect(url, headers) => {
            assert_eq!(url, "/secure");
            assert!(headers.is_empty());
        }
        _ => panic!("no redirect to the first path"),
    }
    match oauther.cache().get_session(&id).unwrap().data {
        SessionType::Tokens(t) => {
            assert_eq!(t.access_token, "SomeJWT");
            assert_eq!(t.expires_in, Some(3600));
            assert_eq!(t.id_token, Some("WhoIAm".to_string()));
            assert_eq!(t.refresh_token, Some("again".to_string()));
        }
        _ => panic!("no tokens"),
    }
    assert_eq!(
        oauther.cache().get_tokens_for_session(&id),
        Some(("SomeJWT".to_string(), Some("WhoIAm".to_string())))
    );
}

#[test]
fn forged_callbacks_start_the_flow_again() {
    let mut cache = LocalCache::new();
    cache.set_session(SessionUpdate::new(
        "sid".to_string(),
        UpdateType::AuthorizationRequest(AuthorizationResponseVerifiers::new(
            1,
            "/first".to_string(),
            "1234".to_string(),
            Some("v".to_string()),
        )),
    ));
    cache.set_verifier_for_state(&"9999".to_string(), &"w".to_string());
    let mut oauther = OAuther::new(test_config(), cache).unwrap();
    for path in [
        "/auth/?code=c&state=9999",
        "/auth/?code=c&state=0000",
        "/auth/?state=1234",
        "/auth/?code=c",
        "/auth/",
        "/somewhere/else",
    ] {
        let headers = vec![("cookie", "sessioncookie=sid"), (":path", path)];
        let drawn = secrets(20);
        let id = drawn.session_id().clone();
        assert!(matches!(oauther.respond(&headers, 5, Some(drawn)), Action::Redirect(_, _)));
        match oauther.cache().get_session(&id).unwrap().data {
            SessionType::AuthorizationRequest(v) => assert_eq!(v.state.path, "/first"),
            _ => panic!("no new flow"),
        }
    }
    let headers = vec![("cookie", "sessioncookie=sid"), (":path", "/auth/?code=c&state=1234")];
    assert!(matches!(oauther.respond(&headers, 5, None), Action::HttpCall(_)));
}

#[test]
fn failed_exchange_starts_the_flow_again() {
    let mut cache = LocalCache::new();
    cache.set_session(SessionUpdate::new(
        "sid".to_string(),
        UpdateType::AuthorizationRequest(AuthorizationResponseVerifiers::new(
            1,
            "/first".to_string(),
            "1234".to_string(),
            Some("v".to_string()),
        )),
    ));
    let mut oauther = OAuther::new(test_config(), cache).unwrap();
    let headers = vec![("cookie", "sessioncookie=sid"), (":path", "/cb?state=1234&code=c")];
    let call = match oauther.respond(&headers, 5, None) {
        Action::HttpCall(call) => call,
        _ => panic!("no exchange"),
    };
    for (status, body) in [
        (401u16, &br#"{"access_token":"a"}"#[..]),
        (200, &b"not json"[..]),
        (200, &br#"{"access_token":17}"#[..]),
        (200, &br#"["access_token"]"#[..]),
        (200, &b""[..]),
    ] {
        let drawn = secrets(30);
        let id = drawn.session_id().clone();
        assert!(matches!(oauther.resume(&call, status, body, 6, Some(drawn)), Action::Redirect(_, _)));
        match oauther.cache().get_session(&id).unwrap().data {
            SessionType::AuthorizationRequest(v) => assert_eq!(v.state.path, "/first"),
            _ => panic!("no new flow"),
        }
        assert!(matches!(
            oauther.cache().get_session(&"sid".to_string()).unwrap().data,
            SessionType::AuthorizationRequest(_)
        ));
    }
}

#[test]
fn paths_are_read_for_callbacks() {
    assert_eq!(query("/a/b"), "");
    assert_eq!(query("/a?b?c"), "b?c");
    assert_eq!(query("?"), "");
    assert_eq!(callback("/cb?code=a%2Bb&state=x+y"), Some(("a+b".to_string(), "x y".to_string())));
    assert_eq!(callback("/cb?state=s&code=1&code=2"), Some(("1".to_string(), "s".to_string())));
    assert_eq!(callback("/cb?code=&state="), Some(("".to_string(), "".to_string())));
    assert_eq!(callback("/cb?code=1"), None);
    assert_eq!(callback("/cb?Code=1&state=2"), None);
    assert_eq!(callback("/cb"), None);
}

#[test]
fn tokens_expire_when_their_lifetime_has_passed() {
    let tokens = AuthorizationTokens::new(100, "t".to_string(), Some(60), None, None);
    assert!(!is_expired(&tokens, 99));
    assert!(!is_expired(&tokens, 159));
    assert!(is_expired(&tokens, 160));
    assert!(is_expired(&tokens, u64::MAX));
    let tokens = AuthorizationTokens::new(100, "t".to_string(), Some(0), None, None);
    assert!(!is_expired(&tokens, 99));
    assert!(is_expired(&tokens, 100));
    let tokens = AuthorizationTokens::new(u64::MAX, "t".to_string(), Some(u64::MAX), None, None);
    assert!(!is_expired(&tokens, u64::MAX));
    let tokens = AuthorizationTokens::new(0, "t".to_string(), None, None, None);
    assert!(!is_expired(&tokens, u64::MAX));
}

#[test]
fn token_responses_are_read_from_json() {
    let body = br#"{"access_token":"a","expires_in":7,"id_token":"i"}"#;
    let tokens = tokens_from_response(200, body, 3, Some("kept".to_string())).unwrap();
    assert_eq!(tokens.created_at, 3);
    assert_eq!(tokens.access_token, "a");
    assert_eq!(tokens.expires_in, Some(7));
    assert_eq!(tokens.id_token, Some("i".to_string()));
    assert_eq!(tokens.refresh_token, Some("kept".to_string()));
    let body = br#"{"access_token":"a","expires_in":"soon","refresh_token":"r"}"#;
    let tokens = tokens_from_response(200, body, 3, Some("kept".to_string())).unwrap();
    assert_eq!(tokens.expires_in, None);
    assert_eq!(tokens.id_token, None);
    assert_eq!(tokens.refresh_token, Some("r".to_string()));
    assert!(tokens_from_response(201, body, 3, None).is_none());
    assert!(tokens_from_response(200, br#"{"token":"a"}"#, 3, None).is_none());
}

#[test]
fn session_cookie_is_read_with_the_configured_name() {
    let oauther = test_oauther();
    let headers = vec![("cookie", "x=1; sessioncookie=abc")];
    assert_eq!(oauther.session_cookie(&headers), Some("abc".to_string()));
    assert_eq!(oauther.session_cookie(&vec![("cookie", "sessioncookie")]), None);
    assert_eq!(
        oauther.create_session_cookie(&"abc".to_string()),
        "sessioncookie=abc; HttpOnly; Secure"
    );
}

#[test]
fn cookie_of_a_redirect_names_the_new_session() {
    let mut oauther = test_oauther();
    let headers = match oauther.handle_request_header(vec![(":path", "/secure")]) {
        Action::Redirect(_, headers) => headers,
        _ => panic!("no redirect"),
    };
    let cookie = headers[0].1.split(';').next().unwrap().to_string();
    let sent = vec![("cookie", cookie.as_str())];
    let id = oauther.session_cookie(&sent).unwrap();
    assert_eq!(id.len(), 64);
    match oauther.cache().get_session(&id).unwrap().data {
        SessionType::AuthorizationRequest(v) => {
            assert_eq!(v.state.path, "/secure");
            assert_eq!(
                oauther.cache().get_verifier_for_state(&v.state.csrf_token),
                v.pkce_verifier
            );
        }
        _ => panic!("no authorization request"),
    }
}

#[test]
fn secrets_need_three_good_draws() {
    let failed = || Err(getrandom::Error::UNSUPPORTED);
    let drawn = Secrets::from_draws(Ok(vec![1; 32]), Ok(vec![2; 32]), Ok(vec![3; 32])).unwrap();
    assert_eq!(drawn.state(), &"01".repeat(32));
    assert_eq!(drawn.pkce_verifier(), &"02".repeat(32));
    assert_eq!(drawn.session_id(), &"03".repeat(32));
    assert!(Secrets::from_draws(failed(), Ok(vec![2; 32]), Ok(vec![3; 32])).is_none());
    assert!(Secrets::from_draws(Ok(vec![1; 32]), failed(), Ok(vec![3; 32])).is_none());
    assert!(Secrets::from_draws(Ok(vec![1; 32]), Ok(vec![2; 32]), failed()).is_none());
    assert!(Secrets::from_draws(Ok(vec![1; 31]), Ok(vec![2; 32]), Ok(vec![3; 32])).is_none());
    let first = Secrets::draw().unwrap();
    let second = Secrets::draw().unwrap();
    assert_ne!(first.state(), second.state());
    assert_ne!(first.state(), first.pkce_verifier());
}

#[test]
fn status_is_three_decimal_digits() {
    assert_eq!(status_code(Some("200")), 200);
    assert_eq!(status_code(Some("404")), 404);
    assert_eq!(status_code(Some("999")), 999);
    assert_eq!(status_code(Some("000")), 0);
    assert_eq!(status_code(Some("007")), 7);
    for text in ["", "20", "2000", "+20", "2 0", "20x", "\u{662}00", "200 "] {
        assert_eq!(status_code(Some(text)), 0);
    }
    assert_eq!(status_code(None), 0);
}
