use oauth_filter::cache::{shared_sessions_key, CacheError, LocalCache, SharedCache};
use oauth_filter::oauther::Cache;
use oauth_filter::session::{
    AuthorizationResponseVerifiers, AuthorizationTokens, SessionCache, SessionType, SessionUpdate,
    UpdateType,
};

fn request_update(id: &str, state: &str, verifier: Option<&str>) -> SessionUpdate {
    SessionUpdate::new(
        id.to_string(),
        UpdateType::AuthorizationRequest(AuthorizationResponseVerifiers::new(
            5,
            "/secure".to_string(),
            state.to_string(),
            verifier.map(|v| v.to_string()),
        )),
    )
}

fn tokens_update(id: &str, access: &str, id_token: Option<&str>) -> SessionUpdate {
    SessionUpdate::new(
        id.to_string(),
        UpdateType::Tokens(AuthorizationTokens::new(
            9,
            access.to_string(),
            Some(60),
            id_token.map(|v| v.to_string()),
            Some("refresh".to_string()),
        )),
    )
}

#[test]
fn serde() {
    let mut cache = SharedCache::new();

    let test_update =
        SessionUpdate::auth_request("abc".to_string(), "123".to_string(), "456".to_string())
            .unwrap();
    let test_id = test_update.id.clone();
    cache.set(test_update);

    let serialized = cache.store().unwrap();

    let new_cache = SharedCache::from_host(Some(serialized), Some(1)).unwrap();
    let session = new_cache.get(&test_id);
    if let Some(session) = session {
        match session.data {
            SessionType::AuthorizationRequest(verifiers) => {
                assert_eq!(verifiers.request_url(), "abc");
                assert_eq!(verifiers.state.csrf_token, "123");
                assert_eq!(verifiers.pkce_verifier, Some("456".to_string()));
            }
            SessionType::Tokens(_) => panic!(),
            SessionType::Empty => panic!(),
        }
    } else {
        panic!("Bad deserialization")
    }
    assert_eq!(new_cache.get_verifier_for_state(&"123".to_string()), Some("456".to_string()));
}

#[test]
fn shared_cache_blob_is_json_of_three_lists() {
    let mut cache = SharedCache::new();
    cache.set_session(request_update("s1", "st\"ate", Some("ver")));
    cache.set_session(tokens_update("s2", "acc", None));
    cache.set_tokens_for_session(&"s3".to_string(), &"t3".to_string(), Some(&"i3".to_string()));
    let blob = String::from_utf8(cache.store().unwrap()).unwrap();
    assert_eq!(
        blob,
        "[[[\"s1\",1,5,null,\"/secure\",\"st\\\"ate\",\"ver\",null],\
         [\"s2\",2,9,60,\"acc\",\"\",null,\"refresh\"]],\
         [[\"s2\",\"acc\",null],[\"s3\",\"t3\",\"i3\"]],\
         [[\"st\\\"ate\",\"ver\"]]]"
    );
}

#[test]
fn shared_cache_round_trip_keeps_every_entry() {
    let mut cache = SharedCache::new();
    cache.set_session(request_update("s1", "state1", Some("verifier1")));
    cache.set_session(request_update("s0", "state0", None));
    cache.set_session(tokens_update("s2", "access2", Some("id2")));
    cache.set_verifier_for_state(&"lonely".to_string(), &"v".to_string());
    let back = SharedCache::from_host(Some(cache.store().unwrap()), Some(7)).unwrap();
    match back.get_session(&"s1".to_string()).unwrap().data {
        SessionType::AuthorizationRequest(v) => {
            assert_eq!(v.created_at, 5);
            assert_eq!(v.state.path, "/secure");
            assert_eq!(v.state.csrf_token, "state1");
            assert_eq!(v.pkce_verifier, Some("verifier1".to_string()));
        }
        _ => panic!("s1 changed its kind"),
    }
    match back.get_session(&"s0".to_string()).unwrap().data {
        SessionType::AuthorizationRequest(v) => assert_eq!(v.pkce_verifier, None),
        _ => panic!("s0 changed its kind"),
    }
    match back.get_session(&"s2".to_string()).unwrap().data {
        SessionType::Tokens(t) => {
            assert_eq!(t.created_at, 9);
            assert_eq!(t.access_token, "access2");
            assert_eq!(t.expires_in, Some(60));
            assert_eq!(t.id_token, Some("id2".to_string()));
            assert_eq!(t.refresh_token, Some("refresh".to_string()));
        }
        _ => panic!("s2 changed its kind"),
    }
    assert_eq!(back.get_verifier_for_state(&"state1".to_string()), Some("verifier1".to_string()));
    assert_eq!(back.get_verifier_for_state(&"state0".to_string()), None);
    assert_eq!(back.get_verifier_for_state(&"lonely".to_string()), Some("v".to_string()));
    assert_eq!(
        back.get_tokens_for_session(&"s2".to_string()),
        Some(("access2".to_string(), Some("id2".to_string())))
    );
    assert_eq!(back.store().unwrap(), cache.store().unwrap());
}

#[test]
fn shared_cache_is_missing_without_blob_or_version() {
    assert_eq!(SharedCache::from_host(None, None).err(), Some(CacheError::NoSharedCache));
    assert_eq!(SharedCache::from_host(None, Some(1)).err(), Some(CacheError::NoSharedCache));
    assert_eq!(
        SharedCache::from_host(Some(b"[[],[],[]]".to_vec()), None).err(),
        Some(CacheError::NoSharedCache)
    );
    assert_eq!(CacheError::NoSharedCache.message(), "No shared session cache created");
    assert_eq!(shared_sessions_key(), "SHARED_SESSIONS");
}

#[test]
fn shared_cache_refuses_a_malformed_blob() {
    for blob in ["", "{}", "[[],[]]", "not json", "[[[\"s\",3,0,null,\"\",\"\",null,null]],[],[]]"] {
        assert_eq!(
            SharedCache::from_host(Some(blob.as_bytes().to_vec()), Some(1)).err(),
            Some(CacheError::Malformed)
        );
    }
    let empty = SharedCache::from_host(Some(b"[[],[],[]]".to_vec()), Some(1)).unwrap();
    assert!(empty.get(&"s".to_string()).is_none());
    let one = SharedCache::from_host(
        Some(b"[[[\"s\",0,0,null,\"\",\"\",null,null]],[],[]]".to_vec()),
        Some(1),
    )
    .unwrap();
    assert!(matches!(one.get(&"s".to_string()).unwrap().data, SessionType::Empty));
}

fn exercise<C: Cache + SessionCache>(mut cache: C) {
    let s = "session".to_string();
    assert!(cache.get_session(&s).is_none());
    assert!(cache.get_tokens_for_session(&s).is_none());
    assert!(cache.get_verifier_for_state(&"state".to_string()).is_none());

    cache.set_verifier_for_state(&"state".to_string(), &"one".to_string());
    cache.set_verifier_for_state(&"state".to_string(), &"two".to_string());
    cache.set_verifier_for_state(&"other".to_string(), &"three".to_string());
    assert_eq!(cache.get_verifier_for_state(&"state".to_string()), Some("two".to_string()));
    assert_eq!(cache.get_verifier_for_state(&"other".to_string()), Some("three".to_string()));

    cache.set_tokens_for_session(&s, &"access".to_string(), None);
    assert_eq!(cache.get_tokens_for_session(&s), Some(("access".to_string(), None)));
    cache.set_tokens_for_session(&s, &"access2".to_string(), Some(&"id".to_string()));
    assert_eq!(
        cache.get_tokens_for_session(&s),
        Some(("access2".to_string(), Some("id".to_string())))
    );
    assert!(cache.get_session(&s).is_none());

    cache.set_session(request_update("session", "csrf", Some("pkce")));
    let held = cache.get_session(&s).unwrap();
    assert_eq!(held.id, "session");
    assert!(matches!(held.data, SessionType::AuthorizationRequest(_)));
    assert_eq!(cache.get_verifier_for_state(&"csrf".to_string()), Some("pkce".to_string()));
    assert_eq!(cache.get_verifier_for_state(&"state".to_string()), Some("two".to_string()));

    cache.set(tokens_update("session", "fresh", Some("idt")));
    let held = cache.get(&s).unwrap();
    assert!(matches!(held.data, SessionType::Tokens(_)));
    assert_eq!(
        cache.get_tokens_for_session(&s),
        Some(("fresh".to_string(), Some("idt".to_string())))
    );
    assert!(cache.get(&"nobody".to_string()).is_none());
}

#[test]
fn local_cache_keeps_the_contract() {
    exercise(LocalCache::new());
}

#[test]
fn shared_cache_keeps_the_contract() {
    exercise(SharedCache::new());
}

#[test]
fn a_host_without_blob_starts_with_an_empty_cache() {
    for (data, cas) in [(None, None), (None, Some(3)), (Some(b"[[],[],[]]".to_vec()), None)] {
        let cache = SharedCache::load(data, cas).unwrap();
        assert!(cache.get(&"s".to_string()).is_none());
        assert_eq!(cache.store().unwrap(), b"[[],[],[]]".to_vec());
    }
    let mut written = SharedCache::new();
    written.set_session(request_update("s1", "state", Some("ver")));
    let read = SharedCache::load(Some(written.store().unwrap()), Some(1)).unwrap();
    assert_eq!(read.get_verifier_for_state(&"state".to_string()), Some("ver".to_string()));
    assert_eq!(read.store().unwrap(), written.store().unwrap());
    assert_eq!(
        SharedCache::load(Some(b"nonsense".to_vec()), Some(1)).err(),
        Some(CacheError::Malformed)
    );
}

#[test]
fn store_always_gives_a_blob() {
    let mut cache = SharedCache::new();
    assert!(cache.store().is_ok());
    cache.set_session(request_update("\u{0}\"\\", "\u{7f}\n", Some("\u{1f600}")));
    cache.set_session(tokens_update("", "", Some("")));
    let blob = cache.store().unwrap();
    let back = SharedCache::from_host(Some(blob.clone()), Some(0)).unwrap();
    assert_eq!(back.store().unwrap(), blob);
    assert_eq!(
        back.get_verifier_for_state(&"\u{7f}\n".to_string()),
        Some("\u{1f600}".to_string())
    );
    assert_eq!(
        CacheError::Unserializable.message(),
        "Shared session cache cannot be serialized"
    );
    assert_eq!(CacheError::Malformed.message(), "Shared session cache is malformed");
}
