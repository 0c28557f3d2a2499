use pkce_login::config::ClientConfig;
use pkce_login::errors::LoginError;
use pkce_login::flow::{
    begin_callback, complete_callback, finish_logout, initiate_login, initiate_login_with,
    prepare_logout, validate_token_response, LoginRedirect,
};
use pkce_login::pkce::derive_challenge;
use pkce_login::session::SessionStore;

fn test_config(revocation: Option<&str>) -> ClientConfig {
    ClientConfig::new(
        "client-1".to_string(),
        "secret-1".to_string(),
        "https://auth.example.com/authorize".to_string(),
        "https://auth.example.com/token".to_string(),
        revocation.map(|s| s.to_string()),
        "https://app.example.com/oauth-redirect".to_string(),
        Some("openid profile".to_string()),
    )
    .expect("ascii configuration")
}

fn assert_pair_atomic(store: &SessionStore, h: usize, now: u64) {
    let st = store.state_value(h, now).is_some();
    let vf = store.code_verifier(h, now).is_some();
    assert_eq!(st, vf, "state value and code verifier must be present or absent together");
}

#[test]
fn pending_pair_present_or_absent_together() {
    let cfg = test_config(None);
    let mut store = SessionStore::new();
    let h = store.create(1000);
    assert_pair_atomic(&store, h, 1000);
    let _uri = initiate_login(&mut store, h, &cfg, 1000);
    assert_pair_atomic(&store, h, 1000);
    // a mismatched callback still clears the pair, as a unit
    let redirect = LoginRedirect { code: "abc".to_string(), user_state: "nonsense".to_string() };
    let r = begin_callback(&mut store, h, &redirect, 1001);
    assert!(r.is_err());
    assert_pair_atomic(&store, h, 1001);
    assert!(store.state_value(h, 1001).is_none());
    // a matching callback clears the pair too
    let _uri = initiate_login(&mut store, h, &cfg, 1002);
    assert_pair_atomic(&store, h, 1002);
    let state = store.state_value(h, 1002).unwrap().clone();
    let redirect = LoginRedirect { code: "abc".to_string(), user_state: state };
    let r = begin_callback(&mut store, h, &redirect, 1003);
    assert!(r.is_ok());
    assert_pair_atomic(&store, h, 1003);
    assert!(store.code_verifier(h, 1003).is_none());
}

#[test]
fn state_mismatch_always_fails_and_leaves_identity_unset() {
    let cfg = test_config(None);
    let mut store = SessionStore::new();
    let h = store.create(0);
    let _uri = initiate_login_with(
        &mut store,
        h,
        &cfg,
        "S1".to_string(),
        "V1".to_string(),
        0,
    );
    let redirect = LoginRedirect { code: "abc".to_string(), user_state: "WRONG".to_string() };
    let r = begin_callback(&mut store, h, &redirect, 1);
    match r {
        Err(LoginError::StateMismatch) => {}
        other => panic!("expected StateMismatch, got {:?}", other.map(|_| ())),
    }
    assert!(store.identity(h, 1).is_none());
    assert!(store.state_value(h, 1).is_none());
    assert!(store.code_verifier(h, 1).is_none());
}

#[test]
fn replayed_callback_finds_no_pending_login() {
    let cfg = test_config(None);
    let mut store = SessionStore::new();
    let h = store.create(0);
    let _uri = initiate_login(&mut store, h, &cfg, 0);
    let state = store.state_value(h, 0).unwrap().clone();
    let redirect = LoginRedirect { code: "code-1".to_string(), user_state: state };
    let first = begin_callback(&mut store, h, &redirect, 1);
    assert!(first.is_ok());
    // the exact same callback again: the pair is gone, so no second exchange
    let second = begin_callback(&mut store, h, &redirect, 2);
    match second {
        Err(LoginError::NoPendingLogin) => {}
        other => panic!("expected NoPendingLogin, got {:?}", other.map(|_| ())),
    }
    // even after a failed exchange the pair may not be reused
    let _uri = initiate_login(&mut store, h, &cfg, 3);
    let state = store.state_value(h, 3).unwrap().clone();
    let redirect = LoginRedirect { code: "code-2".to_string(), user_state: state };
    let first = begin_callback(&mut store, h, &redirect, 4);
    assert!(first.is_ok());
    let failed = complete_callback(&mut store, h, None, 4);
    assert!(matches!(failed, Err(LoginError::TokenExchangeFailed)));
    let replay = begin_callback(&mut store, h, &redirect, 5);
    assert!(matches!(replay, Err(LoginError::NoPendingLogin)));
}

#[test]
fn callback_without_pending_login_fails() {
    let mut store = SessionStore::new();
    let h = store.create(0);
    let redirect = LoginRedirect { code: "abc".to_string(), user_state: "S1".to_string() };
    let r = begin_callback(&mut store, h, &redirect, 1);
    assert!(matches!(r, Err(LoginError::NoPendingLogin)));
    // an unknown handle is treated the same way
    let r = begin_callback(&mut store, 99, &redirect, 1);
    assert!(matches!(r, Err(LoginError::NoPendingLogin)));
}

#[test]
fn expired_session_is_read_as_nonexistent() {
    let cfg = test_config(None);
    let mut store = SessionStore::new();
    let h = store.create(0);
    let _uri = initiate_login_with(
        &mut store,
        h,
        &cfg,
        "S1".to_string(),
        "V1".to_string(),
        0,
    );
    // two hours later the session has expired: the callback finds nothing
    let redirect = LoginRedirect { code: "abc".to_string(), user_state: "S1".to_string() };
    let r = begin_callback(&mut store, h, &redirect, 7200);
    assert!(matches!(r, Err(LoginError::NoPendingLogin)));
    assert!(store.state_value(h, 7200).is_none());
    // just before the deadline it is still there
    let mut store2 = SessionStore::new();
    let h2 = store2.create(0);
    let _uri = initiate_login_with(
        &mut store2,
        h2,
        &cfg,
        "S1".to_string(),
        "V1".to_string(),
        0,
    );
    assert!(store2.state_value(h2, 7199).is_some());
}

#[test]
fn token_response_validation_requires_access_token_and_expiry() {
    assert!(validate_token_response(None, None, None, None).is_none());
    assert!(validate_token_response(Some("at".to_string()), None, None, None).is_none());
    assert!(validate_token_response(None, Some(3600), None, None).is_none());
    let id = validate_token_response(
        Some("at".to_string()),
        Some(3600),
        Some("rt".to_string()),
        Some("subject-1".to_string()),
    )
    .expect("required fields present");
    assert_eq!(id.access_token, "at");
    assert_eq!(id.refresh_token.as_deref(), Some("rt"));
    assert_eq!(id.subject.as_deref(), Some("subject-1"));
    assert_eq!(id.expires_in, 3600);
}

#[test]
fn end_to_end_login_succeeds_and_clears_pending_fields() {
    let cfg = test_config(None);
    let mut store = SessionStore::new();
    let h = store.create(0);
    let uri = initiate_login_with(
        &mut store,
        h,
        &cfg,
        "S1".to_string(),
        "V1".to_string(),
        0,
    );
    assert_eq!(store.state_value(h, 0).unwrap().as_str(), "S1");
    assert_eq!(store.code_verifier(h, 0).unwrap().as_str(), "V1");
    let challenge = derive_challenge("V1");
    let expected = format!(
        "state=S1&code_challenge={}&code_challenge_method=S256",
        challenge
    );
    assert!(uri.contains(&expected), "uri {} must contain {}", uri, expected);
    assert!(uri.starts_with("https://auth.example.com/authorize?client_id=client-1&"));
    assert!(uri.contains("redirect_uri=https%3A%2F%2Fapp.example.com%2Foauth-redirect"));
    assert!(uri.ends_with("&scope=openid%20profile"));

    let redirect = LoginRedirect { code: "abc".to_string(), user_state: "S1".to_string() };
    let pending = begin_callback(&mut store, h, &redirect, 1).expect("state matches");
    assert_eq!(pending.code, "abc");
    assert_eq!(pending.code_verifier, "V1");
    let id = validate_token_response(
        Some("access-1".to_string()),
        Some(3600),
        None,
        Some("user-1".to_string()),
    )
    .expect("usable token response");
    let done = complete_callback(&mut store, h, Some(id), 2);
    assert!(done.is_ok());
    let stored = store.identity(h, 2).expect("authenticated");
    assert_eq!(stored.access_token, "access-1");
    assert!(store.state_value(h, 2).is_none());
    assert!(store.code_verifier(h, 2).is_none());
}

#[test]
fn wrong_state_yields_generic_failure_only() {
    let cfg = test_config(None);
    let mut store = SessionStore::new();
    let h = store.create(0);
    let _uri = initiate_login_with(
        &mut store,
        h,
        &cfg,
        "S1".to_string(),
        "V1".to_string(),
        0,
    );
    let redirect = LoginRedirect { code: "abc".to_string(), user_state: "WRONG".to_string() };
    let err = match begin_callback(&mut store, h, &redirect, 1) {
        Err(e) => e,
        Ok(_) => panic!("a wrong state must not pass validation"),
    };
    // the user-facing response never says why the login failed
    assert_eq!(err.user_message(), "login failed, please try again");
    assert_eq!(
        LoginError::NoPendingLogin.user_message(),
        LoginError::StateMismatch.user_message()
    );
    assert_eq!(
        LoginError::TokenExchangeFailed.user_message(),
        LoginError::StateMismatch.user_message()
    );
    assert!(store.identity(h, 1).is_none());
    assert!(store.state_value(h, 1).is_none());
    assert!(store.code_verifier(h, 1).is_none());
}

#[test]
fn logout_destroys_session_even_when_revocation_fails() {
    let cfg = test_config(Some("https://auth.example.com/revoke"));
    let mut store = SessionStore::new();
    let h = store.create(0);
    let _uri = initiate_login(&mut store, h, &cfg, 0);
    let state = store.state_value(h, 0).unwrap().clone();
    let redirect = LoginRedirect { code: "abc".to_string(), user_state: state };
    let pending = begin_callback(&mut store, h, &redirect, 1).expect("state matches");
    assert!(!pending.code_verifier.is_empty());
    let id = validate_token_response(
        Some("access-1".to_string()),
        Some(3600),
        Some("refresh-1".to_string()),
        None,
    )
    .unwrap();
    complete_callback(&mut store, h, Some(id), 2).unwrap();

    let req = prepare_logout(&store, h, &cfg, 3).expect("revocation is due");
    assert_eq!(req.endpoint, "https://auth.example.com/revoke");
    assert_eq!(req.token, "refresh-1", "the refresh token is revoked when one is held");
    // the upstream revocation fails; the session is destroyed regardless
    finish_logout(&mut store, h);
    assert!(store.identity(h, 3).is_none());
    assert!(store.state_value(h, 3).is_none());
    assert!(store.code_verifier(h, 3).is_none());
    assert!(prepare_logout(&store, h, &cfg, 3).is_none());
    // the dead handle stays dead; a fresh session gets a fresh handle
    let h2 = store.create(4);
    assert_ne!(h, h2);
    assert_eq!(store.handle_count(), 2);
}

#[test]
fn prepare_logout_without_revocation_endpoint_or_identity() {
    let cfg_no_rev = test_config(None);
    let cfg_rev = test_config(Some("https://auth.example.com/revoke"));
    let mut store = SessionStore::new();
    let h = store.create(0);
    // no identity yet: nothing to revoke
    assert!(prepare_logout(&store, h, &cfg_rev, 0).is_none());
    let id = validate_token_response(Some("access-1".to_string()), Some(60), None, None).unwrap();
    let _uri = initiate_login(&mut store, h, &cfg_rev, 0);
    let state = store.state_value(h, 0).unwrap().clone();
    let redirect = LoginRedirect { code: "c".to_string(), user_state: state };
    begin_callback(&mut store, h, &redirect, 0).unwrap();
    complete_callback(&mut store, h, Some(id), 0).unwrap();
    // identity present, but no endpoint configured
    assert!(prepare_logout(&store, h, &cfg_no_rev, 0).is_none());
    // without a refresh token the access token is revoked
    let req = prepare_logout(&store, h, &cfg_rev, 0).unwrap();
    assert_eq!(req.token, "access-1");
}

#[test]
fn exchange_failure_reported_and_session_left_unauthenticated() {
    let mut store = SessionStore::new();
    let h = store.create(0);
    let r = complete_callback(&mut store, h, None, 0);
    assert!(matches!(r, Err(LoginError::TokenExchangeFailed)));
    assert!(store.identity(h, 0).is_none());
    // a usable reply for a dead session cannot authenticate it
    let id = validate_token_response(Some("a".to_string()), Some(1), None, None).unwrap();
    let r = complete_callback(&mut store, 99, Some(id), 0);
    assert!(matches!(r, Err(LoginError::NoPendingLogin)));
}
