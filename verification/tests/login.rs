use acwc::oauth::{
    authorization_url, begin_login, check_callback, code_challenge, finish_login,
    token_request_body, AuthError, User,
};
use acwc::session::{ClientCookies, HandshakeState, Session};

fn handshake(csrf: &str, verifier: &str) -> HandshakeState {
    HandshakeState { csrf_token: csrf.to_string(), pkce_verifier: verifier.to_string() }
}

#[test]
fn take_handshake_is_single_use() {
    let mut jar = ClientCookies::new();
    jar.store_handshake(handshake("state-1", "verifier-1"));
    let first = jar.take_handshake();
    assert!(first.is_some());
    assert_eq!(first.unwrap().csrf_token, "state-1");
    let second = jar.take_handshake();
    assert!(second.is_none());
}

#[test]
fn callback_succeeds_only_on_matching_state() {
    let mut jar = ClientCookies::new();
    jar.store_handshake(handshake("expected-state", "v"));
    let r = check_callback(&mut jar, "expected-state");
    assert!(r.is_ok());
    assert_eq!(r.unwrap().pkce_verifier, "v");
    assert!(jar.take_handshake().is_none());
}

#[test]
fn callback_rejects_mismatched_state_and_empties_slot() {
    let mut jar = ClientCookies::new();
    jar.store_handshake(handshake("expected-state", "v"));
    let r = check_callback(&mut jar, "attacker-state");
    assert!(matches!(r, Err(AuthError::CsrfMismatch)));
    assert!(jar.take_handshake().is_none());
}

#[test]
fn callback_rejects_missing_handshake() {
    let mut jar = ClientCookies::new();
    let r = check_callback(&mut jar, "any-state");
    assert!(matches!(r, Err(AuthError::CsrfMismatch)));
}

#[test]
fn session_round_trip() {
    let key = b"server-signing-key".to_vec();
    let mut jar = ClientCookies::new();
    let session = Session { lichess_id: "u1".to_string(), lichess_username: "Alice".to_string() };
    jar.establish_session(&key, &session);
    let back = jar.read_session(&key).expect("a freshly established session must read back");
    assert_eq!(back.lichess_id, "u1");
    assert_eq!(back.lichess_username, "Alice");
}

#[test]
fn tampered_token_is_rejected() {
    let key = b"server-signing-key".to_vec();
    let mut jar = ClientCookies::new();
    let session = Session { lichess_id: "u1".to_string(), lichess_username: "Alice".to_string() };
    jar.establish_session(&key, &session);
    let mut token = jar.session_token.clone().unwrap();
    token[8] ^= 0x01; // flip one payload bit: the subject id changes
    jar.session_token = Some(token);
    assert!(jar.read_session(&key).is_none());
}

#[test]
fn token_under_wrong_key_is_rejected() {
    let key = b"server-signing-key".to_vec();
    let other = b"some-other-key".to_vec();
    let mut jar = ClientCookies::new();
    let session = Session { lichess_id: "u1".to_string(), lichess_username: "Alice".to_string() };
    jar.establish_session(&key, &session);
    assert!(jar.read_session(&other).is_none());
}

#[test]
fn destroy_session_is_idempotent() {
    let key = b"k".to_vec();
    let mut jar = ClientCookies::new();
    let session = Session { lichess_id: "u1".to_string(), lichess_username: "Alice".to_string() };
    jar.establish_session(&key, &session);
    jar.destroy_session();
    assert!(jar.read_session(&key).is_none());
    jar.destroy_session();
    assert!(jar.read_session(&key).is_none());
}

#[test]
fn finish_login_establishes_session_from_identity() {
    let key = b"k".to_vec();
    let mut jar = ClientCookies::new();
    let user = User { id: "u1".to_string(), username: "Alice".to_string() };
    let r = finish_login(&mut jar, &key, Some(user));
    let session = r.expect("a reported identity must establish a session");
    assert_eq!(session.lichess_id, "u1");
    assert_eq!(session.lichess_username, "Alice");
    let back = jar.read_session(&key).unwrap();
    assert_eq!(back.lichess_id, "u1");
}

#[test]
fn finish_login_surfaces_provider_failure_without_session() {
    let key = b"k".to_vec();
    let mut jar = ClientCookies::new();
    let r = finish_login(&mut jar, &key, None);
    assert!(matches!(r, Err(AuthError::ProviderError)));
    assert!(jar.read_session(&key).is_none());
}

#[test]
fn code_challenge_matches_the_pkce_reference_vector() {
    // The verifier/challenge pair from the PKCE specification (RFC 7636).
    let challenge = code_challenge("dBjftJeZ4CVP-mB92K27uhbUJU1p1r_wW1gFWFOEjXk");
    assert_eq!(challenge, "E9Melhoa2OwvFrEMTJguCHaoeK1t8URWbuGJSstw-cM");
}

#[test]
fn authorization_url_embeds_encoded_parameters() {
    let url = authorization_url("my client", "https://example.org", "STATE", "CHALLENGE");
    assert_eq!(
        url,
        "https://lichess.org/oauth?response_type=code&client_id=my%20client\
         &redirect_uri=https%3A%2F%2Fexample.org%2Foauth_redirect&state=STATE\
         &code_challenge_method=S256&code_challenge=CHALLENGE"
    );
}

#[test]
fn token_request_body_is_the_pkce_exchange_form() {
    let body = token_request_body("CODE", "CID", "VERIFIER", "https://example.org/oauth_redirect");
    assert_eq!(
        body,
        "grant_type=authorization_code&code=CODE\
         &redirect_uri=https://example.org/oauth_redirect&client_id=CID&code_verifier=VERIFIER"
    );
}

#[test]
fn begin_login_mints_fresh_state_and_embeds_its_challenge() {
    let (url, hs) = begin_login("cid", "https://example.org").expect("randomness available");
    assert_eq!(hs.csrf_token.len(), 64);
    assert_eq!(hs.pkce_verifier.len(), 64);
    assert!(hs.csrf_token.chars().all(|c| c.is_ascii_alphanumeric()));
    assert!(hs.pkce_verifier.chars().all(|c| c.is_ascii_alphanumeric()));
    let expected = authorization_url(
        "cid",
        "https://example.org",
        &hs.csrf_token,
        &code_challenge(&hs.pkce_verifier),
    );
    assert_eq!(url, expected);
    // The verifier itself must not appear in the redirect.
    assert!(!url.contains(&hs.pkce_verifier));
}

#[test]
fn random_strings_differ_between_calls() {
    let a = acwc::random::random_string().expect("randomness available");
    let b = acwc::random::random_string().expect("randomness available");
    assert_eq!(a.len(), 64);
    assert_ne!(a, b);
}
