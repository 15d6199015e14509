//! The identity-provider client: the authorization redirect with CSRF state
//! and PKCE challenge, the callback check that consumes the handshake, and
//! the step that turns the provider's answer into a session — or into an
//! error, never into a half-established login.

use vstd::prelude::*;
use vstd::string::StringExecFns;
use vstd::utf8::encode_utf8;
use crate::random::from_charset;
use crate::registry::str_eq;
use crate::session::{mint_handshake, ClientCookies, HandshakeState, Session, SessionView};
use crate::token::{seal_spec, session_bytes, sha256, sha256_of};

verus! {

/// Why a login attempt failed: the callback did not belong to a handshake
/// this server minted, or the provider could not be talked to.
#[derive(Clone, Copy, PartialEq, Eq, Structural, Debug)]
pub enum AuthError {
    CsrfMismatch,
    ProviderError,
}

/// The provider's answer to the token exchange.
pub struct OAuthToken {
    pub access_token: String,
}

/// The authenticated identity the provider reports.
pub struct User {
    pub id: String,
    pub username: String,
}

/// The session a provider identity gives rise to.
pub open spec fn session_of_user(u: User) -> SessionView {
    SessionView { lichess_id: u.id@, lichess_username: u.username@ }
}

/// What urlencoding's `encode` yields on a given string: a function of the
/// input alone.
pub uninterp spec fn urlencoded_of(s: Seq<char>) -> Seq<char>;

/// Relies on urlencoding's `encode`: percent-encodes every byte except
/// ASCII alphanumerics and `-`, `_`, `.`, `~`.
#[verifier::external_body]
fn urlencode(s: &str) -> (r: String)
    ensures
        r@ == urlencoded_of(s@),
{
    urlencoding::encode(s).into_owned()
}

/// What base64's `encode` yields on given bytes: the standard alphabet with
/// `=` padding, a function of the input alone.
pub uninterp spec fn base64_of(bytes: Seq<u8>) -> Seq<char>;

/// Relies on base64's `encode`: standard-alphabet, padded encoding.
#[verifier::external_body]
fn base64_encode(bytes: &[u8]) -> (r: String)
    ensures
        r@ == base64_of(bytes@),
{
    base64::encode(bytes)
}

/// A base64 character moved to the URL-safe alphabet.
pub open spec fn url_safe_char(c: char) -> char {
    if c == '+' {
        '-'
    } else if c == '/' {
        '_'
    } else {
        c
    }
}

/// Unpadded URL-safe form of a base64 string: `=` dropped, `+` and `/`
/// replaced by `-` and `_`.
pub open spec fn base64_url_of(s: Seq<char>) -> Seq<char>
    decreases s.len(),
{
    if s.len() == 0 {
        Seq::empty()
    } else {
        let rest = base64_url_of(s.drop_last());
        if s.last() == '=' {
            rest
        } else {
            rest.push(url_safe_char(s.last()))
        }
    }
}

/// Rewrites a base64 string into its unpadded URL-safe form.
fn base64_url(s: &str) -> (r: String)
    ensures
        r@ == base64_url_of(s@),
{
    let n = s.unicode_len();
    let mut out = String::new();
    let mut i: usize = 0;
    while i < n
        invariant
            n == s@.len(),
            0 <= i <= n,
            out@ == base64_url_of(s@.take(i as int)),
        decreases n - i,
    {
        let c = s.get_char(i);
        if c == '=' {
        } else if c == '+' {
            out.append("-");
        } else if c == '/' {
            out.append("_");
        } else {
            let piece = s.substring_char(i, i + 1);
            proof {
                assert(piece@ =~= seq![s@[i as int]]);
            }
            out.append(piece);
        }
        proof {
            assert(s@.take(i + 1).drop_last() =~= s@.take(i as int));
            assert(s@.take(i + 1).last() == s@[i as int]);
            reveal_strlit("-");
            reveal_strlit("_");
            assert(out@ =~= base64_url_of(s@.take(i + 1)));
        }
        i += 1;
    }
    proof {
        assert(s@.take(n as int) =~= s@);
    }
    out
}

/// The PKCE challenge derived from a verifier: SHA-256 of its UTF-8,
/// base64url without padding.
pub open spec fn challenge_of(verifier: Seq<char>) -> Seq<char> {
    base64_url_of(base64_of(sha256_of(encode_utf8(verifier))))
}

/// Computes the PKCE challenge for a verifier.  Only this derived value ever
/// appears in the authorization redirect; the verifier itself is sent
/// nowhere until the token exchange.
pub fn code_challenge(verifier: &str) -> (r: String)
    ensures
        r@ == challenge_of(verifier@),
{
    let digest = sha256(verifier.as_bytes());
    let encoded = base64_encode(digest.as_slice());
    base64_url(encoded.as_str())
}

/// The authorization redirect: client id and this deployment's callback,
/// both percent-encoded, the CSRF `state`, and the PKCE challenge.
pub open spec fn authorization_url_spec(
    client_id: Seq<char>,
    server_url: Seq<char>,
    state: Seq<char>,
    challenge: Seq<char>,
) -> Seq<char> {
    "https://lichess.org/oauth?response_type=code&client_id="@ + urlencoded_of(client_id)
        + "&redirect_uri="@ + urlencoded_of(server_url) + "%2Foauth_redirect&state="@ + state
        + "&code_challenge_method=S256&code_challenge="@ + challenge
}

/// Builds the authorization redirect URL.
pub fn authorization_url(client_id: &str, server_url: &str, state: &str, challenge: &str) -> (r:
    String)
    ensures
        r@ == authorization_url_spec(client_id@, server_url@, state@, challenge@),
{
    let mut url = String::new();
    url.append("https://lichess.org/oauth?response_type=code&client_id=");
    let encoded_client = urlencode(client_id);
    url.append(encoded_client.as_str());
    url.append("&redirect_uri=");
    let encoded_server = urlencode(server_url);
    url.append(encoded_server.as_str());
    url.append("%2Foauth_redirect&state=");
    url.append(state);
    url.append("&code_challenge_method=S256&code_challenge=");
    url.append(challenge);
    proof {
        assert(url@ =~= authorization_url_spec(client_id@, server_url@, state@, challenge@));
    }
    url
}

/// Starts a login: mints the CSRF token and PKCE verifier and builds the
/// redirect embedding the state and the derived challenge.  Fails only when
/// the randomness source does — fatal to the attempt, and the caller must
/// abort it.
pub fn begin_login(client_id: &str, server_url: &str) -> (r: Result<
    (String, HandshakeState),
    getrandom::Error,
>)
    ensures
        r matches Ok(p) ==> {
            &&& p.1.csrf_token@.len() == 64 && from_charset(p.1.csrf_token@)
            &&& p.1.pkce_verifier@.len() == 64 && from_charset(p.1.pkce_verifier@)
            &&& p.0@ == authorization_url_spec(
                client_id@,
                server_url@,
                p.1.csrf_token@,
                challenge_of(p.1.pkce_verifier@),
            )
        },
{
    let handshake = match mint_handshake() {
        Ok(h) => h,
        Err(e) => {
            return Err(e);
        },
    };
    let challenge = code_challenge(handshake.pkce_verifier.as_str());
    let url = authorization_url(
        client_id,
        server_url,
        handshake.csrf_token.as_str(),
        challenge.as_str(),
    );
    Ok((url, handshake))
}

/// The form body of the PKCE token exchange: the code is traded together
/// with the verifier; no client secret travels in this flow.
pub open spec fn token_request_body_spec(
    code: Seq<char>,
    client_id: Seq<char>,
    verifier: Seq<char>,
    redirect_uri: Seq<char>,
) -> Seq<char> {
    "grant_type=authorization_code&code="@ + code + "&redirect_uri="@ + redirect_uri
        + "&client_id="@ + client_id + "&code_verifier="@ + verifier
}

/// Builds the token-exchange form body.
pub fn token_request_body(code: &str, client_id: &str, verifier: &str, redirect_uri: &str) -> (r:
    String)
    ensures
        r@ == token_request_body_spec(code@, client_id@, verifier@, redirect_uri@),
{
    let mut body = String::new();
    body.append("grant_type=authorization_code&code=");
    body.append(code);
    body.append("&redirect_uri=");
    body.append(redirect_uri);
    body.append("&client_id=");
    body.append(client_id);
    body.append("&code_verifier=");
    body.append(verifier);
    proof {
        assert(body@ =~= token_request_body_spec(code@, client_id@, verifier@, redirect_uri@));
    }
    body
}

/// Checks the provider's callback against the stored handshake.  The
/// handshake is consumed here, match or not, so the slot is empty afterwards
/// and a replay of the same callback fails.  Succeeds exactly when a
/// handshake was stored and its CSRF token equals the returned `state`.
pub fn check_callback(jar: &mut ClientCookies, received_state: &str) -> (r: Result<
    HandshakeState,
    AuthError,
>)
    ensures
        final(jar).handshake is None,
        final(jar).session_token == old(jar).session_token,
        r is Ok <==> (old(jar).handshake matches Some(h) && h.csrf_token@ == received_state@),
        r is Ok ==> r->Ok_0 == old(jar).handshake->0,
        r is Err ==> r->Err_0 == AuthError::CsrfMismatch,
{
    match jar.take_handshake() {
        None => Err(AuthError::CsrfMismatch),
        Some(handshake) => {
            if str_eq(handshake.csrf_token.as_str(), received_state) {
                Ok(handshake)
            } else {
                Err(AuthError::CsrfMismatch)
            }
        },
    }
}

/// Abandons a login attempt the provider reported as denied: the pending
/// handshake is dropped, and the session slot is untouched.
pub fn cancel_login(jar: &mut ClientCookies)
    ensures
        final(jar).handshake is None,
        final(jar).session_token == old(jar).session_token,
{
    jar.take_handshake();
}

/// Finishes a login from the provider's answer, which the surrounding
/// application fetched over the network: a reported identity becomes an
/// established session; no answer becomes `ProviderError`, surfaced, with
/// no partial session left behind.
pub fn finish_login(jar: &mut ClientCookies, key: &[u8], fetched: Option<User>) -> (r: Result<
    Session,
    AuthError,
>)
    ensures
        r is Ok <==> fetched is Some,
        r matches Ok(s) ==> {
            &&& s@ == session_of_user(fetched->0)
            &&& final(jar).session_token matches Some(t)
                && t@ == seal_spec(key@, session_bytes(s@))
            &&& final(jar).handshake == old(jar).handshake
            &&& encode_utf8(s@.lichess_id).len() <= u64::MAX
        },
        fetched is None ==> r == Err::<Session, AuthError>(AuthError::ProviderError)
            && *final(jar) == *old(jar),
{
    match fetched {
        None => Err(AuthError::ProviderError),
        Some(user) => {
            let session = Session { lichess_id: user.id, lichess_username: user.username };
            jar.establish_session(key, &session);
            Ok(session)
        },
    }
}

} // verus!
