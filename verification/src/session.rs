//! Sessions, the login handshake, and the client-held credential slots.
//!
//! A `Session` names the authenticated visitor.  A `HandshakeState` is the
//! transient CSRF/PKCE pair minted for one in-flight login attempt.  Both
//! travel in `ClientCookies`, the model of what the client carries between
//! requests: the session slot holds a sealed token (see `token`) that the
//! client cannot alter undetected, and the handshake slot is read-and-remove,
//! so it is consumed at most once.

use vstd::prelude::*;
use vstd::utf8::encode_utf8;
use crate::random::{from_charset, random_string};
use crate::token::{
    lemma_seal_open, lemma_session_bytes_round_trip, open_token, open_token_spec, seal, seal_spec,
    session_bytes, session_from_bytes, session_from_bytes_spec, session_to_bytes,
};

verus! {

/// The authenticated visitor, as the identity provider reported them.
pub struct Session {
    pub lichess_id: String,
    pub lichess_username: String,
}

/// The mathematical value of a `Session`.
pub struct SessionView {
    pub lichess_id: Seq<char>,
    pub lichess_username: Seq<char>,
}

impl View for Session {
    type V = SessionView;

    open spec fn view(&self) -> SessionView {
        SessionView { lichess_id: self.lichess_id@, lichess_username: self.lichess_username@ }
    }
}

impl Clone for Session {
    fn clone(&self) -> (r: Self)
        ensures
            r@ == self@,
    {
        Session {
            lichess_id: self.lichess_id.clone(),
            lichess_username: self.lichess_username.clone(),
        }
    }
}

/// The CSRF token and PKCE verifier minted for one login attempt, bound to
/// that attempt and consumed exactly once when the provider calls back.
pub struct HandshakeState {
    pub csrf_token: String,
    pub pkce_verifier: String,
}

impl Clone for HandshakeState {
    fn clone(&self) -> (r: Self)
        ensures
            r.csrf_token@ == self.csrf_token@,
            r.pkce_verifier@ == self.pkce_verifier@,
    {
        HandshakeState {
            csrf_token: self.csrf_token.clone(),
            pkce_verifier: self.pkce_verifier.clone(),
        }
    }
}

/// Mints the transient state for one login attempt: a fresh CSRF token and
/// a fresh PKCE verifier, each 64 random characters over the identifier
/// alphabet.  Fails only when the randomness source does.
pub fn mint_handshake() -> (r: Result<HandshakeState, getrandom::Error>)
    ensures
        r matches Ok(h) ==> {
            &&& h.csrf_token@.len() == 64 && from_charset(h.csrf_token@)
            &&& h.pkce_verifier@.len() == 64 && from_charset(h.pkce_verifier@)
        },
{
    let csrf_token = match random_string() {
        Ok(s) => s,
        Err(e) => {
            return Err(e);
        },
    };
    let pkce_verifier = match random_string() {
        Ok(s) => s,
        Err(e) => {
            return Err(e);
        },
    };
    Ok(HandshakeState { csrf_token, pkce_verifier })
}

/// What a session credential decodes to: `None` unless the token carries a
/// digest made with the server's key over a well-formed session payload.
pub open spec fn read_session_spec(key: Seq<u8>, token: Option<Seq<u8>>) -> Option<SessionView> {
    match token {
        Option::None => Option::None,
        Option::Some(t) => match open_token_spec(key, t) {
            Option::None => Option::None,
            Option::Some(payload) => session_from_bytes_spec(payload),
        },
    }
}

/// The two client-held slots: the sealed session credential and the one-shot
/// login handshake.
pub struct ClientCookies {
    pub handshake: Option<HandshakeState>,
    pub session_token: Option<Vec<u8>>,
}

impl ClientCookies {
    /// A visitor that carries nothing yet.
    pub fn new() -> (jar: Self)
        ensures
            jar.handshake is None,
            jar.session_token is None,
    {
        ClientCookies { handshake: None, session_token: None }
    }

    /// Puts a freshly minted handshake into its slot for the duration of one
    /// login flow; the session slot is untouched.
    pub fn store_handshake(&mut self, handshake: HandshakeState)
        ensures
            final(self).handshake == Some(handshake),
            final(self).session_token == old(self).session_token,
    {
        self.handshake = Some(handshake);
    }

    /// Read-and-remove, single use: returns whatever the slot held and leaves
    /// it empty, so a second call in the same flow returns `None`.
    pub fn take_handshake(&mut self) -> (r: Option<HandshakeState>)
        ensures
            r == old(self).handshake,
            final(self).handshake is None,
            final(self).session_token == old(self).session_token,
    {
        self.handshake.take()
    }

    /// Seals `session` under `key` and stores the credential.  The handshake
    /// slot is untouched; the stored token reads back as exactly this session
    /// (see `lemma_session_round_trip`).
    pub fn establish_session(&mut self, key: &[u8], session: &Session)
        ensures
            final(self).session_token matches Some(t)
                && t@ == seal_spec(key@, session_bytes(session@)),
            final(self).handshake == old(self).handshake,
            encode_utf8(session@.lichess_id).len() <= u64::MAX,
    {
        let payload = session_to_bytes(session);
        let token = seal(key, payload);
        self.session_token = Some(token);
    }

    /// Validates and decodes the credential: `None`, not an error, if the
    /// slot is empty, the token malformed, or the digest wrong.  This is the
    /// sole authorization primitive; an absent session never passes for
    /// anyone.
    pub fn read_session(&self, key: &[u8]) -> (r: Option<Session>)
        ensures
            r is Some <==> read_session_spec(key@, self.session_token.deep_view()) is Some,
            r is Some ==> r->0@ == read_session_spec(key@, self.session_token.deep_view())->0,
    {
        match &self.session_token {
            None => None,
            Some(token) => {
                proof {
                    assert(token.deep_view() =~= token@);
                }
                match open_token(key, token.as_slice()) {
                    None => None,
                    Some(payload) => session_from_bytes(payload.as_slice()),
                }
            },
        }
    }

    /// Removes the credential.  Idempotent: the slot is empty afterwards
    /// whatever it held before.
    pub fn destroy_session(&mut self)
        ensures
            final(self).session_token is None,
            final(self).handshake == old(self).handshake,
    {
        self.session_token = None;
    }
}

/// Round trip: a session established under a key reads back as exactly that
/// session, so the credential is faithful as well as tamper-evident.
pub proof fn lemma_session_round_trip(key: Seq<u8>, v: SessionView)
    requires
        encode_utf8(v.lichess_id).len() <= u64::MAX,
    ensures
        read_session_spec(key, Some(seal_spec(key, session_bytes(v)))) == Some(v),
{
    lemma_seal_open(key, session_bytes(v));
    lemma_session_bytes_round_trip(v);
}

} // verus!
