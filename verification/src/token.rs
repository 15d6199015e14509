//! The sealed session token.
//!
//! A session travels to the client as bytes: a length-prefixed payload that
//! encodes the session, followed by a 32-byte tag digesting the server's key
//! and the payload.  Opening recomputes the tag, so a token altered or forged
//! without the key is rejected, and a genuine token decodes to exactly the
//! session that was sealed.

use vstd::prelude::*;
use vstd::bytes::{
    lemma_auto_spec_u64_to_from_le_bytes, spec_u64_from_le_bytes, spec_u64_to_le_bytes,
    u64_from_le_bytes, u64_to_le_bytes,
};
use vstd::slice::{slice_subrange, slice_to_vec};
use vstd::string::StrSliceExecFns;
use vstd::utf8::{
    decode_utf8, encode_utf8, encode_utf8_decode_utf8, encode_utf8_valid_utf8, valid_utf8,
};
use sha2::Digest;
use crate::session::{Session, SessionView};

verus! {

/// What SHA-256 yields on given bytes: a function of the input alone, so two
/// computations of it on equal bytes agree.
pub uninterp spec fn sha256_of(bytes: Seq<u8>) -> Seq<u8>;

/// Relies on sha2's `Sha256::digest`: a 32-byte digest computed from the
/// input bytes alone.
#[verifier::external_body]
pub(crate) fn sha256(bytes: &[u8]) -> (r: Vec<u8>)
    ensures
        r@ == sha256_of(bytes@),
        r@.len() == 32,
{
    sha2::Sha256::digest(bytes).to_vec()
}

/// Relies on std's `String::from_utf8`: succeeds exactly on valid UTF-8 and
/// returns the string those bytes encode.
#[verifier::external_body]
fn bytes_to_string(bytes: Vec<u8>) -> (r: Option<String>)
    ensures
        r is Some <==> valid_utf8(bytes@),
        r is Some ==> r->0@ == decode_utf8(bytes@),
{
    String::from_utf8(bytes).ok()
}

/// The byte encoding of a session: eight little-endian length bytes, the
/// UTF-8 of the subject id, then the UTF-8 of the display name.
pub open spec fn session_bytes(v: SessionView) -> Seq<u8> {
    let id = encode_utf8(v.lichess_id);
    let name = encode_utf8(v.lichess_username);
    spec_u64_to_le_bytes(id.len() as u64) + id + name
}

/// Encodes a session for sealing.
pub fn session_to_bytes(session: &Session) -> (r: Vec<u8>)
    ensures
        r@ == session_bytes(session@),
        encode_utf8(session@.lichess_id).len() <= u64::MAX,
{
    let mut id_bytes = session.lichess_id.as_str().as_bytes_vec();
    let mut name_bytes = session.lichess_username.as_str().as_bytes_vec();
    let n: u64 = id_bytes.len() as u64;
    let mut out = u64_to_le_bytes(n);
    out.append(&mut id_bytes);
    out.append(&mut name_bytes);
    proof {
        assert(out@ =~= session_bytes(session@));
    }
    out
}

/// What session a payload decodes to: `None` unless the length prefix fits
/// and both pieces are valid UTF-8.
pub open spec fn session_from_bytes_spec(b: Seq<u8>) -> Option<SessionView> {
    if b.len() < 8 {
        Option::None
    } else {
        let n = spec_u64_from_le_bytes(b.subrange(0, 8)) as int;
        if b.len() - 8 < n {
            Option::None
        } else {
            let id_b = b.subrange(8, 8 + n);
            let name_b = b.subrange(8 + n, b.len() as int);
            if valid_utf8(id_b) && valid_utf8(name_b) {
                Option::Some(
                    SessionView {
                        lichess_id: decode_utf8(id_b),
                        lichess_username: decode_utf8(name_b),
                    },
                )
            } else {
                Option::None
            }
        }
    }
}

/// Decodes a payload back into a session.
pub fn session_from_bytes(bytes: &[u8]) -> (r: Option<Session>)
    ensures
        r is Some <==> session_from_bytes_spec(bytes@) is Some,
        r is Some ==> r->0@ == session_from_bytes_spec(bytes@)->0,
{
    if bytes.len() < 8 {
        return None;
    }
    let prefix = slice_subrange(bytes, 0, 8);
    let n64 = u64_from_le_bytes(prefix);
    let rest: usize = bytes.len() - 8;
    if (rest as u64) < n64 {
        return None;
    }
    let n = n64 as usize;
    let id_vec = slice_to_vec(slice_subrange(bytes, 8, 8 + n));
    let name_vec = slice_to_vec(slice_subrange(bytes, 8 + n, bytes.len()));
    match (bytes_to_string(id_vec), bytes_to_string(name_vec)) {
        (Some(id), Some(name)) => Some(Session { lichess_id: id, lichess_username: name }),
        _ => None,
    }
}

/// The 32-byte tag of a token.  A SHA-256 digest is 32 bytes; the width is
/// nevertheless fixed here by construction, so that reasoning about token
/// layout never leans on a property of the outside function.
pub open spec fn tag_spec(key: Seq<u8>, payload: Seq<u8>) -> Seq<u8> {
    let digest = sha256_of(key + payload);
    Seq::new(32, |i: int| if i < digest.len() { digest[i] } else { 0u8 })
}

/// A sealed token: the payload followed by the tag over key and payload.
pub open spec fn seal_spec(key: Seq<u8>, payload: Seq<u8>) -> Seq<u8> {
    payload + tag_spec(key, payload)
}

/// Seals a payload under the server's key.
pub fn seal(key: &[u8], payload: Vec<u8>) -> (r: Vec<u8>)
    ensures
        r@ == seal_spec(key@, payload@),
{
    let mut keyed = slice_to_vec(key);
    let mut payload_copy = slice_to_vec(payload.as_slice());
    keyed.append(&mut payload_copy);
    let mut tag = sha256(keyed.as_slice());
    proof {
        assert(tag@ =~= tag_spec(key@, payload@));
    }
    let mut out = payload;
    out.append(&mut tag);
    out
}

/// What opening a token yields: the payload, if the last 32 bytes are the
/// tag over key and payload; `None` otherwise.
pub open spec fn open_token_spec(key: Seq<u8>, token: Seq<u8>) -> Option<Seq<u8>> {
    if token.len() < 32 {
        Option::None
    } else {
        let payload = token.subrange(0, token.len() - 32);
        let tag = token.subrange(token.len() - 32, token.len() as int);
        if tag == tag_spec(key, payload) {
            Option::Some(payload)
        } else {
            Option::None
        }
    }
}

/// Opens a token under the server's key, rejecting anything whose tag does
/// not match.
pub fn open_token(key: &[u8], token: &[u8]) -> (r: Option<Vec<u8>>)
    ensures
        r is Some <==> open_token_spec(key@, token@) is Some,
        r is Some ==> r->0@ == open_token_spec(key@, token@)->0,
{
    if token.len() < 32 {
        return None;
    }
    let split = token.len() - 32;
    let payload = slice_to_vec(slice_subrange(token, 0, split));
    let tag = slice_to_vec(slice_subrange(token, split, token.len()));
    let mut keyed = slice_to_vec(key);
    let mut payload_copy = slice_to_vec(payload.as_slice());
    keyed.append(&mut payload_copy);
    let expect = sha256(keyed.as_slice());
    let ghost payload_s = token@.subrange(0, split as int);
    let ghost tag_s = token@.subrange(split as int, token@.len() as int);
    proof {
        assert(expect@ =~= tag_spec(key@, payload_s));
    }
    if tag == expect {
        proof {
            assert(tag@ =~= expect@);
        }
        Some(payload)
    } else {
        proof {
            if tag_s == tag_spec(key@, payload_s) {
                assert(tag@ == expect@);
                assert(false);
            }
        }
        None
    }
}

/// Sealing then opening under one key returns the payload unchanged: the tag
/// is a function of key and payload alone, so the recomputation at opening
/// matches the one made at sealing.
pub proof fn lemma_seal_open(key: Seq<u8>, payload: Seq<u8>)
    ensures
        open_token_spec(key, seal_spec(key, payload)) == Some(payload),
{
    let t = seal_spec(key, payload);
    assert(t.subrange(0, t.len() - 32) =~= payload);
    assert(t.subrange(t.len() - 32, t.len() as int) =~= tag_spec(key, payload));
}

/// Encoding a session and decoding the bytes again returns the session
/// unchanged, as long as the subject id fits the length prefix.
pub proof fn lemma_session_bytes_round_trip(v: SessionView)
    requires
        encode_utf8(v.lichess_id).len() <= u64::MAX,
    ensures
        session_from_bytes_spec(session_bytes(v)) == Some(v),
{
    lemma_auto_spec_u64_to_from_le_bytes();
    broadcast use encode_utf8_valid_utf8;
    broadcast use encode_utf8_decode_utf8;

    let id = encode_utf8(v.lichess_id);
    let name = encode_utf8(v.lichess_username);
    let b = session_bytes(v);
    assert(b.subrange(0, 8) =~= spec_u64_to_le_bytes(id.len() as u64));
    assert(b.subrange(8, 8 + id.len() as int) =~= id);
    assert(b.subrange(8 + id.len() as int, b.len() as int) =~= name);
    assert(session_from_bytes_spec(b) == Some(v));
}

} // verus!
