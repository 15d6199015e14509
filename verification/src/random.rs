//! Random identifiers for the login handshake: CSRF tokens and PKCE
//! verifiers, drawn from the operating system's randomness.

use vstd::prelude::*;
use vstd::string::{StrSliceExecFns, StringExecFns};

verus! {

/// The alphabet random identifiers are drawn from.
pub open spec fn charset() -> Seq<char> {
    "abcdefghijklmnopqrstuvwxyzABCDEFGHIJKLMNOPQRSTUVWXYZ0123456789"@
}

/// Every character of `s` comes from the alphabet.
pub open spec fn from_charset(s: Seq<char>) -> bool {
    forall|i: int| 0 <= i < s.len() ==> charset().contains(#[trigger] s[i])
}

/// The declaration of getrandom's error type, so that the failure of the
/// randomness source can be handed to the caller exactly as getrandom reported it.
#[verifier::external_type_specification]
#[verifier::external_body]
pub struct ExGetrandomError(getrandom::Error);

/// Relies on getrandom's `getrandom`: fills the buffer in place with random
/// bytes.  The length cannot change, and nothing is promised of the
/// contents of either outcome.
#[verifier::external_body]
fn fill_random(buffer: &mut Vec<u8>) -> (r: Result<(), getrandom::Error>)
    ensures
        final(buffer)@.len() == old(buffer)@.len(),
{
    getrandom::getrandom(buffer.as_mut_slice())
}

/// A fresh 64-character identifier over the alphabet, unguessable because
/// each character is drawn from an operating-system random byte.  Fails only
/// when the randomness source does, and that failure is the caller's to
/// surface.
pub fn random_string() -> (r: Result<String, getrandom::Error>)
    ensures
        r matches Ok(s) ==> s@.len() == 64 && from_charset(s@),
{
    let mut buffer: Vec<u8> = vec![0u8; 64];
    match fill_random(&mut buffer) {
        Err(e) => {
            return Err(e);
        },
        Ok(()) => {},
    }
    let cs = "abcdefghijklmnopqrstuvwxyzABCDEFGHIJKLMNOPQRSTUVWXYZ0123456789";
    proof {
        reveal_strlit("abcdefghijklmnopqrstuvwxyzABCDEFGHIJKLMNOPQRSTUVWXYZ0123456789");
        assert(cs@.len() == 62);
    }
    let mut out = String::new();
    let mut i: usize = 0;
    while i < 64
        invariant
            buffer@.len() == 64,
            0 <= i <= 64,
            out@.len() == i,
            from_charset(out@),
            cs@ == charset(),
            cs@.len() == 62,
        decreases 64 - i,
    {
        let b = buffer[i];
        let idx = (b % 62) as usize;
        let piece = cs.substring_char(idx, idx + 1);
        proof {
            assert(piece@ =~= seq![charset()[idx as int]]);
            assert(charset().contains(charset()[idx as int]));
        }
        out.append(piece);
        i += 1;
    }
    Ok(out)
}

} // verus!
