use vstd::prelude::*;
use sha2::Digest;
use crate::b64::{all_b64url_chars, b64url_nopad, lemma_b64url_nopad_charset, lemma_b64url_nopad_len};

verus! {

/// The SHA-256 digest of a byte sequence, named but not written out: it is a
/// function of the input bytes alone, and the trusted wrapper below is the
/// only place that says anything about it.
pub uninterp spec fn sha256_of(bytes: Seq<u8>) -> Seq<u8>;

/// Relies on sha2's `Sha256` through `Digest::digest`: the digest depends on
/// the input bytes alone and is 32 bytes long.
#[verifier::external_body]
fn sha256(bytes: &[u8]) -> (r: Vec<u8>)
    ensures
        r@ == sha256_of(bytes@),
        r@.len() == 32,
{
    sha2::Sha256::digest(bytes).to_vec()
}

/// The S256 PKCE challenge of a verifier: the unpadded base64url encoding of
/// the SHA-256 digest of the verifier's bytes.
pub open spec fn pkce_challenge_of(verifier: Seq<char>) -> Seq<char> {
    b64url_nopad(sha256_of(vstd::utf8::encode_utf8(verifier)))
}

/// Derives the S256 challenge for a verifier.  Deterministic: the result is a
/// function of the verifier alone, so repeated derivations agree.
pub fn derive_challenge(verifier: &str) -> (r: String)
    ensures
        r@ == pkce_challenge_of(verifier@),
        r@.len() == 43,
        all_b64url_chars(r@),
{
    let digest = sha256(verifier.as_bytes());
    proof {
        lemma_b64url_nopad_len(digest@);
        lemma_b64url_nopad_charset(digest@);
    }
    crate::b64::b64url_encode(digest.as_slice())
}

/// The challenge is deterministic in the verifier: two equal verifiers always
/// derive one and the same challenge.
pub proof fn lemma_challenge_deterministic(v1: Seq<char>, v2: Seq<char>)
    requires
        v1 == v2,
    ensures
        pkce_challenge_of(v1) == pkce_challenge_of(v2),
{
}

/// Relies on oauth2's `CsrfToken::new_random`: 16 random bytes, base64url
/// encoded without padding, hence 22 characters of the base64url alphabet.
/// Aborts only if the process's random source fails.
#[verifier::external_body]
pub(crate) fn random_state_token() -> (r: String)
    ensures
        r@.len() == 22,
        all_b64url_chars(r@),
{
    oauth2::CsrfToken::new_random().secret().clone()
}

/// Relies on oauth2's `PkceCodeChallenge::new_random_sha256`: the verifier is
/// 32 random bytes base64url encoded without padding, hence 43 characters of
/// the base64url alphabet.  The challenge half of the pair is dropped and
/// later re-derived from the verifier.  Aborts only if the process's random
/// source fails.
#[verifier::external_body]
pub(crate) fn random_pkce_verifier() -> (r: String)
    ensures
        r@.len() == 43,
        all_b64url_chars(r@),
{
    let (_, verifier) = oauth2::PkceCodeChallenge::new_random_sha256();
    verifier.secret().clone()
}

} // verus!
