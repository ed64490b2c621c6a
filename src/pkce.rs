//! PKCE values: the random verifier, its S256 challenge, and the CSRF state.
use vstd::prelude::*;
use base64::Engine;
use rand::Rng;
use sha2::Digest;

verus! {

/// Length of a generated code verifier.
pub const VERIFIER_LEN: usize = 64;

/// Length of a generated state value.
pub const STATE_LEN: usize = 32;

/// An ASCII letter or digit.
pub open spec fn is_alphanumeric(c: char) -> bool {
    ('A' <= c && c <= 'Z') || ('a' <= c && c <= 'z') || ('0' <= c && c <= '9')
}

/// Every character is an ASCII letter or digit.
pub open spec fn all_alphanumeric(s: Seq<char>) -> bool {
    forall|i: int| 0 <= i < s.len() ==> #[trigger] is_alphanumeric(s[i])
}

/// The SHA-256 digest of the UTF-8 encoding of a string.
pub uninterp spec fn sha256_of(s: Seq<char>) -> Seq<u8>;

/// The URL-safe base64 encoding of bytes, without padding.
pub uninterp spec fn base64url_of(b: Seq<u8>) -> Seq<char>;

/// The S256 code challenge of a verifier.
pub open spec fn code_challenge_of(verifier: Seq<char>) -> Seq<char> {
    base64url_of(sha256_of(verifier))
}

/// Relies on rand's `thread_rng` sampled through `Alphanumeric`: `len`
/// characters, each drawn from `A-Z`, `a-z` and `0-9`.
#[verifier::external_body]
fn random_alphanumeric(len: usize) -> (r: String)
    ensures
        r@.len() == len,
        all_alphanumeric(r@),
{
    rand::thread_rng().sample_iter(&rand::distributions::Alphanumeric).take(len).map(char::from).collect()
}

/// Relies on sha2's `Sha256::digest` over the string's bytes: 32 bytes that
/// depend on the string alone.
#[verifier::external_body]
fn sha256_digest(s: &str) -> (r: Vec<u8>)
    ensures
        r@ == sha256_of(s@),
        r@.len() == 32,
{
    sha2::Sha256::digest(s.as_bytes()).to_vec()
}

/// Relies on base64's `URL_SAFE_NO_PAD` engine `encode`: a function of the
/// bytes alone.
#[verifier::external_body]
fn base64url_encode(b: &[u8]) -> (r: String)
    ensures
        r@ == base64url_of(b@),
{
    base64::engine::general_purpose::URL_SAFE_NO_PAD.encode(b)
}

/// A fresh code verifier: 64 random ASCII letters and digits.
pub fn generate_code_verifier() -> (r: String)
    ensures
        r@.len() == VERIFIER_LEN,
        all_alphanumeric(r@),
{
    random_alphanumeric(VERIFIER_LEN)
}

/// The S256 challenge of a verifier: the base64url encoding, without padding,
/// of the SHA-256 digest of its bytes.
pub fn generate_code_challenge(verifier: &str) -> (r: String)
    ensures
        r@ == code_challenge_of(verifier@),
{
    let digest = sha256_digest(verifier);
    base64url_encode(digest.as_slice())
}

/// A fresh state value: 32 random ASCII letters and digits, drawn
/// independently of the verifier.
pub fn generate_state() -> (r: String)
    ensures
        r@.len() == STATE_LEN,
        all_alphanumeric(r@),
{
    random_alphanumeric(STATE_LEN)
}

/// The challenge is a function of the verifier: deriving it twice from equal
/// verifiers gives equal challenges.
pub proof fn code_challenge_is_deterministic(a: Seq<char>, b: Seq<char>)
    requires
        a == b,
    ensures
        code_challenge_of(a) == code_challenge_of(b),
{
}

} // verus!
