//! The cryptographic primitives this crate relies on, each a thin call into
//! `sha2`, `ed25519-dalek`, `hex` or `rand`.
use ed25519_dalek::Signer as _;
use ed25519_dalek::Verifier as _;
use rand::distr::SampleString as _;
use sha2::Digest as _;
use vstd::prelude::*;
use vstd::string::StringSliceAdditionalSpecFns;

verus! {

/// The SHA-256 digest of a byte string.
pub uninterp spec fn sha256_of(data: Seq<u8>) -> [u8; 32];

/// Whether `signature` is a valid ed25519 signature of `message` under `public_key`.
pub uninterp spec fn ed25519_accepts(public_key: [u8; 32], message: Seq<u8>, signature: Seq<u8>) -> bool;

/// The ed25519 signature that the 32-byte secret key `secret` gives to `message`.
pub uninterp spec fn ed25519_signature_of(secret: [u8; 32], message: Seq<u8>) -> [u8; 64];

/// The ed25519 public key that belongs to the 32-byte secret key `secret`.
pub uninterp spec fn ed25519_public_of(secret: [u8; 32]) -> [u8; 32];

/// Relies on `sha2::Sha256::digest`: the SHA-256 digest, a function of the input bytes alone.
#[verifier::external_body]
pub(crate) fn sha256(data: &[u8]) -> (r: [u8; 32])
    ensures
        r == sha256_of(data@),
{
    sha2::Sha256::digest(data).into()
}

/// Relies on `ed25519_dalek::VerifyingKey::from_bytes`, `Signature::from_slice`
/// and `Verifier::verify`: a key or a signature that does not decode verifies nothing.
#[verifier::external_body]
pub(crate) fn ed25519_verify(public_key: &[u8; 32], message: &[u8], signature: &[u8]) -> (r: bool)
    ensures
        r == ed25519_accepts(*public_key, message@, signature@),
{
    match (
        ed25519_dalek::VerifyingKey::from_bytes(public_key),
        ed25519_dalek::Signature::from_slice(signature),
    ) {
        (Ok(key), Ok(sig)) => key.verify(message, &sig).is_ok(),
        _ => false,
    }
}

/// Relies on `ed25519_dalek::SigningKey::from_bytes` and `Signer::sign`
/// (deterministic RFC 8032 signing), and on the crate's documented round
/// trip: the signature verifies under the signing key's verifying key.
#[verifier::external_body]
pub(crate) fn ed25519_sign(secret: &[u8; 32], message: &[u8]) -> (r: [u8; 64])
    ensures
        r == ed25519_signature_of(*secret, message@),
        ed25519_accepts(ed25519_public_of(*secret), message@, r@),
{
    ed25519_dalek::SigningKey::from_bytes(secret).sign(message).to_bytes()
}

/// Relies on `ed25519_dalek::SigningKey::verifying_key`: the public key of a secret key.
#[verifier::external_body]
pub(crate) fn ed25519_public_key(secret: &[u8; 32]) -> (r: [u8; 32])
    ensures
        r == ed25519_public_of(*secret),
{
    ed25519_dalek::SigningKey::from_bytes(secret).verifying_key().to_bytes()
}

/// The value of an ASCII hex digit, or -1 for any other byte.
pub open spec fn hex_digit_value(c: u8) -> int {
    if 48 <= c <= 57 {
        c - 48
    } else if 97 <= c <= 102 {
        c - 87
    } else if 65 <= c <= 70 {
        c - 55
    } else {
        -1
    }
}

/// An even number of hex digits, either case.
pub open spec fn is_hex_text(text: Seq<u8>) -> bool {
    &&& text.len() % 2 == 0
    &&& forall|i: int| 0 <= i < text.len() ==> hex_digit_value(#[trigger] text[i]) >= 0
}

/// The bytes that a hex text spells, two digits each, high digit first.
pub open spec fn hex_decoded(text: Seq<u8>) -> Seq<u8> {
    Seq::new(
        (text.len() / 2) as nat,
        |i: int| (16 * hex_digit_value(text[2 * i]) + hex_digit_value(text[2 * i + 1])) as u8,
    )
}

/// Relies on `hex::decode`: it fails on an odd length or a non-hex byte, and
/// otherwise turns each pair of digits into one byte.
#[verifier::external_body]
pub(crate) fn hex_decode(text: &str) -> (r: Option<Vec<u8>>)
    ensures
        r is Some <==> is_hex_text(text.spec_bytes()),
        r is Some ==> r->0@ == hex_decoded(text.spec_bytes()),
{
    hex::decode(text).ok()
}

/// An ASCII letter or digit.
pub open spec fn is_alphanumeric(c: char) -> bool {
    ('a' <= c <= 'z') || ('A' <= c <= 'Z') || ('0' <= c <= '9')
}

/// Relies on `rand::distr::Alphanumeric` with the thread-local generator:
/// `len` characters, each an ASCII letter or digit.
#[verifier::external_body]
pub(crate) fn random_alphanumeric(len: usize) -> (r: String)
    ensures
        r@.len() == len,
        forall|i: int| 0 <= i < r@.len() ==> is_alphanumeric(#[trigger] r@[i]),
{
    rand::distr::Alphanumeric.sample_string(&mut rand::rng(), len)
}

} // verus!
