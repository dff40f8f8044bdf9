//! Public-key fingerprint derivation.
//!
//! The issuer claim binds the token to a key pair through a fingerprint of
//! the public key: the SHA-256 digest of the DER-encoded public key
//! (X.509 SubjectPublicKeyInfo form), base64-encoded and prefixed with the
//! literal `SHA256:`.

use vstd::prelude::*;

verus! {

/// The SHA-256 digest of a byte sequence; a function of the bytes alone,
/// left abstract because the compression rounds are not restated here.
pub uninterp spec fn sha256_of(bytes: Seq<u8>) -> Seq<u8>;

/// The standard-alphabet, padded base64 encoding of a byte sequence; a
/// function of the bytes alone.
pub uninterp spec fn base64_of(bytes: Seq<u8>) -> Seq<char>;

/// Relies on `sha2::Sha256` (`Digest::digest`): the SHA-256 digest is a
/// function of the input bytes alone and is 32 bytes long.
#[verifier::external_body]
fn sha256(bytes: &[u8]) -> (r: Vec<u8>)
    ensures
        r@ == sha256_of(bytes@),
        r@.len() == 32,
{
    <sha2::Sha256 as sha2::Digest>::digest(bytes).to_vec()
}

/// Relies on `base64::encode`: the standard-alphabet, padded base64 encoding
/// of the input bytes, a function of the bytes alone.
#[verifier::external_body]
fn base64_encode(bytes: &[u8]) -> (r: String)
    ensures
        r@ == base64_of(bytes@),
{
    base64::encode(bytes)
}

/// The fingerprint of a DER-encoded public key: `SHA256:` followed by the
/// base64-encoded SHA-256 digest of the DER bytes.
pub open spec fn fingerprint_of(spki_der: Seq<u8>) -> Seq<char> {
    "SHA256:"@ + base64_of(sha256_of(spki_der))
}

/// Derives the fingerprint of a public key given as DER-encoded
/// SubjectPublicKeyInfo bytes.
pub fn gen_public_key_fp(spki_der: &[u8]) -> (r: String)
    ensures
        r@ == fingerprint_of(spki_der@),
{
    let digest = sha256(spki_der);
    let b64 = base64_encode(digest.as_slice());
    let mut out = String::from_str("SHA256:");
    out.append(b64.as_str());
    out
}

/// The fingerprint is deterministic: equal public-key encodings give the
/// identical fingerprint, and every fingerprint starts with `SHA256:`.
pub proof fn lemma_fingerprint_deterministic(d1: Seq<u8>, d2: Seq<u8>)
    requires
        d1 == d2,
    ensures
        fingerprint_of(d1) == fingerprint_of(d2),
        fingerprint_of(d1).take(7) == "SHA256:"@,
{
    reveal_strlit("SHA256:");
    assert(fingerprint_of(d1).take(7) =~= "SHA256:"@);
}

} // verus!
