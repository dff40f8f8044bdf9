//! Credential cache and refresh scheduler.
//!
//! `SnowflakeAuth` owns the RSA private key material, the normalized account
//! identifier and the public-key fingerprint, all fixed at construction, and
//! a cached signed token. `get_jwt` serves the cached token while it is
//! fresh and re-signs a new one once `refresh_threshold` seconds have passed
//! since the last refresh. A failed refresh leaves the previously valid
//! token in place.

use crate::claims::build_claims;
use crate::claims::iss_of;
use crate::claims::sub_of;
use crate::claims::JwtClaims;
use crate::fingerprint::fingerprint_of;
use crate::fingerprint::gen_public_key_fp;
use crate::normalize::normalize_account_identifier;
use crate::normalize::normalize_spec;
use vstd::prelude::*;

verus! {

/// Why a credential holder could not be constructed or refreshed.
#[derive(Clone, Copy, Debug, PartialEq, Eq, Structural)]
pub enum AuthError {
    /// The configured key material is not a PEM-encoded PKCS#8 RSA private
    /// key; construction fails before any token is produced.
    InvalidKeyMaterial,
    /// Exporting the key in DER form or signing the token failed; no partial
    /// state is left behind.
    SigningFailure,
}

/// A signed token treated as sensitive: the value is reachable only through
/// `expose_secret`, and the type offers no textual representation that a
/// diagnostic path could pick up.
pub struct SecretToken {
    token: String,
}

impl View for SecretToken {
    type V = Seq<char>;

    closed spec fn view(&self) -> Seq<char> {
        self.token@
    }
}

impl SecretToken {
    /// Wraps a signed token.
    pub fn wrap(token: String) -> (r: SecretToken)
        ensures
            r@ == token@,
    {
        SecretToken { token }
    }

    /// Hands the sensitive value out; the caller takes over the discipline
    /// of not logging it.
    pub fn expose_secret(&self) -> (r: &String)
        ensures
            r@ == self@,
    {
        &self.token
    }
}

#[verifier::external_type_specification]
#[verifier::external_body]
pub struct ExRsaPrivateKey(rsa::RsaPrivateKey);

/// Relies on `pkcs8::DecodePrivateKey::from_pkcs8_pem` for
/// `rsa::RsaPrivateKey`: decodes PEM-encoded PKCS#8 RSA private-key
/// material; `None` when the input is not such a key.
#[verifier::external_body]
fn decode_private_key_pem(pem: &str) -> (r: Option<rsa::RsaPrivateKey>) {
    <rsa::RsaPrivateKey as pkcs8::DecodePrivateKey>::from_pkcs8_pem(pem).ok()
}

/// Relies on `rsa::RsaPublicKey::from` and
/// `pkcs8::EncodePublicKey::to_public_key_der`: the X.509
/// SubjectPublicKeyInfo DER encoding of the key's public half; `None` when
/// the key cannot be so encoded.
#[verifier::external_body]
fn public_key_spki_der(key: &rsa::RsaPrivateKey) -> (r: Option<Vec<u8>>) {
    match pkcs8::EncodePublicKey::to_public_key_der(&rsa::RsaPublicKey::from(key)) {
        Ok(doc) => Some(doc.as_bytes().to_vec()),
        Err(_) => None,
    }
}

/// Relies on `pkcs1::EncodeRsaPrivateKey::to_pkcs1_der`: the PKCS#1 DER
/// encoding of the private key, used as the signing key; `None` when the key
/// cannot be so encoded.
#[verifier::external_body]
fn private_key_pkcs1_der(key: &rsa::RsaPrivateKey) -> (r: Option<Vec<u8>>) {
    match pkcs1::EncodeRsaPrivateKey::to_pkcs1_der(key) {
        Ok(doc) => Some(doc.as_bytes().to_vec()),
        Err(_) => None,
    }
}

/// The compact serialization `header.claims.signature` that RS256 signing
/// produces for the given claims and PKCS#1-DER-encoded key; a function of
/// its arguments alone, since both the JSON encoding of the claims and the
/// PKCS#1 v1.5 signature are deterministic.
pub uninterp spec fn jwt_of(
    key_pkcs1_der: Seq<u8>,
    iss: Seq<char>,
    sub: Seq<char>,
    iat: u64,
    exp: u64,
) -> Seq<char>;

/// Relies on `jsonwebtoken::encode` with `Header::new(Algorithm::RS256)` and
/// `EncodingKey::from_rsa_der`: the compact RS256-signed JWT for the claims,
/// non-empty since it joins three segments with `.`; `None` when signing
/// fails.
#[verifier::external_body]
fn sign_rs256(key_pkcs1_der: &[u8], claims: &JwtClaims) -> (r: Option<String>)
    ensures
        r matches Some(t) ==> t@ == jwt_of(
            key_pkcs1_der@,
            claims.iss@,
            claims.sub@,
            claims.iat,
            claims.exp,
        ),
        r matches Some(t) ==> t@.len() > 0,
{
    let key = jsonwebtoken::EncodingKey::from_rsa_der(key_pkcs1_der);
    let header = jsonwebtoken::Header::new(jsonwebtoken::Algorithm::RS256);
    let mut fields = serde_json::Map::new();
    fields.insert("iss".to_string(), serde_json::Value::String(claims.iss.clone()));
    fields.insert("sub".to_string(), serde_json::Value::String(claims.sub.clone()));
    fields.insert("iat".to_string(), serde_json::Value::from(claims.iat));
    fields.insert("exp".to_string(), serde_json::Value::from(claims.exp));
    jsonwebtoken::encode(&header, &serde_json::Value::Object(fields), &key).ok()
}

/// The long-lived credential holder: identity, key material and fingerprint
/// fixed at construction, plus the cached token and its refresh time.
pub struct SnowflakeAuth {
    pub account_id: String,
    pub normalized_account_id: String,
    pub username: String,
    pub pkcs1_der: Vec<u8>,
    pub spki_der: Ghost<Seq<u8>>,
    pub public_key_fp: String,
    pub refresh_threshold: u64,
    pub expiry_threshold: u64,
    pub last_refreshed: u64,
    pub current_jwt: SecretToken,
}

impl SnowflakeAuth {
    /// Well-formedness: the derived fields agree with the identity they were
    /// derived from, and the cached token is the non-empty RS256 token for
    /// the current claims, signed with `exp = last_refreshed +
    /// expiry_threshold`.
    pub open spec fn wf(self) -> bool {
        &&& self.normalized_account_id@ == normalize_spec(self.account_id@)
        &&& self.public_key_fp@ == fingerprint_of(self.spki_der@)
        &&& self.last_refreshed + self.expiry_threshold <= u64::MAX
        &&& self.current_jwt@ == jwt_of(
            self.pkcs1_der@,
            iss_of(self.normalized_account_id@, self.username@, self.public_key_fp@),
            sub_of(self.normalized_account_id@, self.username@),
            self.last_refreshed,
            (self.last_refreshed + self.expiry_threshold) as u64,
        )
        &&& self.current_jwt@.len() > 0
    }

    /// The fields fixed at construction are shared by the two states.
    pub open spec fn same_identity(pre: Self, post: Self) -> bool {
        &&& post.account_id@ == pre.account_id@
        &&& post.normalized_account_id@ == pre.normalized_account_id@
        &&& post.username@ == pre.username@
        &&& post.pkcs1_der@ == pre.pkcs1_der@
        &&& post.spki_der@ == pre.spki_der@
        &&& post.public_key_fp@ == pre.public_key_fp@
        &&& post.refresh_threshold == pre.refresh_threshold
        &&& post.expiry_threshold == pre.expiry_threshold
    }

    /// Constructs the holder: normalizes the account identifier, derives the
    /// public-key fingerprint, and performs an unconditional first refresh,
    /// so a constructed holder always carries a live token. Fails with
    /// `InvalidKeyMaterial` exactly when the PEM input cannot be decoded —
    /// before any token is produced — and with `SigningFailure` when DER
    /// export or the first signing fails.
    pub fn new(
        account_id: String,
        username: String,
        private_key: String,
        refresh_threshold: u64,
        expiry_threshold: u64,
        now: u64,
    ) -> (r: Result<SnowflakeAuth, AuthError>)
        requires
            now + expiry_threshold <= u64::MAX,
        ensures
            r matches Ok(auth) ==> {
                &&& auth.wf()
                &&& auth.account_id@ == account_id@
                &&& auth.normalized_account_id@ == normalize_spec(account_id@)
                &&& auth.username@ == username@
                &&& auth.refresh_threshold == refresh_threshold
                &&& auth.expiry_threshold == expiry_threshold
                &&& auth.last_refreshed == now
            },
    {
        let key = match decode_private_key_pem(private_key.as_str()) {
            Some(k) => k,
            None => {
                return Err(AuthError::InvalidKeyMaterial);
            },
        };
        let spki = match public_key_spki_der(&key) {
            Some(d) => d,
            None => {
                return Err(AuthError::SigningFailure);
            },
        };
        let pkcs1 = match private_key_pkcs1_der(&key) {
            Some(d) => d,
            None => {
                return Err(AuthError::SigningFailure);
            },
        };
        let fp = gen_public_key_fp(spki.as_slice());
        let normalized = normalize_account_identifier(account_id.as_str());
        let claims = build_claims(
            normalized.as_str(),
            username.as_str(),
            fp.as_str(),
            now,
            expiry_threshold,
        );
        let token = match sign_rs256(pkcs1.as_slice(), &claims) {
            Some(t) => t,
            None => {
                return Err(AuthError::SigningFailure);
            },
        };
        Ok(
            SnowflakeAuth {
                normalized_account_id: normalized,
                account_id,
                username,
                pkcs1_der: pkcs1,
                spki_der: Ghost(spki@),
                public_key_fp: fp,
                refresh_threshold,
                expiry_threshold,
                last_refreshed: now,
                current_jwt: SecretToken::wrap(token),
            },
        )
    }

    /// Re-signs the token with `now` as the issue time. On failure the
    /// holder is left exactly as it was: a failed refresh never overwrites
    /// the previously valid token.
    fn refresh_jwt(&mut self, now: u64) -> (r: Result<(), AuthError>)
        requires
            old(self).wf(),
            now + old(self).expiry_threshold <= u64::MAX,
        ensures
            final(self).wf(),
            Self::same_identity(*old(self), *final(self)),
            r matches Ok(_) ==> final(self).last_refreshed == now,
            r matches Err(_) ==> *final(self) == *old(self),
    {
        let claims = build_claims(
            self.normalized_account_id.as_str(),
            self.username.as_str(),
            self.public_key_fp.as_str(),
            now,
            self.expiry_threshold,
        );
        match sign_rs256(self.pkcs1_der.as_slice(), &claims) {
            Some(t) => {
                self.last_refreshed = now;
                self.current_jwt = SecretToken::wrap(t);
                Ok(())
            },
            None => Err(AuthError::SigningFailure),
        }
    }

    /// Serves the live token. While `now` lies short of `last_refreshed +
    /// refresh_threshold` the cached token is returned byte-identical and
    /// the holder is untouched; once the threshold has elapsed, exactly one
    /// refresh is performed, recording `now` as the new issue time. A failed
    /// refresh surfaces its error and leaves the holder unchanged.
    pub fn get_jwt(&mut self, now: u64) -> (r: Result<SecretToken, AuthError>)
        requires
            old(self).wf(),
            now + old(self).expiry_threshold <= u64::MAX,
        ensures
            final(self).wf(),
            Self::same_identity(*old(self), *final(self)),
            now < old(self).last_refreshed + old(self).refresh_threshold ==> {
                &&& *final(self) == *old(self)
                &&& r matches Ok(t) && t@ == old(self).current_jwt@
            },
            now >= old(self).last_refreshed + old(self).refresh_threshold ==> match r {
                Ok(t) => final(self).last_refreshed == now && t@ == final(self).current_jwt@,
                Err(_) => *final(self) == *old(self),
            },
            r matches Ok(t) ==> t@ == final(self).current_jwt@,
    {
        let stale = match self.last_refreshed.checked_add(self.refresh_threshold) {
            Some(limit) => now >= limit,
            None => false,
        };
        if stale {
            match self.refresh_jwt(now) {
                Ok(_) => {},
                Err(e) => {
                    return Err(e);
                },
            }
        }
        Ok(SecretToken::wrap(self.current_jwt.expose_secret().clone()))
    }
}

/// Once the refresh threshold has elapsed, a successful refresh records a
/// strictly greater issue time than the token it replaces carried.
pub proof fn lemma_stale_refresh_increases_iat(auth: SnowflakeAuth, now: u64)
    requires
        auth.refresh_threshold >= 1,
        now >= auth.last_refreshed + auth.refresh_threshold,
    ensures
        now > auth.last_refreshed,
{
}

/// A holder that has just refreshed at `now` is fresh for any caller at the
/// same instant: of several callers that observe staleness together, only
/// the first performs a signing, and the rest read its result.
pub proof fn lemma_single_refresh_per_instant(auth: SnowflakeAuth, now: u64)
    requires
        auth.refresh_threshold >= 1,
        auth.last_refreshed == now,
    ensures
        now < auth.last_refreshed + auth.refresh_threshold,
{
}

} // verus!
