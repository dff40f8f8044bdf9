//! JWT claims construction.
//!
//! The identity provider expects an issuer claim of the form
//! `<normalized account>.<UPPERCASE username>.<fingerprint>`, a subject claim
//! of the form `<normalized account>.<UPPERCASE username>`, an issue time,
//! and an expiry exactly `expiry_threshold` seconds after the issue time.

use crate::normalize::to_upper;
use crate::normalize::upper_of;
use vstd::prelude::*;

verus! {

/// The claims carried by a signed token.
pub struct JwtClaims {
    pub iss: String,
    pub sub: String,
    pub iat: u64,
    pub exp: u64,
}

/// The issuer claim: normalized account identifier, uppercased username and
/// public-key fingerprint, joined by `.`.
pub open spec fn iss_of(norm_account: Seq<char>, username: Seq<char>, fp: Seq<char>) -> Seq<char> {
    norm_account + "."@ + upper_of(username) + "."@ + fp
}

/// The subject claim: normalized account identifier and uppercased username,
/// joined by `.`.
pub open spec fn sub_of(norm_account: Seq<char>, username: Seq<char>) -> Seq<char> {
    norm_account + "."@ + upper_of(username)
}

/// Builds the claims for one token: the dotted issuer and subject forms, the
/// given issue time, and an expiry exactly `expiry_threshold` seconds later.
pub fn build_claims(
    normalized_account_id: &str,
    username: &str,
    public_key_fp: &str,
    issued_at: u64,
    expiry_threshold: u64,
) -> (c: JwtClaims)
    requires
        issued_at + expiry_threshold <= u64::MAX,
    ensures
        c.iss@ == iss_of(normalized_account_id@, username@, public_key_fp@),
        c.sub@ == sub_of(normalized_account_id@, username@),
        c.iat == issued_at,
        c.exp == issued_at + expiry_threshold,
        c.exp - c.iat == expiry_threshold,
{
    let upper_user = to_upper(username);
    let mut sub = String::from_str(normalized_account_id);
    sub.append(".");
    sub.append(upper_user.as_str());
    let mut iss = sub.clone();
    iss.append(".");
    iss.append(public_key_fp);
    proof {
        assert(sub@ =~= sub_of(normalized_account_id@, username@));
        assert(iss@ =~= iss_of(normalized_account_id@, username@, public_key_fp@));
    }
    JwtClaims { iss, sub, iat: issued_at, exp: issued_at + expiry_threshold }
}

} // verus!
