//! Key-pair credential maintenance for a Snowflake-style identity provider:
//! account-identifier normalization, public-key fingerprinting, JWT claims
//! construction, and a cached, lazily refreshed signed token.

pub mod auth;
pub mod claims;
pub mod fingerprint;
pub mod normalize;
