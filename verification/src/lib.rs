//! Inbound AAuth identity resolution.
//!
//! A request that is signed under AAuth presents a token whose issuer vouches
//! for an agent or a person, and a signature under the key that the token
//! confirms. This crate decides what such a request proves: [`verification`]
//! holds the checks and their order, [`headers`] the fields that they read,
//! [`egress`] and [`jwks`] which keys may be fetched from where and how long they
//! are served, [`replay`] which requests
//! were seen before, [`config`] what the operator trusts, and [`identity`] the
//! gateway identity that follows. [`guarantees`] states what holds of every
//! verification, [`laws`] what each operation does for its inputs.
//!
//! None of it performs input or output. Where a decision waits for outside
//! work, a function names the one action it needs next; its caller performs it,
//! records the result and calls again.

pub mod config;
pub mod egress;
pub mod error;
pub mod guarantees;
pub mod headers;
pub mod identity;
pub mod ip;
pub mod json;
pub mod jwks;
pub mod laws;
pub mod replay;
pub mod text;
pub mod tokens;
pub mod url;
pub mod verification;

pub use config::AauthConfig;
pub use identity::AauthIdentityPlugin;
