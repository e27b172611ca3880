//! The errors a request signature or a token can fail with, and their names
//! on the wire.

use vstd::prelude::*;
use vstd::string::*;

use crate::text::views;

verus! {

/// The machine-readable error codes of the `Signature-Error` header.
#[derive(Debug, PartialEq, Eq)]
pub enum SigErrorCode {
    InvalidRequest,
    InvalidInput,
    InvalidSignature,
    UnsupportedScheme,
    UnsupportedAlgorithm,
    InvalidKey,
    UnknownKey,
    IssuerMissing,
    IssuerMismatch,
    InvalidJwt,
    ExpiredJwt,
    /// Any other code, by its name.
    Other(String),
}

impl Clone for SigErrorCode {
    fn clone(&self) -> (r: Self)
        ensures
            r == *self,
    {
        match self {
            SigErrorCode::InvalidRequest => SigErrorCode::InvalidRequest,
            SigErrorCode::InvalidInput => SigErrorCode::InvalidInput,
            SigErrorCode::InvalidSignature => SigErrorCode::InvalidSignature,
            SigErrorCode::UnsupportedScheme => SigErrorCode::UnsupportedScheme,
            SigErrorCode::UnsupportedAlgorithm => SigErrorCode::UnsupportedAlgorithm,
            SigErrorCode::InvalidKey => SigErrorCode::InvalidKey,
            SigErrorCode::UnknownKey => SigErrorCode::UnknownKey,
            SigErrorCode::IssuerMissing => SigErrorCode::IssuerMissing,
            SigErrorCode::IssuerMismatch => SigErrorCode::IssuerMismatch,
            SigErrorCode::InvalidJwt => SigErrorCode::InvalidJwt,
            SigErrorCode::ExpiredJwt => SigErrorCode::ExpiredJwt,
            SigErrorCode::Other(name) => SigErrorCode::Other(name.clone()),
        }
    }
}

impl SigErrorCode {
    /// The code's name on the wire.
    pub open spec fn name(self) -> Seq<char> {
        match self {
            SigErrorCode::InvalidRequest => "invalid_request"@,
            SigErrorCode::InvalidInput => "invalid_input"@,
            SigErrorCode::InvalidSignature => "invalid_signature"@,
            SigErrorCode::UnsupportedScheme => "unsupported_scheme"@,
            SigErrorCode::UnsupportedAlgorithm => "unsupported_algorithm"@,
            SigErrorCode::InvalidKey => "invalid_key"@,
            SigErrorCode::UnknownKey => "unknown_key"@,
            SigErrorCode::IssuerMissing => "issuer_missing"@,
            SigErrorCode::IssuerMismatch => "issuer_mismatch"@,
            SigErrorCode::InvalidJwt => "invalid_jwt"@,
            SigErrorCode::ExpiredJwt => "expired_jwt"@,
            SigErrorCode::Other(name) => name@,
        }
    }

    /// The code's name on the wire.
    pub fn as_str(&self) -> (r: &str)
        ensures
            r@ == self.name(),
    {
        match self {
            SigErrorCode::InvalidRequest => "invalid_request",
            SigErrorCode::InvalidInput => "invalid_input",
            SigErrorCode::InvalidSignature => "invalid_signature",
            SigErrorCode::UnsupportedScheme => "unsupported_scheme",
            SigErrorCode::UnsupportedAlgorithm => "unsupported_algorithm",
            SigErrorCode::InvalidKey => "invalid_key",
            SigErrorCode::UnknownKey => "unknown_key",
            SigErrorCode::IssuerMissing => "issuer_missing",
            SigErrorCode::IssuerMismatch => "issuer_mismatch",
            SigErrorCode::InvalidJwt => "invalid_jwt",
            SigErrorCode::ExpiredJwt => "expired_jwt",
            SigErrorCode::Other(name) => name.as_str(),
        }
    }
}

/// Why a credential was refused.
#[derive(Debug)]
pub struct SigError {
    pub code: SigErrorCode,
    /// What went wrong, for the operator.
    pub detail: String,
    /// The components a signature has to cover, when it covered too few.
    pub required_input: Option<Vec<String>>,
}

/// The content of a [`SigError`].
pub ghost struct SigErrorView {
    pub code: SigErrorCode,
    pub detail: Seq<char>,
    pub required_input: Option<Seq<Seq<char>>>,
}

impl View for SigError {
    type V = SigErrorView;

    open spec fn view(&self) -> SigErrorView {
        SigErrorView {
            code: self.code,
            detail: self.detail@,
            required_input: match self.required_input {
                Some(v) => Some(views(v@)),
                None => None,
            },
        }
    }
}

/// An error that names no required components.
pub open spec fn sig_error(code: SigErrorCode, detail: Seq<char>) -> SigErrorView {
    SigErrorView { code, detail, required_input: None }
}

impl SigError {
    /// An error that names no required components.
    pub fn new(code: SigErrorCode, detail: String) -> (r: Self)
        ensures
            r@ == sig_error(code, detail@),
    {
        SigError { code, detail, required_input: None }
    }
}

/// The earlier of two optional stops.
pub open spec fn either<T>(a: Option<T>, b: Option<T>) -> Option<T> {
    if a is Some {
        a
    } else {
        b
    }
}

/// A copy of a list of strings.
pub fn copy_strings(v: &Vec<String>) -> (r: Vec<String>)
    ensures
        r@ == v@,
{
    let mut out: Vec<String> = Vec::new();
    let mut i: usize = 0;
    while i < v.len()
        invariant
            i <= v@.len(),
            out@ == v@.take(i as int),
        decreases v@.len() - i,
    {
        out.push(v[i].clone());
        i = i + 1;
    }
    assert(v@.take(i as int) =~= v@);
    out
}

impl Clone for SigError {
    fn clone(&self) -> (r: Self)
        ensures
            r@ == self@,
    {
        SigError {
            code: self.code.clone(),
            detail: self.detail.clone(),
            required_input: match &self.required_input {
                Some(v) => Some(copy_strings(v)),
                None => None,
            },
        }
    }
}

/// What about a token's signature or its issuer's key failed.
#[derive(Debug, Clone, Copy, PartialEq, Eq, Structural)]
pub enum JwtErrorKind {
    /// The key carries no `alg`.
    KeyMissingAlg,
    /// The key's or the token's `alg` is not an accepted one.
    UnsupportedAlgorithm,
    /// `Ed448`, which is permitted but has no backend.
    UnimplementedAlgorithmEd448,
    /// The key's members contradict each other.
    InconsistentKey,
    /// Anything else, a wrong signature among it.
    Other,
}

/// A failed check of a token's signature, in the wording of whoever checked it.
#[derive(Debug)]
pub struct JwtError {
    pub kind: JwtErrorKind,
    pub text: String,
}

} // verus!
