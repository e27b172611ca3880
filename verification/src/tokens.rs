//! Keys, decoded tokens and validated claims, as plain values.

use vstd::prelude::*;
use vstd::string::*;

verus! {

/// `typ` of an agent token.
pub const TYP_AGENT: &'static str = "aa-agent+jwt";

/// `typ` of a person token.
pub const TYP_PERSON: &'static str = "aa-person+jwt";

/// `typ` of an auth token.
pub const TYP_AUTH: &'static str = "aa-auth+jwt";

/// Longest lifetime of an agent token, in seconds: 24 hours.
pub const AGENT_TOKEN_MAX_TTL_SECS: u64 = 86_400;

/// A public key: an OKP key on Ed25519, or an EC key on P-256 (which has `y`).
#[derive(Debug)]
pub struct Jwk {
    pub kty: String,
    pub crv: String,
    pub x: String,
    pub y: Option<String>,
    pub alg: Option<String>,
    pub kid: Option<String>,
}

impl Clone for Jwk {
    fn clone(&self) -> (r: Self)
        ensures
            r == *self,
    {
        Jwk {
            kty: self.kty.clone(),
            crv: self.crv.clone(),
            x: self.x.clone(),
            y: self.y.clone(),
            alg: self.alg.clone(),
            kid: self.kid.clone(),
        }
    }
}

/// A key that an issuer publishes under a `kid`.
#[derive(Debug)]
pub struct PublishedKey {
    pub kid: String,
    /// The key, unless it is of a type or an algorithm that is not implemented.
    pub key: Option<Jwk>,
}

/// An issuer's key set.
#[derive(Debug)]
pub struct Jwks {
    pub keys: Vec<PublishedKey>,
}

/// The first implemented key under the `kid`, among those from `from` on.
pub open spec fn find_from(keys: Seq<PublishedKey>, kid: Seq<char>, from: nat) -> Option<Jwk>
    decreases keys.len() - from,
{
    if from >= keys.len() {
        None
    } else if keys[from as int].kid@ == kid && keys[from as int].key is Some {
        keys[from as int].key
    } else {
        find_from(keys, kid, from + 1)
    }
}

impl Jwks {
    /// The first implemented key under the `kid`.
    pub open spec fn lookup(self, kid: Seq<char>) -> Option<Jwk> {
        find_from(self.keys@, kid, 0)
    }

    /// Whether there is a key under the `kid`, implemented or not.
    pub open spec fn names(self, kid: Seq<char>) -> bool {
        exists|i: int| 0 <= i < self.keys@.len() && (#[trigger] self.keys@[i]).kid@ == kid
    }

    /// The first implemented key under the `kid`.
    pub fn find(&self, kid: &str) -> (r: Option<Jwk>)
        ensures
            r == self.lookup(kid@),
    {
        let mut i: usize = 0;
        while i < self.keys.len()
            invariant
                i <= self.keys@.len(),
                self.lookup(kid@) == find_from(self.keys@, kid@, i as nat),
            decreases self.keys@.len() - i,
        {
            if *self.keys[i].kid.as_str() == *kid {
                if let Some(key) = &self.keys[i].key {
                    return Some(key.clone());
                }
            }
            i = i + 1;
        }
        None
    }

    /// Whether there is a key under the `kid`, implemented or not.
    pub fn kid_present(&self, kid: &str) -> (r: bool)
        ensures
            r == self.names(kid@),
    {
        let mut i: usize = 0;
        while i < self.keys.len()
            invariant
                i <= self.keys@.len(),
                forall|j: int| 0 <= j < i ==> (#[trigger] self.keys@[j]).kid@ != kid@,
            decreases self.keys@.len() - i,
        {
            if *self.keys[i].kid.as_str() == *kid {
                assert(self.keys@[i as int].kid@ == kid@);
                return true;
            }
            i = i + 1;
        }
        false
    }
}

/// A published key that is not implemented never stands in the way of another
/// one: without it, the same key is found under every `kid`.
pub proof fn unusable_siblings_do_not_matter(keys: Seq<PublishedKey>, at: int, kid: Seq<char>)
    requires
        0 <= at < keys.len(),
        keys[at].key is None,
    ensures
        find_from(keys, kid, 0) == find_from(keys.remove(at), kid, 0),
{
    lemma_find_without(keys, at, kid, 0);
}

proof fn lemma_find_without(keys: Seq<PublishedKey>, at: int, kid: Seq<char>, from: nat)
    requires
        0 <= at < keys.len(),
        keys[at].key is None,
        from <= keys.len(),
    ensures
        from <= at ==> find_from(keys, kid, from) == find_from(keys.remove(at), kid, from),
        from > at ==> find_from(keys, kid, from) == find_from(
            keys.remove(at),
            kid,
            (from - 1) as nat,
        ),
    decreases keys.len() - from,
{
    if from < keys.len() {
        lemma_find_without(keys, at, kid, from + 1);
    }
}

/// The `cnf` claim: the key that has to sign the request.
#[derive(Debug)]
pub struct Confirmation {
    pub jwk: Jwk,
}

/// The validated claims of an agent token.
#[derive(Debug)]
pub struct AgentTokenClaims {
    pub iss: String,
    /// `aauth:local@domain`.
    pub sub: String,
    pub jti: String,
    pub cnf: Confirmation,
    pub iat: u64,
    pub exp: u64,
    pub ps: Option<String>,
    pub parent_agent: Option<String>,
}

/// The validated claims of a person token.
#[derive(Debug)]
pub struct PersonTokenClaims {
    pub iss: String,
    /// An opaque identifier, unique under `iss` only.
    pub sub: String,
    pub aud: String,
    pub jti: String,
    pub cnf: Confirmation,
    pub iat: u64,
    pub exp: u64,
    pub mission_s256: Option<String>,
    pub tenant: Option<String>,
}

/// The validated claims of an auth token.
#[derive(Debug)]
pub struct AuthTokenClaims {
    pub iss: String,
    pub sub: String,
    pub aud: String,
    pub jti: String,
    /// The person server that vouches for `sub`.
    pub ps: String,
    pub cnf: Confirmation,
    pub iat: u64,
    pub exp: u64,
    /// The granted scopes, one by one.
    pub scopes: Vec<String>,
    pub account: Option<String>,
    pub mission_s256: Option<String>,
    pub tenant: Option<String>,
}

/// The JOSE header of a token.
#[derive(Debug)]
pub struct JwtHeader {
    pub alg: String,
    pub typ: Option<String>,
    pub kid: Option<String>,
}

/// A token taken apart, with nothing verified yet.
#[derive(Debug)]
pub struct DecodedJwt {
    pub header: JwtHeader,
    pub payload: serde_json::Value,
}

/// How the `Signature-Key` header conveys the signing key.
#[derive(Debug)]
pub enum SigKeyScheme {
    /// Inside the given token.
    Jwt(String),
    /// In any other way.
    Other,
}

/// The three signature headers, parsed and structurally valid.
#[derive(Debug)]
pub struct ParsedSignature {
    pub scheme: SigKeyScheme,
    /// The `created` parameter, in unix seconds.
    pub created: i64,
}

} // verus!
