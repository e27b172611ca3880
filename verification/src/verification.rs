//! Verification of one inbound request.
//!
//! Two cryptographic proofs make an AAuth request trustworthy: the issuer's
//! key signs the presented token, and the token's `cnf.jwk` signs the request.
//! This module holds the policy around them: which checks run, in which order,
//! on which values, and what each of their results means.
//!
//! [`verify`] performs no outside work itself. It is given the [`Evidence`]
//! gathered so far and either concludes or names the one [`Action`] whose
//! result it needs next. The caller performs the action, records its result in
//! the evidence and calls again.

use vstd::prelude::*;
use vstd::string::*;

use crate::config::AauthConfig;
use crate::error::{copy_strings, either, sig_error, JwtError, JwtErrorKind, SigError, SigErrorCode, SigErrorView};
use crate::headers::{
    field_map, has_any_signature, header_fields, listed_fields, presents_credential,
};
use crate::json::{self, member};
use crate::replay::{self, ReplayGuard};
use crate::text::{self, decimal, occurs, trimmed, views};
use crate::tokens::{
    AgentTokenClaims, AuthTokenClaims, DecodedJwt, Jwk, ParsedSignature, PersonTokenClaims,
    SigKeyScheme, AGENT_TOKEN_MAX_TTL_SECS, TYP_AGENT, TYP_AUTH, TYP_PERSON,
};

verus! {

/// Well-known document of an Agent Provider.
pub const AGENT_DWK: &'static str = "aauth-agent.json";

/// Well-known document of a Person Server.
pub const PERSON_DWK: &'static str = "aauth-person.json";

/// Well-known document of an Access Server.
pub const ACCESS_DWK: &'static str = "aauth-access.json";

/// Resolves an issuer's verifying key for a `(iss, dwk, kid)`. A seam, so that
/// a verification can be driven with or without a network.
pub trait KeyResolver {
    /// The key, from a cache where possible.
    fn get_key(&self, iss: &str, dwk: &str, kid: &str) -> Result<Jwk, SigError>;

    /// The key, fetched anew.
    fn refresh_and_get(&self, iss: &str, dwk: &str, kid: &str) -> Result<Jwk, SigError>;
}

// --- conclusions -------------------------------------------------------------------

/// The verified identity, by the kind of credential that was presented.
#[derive(Debug)]
pub enum VerifiedIdentity {
    /// `aa-agent+jwt`: the agent, keyed by `sub`.
    Agent(AgentTokenClaims),
    /// `aa-person+jwt`: the person, keyed by `(iss, sub)`.
    Person(PersonTokenClaims),
    /// `aa-auth+jwt`: the person `(ps, sub)` and what is granted.
    Auth(AuthTokenClaims),
}

/// What was concluded about a request.
#[derive(Debug)]
pub enum Outcome {
    /// No AAuth credential was presented.
    NoCredential,
    /// A valid identity, bound to this request by proof of possession.
    Verified(Box<VerifiedIdentity>),
    /// A credential was presented but failed verification.
    Rejected(SigError),
}

/// The content of an [`Outcome`].
pub ghost enum OutcomeView {
    NoCredential,
    Verified(VerifiedIdentity),
    Rejected(SigErrorView),
}

impl View for Outcome {
    type V = OutcomeView;

    open spec fn view(&self) -> OutcomeView {
        match *self {
            Outcome::NoCredential => OutcomeView::NoCredential,
            Outcome::Verified(v) => OutcomeView::Verified(*v),
            Outcome::Rejected(e) => OutcomeView::Rejected(e@),
        }
    }
}

/// The kinds of credential.
#[derive(Debug, Clone, Copy, PartialEq, Eq, Structural)]
pub enum TokenKind {
    Agent,
    Person,
    Auth,
}

// --- outside work ------------------------------------------------------------------

/// The request as the signature covers it.
#[derive(Debug)]
pub struct RequestParts {
    pub method: String,
    pub authority: String,
    pub path: String,
    pub query: String,
    /// The header fields, each once, under its name in lower case.
    pub fields: Vec<(String, String)>,
}

/// What a request signature has to satisfy structurally.
#[derive(Debug)]
pub struct VerifyPolicy {
    /// The current time, unix seconds.
    pub now: u64,
    /// Symmetric window around `now` that `created` has to fall into.
    pub window_secs: u64,
    /// Components to be covered beyond the mandatory ones.
    pub extra_required: Vec<String>,
}

/// Names an issuer's key.
#[derive(Debug)]
pub struct KeyRequest {
    pub iss: String,
    pub dwk: String,
    pub kid: String,
}

/// Outside work that a verification waits for. Each action has its own slot in
/// the [`Evidence`]. The signature and the token that later actions speak of are
/// those in the evidence that is handed back with them.
#[derive(Debug)]
pub enum Action {
    /// Parse the signature fields among `parts` under the policy, and take the
    /// covered components from `parts`: `Evidence::signature`.
    ParseSignature { parts: RequestParts, policy: VerifyPolicy },
    /// Take the token apart: `Evidence::token`.
    DecodeToken { token: String },
    /// Check a token's `alg`: `Evidence::algorithm`.
    CheckAlgorithm { alg: String },
    /// Check that an issuer is a server identifier: `Evidence::issuer_valid`.
    CheckIssuer { iss: String, insecure_dev: bool },
    /// Resolve the issuer's key: `Evidence::key`.
    GetKey(KeyRequest),
    /// Verify the token under the key: `Evidence::token_signature`.
    VerifyToken { key: Jwk },
    /// Fetch the issuer's key anew: `Evidence::refreshed_key`.
    RefreshKey(KeyRequest),
    /// Verify the token under the new key: `Evidence::refreshed_signature`.
    VerifyTokenAgain { key: Jwk },
    /// Validate an agent token's claims: `Evidence::agent_claims`.
    ValidateAgent { now: u64, insecure_dev: bool },
    /// Validate a person token's claims: `Evidence::person_claims`.
    ValidatePerson { now: u64, resource_id: String, insecure_dev: bool },
    /// Validate an auth token's claims: `Evidence::auth_claims`.
    ValidateAuth { now: u64, resource_id: String, dwk: String, insecure_dev: bool },
    /// Verify the request's signature under the key: `Evidence::possession`.
    VerifyPossession { key: Jwk },
    /// Compute the key's RFC 7638 thumbprint: `Evidence::thumbprint`.
    Thumbprint { key: Jwk },
}

/// The content of a [`KeyRequest`].
pub ghost struct KeyRequestView {
    pub iss: Seq<char>,
    pub dwk: Seq<char>,
    pub kid: Seq<char>,
}

impl View for KeyRequest {
    type V = KeyRequestView;

    open spec fn view(&self) -> KeyRequestView {
        KeyRequestView { iss: self.iss@, dwk: self.dwk@, kid: self.kid@ }
    }
}

/// The content of a [`RequestParts`].
pub ghost struct RequestView {
    pub method: Seq<char>,
    pub authority: Seq<char>,
    pub path: Seq<char>,
    pub query: Seq<char>,
    /// The header fields by their names in lower case.
    pub fields: Map<Seq<char>, Seq<char>>,
}

/// The content of an [`Action`].
pub ghost enum ActionView {
    ParseSignature {
        parts: RequestView,
        now: u64,
        window_secs: u64,
        extra_required: Seq<Seq<char>>,
    },
    DecodeToken { token: Seq<char> },
    CheckAlgorithm { alg: Seq<char> },
    CheckIssuer { iss: Seq<char>, insecure_dev: bool },
    GetKey(KeyRequestView),
    VerifyToken { key: Jwk },
    RefreshKey(KeyRequestView),
    VerifyTokenAgain { key: Jwk },
    ValidateAgent { now: u64, insecure_dev: bool },
    ValidatePerson { now: u64, resource_id: Seq<char>, insecure_dev: bool },
    ValidateAuth { now: u64, resource_id: Seq<char>, dwk: Seq<char>, insecure_dev: bool },
    VerifyPossession { key: Jwk },
    Thumbprint { key: Jwk },
}

impl View for Action {
    type V = ActionView;

    open spec fn view(&self) -> ActionView {
        match *self {
            Action::ParseSignature { parts, policy } => ActionView::ParseSignature {
                parts: RequestView {
                    method: parts.method@,
                    authority: parts.authority@,
                    path: parts.path@,
                    query: parts.query@,
                    fields: listed_fields(parts.fields@),
                },
                now: policy.now,
                window_secs: policy.window_secs,
                extra_required: views(policy.extra_required@),
            },
            Action::DecodeToken { token } => ActionView::DecodeToken { token: token@ },
            Action::CheckAlgorithm { alg } => ActionView::CheckAlgorithm { alg: alg@ },
            Action::CheckIssuer { iss, insecure_dev } => {
                ActionView::CheckIssuer { iss: iss@, insecure_dev }
            },
            Action::GetKey(k) => ActionView::GetKey(k@),
            Action::VerifyToken { key } => ActionView::VerifyToken { key },
            Action::RefreshKey(k) => ActionView::RefreshKey(k@),
            Action::VerifyTokenAgain { key } => ActionView::VerifyTokenAgain { key },
            Action::ValidateAgent { now, insecure_dev } => {
                ActionView::ValidateAgent { now, insecure_dev }
            },
            Action::ValidatePerson { now, resource_id, insecure_dev } => {
                ActionView::ValidatePerson { now, resource_id: resource_id@, insecure_dev }
            },
            Action::ValidateAuth { now, resource_id, dwk, insecure_dev } => {
                ActionView::ValidateAuth {
                    now,
                    resource_id: resource_id@,
                    dwk: dwk@,
                    insecure_dev,
                }
            },
            Action::VerifyPossession { key } => ActionView::VerifyPossession { key },
            Action::Thumbprint { key } => ActionView::Thumbprint { key },
        }
    }
}

/// The results of the outside work done so far. A slot is `None` until its
/// action has been performed.
#[derive(Debug)]
pub struct Evidence {
    pub signature: Option<Result<ParsedSignature, SigError>>,
    /// The decoded token, or why it is malformed.
    pub token: Option<Result<DecodedJwt, String>>,
    /// Whether the token's `alg` is acceptable, or why not.
    pub algorithm: Option<Result<(), String>>,
    pub issuer_valid: Option<bool>,
    pub key: Option<Result<Jwk, SigError>>,
    pub token_signature: Option<Result<(), JwtError>>,
    pub refreshed_key: Option<Result<Jwk, SigError>>,
    pub refreshed_signature: Option<Result<(), JwtError>>,
    pub agent_claims: Option<Result<AgentTokenClaims, String>>,
    pub person_claims: Option<Result<PersonTokenClaims, String>>,
    pub auth_claims: Option<Result<AuthTokenClaims, String>>,
    pub possession: Option<Result<(), SigError>>,
    /// The thumbprint of the confirmation key, where it has one.
    pub thumbprint: Option<Option<String>>,
}

impl Evidence {
    /// No work done yet.
    pub open spec fn empty() -> Evidence {
        Evidence {
            signature: None,
            token: None,
            algorithm: None,
            issuer_valid: None,
            key: None,
            token_signature: None,
            refreshed_key: None,
            refreshed_signature: None,
            agent_claims: None,
            person_claims: None,
            auth_claims: None,
            possession: None,
            thumbprint: None,
        }
    }

    /// No work done yet.
    pub fn new() -> (r: Self)
        ensures
            r == Evidence::empty(),
    {
        Evidence {
            signature: None,
            token: None,
            algorithm: None,
            issuer_valid: None,
            key: None,
            token_signature: None,
            refreshed_key: None,
            refreshed_signature: None,
            agent_claims: None,
            person_claims: None,
            auth_claims: None,
            possession: None,
            thumbprint: None,
        }
    }
}

/// How far a verification has come.
#[derive(Debug)]
pub enum Progress {
    Done(Outcome),
    /// The next action, with the evidence handed back for it.
    Needs(Action, Box<Evidence>),
}

/// The content of a [`Progress`].
pub ghost enum ProgressView {
    Done(OutcomeView),
    Needs(ActionView),
}

impl View for Progress {
    type V = ProgressView;

    open spec fn view(&self) -> ProgressView {
        match *self {
            Progress::Done(o) => ProgressView::Done(o@),
            Progress::Needs(a, _) => ProgressView::Needs(a@),
        }
    }
}

/// Where a check stops a verification.
#[derive(Debug)]
pub enum Stop {
    Needs(Action),
    Reject(SigError),
}

/// The content of a [`Stop`].
pub ghost enum StopView {
    Needs(ActionView),
    Reject(SigErrorView),
}

impl View for Stop {
    type V = StopView;

    open spec fn view(&self) -> StopView {
        match *self {
            Stop::Needs(a) => StopView::Needs(a@),
            Stop::Reject(e) => StopView::Reject(e@),
        }
    }
}

/// The content of an optional [`Stop`].
pub open spec fn stop_view(stop: Option<Stop>) -> Option<StopView> {
    match stop {
        Some(s) => Some(s@),
        None => None,
    }
}

/// A stop that rejects.
pub open spec fn rejects(code: SigErrorCode, detail: Seq<char>) -> Option<StopView> {
    Some(StopView::Reject(sig_error(code, detail)))
}

fn reject(code: SigErrorCode, detail: String) -> (r: Option<Stop>)
    ensures
        stop_view(r) == rejects(code, detail@),
{
    Some(Stop::Reject(SigError::new(code, detail)))
}

// --- the token -----------------------------------------------------------------------

/// The token that the signature's key is conveyed in.
pub open spec fn token_of(ev: Evidence) -> Seq<char> {
    match ev.signature {
        Some(Ok(p)) => match p.scheme {
            SigKeyScheme::Jwt(t) => t@,
            SigKeyScheme::Other => Seq::empty(),
        },
        _ => Seq::empty(),
    }
}

/// The decoded token.
pub open spec fn decoded_of(ev: Evidence) -> DecodedJwt {
    ev.token->Some_0->Ok_0
}

/// The parsed signature.
pub open spec fn parsed_of(ev: Evidence) -> ParsedSignature {
    ev.signature->Some_0->Ok_0
}

/// The token's `iss`; empty when it has none.
pub open spec fn iss_of(decoded: DecodedJwt) -> Seq<char> {
    match member(decoded.payload, "iss"@) {
        Some(s) => s,
        None => Seq::empty(),
    }
}

/// The token's `kid`; empty when it has none.
pub open spec fn kid_of(decoded: DecodedJwt) -> Seq<char> {
    match decoded.header.kid {
        Some(s) => s@,
        None => Seq::empty(),
    }
}

/// The token's `dwk`; empty when it has none.
pub open spec fn dwk_of(decoded: DecodedJwt) -> Seq<char> {
    match member(decoded.payload, "dwk"@) {
        Some(s) => s,
        None => Seq::empty(),
    }
}

/// The token's `typ`; empty when it has none.
pub open spec fn typ_of(decoded: DecodedJwt) -> Seq<char> {
    match decoded.header.typ {
        Some(s) => s@,
        None => Seq::empty(),
    }
}

/// Why a token does not name its issuer's key, when it does not.
pub open spec fn naming_error(decoded: DecodedJwt, what: Seq<char>) -> Option<SigErrorView> {
    if member(decoded.payload, "iss"@) is None {
        Some(sig_error(SigErrorCode::InvalidJwt, what + " has no `iss`"@))
    } else if decoded.header.kid is None {
        Some(sig_error(SigErrorCode::InvalidJwt, what + " header has no `kid`"@))
    } else {
        None
    }
}

/// The `iss` and the `kid` that a token names.
pub fn issuer_and_kid(decoded: &DecodedJwt, what: &str) -> (r: Result<(String, String), SigError>)
    ensures
        match r {
            Ok((iss, kid)) => naming_error(*decoded, what@) is None && iss@ == iss_of(*decoded)
                && kid@ == kid_of(*decoded),
            Err(e) => naming_error(*decoded, what@) == Some(e@),
        },
{
    let iss = match json::string_member(&decoded.payload, "iss") {
        Some(s) => s,
        None => {
            return Err(
                SigError::new(SigErrorCode::InvalidJwt, what.to_owned().concat(" has no `iss`")),
            );
        },
    };
    match &decoded.header.kid {
        Some(kid) => Ok((iss, kid.clone())),
        None => Err(
            SigError::new(SigErrorCode::InvalidJwt, what.to_owned().concat(" header has no `kid`")),
        ),
    }
}

/// Why a token's `dwk` is not the expected one, when it is not.
pub open spec fn dwk_error(decoded: DecodedJwt, expected: Seq<char>, what: Seq<char>) -> Option<
    SigErrorView,
> {
    if dwk_of(decoded) == expected {
        None
    } else {
        Some(
            sig_error(
                SigErrorCode::InvalidJwt,
                what + " `dwk` must be '"@ + expected + "', got '"@ + dwk_of(decoded) + "'"@,
            ),
        )
    }
}

/// Pins the well-known document name. It is fixed by the token's kind, and
/// checking it before any fetch keeps a hostile value out of the metadata URL.
pub fn require_dwk(decoded: &DecodedJwt, expected: &str, what: &str) -> (r: Result<(), SigError>)
    ensures
        match r {
            Ok(_) => dwk_error(*decoded, expected@, what@) is None,
            Err(e) => dwk_error(*decoded, expected@, what@) == Some(e@),
        },
{
    let dwk = match json::string_member(&decoded.payload, "dwk") {
        Some(s) => s,
        None => String::new(),
    };
    if *dwk.as_str() == *expected {
        Ok(())
    } else {
        Err(
            SigError::new(
                SigErrorCode::InvalidJwt,
                what.to_owned().concat(" `dwk` must be '").concat(expected).concat(
                    "', got '",
                ).concat(dwk.as_str()).concat("'"),
            ),
        )
    }
}

/// The error for claims that failed validation.
pub open spec fn claims_failure(detail: Seq<char>, what: Seq<char>) -> SigErrorView {
    sig_error(
        if occurs(detail, "expired"@) {
            SigErrorCode::ExpiredJwt
        } else {
            SigErrorCode::InvalidJwt
        },
        what + " rejected: "@ + detail,
    )
}

/// Maps a claims-validation failure onto the wire error codes.
pub fn claims_error(detail: &str, what: &str) -> (r: SigError)
    ensures
        r@ == claims_failure(detail@, what@),
{
    let code = if text::contains(detail, "expired") {
        SigErrorCode::ExpiredJwt
    } else {
        SigErrorCode::InvalidJwt
    };
    SigError::new(code, what.to_owned().concat(" rejected: ").concat(detail))
}

// --- the checks ----------------------------------------------------------------------

/// Rejects unless `ok`.
pub open spec fn unless(ok: bool, code: SigErrorCode, detail: Seq<char>) -> Option<StopView> {
    if ok {
        None
    } else {
        rejects(code, detail)
    }
}

/// A result that stops when it is an error.
pub open spec fn refusal(error: Option<SigErrorView>) -> Option<StopView> {
    match error {
        Some(e) => Some(StopView::Reject(e)),
        None => None,
    }
}

/// Why a token's signature is refused after the second failure. What is wrong
/// with the key itself keeps its own code.
pub open spec fn signature_failure(e: JwtError) -> SigErrorView {
    match e.kind {
        JwtErrorKind::KeyMissingAlg
        | JwtErrorKind::UnsupportedAlgorithm
        | JwtErrorKind::UnimplementedAlgorithmEd448 => sig_error(
            SigErrorCode::UnsupportedAlgorithm,
            "issuer key: "@ + e.text@,
        ),
        JwtErrorKind::InconsistentKey => sig_error(
            SigErrorCode::InvalidKey,
            "issuer key: "@ + e.text@,
        ),
        JwtErrorKind::Other => sig_error(
            SigErrorCode::InvalidJwt,
            "token signature invalid: "@ + e.text@,
        ),
    }
}

fn token_signature_error(e: &JwtError) -> (r: SigError)
    ensures
        r@ == signature_failure(*e),
{
    match e.kind {
        JwtErrorKind::KeyMissingAlg
        | JwtErrorKind::UnsupportedAlgorithm
        | JwtErrorKind::UnimplementedAlgorithmEd448 => SigError::new(
            SigErrorCode::UnsupportedAlgorithm,
            "issuer key: ".to_owned().concat(e.text.as_str()),
        ),
        JwtErrorKind::InconsistentKey => SigError::new(
            SigErrorCode::InvalidKey,
            "issuer key: ".to_owned().concat(e.text.as_str()),
        ),
        JwtErrorKind::Other => SigError::new(
            SigErrorCode::InvalidJwt,
            "token signature invalid: ".to_owned().concat(e.text.as_str()),
        ),
    }
}

/// The token has to verify under the issuer's key. After a failure the key is
/// fetched anew, once.
pub open spec fn token_signature_stop(ev: Evidence, request: KeyRequestView) -> Option<StopView> {
    match ev.key {
        None => Some(StopView::Needs(ActionView::GetKey(request))),
        Some(Err(e)) => Some(StopView::Reject(e@)),
        Some(Ok(key)) => match ev.token_signature {
            None => Some(StopView::Needs(ActionView::VerifyToken { key })),
            Some(Ok(_)) => None,
            Some(Err(_)) => match ev.refreshed_key {
                None => Some(StopView::Needs(ActionView::RefreshKey(request))),
                Some(Err(e)) => Some(StopView::Reject(e@)),
                Some(Ok(key)) => match ev.refreshed_signature {
                    None => Some(StopView::Needs(ActionView::VerifyTokenAgain { key })),
                    Some(Ok(_)) => None,
                    Some(Err(e)) => Some(StopView::Reject(signature_failure(e))),
                },
            },
        },
    }
}

/// Resolves the issuer's key and verifies the token's signature under it,
/// refreshing the key once after a failure: the issuer may have replaced the
/// key and kept its `kid`.
pub fn verify_token_signature(evidence: &Evidence, iss: &str, dwk: &str, kid: &str) -> (r: Option<
    Stop,
>)
    ensures
        stop_view(r) == token_signature_stop(
            *evidence,
            KeyRequestView { iss: iss@, dwk: dwk@, kid: kid@ },
        ),
{
    let key = match &evidence.key {
        None => {
            let request = KeyRequest {
                iss: iss.to_owned(),
                dwk: dwk.to_owned(),
                kid: kid.to_owned(),
            };
            return Some(Stop::Needs(Action::GetKey(request)));
        },
        Some(Err(e)) => {
            return Some(Stop::Reject(e.clone()));
        },
        Some(Ok(key)) => key,
    };
    match &evidence.token_signature {
        None => {
            return Some(Stop::Needs(Action::VerifyToken { key: key.clone() }));
        },
        Some(Ok(_)) => {
            return None;
        },
        Some(Err(_)) => {},
    }
    let refreshed = match &evidence.refreshed_key {
        None => {
            let request = KeyRequest {
                iss: iss.to_owned(),
                dwk: dwk.to_owned(),
                kid: kid.to_owned(),
            };
            return Some(Stop::Needs(Action::RefreshKey(request)));
        },
        Some(Err(e)) => {
            return Some(Stop::Reject(e.clone()));
        },
        Some(Ok(key)) => key,
    };
    match &evidence.refreshed_signature {
        None => Some(Stop::Needs(Action::VerifyTokenAgain { key: refreshed.clone() })),
        Some(Ok(_)) => None,
        Some(Err(e)) => Some(Stop::Reject(token_signature_error(e))),
    }
}

/// The issuer has to be a server identifier.
pub open spec fn identifier_stop(
    ev: Evidence,
    iss: Seq<char>,
    insecure_dev: bool,
    detail: Seq<char>,
) -> Option<StopView> {
    match ev.issuer_valid {
        None => Some(StopView::Needs(ActionView::CheckIssuer { iss, insecure_dev })),
        Some(valid) => unless(valid, SigErrorCode::InvalidKey, detail),
    }
}

fn check_identifier(evidence: &Evidence, iss: &str, insecure_dev: bool, detail: String) -> (r:
    Option<Stop>)
    ensures
        stop_view(r) == identifier_stop(*evidence, iss@, insecure_dev, detail@),
{
    match evidence.issuer_valid {
        None => Some(Stop::Needs(Action::CheckIssuer { iss: iss.to_owned(), insecure_dev })),
        Some(valid) => if valid {
            None
        } else {
            reject(SigErrorCode::InvalidKey, detail)
        },
    }
}

/// The token has to be signed by a key that its well-formed issuer publishes in
/// the document `dwk`.
pub open spec fn issuer_stop(
    ev: Evidence,
    decoded: DecodedJwt,
    insecure_dev: bool,
    dwk: Seq<char>,
    malformed: Seq<char>,
    what: Seq<char>,
) -> Option<StopView> {
    either(
        identifier_stop(ev, iss_of(decoded), insecure_dev, malformed),
        either(
            refusal(dwk_error(decoded, dwk, what)),
            token_signature_stop(
                ev,
                KeyRequestView { iss: iss_of(decoded), dwk, kid: kid_of(decoded) },
            ),
        ),
    )
}

fn check_issuer(
    evidence: &Evidence,
    decoded: &DecodedJwt,
    iss: &str,
    kid: &str,
    insecure_dev: bool,
    dwk: &str,
    malformed: String,
    what: &str,
) -> (r: Option<Stop>)
    requires
        iss@ == iss_of(*decoded),
        kid@ == kid_of(*decoded),
    ensures
        stop_view(r) == issuer_stop(*evidence, *decoded, insecure_dev, dwk@, malformed@, what@),
{
    let stop = check_identifier(evidence, iss, insecure_dev, malformed);
    if stop.is_some() {
        return stop;
    }
    if let Err(e) = require_dwk(decoded, dwk, what) {
        return Some(Stop::Reject(e));
    }
    verify_token_signature(evidence, iss, dwk, kid)
}

/// The request's signature has to verify under the token's key.
pub open spec fn possession_stop(ev: Evidence, key: Jwk) -> Option<StopView> {
    match ev.possession {
        None => Some(StopView::Needs(ActionView::VerifyPossession { key })),
        Some(Err(e)) => Some(StopView::Reject(e@)),
        Some(Ok(_)) => None,
    }
}

fn check_possession(evidence: &Evidence, key: &Jwk) -> (r: Option<Stop>)
    ensures
        stop_view(r) == possession_stop(*evidence, *key),
{
    match &evidence.possession {
        None => Some(Stop::Needs(Action::VerifyPossession { key: key.clone() })),
        Some(Err(e)) => Some(Stop::Reject(e.clone())),
        Some(Ok(_)) => None,
    }
}

/// The token must not be revoked.
pub open spec fn revocation_stop(
    cfg: AauthConfig,
    iss: Seq<char>,
    jti: Seq<char>,
    what: Seq<char>,
) -> Option<StopView> {
    unless(!cfg.revokes(iss, jti), SigErrorCode::InvalidJwt, what + " is revoked"@)
}

fn check_revocation(cfg: &AauthConfig, iss: &str, jti: &str, what: &str) -> (r: Option<Stop>)
    ensures
        stop_view(r) == revocation_stop(*cfg, iss@, jti@, what@),
{
    if cfg.is_revoked(iss, jti) {
        reject(SigErrorCode::InvalidJwt, what.to_owned().concat(" is revoked"))
    } else {
        None
    }
}

// --- agent tokens --------------------------------------------------------------------

/// An agent token's claims have to be valid, its lifetime within the ceiling.
pub open spec fn agent_claims_stop(ev: Evidence, cfg: AauthConfig, now: u64) -> Option<StopView> {
    match ev.agent_claims {
        None => Some(
            StopView::Needs(
                ActionView::ValidateAgent { now, insecure_dev: cfg.insecure_dev_mode },
            ),
        ),
        Some(Err(detail)) => Some(StopView::Reject(claims_failure(detail@, "agent token"@))),
        Some(Ok(claims)) => either(
            unless(
                claims.exp - claims.iat <= AGENT_TOKEN_MAX_TTL_SECS,
                SigErrorCode::InvalidJwt,
                "agent token lifetime exceeds the "@ + decimal(AGENT_TOKEN_MAX_TTL_SECS as nat)
                    + "s ceiling"@,
            ),
            either(
                revocation_stop(cfg, claims.iss@, claims.jti@, "agent token"@),
                possession_stop(ev, claims.cnf.jwk),
            ),
        ),
    }
}

/// Where the checks of an agent token stop, if they do.
pub open spec fn agent_stop(ev: Evidence, decoded: DecodedJwt, cfg: AauthConfig, now: u64) -> Option<
    StopView,
> {
    let iss = iss_of(decoded);
    either(
        refusal(naming_error(decoded, "agent token"@)),
        either(
            unless(
                cfg.trusts_issuer(iss),
                SigErrorCode::InvalidKey,
                "issuer '"@ + iss + "' is not in the trusted Agent-Provider allow-list"@,
            ),
            either(
                issuer_stop(
                    ev,
                    decoded,
                    cfg.insecure_dev_mode,
                    AGENT_DWK@,
                    "issuer '"@ + iss + "' is not a valid AAuth server identifier"@,
                    "agent token"@,
                ),
                agent_claims_stop(ev, cfg, now),
            ),
        ),
    )
}

/// Checks an agent token.
pub fn verify_agent(evidence: &Evidence, decoded: &DecodedJwt, cfg: &AauthConfig, now: u64) -> (r:
    Option<Stop>)
    ensures
        stop_view(r) == agent_stop(*evidence, *decoded, *cfg, now),
{
    let (iss, kid) = match issuer_and_kid(decoded, "agent token") {
        Ok(names) => names,
        Err(e) => {
            return Some(Stop::Reject(e));
        },
    };
    if !cfg.issuer_trusted(iss.as_str()) {
        return reject(
            SigErrorCode::InvalidKey,
            "issuer '".to_owned().concat(iss.as_str()).concat(
                "' is not in the trusted Agent-Provider allow-list",
            ),
        );
    }
    let malformed = "issuer '".to_owned().concat(iss.as_str()).concat(
        "' is not a valid AAuth server identifier",
    );
    let stop = check_issuer(
        evidence,
        decoded,
        iss.as_str(),
        kid.as_str(),
        cfg.insecure_dev_mode,
        AGENT_DWK,
        malformed,
        "agent token",
    );
    if stop.is_some() {
        return stop;
    }
    let claims = match &evidence.agent_claims {
        None => {
            return Some(
                Stop::Needs(Action::ValidateAgent { now, insecure_dev: cfg.insecure_dev_mode }),
            );
        },
        Some(Err(detail)) => {
            return Some(Stop::Reject(claims_error(detail.as_str(), "agent token")));
        },
        Some(Ok(claims)) => claims,
    };
    // A ceiling on the lifetime bounds how long a leaked key can be used, even
    // when a trusted provider over-issues.
    if claims.exp.saturating_sub(claims.iat) > AGENT_TOKEN_MAX_TTL_SECS {
        return reject(
            SigErrorCode::InvalidJwt,
            "agent token lifetime exceeds the ".to_owned().concat(
                text::to_decimal(AGENT_TOKEN_MAX_TTL_SECS).as_str(),
            ).concat("s ceiling"),
        );
    }
    let stop = check_revocation(cfg, claims.iss.as_str(), claims.jti.as_str(), "agent token");
    if stop.is_some() {
        return stop;
    }
    check_possession(evidence, &claims.cnf.jwk)
}

// --- person tokens -------------------------------------------------------------------

/// A person token's claims have to be valid.
pub open spec fn person_claims_stop(ev: Evidence, cfg: AauthConfig, now: u64) -> Option<StopView> {
    match ev.person_claims {
        None => Some(
            StopView::Needs(
                ActionView::ValidatePerson {
                    now,
                    resource_id: cfg.person_tokens.resource(),
                    insecure_dev: cfg.insecure_dev_mode,
                },
            ),
        ),
        Some(Err(detail)) => Some(StopView::Reject(claims_failure(detail@, "person token"@))),
        Some(Ok(claims)) => either(
            revocation_stop(cfg, claims.iss@, claims.jti@, "person token"@),
            possession_stop(ev, claims.cnf.jwk),
        ),
    }
}

/// Where the checks of a person token stop, if they do.
pub open spec fn person_stop(
    ev: Evidence,
    decoded: DecodedJwt,
    cfg: AauthConfig,
    now: u64,
) -> Option<StopView> {
    let iss = iss_of(decoded);
    either(
        refusal(naming_error(decoded, "person token"@)),
        either(
            unless(
                cfg.person_tokens.trusts(iss),
                SigErrorCode::InvalidKey,
                "person server '"@ + iss + "' is not in the trusted_person_servers allow-list"@,
            ),
            either(
                issuer_stop(
                    ev,
                    decoded,
                    cfg.insecure_dev_mode,
                    PERSON_DWK@,
                    "person server '"@ + iss + "' is not a valid AAuth server identifier"@,
                    "person token"@,
                ),
                person_claims_stop(ev, cfg, now),
            ),
        ),
    )
}

/// Checks a person token.
pub fn verify_person(evidence: &Evidence, decoded: &DecodedJwt, cfg: &AauthConfig, now: u64) -> (r:
    Option<Stop>)
    ensures
        stop_view(r) == person_stop(*evidence, *decoded, *cfg, now),
{
    let (iss, kid) = match issuer_and_kid(decoded, "person token") {
        Ok(names) => names,
        Err(e) => {
            return Some(Stop::Reject(e));
        },
    };
    if !cfg.person_tokens.ps_trusted(iss.as_str()) {
        return reject(
            SigErrorCode::InvalidKey,
            "person server '".to_owned().concat(iss.as_str()).concat(
                "' is not in the trusted_person_servers allow-list",
            ),
        );
    }
    let malformed = "person server '".to_owned().concat(iss.as_str()).concat(
        "' is not a valid AAuth server identifier",
    );
    let stop = check_issuer(
        evidence,
        decoded,
        iss.as_str(),
        kid.as_str(),
        cfg.insecure_dev_mode,
        PERSON_DWK,
        malformed,
        "person token",
    );
    if stop.is_some() {
        return stop;
    }
    let claims = match &evidence.person_claims {
        None => {
            return Some(
                Stop::Needs(
                    Action::ValidatePerson {
                        now,
                        resource_id: cfg.person_tokens.resource_id(),
                        insecure_dev: cfg.insecure_dev_mode,
                    },
                ),
            );
        },
        Some(Err(detail)) => {
            return Some(Stop::Reject(claims_error(detail.as_str(), "person token")));
        },
        Some(Ok(claims)) => claims,
    };
    let stop = check_revocation(cfg, claims.iss.as_str(), claims.jti.as_str(), "person token");
    if stop.is_some() {
        return stop;
    }
    check_possession(evidence, &claims.cnf.jwk)
}

// --- auth tokens ---------------------------------------------------------------------

/// The document that an auth token's issuer publishes its keys in: a trusted
/// person server may grant access, and so may a trusted access server.
pub open spec fn grant_dwk(cfg: AauthConfig, iss: Seq<char>) -> Option<Seq<char>> {
    if cfg.person_tokens.trusts(iss) {
        Some(PERSON_DWK@)
    } else if cfg.auth_tokens.trusts(iss) {
        Some(ACCESS_DWK@)
    } else {
        None
    }
}

/// An auth token's claims have to be valid.
pub open spec fn auth_claims_stop(
    ev: Evidence,
    cfg: AauthConfig,
    dwk: Seq<char>,
    now: u64,
) -> Option<StopView> {
    match ev.auth_claims {
        None => Some(
            StopView::Needs(
                ActionView::ValidateAuth {
                    now,
                    resource_id: cfg.person_tokens.resource(),
                    dwk,
                    insecure_dev: cfg.insecure_dev_mode,
                },
            ),
        ),
        Some(Err(detail)) => Some(StopView::Reject(claims_failure(detail@, "auth token"@))),
        Some(Ok(claims)) => either(
            revocation_stop(cfg, claims.iss@, claims.jti@, "auth token"@),
            possession_stop(ev, claims.cnf.jwk),
        ),
    }
}

/// Where the checks of an auth token stop, if they do.
pub open spec fn auth_stop(ev: Evidence, decoded: DecodedJwt, cfg: AauthConfig, now: u64) -> Option<
    StopView,
> {
    let iss = iss_of(decoded);
    either(
        refusal(naming_error(decoded, "auth token"@)),
        match grant_dwk(cfg, iss) {
            None => rejects(
                SigErrorCode::InvalidKey,
                "auth-token issuer '"@ + iss
                    + "' is neither a trusted person server nor a trusted access server"@,
            ),
            Some(dwk) => either(
                issuer_stop(
                    ev,
                    decoded,
                    cfg.insecure_dev_mode,
                    dwk,
                    "auth-token issuer '"@ + iss + "' is not a valid AAuth server identifier"@,
                    "auth token"@,
                ),
                auth_claims_stop(ev, cfg, dwk, now),
            ),
        },
    )
}

/// Checks an auth token.
pub fn verify_auth(evidence: &Evidence, decoded: &DecodedJwt, cfg: &AauthConfig, now: u64) -> (r:
    Option<Stop>)
    ensures
        stop_view(r) == auth_stop(*evidence, *decoded, *cfg, now),
{
    let (iss, kid) = match issuer_and_kid(decoded, "auth token") {
        Ok(names) => names,
        Err(e) => {
            return Some(Stop::Reject(e));
        },
    };
    let dwk = if cfg.person_tokens.ps_trusted(iss.as_str()) {
        PERSON_DWK
    } else if cfg.auth_tokens.as_trusted(iss.as_str()) {
        ACCESS_DWK
    } else {
        return reject(
            SigErrorCode::InvalidKey,
            "auth-token issuer '".to_owned().concat(iss.as_str()).concat(
                "' is neither a trusted person server nor a trusted access server",
            ),
        );
    };
    let malformed = "auth-token issuer '".to_owned().concat(iss.as_str()).concat(
        "' is not a valid AAuth server identifier",
    );
    let stop = check_issuer(
        evidence,
        decoded,
        iss.as_str(),
        kid.as_str(),
        cfg.insecure_dev_mode,
        dwk,
        malformed,
        "auth token",
    );
    if stop.is_some() {
        return stop;
    }
    let claims = match &evidence.auth_claims {
        None => {
            return Some(
                Stop::Needs(
                    Action::ValidateAuth {
                        now,
                        resource_id: cfg.person_tokens.resource_id(),
                        dwk: dwk.to_owned(),
                        insecure_dev: cfg.insecure_dev_mode,
                    },
                ),
            );
        },
        Some(Err(detail)) => {
            return Some(Stop::Reject(claims_error(detail.as_str(), "auth token")));
        },
        Some(Ok(claims)) => claims,
    };
    let stop = check_revocation(cfg, claims.iss.as_str(), claims.jti.as_str(), "auth token");
    if stop.is_some() {
        return stop;
    }
    check_possession(evidence, &claims.cnf.jwk)
}

// --- the request ---------------------------------------------------------------------

/// The credential that a token's `typ` declares.
pub open spec fn kind_of(typ: Seq<char>) -> Option<TokenKind> {
    if typ == TYP_AGENT@ {
        Some(TokenKind::Agent)
    } else if typ == TYP_PERSON@ {
        Some(TokenKind::Person)
    } else if typ == TYP_AUTH@ {
        Some(TokenKind::Auth)
    } else {
        None
    }
}

/// The token's `typ` has to declare a kind of credential that is accepted.
pub open spec fn kind_stop(cfg: AauthConfig, typ: Seq<char>) -> Option<StopView> {
    match kind_of(typ) {
        Some(TokenKind::Agent) => None,
        Some(TokenKind::Person) => unless(
            cfg.person_tokens.enabled,
            SigErrorCode::InvalidJwt,
            "person tokens are not accepted by this resource (person_tokens.enabled is off)"@,
        ),
        Some(TokenKind::Auth) => unless(
            cfg.auth_tokens.enabled,
            SigErrorCode::InvalidJwt,
            "auth tokens are not accepted by this resource (auth_tokens.enabled is off)"@,
        ),
        None => rejects(
            SigErrorCode::InvalidJwt,
            "unsupported Signature-Key JWT typ '"@ + typ + "' (expected "@ + TYP_AGENT@ + ", "@
                + TYP_PERSON@ + " or "@ + TYP_AUTH@ + ")"@,
        ),
    }
}

fn accepted_kind(cfg: &AauthConfig, typ: &str) -> (r: Result<TokenKind, SigError>)
    ensures
        match r {
            Ok(kind) => kind_stop(*cfg, typ@) is None && kind_of(typ@) == Some(kind),
            Err(e) => kind_stop(*cfg, typ@) == Some(StopView::Reject(e@)),
        },
{
    if *typ == *TYP_AGENT {
        Ok(TokenKind::Agent)
    } else if *typ == *TYP_PERSON {
        if cfg.person_tokens.enabled {
            Ok(TokenKind::Person)
        } else {
            Err(
                SigError::new(
                    SigErrorCode::InvalidJwt,
                    "person tokens are not accepted by this resource (person_tokens.enabled is off)".to_owned(),
                ),
            )
        }
    } else if *typ == *TYP_AUTH {
        if cfg.auth_tokens.enabled {
            Ok(TokenKind::Auth)
        } else {
            Err(
                SigError::new(
                    SigErrorCode::InvalidJwt,
                    "auth tokens are not accepted by this resource (auth_tokens.enabled is off)".to_owned(),
                ),
            )
        }
    } else {
        Err(
            SigError::new(
                SigErrorCode::InvalidJwt,
                "unsupported Signature-Key JWT typ '".to_owned().concat(typ).concat(
                    "' (expected ",
                ).concat(TYP_AGENT).concat(", ").concat(TYP_PERSON).concat(" or ").concat(
                    TYP_AUTH,
                ).concat(")"),
            ),
        )
    }
}

/// The signature headers have to parse under the policy.
pub open spec fn signature_stop(
    ev: Evidence,
    request: RequestView,
    cfg: AauthConfig,
    now: u64,
) -> Option<StopView> {
    match ev.signature {
        None => Some(
            StopView::Needs(
                ActionView::ParseSignature {
                    parts: request,
                    now,
                    window_secs: cfg.signature_window_secs,
                    extra_required: views(cfg.additional_covered_components@),
                },
            ),
        ),
        Some(Err(e)) => Some(StopView::Reject(e@)),
        Some(Ok(p)) => unless(
            p.scheme is Jwt,
            SigErrorCode::UnsupportedScheme,
            "AAuth requires the `jwt` Signature-Key scheme (an agent or person token)"@,
        ),
    }
}

/// The token has to be well-formed.
pub open spec fn token_stop(ev: Evidence) -> Option<StopView> {
    match ev.token {
        None => Some(StopView::Needs(ActionView::DecodeToken { token: token_of(ev) })),
        Some(Err(e)) => rejects(SigErrorCode::InvalidJwt, "malformed AAuth token: "@ + e@),
        Some(Ok(_)) => None,
    }
}

/// The token's `alg` has to be acceptable.
pub open spec fn algorithm_stop(ev: Evidence, alg: Seq<char>) -> Option<StopView> {
    match ev.algorithm {
        None => Some(StopView::Needs(ActionView::CheckAlgorithm { alg })),
        Some(Err(e)) => rejects(SigErrorCode::UnsupportedAlgorithm, "token `alg`: "@ + e@),
        Some(Ok(_)) => None,
    }
}

/// Where the checks that the token's kind calls for stop, if they do.
pub open spec fn credential_stop(
    ev: Evidence,
    decoded: DecodedJwt,
    cfg: AauthConfig,
    now: u64,
) -> Option<StopView> {
    match kind_of(typ_of(decoded)) {
        Some(TokenKind::Agent) => agent_stop(ev, decoded, cfg, now),
        Some(TokenKind::Person) => person_stop(ev, decoded, cfg, now),
        Some(TokenKind::Auth) => auth_stop(ev, decoded, cfg, now),
        None => None,
    }
}

/// Where the checks of a request that presents a credential stop, if they do.
pub open spec fn request_stop(
    ev: Evidence,
    request: RequestView,
    cfg: AauthConfig,
    now: u64,
) -> Option<StopView> {
    let decoded = decoded_of(ev);
    either(
        unless(
            request.authority.len() > 0,
            SigErrorCode::InvalidRequest,
            "missing Host / @authority to verify the signature against"@,
        ),
        either(
            signature_stop(ev, request, cfg, now),
            either(
                token_stop(ev),
                either(
                    algorithm_stop(ev, decoded.header.alg@),
                    either(
                        kind_stop(cfg, typ_of(decoded)),
                        credential_stop(ev, decoded, cfg, now),
                    ),
                ),
            ),
        ),
    )
}

/// The kind of the credential that passed.
pub open spec fn passed_kind(ev: Evidence) -> TokenKind {
    kind_of(typ_of(decoded_of(ev)))->Some_0
}

fn check_request(
    evidence: &Evidence,
    headers: &[(String, String)],
    method: &str,
    authority: &str,
    path: &str,
    query: &str,
    cfg: &AauthConfig,
    now: u64,
) -> (r: Result<(TokenKind, i64), Stop>)
    ensures
        ({
            let request = RequestView {
                method: method@,
                authority: authority@,
                path: path@,
                query: query@,
                fields: field_map(headers@),
            };
            match r {
                Ok((kind, created)) => request_stop(*evidence, request, *cfg, now) is None
                    && kind_of(typ_of(decoded_of(*evidence))) == Some(kind) && created == parsed_of(
                    *evidence,
                ).created,
                Err(stop) => request_stop(*evidence, request, *cfg, now) == Some(stop@),
            }
        }),
{
    if authority.is_empty() {
        return Err(
            Stop::Reject(
                SigError::new(
                    SigErrorCode::InvalidRequest,
                    "missing Host / @authority to verify the signature against".to_owned(),
                ),
            ),
        );
    }
    let parsed = match &evidence.signature {
        None => {
            let parts = RequestParts {
                method: method.to_owned(),
                authority: authority.to_owned(),
                path: path.to_owned(),
                query: query.to_owned(),
                fields: header_fields(headers),
            };
            let policy = VerifyPolicy {
                now,
                window_secs: cfg.signature_window_secs,
                extra_required: copy_strings(&cfg.additional_covered_components),
            };
            return Err(Stop::Needs(Action::ParseSignature { parts, policy }));
        },
        Some(Err(e)) => {
            return Err(Stop::Reject(e.clone()));
        },
        Some(Ok(parsed)) => parsed,
    };
    let token = match &parsed.scheme {
        SigKeyScheme::Jwt(token) => token,
        SigKeyScheme::Other => {
            return Err(
                Stop::Reject(
                    SigError::new(
                        SigErrorCode::UnsupportedScheme,
                        "AAuth requires the `jwt` Signature-Key scheme (an agent or person token)".to_owned(),
                    ),
                ),
            );
        },
    };
    let decoded = match &evidence.token {
        None => {
            return Err(Stop::Needs(Action::DecodeToken { token: token.clone() }));
        },
        Some(Err(e)) => {
            return Err(
                Stop::Reject(
                    SigError::new(
                        SigErrorCode::InvalidJwt,
                        "malformed AAuth token: ".to_owned().concat(e.as_str()),
                    ),
                ),
            );
        },
        Some(Ok(decoded)) => decoded,
    };
    // Ahead of any fetch: a token that can never verify must not drive
    // outbound requests at the issuer it names.
    match &evidence.algorithm {
        None => {
            return Err(Stop::Needs(Action::CheckAlgorithm { alg: decoded.header.alg.clone() }));
        },
        Some(Err(e)) => {
            return Err(
                Stop::Reject(
                    SigError::new(
                        SigErrorCode::UnsupportedAlgorithm,
                        "token `alg`: ".to_owned().concat(e.as_str()),
                    ),
                ),
            );
        },
        Some(Ok(_)) => {},
    }
    let typ = match &decoded.header.typ {
        Some(typ) => typ.clone(),
        None => String::new(),
    };
    let kind = match accepted_kind(cfg, typ.as_str()) {
        Ok(kind) => kind,
        Err(e) => {
            return Err(Stop::Reject(e));
        },
    };
    let stop = match kind {
        TokenKind::Agent => verify_agent(evidence, decoded, cfg, now),
        TokenKind::Person => verify_person(evidence, decoded, cfg, now),
        TokenKind::Auth => verify_auth(evidence, decoded, cfg, now),
    };
    match stop {
        Some(stop) => Err(stop),
        None => Ok((kind, parsed.created)),
    }
}

/// The key that the credential's claims confirm.
pub open spec fn confirmed_key(ev: Evidence) -> Jwk {
    match passed_kind(ev) {
        TokenKind::Agent => ev.agent_claims->Some_0->Ok_0.cnf.jwk,
        TokenKind::Person => ev.person_claims->Some_0->Ok_0.cnf.jwk,
        TokenKind::Auth => ev.auth_claims->Some_0->Ok_0.cnf.jwk,
    }
}

/// The identity that the credential's claims assert.
pub open spec fn asserted_identity(ev: Evidence) -> VerifiedIdentity {
    match passed_kind(ev) {
        TokenKind::Agent => VerifiedIdentity::Agent(ev.agent_claims->Some_0->Ok_0),
        TokenKind::Person => VerifiedIdentity::Person(ev.person_claims->Some_0->Ok_0),
        TokenKind::Auth => VerifiedIdentity::Auth(ev.auth_claims->Some_0->Ok_0),
    }
}

fn confirmation_key(evidence: &Evidence, kind: TokenKind) -> (r: &Jwk)
    requires
        kind == passed_kind(*evidence),
        has_claims(*evidence, kind),
    ensures
        *r == confirmed_key(*evidence),
{
    match kind {
        TokenKind::Agent => &evidence.agent_claims.as_ref().unwrap().as_ref().unwrap().cnf.jwk,
        TokenKind::Person => &evidence.person_claims.as_ref().unwrap().as_ref().unwrap().cnf.jwk,
        TokenKind::Auth => &evidence.auth_claims.as_ref().unwrap().as_ref().unwrap().cnf.jwk,
    }
}

/// Whether the claims of a credential of this kind were found valid.
pub open spec fn has_claims(ev: Evidence, kind: TokenKind) -> bool {
    match kind {
        TokenKind::Agent => ev.agent_claims matches Some(Ok(_)),
        TokenKind::Person => ev.person_claims matches Some(Ok(_)),
        TokenKind::Auth => ev.auth_claims matches Some(Ok(_)),
    }
}

fn identity_of(evidence: Evidence, kind: TokenKind) -> (r: VerifiedIdentity)
    requires
        kind == passed_kind(evidence),
        has_claims(evidence, kind),
    ensures
        r == asserted_identity(evidence),
{
    match kind {
        TokenKind::Agent => VerifiedIdentity::Agent(evidence.agent_claims.unwrap().unwrap()),
        TokenKind::Person => VerifiedIdentity::Person(evidence.person_claims.unwrap().unwrap()),
        TokenKind::Auth => VerifiedIdentity::Auth(evidence.auth_claims.unwrap().unwrap()),
    }
}

// --- replay --------------------------------------------------------------------------

/// The error for a replayed request.
pub open spec fn replay_error() -> SigErrorView {
    sig_error(
        SigErrorCode::InvalidSignature,
        "replayed signature: identical (key, created, method, authority, path) tuple already accepted inside the signature window"@,
    )
}

/// The text of a thumbprint; empty when the key has none.
pub open spec fn thumbprint_text(thumbprint: Option<String>) -> Seq<char> {
    match thumbprint {
        Some(s) => s@,
        None => Seq::empty(),
    }
}

/// The key under which a request is remembered.
pub open spec fn request_key(ev: Evidence, request: RequestView) -> Seq<char> {
    replay::tuple_key(
        thumbprint_text(ev.thumbprint->Some_0),
        parsed_of(ev).created,
        request.method,
        request.authority,
        request.path,
    )
}

/// Presents a request to the replay guard: an error when an identical one was
/// accepted inside the window.
pub fn check_replay(
    guard: &mut ReplayGuard,
    thumbprint: &str,
    created: i64,
    method: &str,
    authority: &str,
    path: &str,
    window_secs: u64,
    now: i64,
) -> (r: Option<SigError>)
    ensures
        ({
            let key = replay::tuple_key(thumbprint@, created, method@, authority@, path@);
            &&& match r {
                Some(e) => replay::replayed(old(guard)@, key, now) && e@ == replay_error(),
                None => !replay::replayed(old(guard)@, key, now),
            }
            &&& final(guard)@ == replay::after_presenting(
                old(guard)@,
                key,
                replay::expiry(created, window_secs),
                now,
            )
        }),
{
    let tuple = replay::encode_tuple(thumbprint, created, method, authority, path);
    let digest = replay::sha256(tuple.as_slice());
    if guard.check_and_insert(&digest, created, window_secs, now) {
        Some(
            SigError::new(
                SigErrorCode::InvalidSignature,
                "replayed signature: identical (key, created, method, authority, path) tuple already accepted inside the signature window".to_owned(),
            ),
        )
    } else {
        None
    }
}

/// What the guard remembers, where there is one.
pub open spec fn memory(replay: Option<ReplayGuard>) -> Option<Map<Seq<char>, i64>> {
    match replay {
        Some(guard) => Some(guard@),
        None => None,
    }
}

// --- the verification ----------------------------------------------------------------

/// How far a verification comes on the evidence.
pub open spec fn progress(
    headers: Seq<(String, String)>,
    request: RequestView,
    cfg: AauthConfig,
    ev: Evidence,
    seen: Option<Map<Seq<char>, i64>>,
    now: u64,
) -> ProgressView {
    if !presents_credential(headers) {
        ProgressView::Done(OutcomeView::NoCredential)
    } else {
        match request_stop(ev, request, cfg, now) {
            Some(StopView::Needs(action)) => ProgressView::Needs(action),
            Some(StopView::Reject(e)) => ProgressView::Done(OutcomeView::Rejected(e)),
            None => match seen {
                None => ProgressView::Done(OutcomeView::Verified(asserted_identity(ev))),
                Some(m) => if ev.thumbprint is None {
                    ProgressView::Needs(ActionView::Thumbprint { key: confirmed_key(ev) })
                } else if replay::replayed(m, request_key(ev, request), now as i64) {
                    ProgressView::Done(OutcomeView::Rejected(replay_error()))
                } else {
                    ProgressView::Done(OutcomeView::Verified(asserted_identity(ev)))
                },
            },
        }
    }
}

/// What the guard remembers afterwards: it is presented with the requests that
/// pass every check, and with no others.
pub open spec fn memory_after(
    headers: Seq<(String, String)>,
    request: RequestView,
    cfg: AauthConfig,
    ev: Evidence,
    seen: Option<Map<Seq<char>, i64>>,
    now: u64,
) -> Option<Map<Seq<char>, i64>> {
    match seen {
        None => None,
        Some(m) => if presents_credential(headers) && request_stop(ev, request, cfg, now) is None
            && ev.thumbprint is Some {
            Some(
                replay::after_presenting(
                    m,
                    request_key(ev, request),
                    replay::expiry(parsed_of(ev).created, cfg.signature_window_secs),
                    now as i64,
                ),
            )
        } else {
            Some(m)
        },
    }
}

/// Verifies one request on the evidence gathered so far.
///
/// `authority` is the canonical `@authority` (see [`canonical_authority`]);
/// `replay` holds a guard when replays are to be rejected; `now` is the current
/// unix second.
pub fn verify(
    headers: &[(String, String)],
    method: &str,
    authority: &str,
    path: &str,
    query: &str,
    cfg: &AauthConfig,
    evidence: Evidence,
    replay: &mut Option<ReplayGuard>,
    now: u64,
) -> (r: Progress)
    ensures
        r@ == progress(
            headers@,
            (RequestView {
                method: method@,
                authority: authority@,
                path: path@,
                query: query@,
                fields: field_map(headers@),
            }),
            *cfg,
            evidence,
            memory(*old(replay)),
            now,
        ),
        memory(*final(replay)) == memory_after(
            headers@,
            (RequestView {
                method: method@,
                authority: authority@,
                path: path@,
                query: query@,
                fields: field_map(headers@),
            }),
            *cfg,
            evidence,
            memory(*old(replay)),
            now,
        ),
        r matches Progress::Needs(_, kept) ==> *kept == evidence,
{
    if !has_any_signature(headers) {
        return Progress::Done(Outcome::NoCredential);
    }
    let (kind, created) = match check_request(
        &evidence,
        headers,
        method,
        authority,
        path,
        query,
        cfg,
        now,
    ) {
        Ok(passed) => passed,
        Err(Stop::Needs(action)) => {
            return Progress::Needs(action, Box::new(evidence));
        },
        Err(Stop::Reject(e)) => {
            return Progress::Done(Outcome::Rejected(e));
        },
    };
    if let Some(guard) = replay {
        let thumbprint = match &evidence.thumbprint {
            None => {
                let key = confirmation_key(&evidence, kind).clone();
                return Progress::Needs(Action::Thumbprint { key }, Box::new(evidence));
            },
            Some(Some(text)) => text.clone(),
            Some(None) => String::new(),
        };
        let replayed = check_replay(
            guard,
            thumbprint.as_str(),
            created,
            method,
            authority,
            path,
            cfg.signature_window_secs,
            now as i64,
        );
        if let Some(e) = replayed {
            return Progress::Done(Outcome::Rejected(e));
        }
    }
    Progress::Done(Outcome::Verified(Box::new(identity_of(evidence, kind))))
}

/// Performs an action that asks for a key, through a resolver, and records the
/// answer. Any other action leaves the evidence as it is.
pub fn resolve_key<K: KeyResolver>(keys: &K, action: &Action, evidence: Evidence) -> (r: Evidence)
    ensures
        match *action {
            Action::GetKey(request) => exists|iss: &str, dwk: &str, kid: &str, answer|
                iss@ == request.iss@ && dwk@ == request.dwk@ && kid@ == request.kid@
                    && #[trigger] call_ensures(K::get_key, (keys, iss, dwk, kid), answer) && r == (
                Evidence { key: Some(answer), ..evidence }),
            Action::RefreshKey(request) => exists|iss: &str, dwk: &str, kid: &str, answer|
                iss@ == request.iss@ && dwk@ == request.dwk@ && kid@ == request.kid@
                    && #[trigger] call_ensures(K::refresh_and_get, (keys, iss, dwk, kid), answer)
                    && r == (Evidence { refreshed_key: Some(answer), ..evidence }),
            _ => r == evidence,
        },
{
    let mut next = evidence;
    match action {
        Action::GetKey(request) => {
            let iss = request.iss.as_str();
            let dwk = request.dwk.as_str();
            let kid = request.kid.as_str();
            let answer = keys.get_key(iss, dwk, kid);
            next.key = Some(answer);
        },
        Action::RefreshKey(request) => {
            let answer = keys.refresh_and_get(
                request.iss.as_str(),
                request.dwk.as_str(),
                request.kid.as_str(),
            );
            next.refreshed_key = Some(answer);
        },
        _ => {},
    }
    next
}

/// The canonical form of a `Host` value: trimmed, lower-case, without the
/// default port.
pub open spec fn canonical(host: Seq<char>) -> Seq<char> {
    let lowered = text::lowered(trimmed(host));
    match text::without_suffix(lowered, ":443"@) {
        Some(bare) => bare,
        None => lowered,
    }
}

/// Derives the `@authority` of a request from its `Host` header.
pub fn canonical_authority(host_value: &str) -> (r: String)
    ensures
        r@ == canonical(host_value@),
{
    let lowered = text::to_lower(text::trim(host_value).as_str());
    match text::strip_suffix(lowered.as_str(), ":443") {
        Some(bare) => bare,
        None => lowered,
    }
}

/// An authority does not depend on the case of the `Host` header.
pub proof fn authority_disregards_case(a: Seq<char>, b: Seq<char>)
    requires
        text::same_name(a, b),
    ensures
        canonical(a) == canonical(b),
{
    text::trimming_keeps_case(a);
    text::trimming_keeps_case(b);
}

/// The default port makes no difference: an authority is the same with it and
/// without it.
pub proof fn authority_disregards_the_default_port(host: Seq<char>)
    requires
        text::without_suffix(text::lowered(trimmed(host)), ":443"@) is None,
    ensures
        canonical(trimmed(host) + ":443"@) == canonical(host),
{
    reveal_strlit(":443");
    let bare = trimmed(host);
    let full = bare + ":443"@;
    text::trimmed_edges_are_solid(host);
    assert(full.last() == '3');
    assert(full[0] == if bare.len() > 0 {
        bare[0]
    } else {
        ':'
    });
    text::solid_edges_are_trimmed(full);
    assert(text::lowered(full) =~= text::lowered(bare) + ":443"@);
    assert(text::lowered(full).take(bare.len() as int) =~= text::lowered(bare));
    assert(text::lowered(full).skip(bare.len() as int) =~= ":443"@);
    assert(text::lowered(full).subrange(bare.len() as int, text::lowered(full).len() as int)
        =~= ":443"@);
}

/// An authority that is canonical stays as it is, unless what the default port
/// was taken from ended in white space or in that port again.
pub proof fn canonical_authority_is_idempotent(host: Seq<char>)
    requires
        trimmed(canonical(host)) == canonical(host),
        text::without_suffix(canonical(host), ":443"@) is None,
    ensures
        canonical(canonical(host)) == canonical(host),
{
    let c = canonical(host);
    assert(text::lowered(c) =~= c) by {
        let l = text::lowered(trimmed(host));
        assert(text::lowered(l) =~= l);
        assert forall|i: int| 0 <= i < c.len() implies text::lower_char(c[i]) == c[i] by {
            assert(c[i] == l[i]);
            assert(l[i] == text::lower_char(trimmed(host)[i]));
        }
    }
}

} // verus!
