//! What becomes of a request: what is asked about it, when it is refused and with
//! which code, when it is accepted, and when it is a replay.
//!
//! The laws follow a request through its checks. Each states, for a request that
//! has passed the checks before, what becomes of it at the next.

use vstd::prelude::*;
use vstd::string::*;

use crate::config::AauthConfig;
use crate::error::{JwtErrorKind, SigErrorCode};
use crate::headers::presents_credential;
use crate::json::json_strings;
use crate::laws::replays::one_key_is_one_tuple;
use crate::laws::texts::occurrence_is_a_stretch;
use crate::replay::{no_nul, sha256_digest, tuple_key};
use crate::text::decimal;
use crate::tokens::{DecodedJwt, Jwk, ParsedSignature, SigKeyScheme};
use crate::verification::{
    asserted_identity, memory_after, progress, request_key, request_stop, ActionView, Evidence,
    KeyRequestView, OutcomeView, ProgressView, RequestView, TokenKind, VerifiedIdentity,
};

verus! {

// --- what a credential has to be -----------------------------------------------------

/// The `typ` that declares a kind of credential.
pub open spec fn declaration(kind: TokenKind) -> Seq<char> {
    match kind {
        TokenKind::Agent => "aa-agent+jwt"@,
        TokenKind::Person => "aa-person+jwt"@,
        TokenKind::Auth => "aa-auth+jwt"@,
    }
}

/// What a kind of credential is called in an error.
pub open spec fn noun(kind: TokenKind) -> Seq<char> {
    match kind {
        TokenKind::Agent => "agent token"@,
        TokenKind::Person => "person token"@,
        TokenKind::Auth => "auth token"@,
    }
}

/// Whether a text stands on a list, wherever it stands.
pub open spec fn on_list(list: Seq<String>, s: Seq<char>) -> bool {
    exists|i: int| 0 <= i < list.len() && (#[trigger] list[i])@ == s
}

/// Whether a kind of credential is switched on. Agent tokens always are.
pub open spec fn switched_on(cfg: AauthConfig, kind: TokenKind) -> bool {
    match kind {
        TokenKind::Agent => true,
        TokenKind::Person => cfg.person_tokens.enabled,
        TokenKind::Auth => cfg.auth_tokens.enabled,
    }
}

/// Whether an issuer may issue a kind of credential.
pub open spec fn may_issue(cfg: AauthConfig, kind: TokenKind, iss: Seq<char>) -> bool {
    let person = cfg.person_tokens.enabled && on_list(
        cfg.person_tokens.trusted_person_servers@,
        iss,
    );
    match kind {
        TokenKind::Agent => cfg.allow_any_issuer || on_list(cfg.trusted_issuers@, iss),
        TokenKind::Person => person,
        TokenKind::Auth => person || (cfg.auth_tokens.enabled && on_list(
            cfg.auth_tokens.trusted_access_servers@,
            iss,
        )),
    }
}

/// The document in which an issuer publishes the keys for a kind of credential.
pub open spec fn document(cfg: AauthConfig, kind: TokenKind, iss: Seq<char>) -> Seq<char> {
    match kind {
        TokenKind::Agent => "aauth-agent.json"@,
        TokenKind::Person => "aauth-person.json"@,
        TokenKind::Auth => if cfg.person_tokens.enabled && on_list(
            cfg.person_tokens.trusted_person_servers@,
            iss,
        ) {
            "aauth-person.json"@
        } else {
            "aauth-access.json"@
        },
    }
}

/// Whether a request presents a signature that parsed and a token that was taken
/// apart, with an acceptable algorithm.
pub open spec fn readable(
    headers: Seq<(String, String)>,
    request: RequestView,
    ev: Evidence,
    p: ParsedSignature,
    t: DecodedJwt,
) -> bool {
    &&& presents_credential(headers)
    &&& request.authority.len() > 0
    &&& ev.signature matches Some(Ok(q)) && q == p
    &&& p.scheme is Jwt
    &&& ev.token matches Some(Ok(d)) && d == t
    &&& ev.algorithm matches Some(Ok(_))
}

/// Whether a token declares a kind of credential that is switched on, and names
/// its issuer and its issuer's key.
pub open spec fn declares(
    cfg: AauthConfig,
    t: DecodedJwt,
    kind: TokenKind,
    iss: Seq<char>,
    kid: Seq<char>,
) -> bool {
    &&& t.header.typ matches Some(typ) && typ@ == declaration(kind)
    &&& switched_on(cfg, kind)
    &&& json_strings(t.payload).contains_key("iss"@) && json_strings(t.payload)["iss"@] == iss
    &&& t.header.kid matches Some(k) && k@ == kid
}

/// Whether a token is from an issuer that may issue it, and names the document
/// that it has to name.
pub open spec fn admitted(
    cfg: AauthConfig,
    ev: Evidence,
    t: DecodedJwt,
    kind: TokenKind,
    iss: Seq<char>,
) -> bool {
    &&& may_issue(cfg, kind, iss)
    &&& ev.issuer_valid == Some(true)
    &&& json_strings(t.payload).contains_key("dwk"@) && json_strings(t.payload)["dwk"@] == document(
        cfg,
        kind,
        iss,
    )
}

/// Whether a token verifies under its issuer's key, if need be under one that was
/// fetched anew.
pub open spec fn signed(ev: Evidence) -> bool {
    &&& ev.key matches Some(Ok(_))
    &&& (ev.token_signature matches Some(Ok(_))) || ((ev.token_signature matches Some(Err(_)))
        && (ev.refreshed_key matches Some(Ok(_))) && (ev.refreshed_signature matches Some(Ok(_))))
}

/// Whether the claims of a credential were found valid, and whom they name, under
/// which identifier, with which key.
pub open spec fn claimed(
    ev: Evidence,
    kind: TokenKind,
    iss: Seq<char>,
    jti: Seq<char>,
    key: Jwk,
    vid: VerifiedIdentity,
) -> bool {
    match kind {
        TokenKind::Agent => ev.agent_claims matches Some(Ok(c)) && c.iss@ == iss && c.jti@ == jti
            && c.cnf.jwk == key && vid == VerifiedIdentity::Agent(c),
        TokenKind::Person => ev.person_claims matches Some(Ok(c)) && c.iss@ == iss && c.jti@ == jti
            && c.cnf.jwk == key && vid == VerifiedIdentity::Person(c),
        TokenKind::Auth => ev.auth_claims matches Some(Ok(c)) && c.iss@ == iss && c.jti@ == jti
            && c.cnf.jwk == key && vid == VerifiedIdentity::Auth(c),
    }
}

/// Whether an agent token lives no longer than a day. The others have no ceiling.
pub open spec fn short_lived(ev: Evidence, kind: TokenKind) -> bool {
    kind == TokenKind::Agent ==> (ev.agent_claims matches Some(Ok(c)) && c.exp <= c.iat + 86_400)
}

/// Whether the operator revoked a token.
pub open spec fn revoked(cfg: AauthConfig, iss: Seq<char>, jti: Seq<char>) -> bool {
    exists|i: int|
        0 <= i < cfg.revoked_tokens@.len() && (#[trigger] cfg.revoked_tokens@[i]).iss@ == iss
            && cfg.revoked_tokens@[i].jti@ == jti
}

/// Whether a request is refused with a code and a text.
pub open spec fn refused(r: ProgressView, code: SigErrorCode, detail: Seq<char>) -> bool {
    r matches ProgressView::Done(OutcomeView::Rejected(e)) && e.code == code && e.detail == detail
        && e.required_input is None
}

// --- the signature and the token -----------------------------------------------------

/// Without a signature header there is no credential, and nothing else counts.
pub proof fn unsigned_request_has_no_credential(
    headers: Seq<(String, String)>,
    request: RequestView,
    cfg: AauthConfig,
    ev: Evidence,
    seen: Option<Map<Seq<char>, i64>>,
    now: u64,
)
    ensures
        progress(headers, request, cfg, ev, seen, now) == ProgressView::Done(
            OutcomeView::NoCredential,
        ) <==> !presents_credential(headers),
{
}

/// A signature cannot be judged without an authority.
pub proof fn authority_is_needed(
    headers: Seq<(String, String)>,
    request: RequestView,
    cfg: AauthConfig,
    ev: Evidence,
    seen: Option<Map<Seq<char>, i64>>,
    now: u64,
)
    requires
        presents_credential(headers),
        request.authority.len() == 0,
    ensures
        refused(
            progress(headers, request, cfg, ev, seen, now),
            SigErrorCode::InvalidRequest,
            "missing Host / @authority to verify the signature against"@,
        ),
{
}

/// The signature is asked about over the request as it is, at the present second,
/// within the configured window, with the components that the operator requires.
pub proof fn signature_is_asked_about_as_presented(
    headers: Seq<(String, String)>,
    request: RequestView,
    cfg: AauthConfig,
    ev: Evidence,
    seen: Option<Map<Seq<char>, i64>>,
    now: u64,
)
    requires
        presents_credential(headers),
        request.authority.len() > 0,
        ev.signature is None,
    ensures
        progress(headers, request, cfg, ev, seen, now) matches ProgressView::Needs(
            ActionView::ParseSignature { parts, now: at, window_secs, extra_required },
        ) && parts == request && at == now && window_secs == cfg.signature_window_secs
            && extra_required.len() == cfg.additional_covered_components@.len() && forall|i: int|
            0 <= i < extra_required.len() ==> #[trigger] extra_required[i]
                == cfg.additional_covered_components@[i]@,
{
}

/// A signature that does not parse is refused for its own reason; one that does
/// not convey its key in a token, for its scheme; otherwise that very token is
/// taken apart.
pub proof fn signature_leads_to_its_token(
    headers: Seq<(String, String)>,
    request: RequestView,
    cfg: AauthConfig,
    ev: Evidence,
    seen: Option<Map<Seq<char>, i64>>,
    now: u64,
)
    requires
        presents_credential(headers),
        request.authority.len() > 0,
    ensures
        ({
            let r = progress(headers, request, cfg, ev, seen, now);
            match ev.signature {
                None => r matches ProgressView::Needs(ActionView::ParseSignature { .. }),
                Some(Err(e)) => r == ProgressView::Done(OutcomeView::Rejected(e@)),
                Some(Ok(p)) => match p.scheme {
                    SigKeyScheme::Other => refused(
                        r,
                        SigErrorCode::UnsupportedScheme,
                        "AAuth requires the `jwt` Signature-Key scheme (an agent or person token)"@,
                    ),
                    SigKeyScheme::Jwt(token) => match ev.token {
                        None => r == ProgressView::Needs(
                            ActionView::DecodeToken { token: token@ },
                        ),
                        Some(Err(e)) => refused(
                            r,
                            SigErrorCode::InvalidJwt,
                            "malformed AAuth token: "@ + e@,
                        ),
                        Some(Ok(t)) => match ev.algorithm {
                            None => r == ProgressView::Needs(
                                ActionView::CheckAlgorithm { alg: t.header.alg@ },
                            ),
                            Some(Err(e)) => refused(
                                r,
                                SigErrorCode::UnsupportedAlgorithm,
                                "token `alg`: "@ + e@,
                            ),
                            Some(Ok(_)) => true,
                        },
                    },
                },
            }
        }),
{
}

proof fn lemma_declarations()
    ensures
        "aa-agent+jwt"@ != "aa-person+jwt"@,
        "aa-agent+jwt"@ != "aa-auth+jwt"@,
        "aa-person+jwt"@ != "aa-auth+jwt"@,
        "aa-agent+jwt"@.len() > 0,
        "aa-person+jwt"@.len() > 0,
        "aa-auth+jwt"@.len() > 0,
{
    reveal_strlit("aa-agent+jwt");
    reveal_strlit("aa-person+jwt");
    reveal_strlit("aa-auth+jwt");
    assert("aa-agent+jwt"@.len() != "aa-person+jwt"@.len());
    assert("aa-agent+jwt"@.len() != "aa-auth+jwt"@.len());
    assert("aa-person+jwt"@.len() != "aa-auth+jwt"@.len());
}

/// A token without a `typ`, or with one that declares none of the three kinds, is
/// refused.
pub proof fn unknown_kinds_are_refused(
    headers: Seq<(String, String)>,
    request: RequestView,
    cfg: AauthConfig,
    ev: Evidence,
    seen: Option<Map<Seq<char>, i64>>,
    now: u64,
    p: ParsedSignature,
    t: DecodedJwt,
)
    requires
        readable(headers, request, ev, p, t),
        t.header.typ matches Some(typ) ==> typ@ != "aa-agent+jwt"@ && typ@ != "aa-person+jwt"@
            && typ@ != "aa-auth+jwt"@,
    ensures
        refused(
            progress(headers, request, cfg, ev, seen, now),
            SigErrorCode::InvalidJwt,
            "unsupported Signature-Key JWT typ '"@ + match t.header.typ {
                Some(typ) => typ@,
                None => Seq::empty(),
            } + "' (expected "@ + "aa-agent+jwt"@ + ", "@ + "aa-person+jwt"@ + " or "@
                + "aa-auth+jwt"@ + ")"@,
        ),
{
    lemma_declarations();
}

/// A kind of credential that is switched off is refused, whoever issued it.
pub proof fn kinds_that_are_off_are_refused(
    headers: Seq<(String, String)>,
    request: RequestView,
    cfg: AauthConfig,
    ev: Evidence,
    seen: Option<Map<Seq<char>, i64>>,
    now: u64,
    p: ParsedSignature,
    t: DecodedJwt,
)
    requires
        readable(headers, request, ev, p, t),
    ensures
        t.header.typ matches Some(typ) ==> ({
            let r = progress(headers, request, cfg, ev, seen, now);
            &&& typ@ == "aa-person+jwt"@ && !cfg.person_tokens.enabled ==> refused(
                r,
                SigErrorCode::InvalidJwt,
                "person tokens are not accepted by this resource (person_tokens.enabled is off)"@,
            )
            &&& typ@ == "aa-auth+jwt"@ && !cfg.auth_tokens.enabled ==> refused(
                r,
                SigErrorCode::InvalidJwt,
                "auth tokens are not accepted by this resource (auth_tokens.enabled is off)"@,
            )
        }),
{
    lemma_declarations();
}

/// A token that does not name its issuer, or its issuer's key, is refused.
pub proof fn unnamed_issuers_are_refused(
    headers: Seq<(String, String)>,
    request: RequestView,
    cfg: AauthConfig,
    ev: Evidence,
    seen: Option<Map<Seq<char>, i64>>,
    now: u64,
    p: ParsedSignature,
    t: DecodedJwt,
    kind: TokenKind,
)
    requires
        readable(headers, request, ev, p, t),
        t.header.typ matches Some(typ) && typ@ == declaration(kind),
        switched_on(cfg, kind),
    ensures
        ({
            let r = progress(headers, request, cfg, ev, seen, now);
            &&& !json_strings(t.payload).contains_key("iss"@) ==> refused(
                r,
                SigErrorCode::InvalidJwt,
                noun(kind) + " has no `iss`"@,
            )
            &&& json_strings(t.payload).contains_key("iss"@) && t.header.kid is None ==> refused(
                r,
                SigErrorCode::InvalidJwt,
                noun(kind) + " header has no `kid`"@,
            )
        }),
{
    lemma_declarations();
}

// --- the issuer ----------------------------------------------------------------------

proof fn lemma_lists(cfg: AauthConfig, iss: Seq<char>)
    ensures
        cfg.trusts_issuer(iss) == may_issue(cfg, TokenKind::Agent, iss),
        cfg.person_tokens.trusts(iss) == may_issue(cfg, TokenKind::Person, iss),
        (cfg.person_tokens.trusts(iss) || cfg.auth_tokens.trusts(iss)) == may_issue(
            cfg,
            TokenKind::Auth,
            iss,
        ),
{
}

/// An issuer that may not issue the kind of token is turned away before anything is
/// asked of it.
pub proof fn untrusted_issuers_are_refused(
    headers: Seq<(String, String)>,
    request: RequestView,
    cfg: AauthConfig,
    ev: Evidence,
    seen: Option<Map<Seq<char>, i64>>,
    now: u64,
    p: ParsedSignature,
    t: DecodedJwt,
    kind: TokenKind,
    iss: Seq<char>,
    kid: Seq<char>,
)
    requires
        readable(headers, request, ev, p, t),
        declares(cfg, t, kind, iss, kid),
        !may_issue(cfg, kind, iss),
    ensures
        refused(
            progress(headers, request, cfg, ev, seen, now),
            SigErrorCode::InvalidKey,
            match kind {
                TokenKind::Agent => "issuer '"@ + iss
                    + "' is not in the trusted Agent-Provider allow-list"@,
                TokenKind::Person => "person server '"@ + iss
                    + "' is not in the trusted_person_servers allow-list"@,
                TokenKind::Auth => "auth-token issuer '"@ + iss
                    + "' is neither a trusted person server nor a trusted access server"@,
            },
        ),
{
    lemma_declarations();
    lemma_lists(cfg, iss);
}

/// An issuer that may issue the token is checked next: its identifier has to be
/// well-formed, and the token has to name the document that goes with its kind.
/// Then the issuer's key is asked for, under the token's issuer, that document and
/// the token's `kid`.
#[verifier::spinoff_prover]
#[verifier::rlimit(40)]
pub proof fn trusted_issuers_are_asked_for_their_key(
    headers: Seq<(String, String)>,
    request: RequestView,
    cfg: AauthConfig,
    ev: Evidence,
    seen: Option<Map<Seq<char>, i64>>,
    now: u64,
    p: ParsedSignature,
    t: DecodedJwt,
    kind: TokenKind,
    iss: Seq<char>,
    kid: Seq<char>,
)
    requires
        readable(headers, request, ev, p, t),
        declares(cfg, t, kind, iss, kid),
        may_issue(cfg, kind, iss),
    ensures
        ({
            let r = progress(headers, request, cfg, ev, seen, now);
            let dwk = document(cfg, kind, iss);
            let named = if json_strings(t.payload).contains_key("dwk"@) {
                json_strings(t.payload)["dwk"@]
            } else {
                Seq::empty()
            };
            match ev.issuer_valid {
                None => r == ProgressView::Needs(
                    ActionView::CheckIssuer { iss, insecure_dev: cfg.insecure_dev_mode },
                ),
                Some(false) => refused(
                    r,
                    SigErrorCode::InvalidKey,
                    match kind {
                        TokenKind::Agent => "issuer '"@,
                        TokenKind::Person => "person server '"@,
                        TokenKind::Auth => "auth-token issuer '"@,
                    } + iss + "' is not a valid AAuth server identifier"@,
                ),
                Some(true) => {
                    &&& named != dwk ==> refused(
                        r,
                        SigErrorCode::InvalidJwt,
                        noun(kind) + " `dwk` must be '"@ + dwk + "', got '"@ + named + "'"@,
                    )
                    &&& named == dwk && ev.key is None ==> r == ProgressView::Needs(
                        ActionView::GetKey(KeyRequestView { iss, dwk, kid }),
                    )
                },
            }
        }),
{
    lemma_declarations();
    lemma_lists(cfg, iss);
}

/// Whether a failure of a token's signature is one of the key's algorithm.
pub open spec fn about_the_algorithm(kind: JwtErrorKind) -> bool {
    kind == JwtErrorKind::KeyMissingAlg || kind == JwtErrorKind::UnsupportedAlgorithm || kind
        == JwtErrorKind::UnimplementedAlgorithmEd448
}

/// The token is verified under the very key that was resolved. When that fails, the
/// key is fetched anew, under the same names, and the token is verified under the
/// new one, once. A key that cannot be had refuses the request for its own
/// reason. The second failure refuses it, with a code that tells what is wrong with
/// the key from a signature that is not right.
#[verifier::spinoff_prover]
#[verifier::rlimit(40)]
pub proof fn token_is_verified_under_its_issuers_key(
    headers: Seq<(String, String)>,
    request: RequestView,
    cfg: AauthConfig,
    ev: Evidence,
    seen: Option<Map<Seq<char>, i64>>,
    now: u64,
    p: ParsedSignature,
    t: DecodedJwt,
    kind: TokenKind,
    iss: Seq<char>,
    kid: Seq<char>,
)
    requires
        readable(headers, request, ev, p, t),
        declares(cfg, t, kind, iss, kid),
        admitted(cfg, ev, t, kind, iss),
    ensures
        ({
            let r = progress(headers, request, cfg, ev, seen, now);
            let asked = KeyRequestView { iss, dwk: document(cfg, kind, iss), kid };
            match ev.key {
                None => r == ProgressView::Needs(ActionView::GetKey(asked)),
                Some(Err(e)) => r == ProgressView::Done(OutcomeView::Rejected(e@)),
                Some(Ok(key)) => match ev.token_signature {
                    None => r == ProgressView::Needs(ActionView::VerifyToken { key }),
                    Some(Ok(_)) => true,
                    Some(Err(_)) => match ev.refreshed_key {
                        None => r == ProgressView::Needs(ActionView::RefreshKey(asked)),
                        Some(Err(e)) => r == ProgressView::Done(OutcomeView::Rejected(e@)),
                        Some(Ok(fresh)) => match ev.refreshed_signature {
                            None => r == ProgressView::Needs(
                                ActionView::VerifyTokenAgain { key: fresh },
                            ),
                            Some(Ok(_)) => true,
                            Some(Err(e)) => if about_the_algorithm(e.kind) {
                                refused(
                                    r,
                                    SigErrorCode::UnsupportedAlgorithm,
                                    "issuer key: "@ + e.text@,
                                )
                            } else if e.kind == JwtErrorKind::InconsistentKey {
                                refused(r, SigErrorCode::InvalidKey, "issuer key: "@ + e.text@)
                            } else {
                                refused(
                                    r,
                                    SigErrorCode::InvalidJwt,
                                    "token signature invalid: "@ + e.text@,
                                )
                            },
                        },
                    },
                },
            }
        }),
{
    lemma_declarations();
    lemma_lists(cfg, iss);
}

// --- the claims ----------------------------------------------------------------------

/// Whether a refusal of claims has the code for its reason: a token that expired is
/// told from one that is not valid.
pub open spec fn claims_refused(r: ProgressView, kind: TokenKind, reason: Seq<char>) -> bool {
    let expired = exists|a: Seq<char>, b: Seq<char>| reason == #[trigger] (a + "expired"@ + b);
    refused(
        r,
        if expired {
            SigErrorCode::ExpiredJwt
        } else {
            SigErrorCode::InvalidJwt
        },
        noun(kind) + " rejected: "@ + reason,
    )
}

/// The claims of a token that verifies are validated next, at the present second,
/// for the configured resource, and, for a grant, under the document that its
/// issuer's keys are in. Claims that are not valid refuse the request.
#[verifier::spinoff_prover]
#[verifier::rlimit(60)]
pub proof fn claims_are_validated(
    headers: Seq<(String, String)>,
    request: RequestView,
    cfg: AauthConfig,
    ev: Evidence,
    seen: Option<Map<Seq<char>, i64>>,
    now: u64,
    p: ParsedSignature,
    t: DecodedJwt,
    kind: TokenKind,
    iss: Seq<char>,
    kid: Seq<char>,
)
    requires
        readable(headers, request, ev, p, t),
        declares(cfg, t, kind, iss, kid),
        admitted(cfg, ev, t, kind, iss),
        signed(ev),
    ensures
        ({
            let r = progress(headers, request, cfg, ev, seen, now);
            let insecure_dev = cfg.insecure_dev_mode;
            let resource_id = match cfg.person_tokens.resource_identifier {
                Some(s) => s@,
                None => Seq::empty(),
            };
            match kind {
                TokenKind::Agent => {
                    &&& ev.agent_claims is None ==> r == ProgressView::Needs(
                        ActionView::ValidateAgent { now, insecure_dev },
                    )
                    &&& ev.agent_claims matches Some(Err(e)) ==> claims_refused(r, kind, e@)
                },
                TokenKind::Person => {
                    &&& ev.person_claims is None ==> r == ProgressView::Needs(
                        ActionView::ValidatePerson { now, resource_id, insecure_dev },
                    )
                    &&& ev.person_claims matches Some(Err(e)) ==> claims_refused(r, kind, e@)
                },
                TokenKind::Auth => {
                    &&& ev.auth_claims is None ==> r == ProgressView::Needs(
                        ActionView::ValidateAuth {
                            now,
                            resource_id,
                            dwk: document(cfg, kind, iss),
                            insecure_dev,
                        },
                    )
                    &&& ev.auth_claims matches Some(Err(e)) ==> claims_refused(r, kind, e@)
                },
            }
        }),
{
    lemma_declarations();
    lemma_lists(cfg, iss);
    if let Some(Err(e)) = ev.agent_claims {
        occurrence_is_a_stretch(e@, "expired"@);
    }
    if let Some(Err(e)) = ev.person_claims {
        occurrence_is_a_stretch(e@, "expired"@);
    }
    if let Some(Err(e)) = ev.auth_claims {
        occurrence_is_a_stretch(e@, "expired"@);
    }
}

/// An agent token that lives longer than a day is refused. So is a token that the
/// operator revoked, of whatever kind. Otherwise the request's own signature has to
/// verify under the key that the claims confirm, and a failure there refuses the
/// request for its own reason.
#[verifier::spinoff_prover]
#[verifier::rlimit(60)]
pub proof fn claims_are_bound_to_the_request(
    headers: Seq<(String, String)>,
    request: RequestView,
    cfg: AauthConfig,
    ev: Evidence,
    seen: Option<Map<Seq<char>, i64>>,
    now: u64,
    p: ParsedSignature,
    t: DecodedJwt,
    kind: TokenKind,
    iss: Seq<char>,
    kid: Seq<char>,
    claimed_iss: Seq<char>,
    jti: Seq<char>,
    key: Jwk,
    vid: VerifiedIdentity,
)
    requires
        readable(headers, request, ev, p, t),
        declares(cfg, t, kind, iss, kid),
        admitted(cfg, ev, t, kind, iss),
        signed(ev),
        claimed(ev, kind, claimed_iss, jti, key, vid),
    ensures
        ({
            let r = progress(headers, request, cfg, ev, seen, now);
            if !short_lived(ev, kind) {
                refused(
                    r,
                    SigErrorCode::InvalidJwt,
                    "agent token lifetime exceeds the "@ + decimal(86_400) + "s ceiling"@,
                )
            } else if revoked(cfg, claimed_iss, jti) {
                refused(r, SigErrorCode::InvalidJwt, noun(kind) + " is revoked"@)
            } else {
                match ev.possession {
                    None => r == ProgressView::Needs(ActionView::VerifyPossession { key }),
                    Some(Err(e)) => r == ProgressView::Done(OutcomeView::Rejected(e@)),
                    Some(Ok(_)) => true,
                }
            }
        }),
{
    lemma_declarations();
    lemma_lists(cfg, iss);
}

// --- acceptance ----------------------------------------------------------------------

/// Whether a request has passed every check that is made of it but for replays.
pub open spec fn passed(
    headers: Seq<(String, String)>,
    request: RequestView,
    cfg: AauthConfig,
    ev: Evidence,
    p: ParsedSignature,
    t: DecodedJwt,
    kind: TokenKind,
    iss: Seq<char>,
    kid: Seq<char>,
    claimed_iss: Seq<char>,
    jti: Seq<char>,
    key: Jwk,
    vid: VerifiedIdentity,
) -> bool {
    &&& readable(headers, request, ev, p, t)
    &&& declares(cfg, t, kind, iss, kid)
    &&& admitted(cfg, ev, t, kind, iss)
    &&& signed(ev)
    &&& claimed(ev, kind, claimed_iss, jti, key, vid)
    &&& short_lived(ev, kind)
    &&& !revoked(cfg, claimed_iss, jti)
    &&& ev.possession matches Some(Ok(_))
}

#[verifier::spinoff_prover]
#[verifier::rlimit(60)]
proof fn lemma_passed_has_no_stop(
    headers: Seq<(String, String)>,
    request: RequestView,
    cfg: AauthConfig,
    ev: Evidence,
    now: u64,
    p: ParsedSignature,
    t: DecodedJwt,
    kind: TokenKind,
    iss: Seq<char>,
    kid: Seq<char>,
    claimed_iss: Seq<char>,
    jti: Seq<char>,
    key: Jwk,
    vid: VerifiedIdentity,
)
    requires
        passed(headers, request, cfg, ev, p, t, kind, iss, kid, claimed_iss, jti, key, vid),
    ensures
        request_stop(ev, request, cfg, now) is None,
        asserted_identity(ev) == vid,
        crate::verification::confirmed_key(ev) == key,
{
    lemma_declarations();
    lemma_lists(cfg, iss);
}

/// A request that has passed every check is accepted, as the identity that its
/// claims assert, where replays are not looked for.
pub proof fn passing_is_enough(
    headers: Seq<(String, String)>,
    request: RequestView,
    cfg: AauthConfig,
    ev: Evidence,
    now: u64,
    p: ParsedSignature,
    t: DecodedJwt,
    kind: TokenKind,
    iss: Seq<char>,
    kid: Seq<char>,
    claimed_iss: Seq<char>,
    jti: Seq<char>,
    key: Jwk,
    vid: VerifiedIdentity,
)
    requires
        passed(headers, request, cfg, ev, p, t, kind, iss, kid, claimed_iss, jti, key, vid),
    ensures
        progress(headers, request, cfg, ev, None, now) == ProgressView::Done(
            OutcomeView::Verified(vid),
        ),
{
    lemma_passed_has_no_stop(
        headers,
        request,
        cfg,
        ev,
        now,
        p,
        t,
        kind,
        iss,
        kid,
        claimed_iss,
        jti,
        key,
        vid,
    );
}

/// Where replays are looked for, a request that has passed every check is accepted
/// once the thumbprint of its key is known, unless it is remembered: it is then
/// refused.
pub proof fn passing_is_enough_for_the_first_time(
    headers: Seq<(String, String)>,
    request: RequestView,
    cfg: AauthConfig,
    ev: Evidence,
    m: Map<Seq<char>, i64>,
    now: u64,
    p: ParsedSignature,
    t: DecodedJwt,
    kind: TokenKind,
    iss: Seq<char>,
    kid: Seq<char>,
    claimed_iss: Seq<char>,
    jti: Seq<char>,
    key: Jwk,
    vid: VerifiedIdentity,
)
    requires
        passed(headers, request, cfg, ev, p, t, kind, iss, kid, claimed_iss, jti, key, vid),
        now <= 0x7fff_ffff_ffff_ffff,
    ensures
        ({
            let r = progress(headers, request, cfg, ev, Some(m), now);
            let place = request_key(ev, request);
            if ev.thumbprint is None {
                r == ProgressView::Needs(ActionView::Thumbprint { key })
            } else if m.contains_key(place) && m[place] >= now {
                refused(
                    r,
                    SigErrorCode::InvalidSignature,
                    "replayed signature: identical (key, created, method, authority, path) tuple already accepted inside the signature window"@,
                )
            } else {
                r == ProgressView::Done(OutcomeView::Verified(vid))
            }
        }),
{
    lemma_passed_has_no_stop(
        headers,
        request,
        cfg,
        ev,
        now,
        p,
        t,
        kind,
        iss,
        kid,
        claimed_iss,
        jti,
        key,
        vid,
    );
}

/// No request is accepted that has not passed every check.
#[verifier::spinoff_prover]
#[verifier::rlimit(60)]
pub proof fn passing_is_needed(
    headers: Seq<(String, String)>,
    request: RequestView,
    cfg: AauthConfig,
    ev: Evidence,
    seen: Option<Map<Seq<char>, i64>>,
    now: u64,
    vid: VerifiedIdentity,
)
    requires
        progress(headers, request, cfg, ev, seen, now) == ProgressView::Done(
            OutcomeView::Verified(vid),
        ),
    ensures
        exists|
            p: ParsedSignature,
            t: DecodedJwt,
            kind: TokenKind,
            iss: Seq<char>,
            kid: Seq<char>,
            claimed_iss: Seq<char>,
            jti: Seq<char>,
            key: Jwk,
        | #[trigger]
            passed(headers, request, cfg, ev, p, t, kind, iss, kid, claimed_iss, jti, key, vid),
        seen is Some ==> ev.thumbprint is Some,
{
    lemma_declarations();
    let p = ev.signature->Some_0->Ok_0;
    let t = ev.token->Some_0->Ok_0;
    let iss = json_strings(t.payload)["iss"@];
    let kid = t.header.kid->Some_0@;
    reveal_strlit("aauth-agent.json");
    reveal_strlit("aauth-person.json");
    reveal_strlit("aauth-access.json");
    lemma_lists(cfg, iss);
    let typ = t.header.typ->Some_0@;
    assert(readable(headers, request, ev, p, t));
    if typ == "aa-agent+jwt"@ {
        let c = ev.agent_claims->Some_0->Ok_0;
        assert(passed(
            headers,
            request,
            cfg,
            ev,
            p,
            t,
            TokenKind::Agent,
            iss,
            kid,
            c.iss@,
            c.jti@,
            c.cnf.jwk,
            vid,
        ));
    } else if typ == "aa-person+jwt"@ {
        let c = ev.person_claims->Some_0->Ok_0;
        assert(passed(
            headers,
            request,
            cfg,
            ev,
            p,
            t,
            TokenKind::Person,
            iss,
            kid,
            c.iss@,
            c.jti@,
            c.cnf.jwk,
            vid,
        ));
    } else {
        let c = ev.auth_claims->Some_0->Ok_0;
        assert(passed(
            headers,
            request,
            cfg,
            ev,
            p,
            t,
            TokenKind::Auth,
            iss,
            kid,
            c.iss@,
            c.jti@,
            c.cnf.jwk,
            vid,
        ));
    }
}

// --- replays -------------------------------------------------------------------------

/// A request that was accepted is refused when it comes again, at every second up
/// to its time of signing plus the configured window, and is accepted again behind
/// it.
pub proof fn accepted_request_is_a_replay_until_its_window_ends(
    headers: Seq<(String, String)>,
    request: RequestView,
    cfg: AauthConfig,
    ev: Evidence,
    m: Map<Seq<char>, i64>,
    now: u64,
    vid: VerifiedIdentity,
    p: ParsedSignature,
    later: u64,
)
    requires
        progress(headers, request, cfg, ev, Some(m), now) == ProgressView::Done(
            OutcomeView::Verified(vid),
        ),
        ev.signature matches Some(Ok(q)) && q == p,
        cfg.signature_window_secs <= 0x7fff_ffff_ffff_ffff,
        now <= 0x7fff_ffff_ffff_ffff,
        later <= 0x7fff_ffff_ffff_ffff,
    ensures
        ({
            let seen = memory_after(headers, request, cfg, ev, Some(m), now);
            let r = progress(headers, request, cfg, ev, seen, later);
            if later <= p.created + cfg.signature_window_secs {
                r matches ProgressView::Done(OutcomeView::Rejected(e)) && e.code
                    == SigErrorCode::InvalidSignature
            } else {
                r == ProgressView::Done(OutcomeView::Verified(vid))
            }
        }),
{
    lemma_stop_disregards_time(request, cfg, ev, now, later);
}

#[verifier::spinoff_prover]
#[verifier::rlimit(60)]
proof fn lemma_stop_disregards_time(
    request: RequestView,
    cfg: AauthConfig,
    ev: Evidence,
    now: u64,
    later: u64,
)
    requires
        request_stop(ev, request, cfg, now) is None,
    ensures
        request_stop(ev, request, cfg, later) is None,
{
}

/// The place where a request is remembered is its own: two requests share it only
/// when they agree in their key, their time of signing, their method, their
/// authority and their path, or when SHA-256 has a collision. So two requests whose
/// paths differ, or whose methods or authorities do, are never mistaken for one
/// another.
pub proof fn only_the_same_request_is_a_replay(
    ev1: Evidence,
    request1: RequestView,
    p1: ParsedSignature,
    thumb1: String,
    ev2: Evidence,
    request2: RequestView,
    p2: ParsedSignature,
    thumb2: String,
)
    requires
        ev1.signature matches Some(Ok(q)) && q == p1,
        ev1.thumbprint matches Some(Some(s)) && s == thumb1,
        ev2.signature matches Some(Ok(q)) && q == p2,
        ev2.thumbprint matches Some(Some(s)) && s == thumb2,
        no_nul(thumb1@) && no_nul(request1.method) && no_nul(request1.authority) && no_nul(
            request1.path,
        ),
        no_nul(thumb2@) && no_nul(request2.method) && no_nul(request2.authority) && no_nul(
            request2.path,
        ),
        request_key(ev1, request1) == request_key(ev2, request2),
    ensures
        (thumb1@ == thumb2@ && p1.created == p2.created && request1.method == request2.method
            && request1.authority == request2.authority && request1.path == request2.path)
            || exists|x: Seq<u8>, y: Seq<u8>|
            x != y && #[trigger] sha256_digest(x) == #[trigger] sha256_digest(y),
{
    one_key_is_one_tuple(
        thumb1@,
        p1.created,
        request1.method,
        request1.authority,
        request1.path,
        thumb2@,
        p2.created,
        request2.method,
        request2.authority,
        request2.path,
    );
}

/// A request is remembered under the tuple of its key's thumbprint, its time of
/// signing, its method, its authority and its path. A key without a thumbprint
/// counts as one with an empty one.
pub proof fn requests_are_remembered_by_their_tuple(
    ev: Evidence,
    request: RequestView,
    p: ParsedSignature,
)
    requires
        ev.signature matches Some(Ok(q)) && q == p,
        ev.thumbprint is Some,
    ensures
        ev.thumbprint matches Some(Some(s)) ==> request_key(ev, request) == tuple_key(
            s@,
            p.created,
            request.method,
            request.authority,
            request.path,
        ),
        ev.thumbprint matches Some(None) ==> request_key(ev, request) == tuple_key(
            Seq::empty(),
            p.created,
            request.method,
            request.authority,
            request.path,
        ),
{
}

/// The same request is remembered in the same place, whatever its query, its other
/// fields, and the rest of what was gathered about it.
pub proof fn replays_are_recognised(
    ev1: Evidence,
    request1: RequestView,
    ev2: Evidence,
    request2: RequestView,
)
    requires
        ev1.signature matches Some(Ok(p)) && ev2.signature matches Some(Ok(q)) && p.created
            == q.created,
        match (ev1.thumbprint, ev2.thumbprint) {
            (Some(Some(a)), Some(Some(b))) => a@ == b@,
            (Some(None), Some(None)) => true,
            _ => false,
        },
        request1.method == request2.method,
        request1.authority == request2.authority,
        request1.path == request2.path,
    ensures
        request_key(ev1, request1) == request_key(ev2, request2),
{
}

/// Accepting one request leaves another as it was before the guard: what is not
/// remembered is not refused on its account.
pub proof fn accepting_one_request_refuses_no_other(
    headers: Seq<(String, String)>,
    request: RequestView,
    cfg: AauthConfig,
    ev: Evidence,
    m: Map<Seq<char>, i64>,
    now: u64,
    vid: VerifiedIdentity,
    other: Seq<char>,
)
    requires
        progress(headers, request, cfg, ev, Some(m), now) == ProgressView::Done(
            OutcomeView::Verified(vid),
        ),
        other != request_key(ev, request),
        !m.contains_key(other),
    ensures
        memory_after(headers, request, cfg, ev, Some(m), now) matches Some(after)
            && !after.contains_key(other) && after.contains_key(request_key(ev, request)),
{
}

/// A request that is refused, or that waits for work, leaves no trace in the
/// memory; and where replays are not looked for there is none to leave.
pub proof fn unaccepted_requests_leave_no_trace(
    headers: Seq<(String, String)>,
    request: RequestView,
    cfg: AauthConfig,
    ev: Evidence,
    seen: Option<Map<Seq<char>, i64>>,
    now: u64,
)
    requires
        !(progress(headers, request, cfg, ev, seen, now) matches ProgressView::Done(
            OutcomeView::Verified(_),
        )),
    ensures
        memory_after(headers, request, cfg, ev, seen, now) == seen,
{
}

} // verus!
