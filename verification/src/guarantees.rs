//! What holds of every verification.

use vstd::prelude::*;
use vstd::string::*;

use crate::config::AauthConfig;
use crate::error::{JwtError, SigError};
use crate::headers::{field_map, presents_credential, spelling_leaves_the_fields, spellings};
use crate::replay;
use crate::text::views;
use crate::tokens::{
    AgentTokenClaims, AuthTokenClaims, DecodedJwt, Jwk, ParsedSignature, PersonTokenClaims,
    AGENT_TOKEN_MAX_TTL_SECS,
};
use crate::verification::{
    asserted_identity, decoded_of, dwk_of, iss_of, kid_of, kind_of, memory_after, parsed_of,
    progress, replay_error, request_key, request_stop, token_of, typ_of,
    ActionView, Evidence, KeyRequestView, OutcomeView, ProgressView, RequestView, TokenKind,
    VerifiedIdentity, ACCESS_DWK, AGENT_DWK, PERSON_DWK,
};

verus! {

// --- admission -----------------------------------------------------------------------

/// Whether the issuer may issue credentials of this kind.
pub open spec fn issuer_admitted(cfg: AauthConfig, kind: TokenKind, iss: Seq<char>) -> bool {
    match kind {
        TokenKind::Agent => cfg.trusts_issuer(iss),
        TokenKind::Person => cfg.person_tokens.enabled && cfg.person_tokens.trusts(iss),
        TokenKind::Auth => cfg.auth_tokens.enabled && (cfg.person_tokens.trusts(iss)
            || cfg.auth_tokens.trusts(iss)),
    }
}

/// The document that holds the keys for credentials of this kind.
pub open spec fn pinned_dwk(cfg: AauthConfig, kind: TokenKind, iss: Seq<char>) -> Seq<char> {
    match kind {
        TokenKind::Agent => AGENT_DWK@,
        TokenKind::Person => PERSON_DWK@,
        TokenKind::Auth => if cfg.person_tokens.trusts(iss) {
            PERSON_DWK@
        } else {
            ACCESS_DWK@
        },
    }
}

/// Whether the token in the evidence may lead to a fetch: its `alg` is
/// acceptable, it is of an accepted kind, its issuer is trusted for that kind
/// and well-formed, and it names the pinned document and a key in it.
pub open spec fn token_admitted(cfg: AauthConfig, ev: Evidence) -> bool {
    let decoded = decoded_of(ev);
    &&& ev.signature matches Some(Ok(p)) && p.scheme is Jwt
    &&& ev.token matches Some(Ok(_))
    &&& ev.algorithm matches Some(Ok(_))
    &&& kind_of(typ_of(decoded)) matches Some(kind) && {
        &&& issuer_admitted(cfg, kind, iss_of(decoded))
        &&& dwk_of(decoded) == pinned_dwk(cfg, kind, iss_of(decoded))
    }
    &&& decoded.header.kid is Some
    &&& ev.issuer_valid == Some(true)
}

/// Whether the token verified under a key of its issuer: the one resolved
/// first, or the one fetched anew after that failed.
pub open spec fn token_signed(ev: Evidence) -> bool {
    &&& ev.key matches Some(Ok(_))
    &&& match ev.token_signature {
        None => false,
        Some(Ok(_)) => true,
        Some(Err(_)) => (ev.refreshed_key matches Some(Ok(_))) && (ev.refreshed_signature matches Some(
            Ok(_),
        )),
    }
}

/// The token's issuer and identifier, as its validated claims state them.
pub open spec fn claimed_names(id: VerifiedIdentity) -> (Seq<char>, Seq<char>) {
    match id {
        VerifiedIdentity::Agent(c) => (c.iss@, c.jti@),
        VerifiedIdentity::Person(c) => (c.iss@, c.jti@),
        VerifiedIdentity::Auth(c) => (c.iss@, c.jti@),
    }
}

/// An identity is verified only when every check passed: a credential was
/// presented, its issuer is admitted for its kind, the issuer's key signed it,
/// its claims are valid and those of the identity, it is not revoked, an agent
/// token lives no longer than the ceiling, its key signed the request, and the
/// request is no replay.
pub proof fn verified_passed_every_check(
    headers: Seq<(String, String)>,
    request: RequestView,
    cfg: AauthConfig,
    ev: Evidence,
    seen: Option<Map<Seq<char>, i64>>,
    now: u64,
    id: VerifiedIdentity,
)
    requires
        progress(headers, request, cfg, ev, seen, now) == ProgressView::Done(
            OutcomeView::Verified(id),
        ),
    ensures
        presents_credential(headers),
        request.authority.len() > 0,
        token_admitted(cfg, ev),
        token_signed(ev),
        id == asserted_identity(ev),
        match id {
            VerifiedIdentity::Agent(c) => kind_of(typ_of(decoded_of(ev))) == Some(TokenKind::Agent)
                && ev.agent_claims == Some(Ok::<AgentTokenClaims, String>(c)) && c.exp - c.iat
                <= AGENT_TOKEN_MAX_TTL_SECS,
            VerifiedIdentity::Person(c) => kind_of(typ_of(decoded_of(ev))) == Some(
                TokenKind::Person,
            ) && ev.person_claims == Some(Ok::<PersonTokenClaims, String>(c)),
            VerifiedIdentity::Auth(c) => kind_of(typ_of(decoded_of(ev))) == Some(TokenKind::Auth)
                && ev.auth_claims == Some(Ok::<AuthTokenClaims, String>(c)),
        },
        !cfg.revokes(claimed_names(id).0, claimed_names(id).1),
        ev.possession matches Some(Ok(_)),
        seen matches Some(m) ==> ev.thumbprint is Some && !replay::replayed(
            m,
            request_key(ev, request),
            now as i64,
        ),
{
}

/// A request is left to others exactly when it carries no signature header.
pub proof fn no_credential_without_header(
    headers: Seq<(String, String)>,
    request: RequestView,
    cfg: AauthConfig,
    ev: Evidence,
    seen: Option<Map<Seq<char>, i64>>,
    now: u64,
)
    ensures
        progress(headers, request, cfg, ev, seen, now) == ProgressView::Done(
            OutcomeView::NoCredential,
        ) <==> !presents_credential(headers),
{
}

/// A key is resolved or fetched only for an admitted token, from the document
/// pinned for its kind. It is fetched anew only after the token failed to
/// verify under the key resolved first.
pub proof fn keys_only_of_admitted_issuers(
    headers: Seq<(String, String)>,
    request: RequestView,
    cfg: AauthConfig,
    ev: Evidence,
    seen: Option<Map<Seq<char>, i64>>,
    now: u64,
    key: KeyRequestView,
)
    requires
        progress(headers, request, cfg, ev, seen, now) == ProgressView::Needs(
            ActionView::GetKey(key),
        ) || progress(headers, request, cfg, ev, seen, now) == ProgressView::Needs(
            ActionView::RefreshKey(key),
        ),
    ensures
        token_admitted(cfg, ev),
        key.iss == iss_of(decoded_of(ev)),
        key.kid == kid_of(decoded_of(ev)),
        key.dwk == dwk_of(decoded_of(ev)),
        key.dwk == AGENT_DWK@ || key.dwk == PERSON_DWK@ || key.dwk == ACCESS_DWK@,
        progress(headers, request, cfg, ev, seen, now) == ProgressView::Needs(
            ActionView::RefreshKey(key),
        ) ==> (ev.key matches Some(Ok(_))) && (ev.token_signature matches Some(Err(_))),
{
}

/// A request that was accepted is rejected as a replay when it is presented
/// again inside the window, whatever else the second presentation carries.
pub proof fn accepted_request_is_rejected_again(
    headers: Seq<(String, String)>,
    request: RequestView,
    cfg: AauthConfig,
    ev: Evidence,
    seen: Map<Seq<char>, i64>,
    now: u64,
    id: VerifiedIdentity,
    later_headers: Seq<(String, String)>,
    later_request: RequestView,
    later_ev: Evidence,
    later: u64,
)
    requires
        progress(headers, request, cfg, ev, Some(seen), now) == ProgressView::Done(
            OutcomeView::Verified(id),
        ),
        presents_credential(later_headers),
        request_stop(later_ev, later_request, cfg, later) is None,
        later_ev.thumbprint == ev.thumbprint,
        parsed_of(later_ev).created == parsed_of(ev).created,
        later_request.method == request.method,
        later_request.authority == request.authority,
        later_request.path == request.path,
        replay::expiry(parsed_of(ev).created, cfg.signature_window_secs) >= later as i64,
    ensures
        progress(
            later_headers,
            later_request,
            cfg,
            later_ev,
            memory_after(headers, request, cfg, ev, Some(seen), now),
            later,
        ) == ProgressView::Done(OutcomeView::Rejected(replay_error())),
{
}

/// Only a request that passes every check enters the replay memory: a refused
/// one, or one still waiting for evidence, leaves it as it is.
pub proof fn refused_requests_are_not_remembered(
    headers: Seq<(String, String)>,
    request: RequestView,
    cfg: AauthConfig,
    ev: Evidence,
    seen: Option<Map<Seq<char>, i64>>,
    now: u64,
)
    requires
        !(progress(headers, request, cfg, ev, seen, now) matches ProgressView::Done(
            OutcomeView::Verified(_),
        )),
    ensures
        memory_after(headers, request, cfg, ev, seen, now) == seen,
{
}

// --- the course of a verification ------------------------------------------------------

/// Whether the slot that an action fills is still empty.
pub open spec fn slot_empty(ev: Evidence, action: ActionView) -> bool {
    match action {
        ActionView::ParseSignature { .. } => ev.signature is None,
        ActionView::DecodeToken { .. } => ev.token is None,
        ActionView::CheckAlgorithm { .. } => ev.algorithm is None,
        ActionView::CheckIssuer { .. } => ev.issuer_valid is None,
        ActionView::GetKey(_) => ev.key is None,
        ActionView::VerifyToken { .. } => ev.token_signature is None,
        ActionView::RefreshKey(_) => ev.refreshed_key is None,
        ActionView::VerifyTokenAgain { .. } => ev.refreshed_signature is None,
        ActionView::ValidateAgent { .. } => ev.agent_claims is None,
        ActionView::ValidatePerson { .. } => ev.person_claims is None,
        ActionView::ValidateAuth { .. } => ev.auth_claims is None,
        ActionView::VerifyPossession { .. } => ev.possession is None,
        ActionView::Thumbprint { .. } => ev.thumbprint is None,
    }
}

/// A verification never asks for work that was done.
pub proof fn asks_only_for_missing_evidence(
    headers: Seq<(String, String)>,
    request: RequestView,
    cfg: AauthConfig,
    ev: Evidence,
    seen: Option<Map<Seq<char>, i64>>,
    now: u64,
    action: ActionView,
)
    requires
        progress(headers, request, cfg, ev, seen, now) == ProgressView::Needs(action),
    ensures
        slot_empty(ev, action),
{
}

/// How the outside work turns out: one answer for each thing that can be asked.
pub ghost struct World {
    pub signature: spec_fn(RequestView, u64, u64, Seq<Seq<char>>) -> Result<
        ParsedSignature,
        SigError,
    >,
    pub token: spec_fn(Seq<char>) -> Result<DecodedJwt, String>,
    pub algorithm: spec_fn(Seq<char>) -> Result<(), String>,
    pub issuer_valid: spec_fn(Seq<char>, bool) -> bool,
    pub key: spec_fn(KeyRequestView) -> Result<Jwk, SigError>,
    pub token_signature: spec_fn(DecodedJwt, Jwk) -> Result<(), JwtError>,
    pub refreshed_key: spec_fn(KeyRequestView) -> Result<Jwk, SigError>,
    pub agent_claims: spec_fn(DecodedJwt, u64, bool) -> Result<AgentTokenClaims, String>,
    pub person_claims: spec_fn(DecodedJwt, u64, Seq<char>, bool) -> Result<
        PersonTokenClaims,
        String,
    >,
    pub auth_claims: spec_fn(DecodedJwt, u64, Seq<char>, Seq<char>, bool) -> Result<
        AuthTokenClaims,
        String,
    >,
    pub possession: spec_fn(ParsedSignature, Jwk) -> Result<(), SigError>,
    pub thumbprint: spec_fn(Jwk) -> Option<String>,
}

/// The evidence with the answer to an action recorded in its slot.
pub open spec fn answered(world: World, ev: Evidence, action: ActionView) -> Evidence {
    match action {
        ActionView::ParseSignature { parts, now, window_secs, extra_required } => Evidence {
            signature: Some((world.signature)(parts, now, window_secs, extra_required)),
            ..ev
        },
        ActionView::DecodeToken { token } => Evidence { token: Some((world.token)(token)), ..ev },
        ActionView::CheckAlgorithm { alg } => Evidence {
            algorithm: Some((world.algorithm)(alg)),
            ..ev
        },
        ActionView::CheckIssuer { iss, insecure_dev } => Evidence {
            issuer_valid: Some((world.issuer_valid)(iss, insecure_dev)),
            ..ev
        },
        ActionView::GetKey(request) => Evidence { key: Some((world.key)(request)), ..ev },
        ActionView::VerifyToken { key } => Evidence {
            token_signature: Some((world.token_signature)(decoded_of(ev), key)),
            ..ev
        },
        ActionView::RefreshKey(request) => Evidence {
            refreshed_key: Some((world.refreshed_key)(request)),
            ..ev
        },
        ActionView::VerifyTokenAgain { key } => Evidence {
            refreshed_signature: Some((world.token_signature)(decoded_of(ev), key)),
            ..ev
        },
        ActionView::ValidateAgent { now, insecure_dev } => Evidence {
            agent_claims: Some((world.agent_claims)(decoded_of(ev), now, insecure_dev)),
            ..ev
        },
        ActionView::ValidatePerson { now, resource_id, insecure_dev } => Evidence {
            person_claims: Some(
                (world.person_claims)(decoded_of(ev), now, resource_id, insecure_dev),
            ),
            ..ev
        },
        ActionView::ValidateAuth { now, resource_id, dwk, insecure_dev } => Evidence {
            auth_claims: Some(
                (world.auth_claims)(decoded_of(ev), now, resource_id, dwk, insecure_dev),
            ),
            ..ev
        },
        ActionView::VerifyPossession { key } => Evidence {
            possession: Some((world.possession)(parsed_of(ev), key)),
            ..ev
        },
        ActionView::Thumbprint { key } => Evidence {
            thumbprint: Some((world.thumbprint)(key)),
            ..ev
        },
    }
}

/// The answers to everything that a verification of the request can ask.
pub open spec fn full_evidence(
    world: World,
    request: RequestView,
    cfg: AauthConfig,
    now: u64,
) -> Evidence {
    let dev = cfg.insecure_dev_mode;
    let signature = (world.signature)(
        request,
        now,
        cfg.signature_window_secs,
        views(cfg.additional_covered_components@),
    );
    let parsed = signature->Ok_0;
    let token = (world.token)(token_of(Evidence { signature: Some(signature), ..Evidence::empty() }));
    let decoded = token->Ok_0;
    let iss = iss_of(decoded);
    let kind = kind_of(typ_of(decoded))->Some_0;
    let names = KeyRequestView { iss, dwk: pinned_dwk(cfg, kind, iss), kid: kid_of(decoded) };
    let key = (world.key)(names);
    let refreshed_key = (world.refreshed_key)(names);
    let resource = cfg.person_tokens.resource();
    let agent_claims = (world.agent_claims)(decoded, now, dev);
    let person_claims = (world.person_claims)(decoded, now, resource, dev);
    let auth_claims = (world.auth_claims)(decoded, now, resource, pinned_dwk(cfg, kind, iss), dev);
    let confirmed = match kind {
        TokenKind::Agent => agent_claims->Ok_0.cnf.jwk,
        TokenKind::Person => person_claims->Ok_0.cnf.jwk,
        TokenKind::Auth => auth_claims->Ok_0.cnf.jwk,
    };
    Evidence {
        signature: Some(signature),
        token: Some(token),
        algorithm: Some((world.algorithm)(decoded.header.alg@)),
        issuer_valid: Some((world.issuer_valid)(iss, dev)),
        key: Some(key),
        token_signature: Some((world.token_signature)(decoded, key->Ok_0)),
        refreshed_key: Some(refreshed_key),
        refreshed_signature: Some((world.token_signature)(decoded, refreshed_key->Ok_0)),
        agent_claims: Some(agent_claims),
        person_claims: Some(person_claims),
        auth_claims: Some(auth_claims),
        possession: Some((world.possession)(parsed, confirmed)),
        thumbprint: Some((world.thumbprint)(confirmed)),
    }
}

/// Whether every slot of `part` is empty or holds what `whole` holds.
pub open spec fn within(part: Evidence, whole: Evidence) -> bool {
    &&& part.signature is None || part.signature == whole.signature
    &&& part.token is None || part.token == whole.token
    &&& part.algorithm is None || part.algorithm == whole.algorithm
    &&& part.issuer_valid is None || part.issuer_valid == whole.issuer_valid
    &&& part.key is None || part.key == whole.key
    &&& part.token_signature is None || part.token_signature == whole.token_signature
    &&& part.refreshed_key is None || part.refreshed_key == whole.refreshed_key
    &&& part.refreshed_signature is None || part.refreshed_signature == whole.refreshed_signature
    &&& part.agent_claims is None || part.agent_claims == whole.agent_claims
    &&& part.person_claims is None || part.person_claims == whole.person_claims
    &&& part.auth_claims is None || part.auth_claims == whole.auth_claims
    &&& part.possession is None || part.possession == whole.possession
    &&& part.thumbprint is None || part.thumbprint == whole.thumbprint
}

/// A conclusion reached on part of the evidence is the conclusion on all of it.
pub proof fn conclusion_stands(
    headers: Seq<(String, String)>,
    request: RequestView,
    cfg: AauthConfig,
    part: Evidence,
    whole: Evidence,
    seen: Option<Map<Seq<char>, i64>>,
    now: u64,
)
    requires
        within(part, whole),
        progress(headers, request, cfg, part, seen, now) is Done,
    ensures
        progress(headers, request, cfg, whole, seen, now) == progress(
            headers,
            request,
            cfg,
            part,
            seen,
            now,
        ),
{
}

/// Doing the work that a verification asks for gathers the evidence of the
/// world, piece by piece.
#[verifier::rlimit(40)]
pub proof fn asked_work_completes_the_evidence(
    headers: Seq<(String, String)>,
    request: RequestView,
    cfg: AauthConfig,
    ev: Evidence,
    seen: Option<Map<Seq<char>, i64>>,
    now: u64,
    world: World,
    action: ActionView,
)
    requires
        within(ev, full_evidence(world, request, cfg, now)),
        progress(headers, request, cfg, ev, seen, now) == ProgressView::Needs(action),
    ensures
        within(answered(world, ev, action), full_evidence(world, request, cfg, now)),
        slot_empty(ev, action),
        !slot_empty(answered(world, ev, action), action),
{
    asks_only_for_missing_evidence(headers, request, cfg, ev, seen, now, action);
    let full = full_evidence(world, request, cfg, now);
    let next = answered(world, ev, action);
    match action {
        ActionView::ParseSignature { .. } => {
            assert(next.signature == full.signature);
        },
        ActionView::DecodeToken { .. } => {
            assert(next.token == full.token);
        },
        ActionView::CheckAlgorithm { .. } => {
            assert(next.algorithm == full.algorithm);
        },
        ActionView::CheckIssuer { .. } => {
            assert(next.issuer_valid == full.issuer_valid);
        },
        ActionView::GetKey(_) => {
            assert(next.key == full.key);
        },
        ActionView::VerifyToken { .. } => {
            assert(next.token_signature == full.token_signature);
        },
        ActionView::RefreshKey(_) => {
            assert(next.refreshed_key == full.refreshed_key);
        },
        ActionView::VerifyTokenAgain { .. } => {
            assert(next.refreshed_signature == full.refreshed_signature);
        },
        ActionView::ValidateAgent { .. } => {
            assert(next.agent_claims == full.agent_claims);
        },
        ActionView::ValidatePerson { .. } => {
            assert(next.person_claims == full.person_claims);
        },
        ActionView::ValidateAuth { .. } => {
            assert(next.auth_claims == full.auth_claims);
        },
        ActionView::VerifyPossession { .. } => {
            assert(next.possession == full.possession);
        },
        ActionView::Thumbprint { .. } => {
            assert(next.thumbprint == full.thumbprint);
        },
    }
}

/// One for an empty slot.
pub open spec fn one(empty: bool) -> nat {
    if empty {
        1
    } else {
        0
    }
}

/// How many slots are still empty.
pub open spec fn missing(ev: Evidence) -> nat {
    one(ev.signature is None) + one(ev.token is None) + one(ev.algorithm is None) + one(
        ev.issuer_valid is None,
    ) + one(ev.key is None) + one(ev.token_signature is None) + one(ev.refreshed_key is None) + one(
        ev.refreshed_signature is None,
    ) + one(ev.agent_claims is None) + one(ev.person_claims is None) + one(ev.auth_claims is None)
        + one(ev.possession is None) + one(ev.thumbprint is None)
}

/// How far a verification comes when at most `steps` pieces of the work it asks
/// for are done.
pub open spec fn course(
    headers: Seq<(String, String)>,
    request: RequestView,
    cfg: AauthConfig,
    ev: Evidence,
    seen: Option<Map<Seq<char>, i64>>,
    now: u64,
    world: World,
    steps: nat,
) -> ProgressView
    decreases steps,
{
    match progress(headers, request, cfg, ev, seen, now) {
        ProgressView::Needs(action) if steps > 0 => course(
            headers,
            request,
            cfg,
            answered(world, ev, action),
            seen,
            now,
            world,
            (steps - 1) as nat,
        ),
        reached => reached,
    }
}

proof fn lemma_answer_fills_a_slot(world: World, ev: Evidence, action: ActionView)
    requires
        slot_empty(ev, action),
    ensures
        missing(answered(world, ev, action)) + 1 == missing(ev),
{
    match action {
        ActionView::ParseSignature { .. } => {},
        ActionView::DecodeToken { .. } => {},
        ActionView::CheckAlgorithm { .. } => {},
        ActionView::CheckIssuer { .. } => {},
        ActionView::GetKey(_) => {},
        ActionView::VerifyToken { .. } => {},
        ActionView::RefreshKey(_) => {},
        ActionView::VerifyTokenAgain { .. } => {},
        ActionView::ValidateAgent { .. } => {},
        ActionView::ValidatePerson { .. } => {},
        ActionView::ValidateAuth { .. } => {},
        ActionView::VerifyPossession { .. } => {},
        ActionView::Thumbprint { .. } => {},
    }
}

proof fn lemma_full_evidence_suffices(
    headers: Seq<(String, String)>,
    request: RequestView,
    cfg: AauthConfig,
    ev: Evidence,
    seen: Option<Map<Seq<char>, i64>>,
    now: u64,
)
    requires
        missing(ev) == 0,
    ensures
        progress(headers, request, cfg, ev, seen, now) is Done,
{
}

#[verifier::spinoff_prover]
#[verifier::rlimit(40)]
proof fn lemma_course(
    headers: Seq<(String, String)>,
    request: RequestView,
    cfg: AauthConfig,
    ev: Evidence,
    seen: Option<Map<Seq<char>, i64>>,
    now: u64,
    world: World,
    steps: nat,
)
    requires
        within(ev, full_evidence(world, request, cfg, now)),
        missing(ev) <= steps,
    ensures
        course(headers, request, cfg, ev, seen, now, world, steps) == progress(
            headers,
            request,
            cfg,
            full_evidence(world, request, cfg, now),
            seen,
            now,
        ),
        course(headers, request, cfg, ev, seen, now, world, steps) is Done,
    decreases steps,
{
    if steps == 0 {
        lemma_full_evidence_suffices(headers, request, cfg, ev, seen, now);
    }
    let full = full_evidence(world, request, cfg, now);
    match progress(headers, request, cfg, ev, seen, now) {
        ProgressView::Needs(action) => {
            asked_work_completes_the_evidence(
                headers,
                request,
                cfg,
                ev,
                seen,
                now,
                world,
                action,
            );
            let next = answered(world, ev, action);
            lemma_answer_fills_a_slot(world, ev, action);
            lemma_course(headers, request, cfg, next, seen, now, world, (steps - 1) as nat);
        },
        ProgressView::Done(_) => {
            conclusion_stands(headers, request, cfg, ev, full, seen, now);
        },
    }
}

/// Whatever the world, a verification that starts with no evidence concludes
/// after at most thirteen pieces of work, and its conclusion is the one that
/// follows from all of the world's answers.
pub proof fn verification_concludes(
    headers: Seq<(String, String)>,
    request: RequestView,
    cfg: AauthConfig,
    seen: Option<Map<Seq<char>, i64>>,
    now: u64,
    world: World,
)
    ensures
        course(headers, request, cfg, Evidence::empty(), seen, now, world, 13) is Done,
        course(headers, request, cfg, Evidence::empty(), seen, now, world, 13) == progress(
            headers,
            request,
            cfg,
            full_evidence(world, request, cfg, now),
            seen,
            now,
        ),
{
    lemma_course(headers, request, cfg, Evidence::empty(), seen, now, world, 13);
}

/// A request whose header lines are spelled otherwise is treated the same: the
/// case of names, white space around values, and giving one line as two change
/// neither what is asked, nor what is concluded, nor what is remembered.
pub proof fn header_spelling_does_not_matter(
    chain: Seq<Seq<(String, String)>>,
    request: RequestView,
    cfg: AauthConfig,
    ev: Evidence,
    seen: Option<Map<Seq<char>, i64>>,
    now: u64,
    world: World,
)
    requires
        spellings(chain),
    ensures
        ({
            let one = chain.first();
            let other = chain.last();
            let a = RequestView { fields: field_map(one), ..request };
            let b = RequestView { fields: field_map(other), ..request };
            &&& progress(other, b, cfg, ev, seen, now) == progress(one, a, cfg, ev, seen, now)
            &&& memory_after(other, b, cfg, ev, seen, now) == memory_after(
                one,
                a,
                cfg,
                ev,
                seen,
                now,
            )
            &&& course(other, b, cfg, Evidence::empty(), seen, now, world, 13) == course(
                one,
                a,
                cfg,
                Evidence::empty(),
                seen,
                now,
                world,
                13,
            )
        }),
{
    let one = chain.first();
    let other = chain.last();
    spelling_leaves_the_fields(chain, Seq::empty());
    let a = RequestView { fields: field_map(one), ..request };
    let b = RequestView { fields: field_map(other), ..request };
    assert(a == b);
    verification_concludes(one, a, cfg, seen, now, world);
    verification_concludes(other, b, cfg, seen, now, world);
}

} // verus!
