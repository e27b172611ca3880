//! Whom a request is resolved to, what is asked about it on the way, and how it is
//! refused.

use vstd::prelude::*;
use vstd::string::*;

use crate::config::AauthConfig;
use crate::error::{SigErrorCode, SigErrorView};
use crate::headers::{field_of, first_header, listed_fields, presents_credential};
use crate::identity::{
    expected_authority, identity, refusal, resolution, signed_request, IdentityResolution,
    PluginIdentity, RequestMetadata, ResolutionView, ResolveStep, ResolveStepView,
};
use crate::laws::texts::suffix_is_what_stands_behind;
use crate::replay::tuple_key;
use crate::text::{decimal, lowered, trimmed};
use crate::tokens::ParsedSignature;
use crate::url::text_of;
use crate::verification::{
    canonical, memory_after, progress, Action, Evidence, OutcomeView, ProgressView,
    RequestParts, VerifiedIdentity, VerifyPolicy,
};

verus! {

// --- the identity --------------------------------------------------------------------

/// The subject of an identity is the one that the claims name, and its issuer is
/// theirs, character for character and whatever the kind of credential.
pub proof fn identity_names_the_claimed_subject_and_issuer(
    cfg: AauthConfig,
    vid: VerifiedIdentity,
    thumbprint: Option<String>,
    r: PluginIdentity,
)
    requires
        r@ == identity(cfg, vid, text_of(thumbprint)),
    ensures
        r.subject_id matches Some(subject) && r.issuer matches Some(issuer) && match vid {
            VerifiedIdentity::Agent(c) => subject@ == c.sub@ && issuer@ == c.iss@,
            VerifiedIdentity::Person(c) => subject@ == c.sub@ && issuer@ == c.iss@,
            VerifiedIdentity::Auth(c) => subject@ == c.sub@ && issuer@ == c.iss@,
        },
{
}

/// Two people are told apart whenever their subjects differ or their issuers do:
/// credentials of one kind lead to the same subject and issuer only when their
/// claims name the same.
pub proof fn different_subjects_stay_apart(
    cfg: AauthConfig,
    vid1: VerifiedIdentity,
    vid2: VerifiedIdentity,
    thumbprint1: Option<String>,
    thumbprint2: Option<String>,
    r1: PluginIdentity,
    r2: PluginIdentity,
)
    requires
        r1@ == identity(cfg, vid1, text_of(thumbprint1)),
        r2@ == identity(cfg, vid2, text_of(thumbprint2)),
        text_of(r1.subject_id) == text_of(r2.subject_id),
        text_of(r1.issuer) == text_of(r2.issuer),
    ensures
        match (vid1, vid2) {
            (VerifiedIdentity::Agent(a), VerifiedIdentity::Agent(b)) => a.sub@ == b.sub@ && a.iss@
                == b.iss@,
            (VerifiedIdentity::Person(a), VerifiedIdentity::Person(b)) => a.sub@ == b.sub@ && a.iss@
                == b.iss@,
            (VerifiedIdentity::Auth(a), VerifiedIdentity::Auth(b)) => a.sub@ == b.sub@ && a.iss@
                == b.iss@,
            _ => true,
        },
{
    identity_names_the_claimed_subject_and_issuer(cfg, vid1, thumbprint1, r1);
    identity_names_the_claimed_subject_and_issuer(cfg, vid2, thumbprint2, r2);
    assert(text_of(r1.subject_id) == Some(r1.subject_id->Some_0@));
    assert(text_of(r2.subject_id) == Some(r2.subject_id->Some_0@));
    assert(text_of(r1.issuer) == Some(r1.issuer->Some_0@));
    assert(text_of(r2.issuer) == Some(r2.issuer->Some_0@));
}

/// An identity is of the kind and the trust that the operator configured, under the
/// operator's label, and holds no roles and no groups. Its scopes are those of a
/// grant, one by one and in order; any other credential has none.
pub proof fn identity_is_labelled_as_configured(
    cfg: AauthConfig,
    vid: VerifiedIdentity,
    thumbprint: Option<String>,
    r: PluginIdentity,
)
    requires
        r@ == identity(cfg, vid, text_of(thumbprint)),
    ensures
        r.kind@ == cfg.resolution.trust_level@,
        r.trust_level@ == cfg.resolution.trust_level@,
        r.auth_provider matches Some(label) && label@ == cfg.resolution.auth_provider_label@,
        r.roles@.len() == 0,
        r.groups@.len() == 0,
        match vid {
            VerifiedIdentity::Auth(c) => r.scopes@.len() == c.scopes@.len() && forall|i: int|
                0 <= i < r.scopes@.len() ==> (#[trigger] r.scopes@[i])@ == c.scopes@[i]@,
            _ => r.scopes@.len() == 0,
        },
{
    let v = r@;
    assert(v.roles.len() == r.roles@.len());
    assert(v.groups.len() == r.groups@.len());
    assert(v.scopes.len() == r.scopes@.len());
    assert forall|i: int| 0 <= i < r.scopes@.len() implies v.scopes[i] == (
    #[trigger] r.scopes@[i])@ by {}
    if let VerifiedIdentity::Auth(c) = vid {
        assert(v.scopes == crate::text::views(c.scopes@));
        assert forall|i: int| 0 <= i < r.scopes@.len() implies (#[trigger] r.scopes@[i])@
            == c.scopes@[i]@ by {
            assert(v.scopes[i] == c.scopes@[i]@);
        }
    }
}

/// Whether an attribute has a value exactly where a claim does, and the same.
pub open spec fn mirrors(
    m: Map<Seq<char>, Seq<char>>,
    name: Seq<char>,
    claim: Option<String>,
) -> bool {
    match claim {
        Some(v) => m.contains_key(name) && m[name] == v@,
        None => !m.contains_key(name),
    }
}

proof fn lemma_attribute_names()
    ensures
        "aauth.token_type"@ != "aauth.jti"@,
        "aauth.token_type"@ != "aauth.exp"@,
        "aauth.token_type"@ != "aauth.agent_jkt"@,
        "aauth.token_type"@ != "aauth.ps"@,
        "aauth.token_type"@ != "aauth.parent_agent"@,
        "aauth.token_type"@ != "aauth.mission_s256"@,
        "aauth.token_type"@ != "aauth.tenant"@,
        "aauth.token_type"@ != "aauth.account"@,
        "aauth.jti"@ != "aauth.exp"@,
        "aauth.jti"@ != "aauth.agent_jkt"@,
        "aauth.jti"@ != "aauth.ps"@,
        "aauth.jti"@ != "aauth.parent_agent"@,
        "aauth.jti"@ != "aauth.mission_s256"@,
        "aauth.jti"@ != "aauth.tenant"@,
        "aauth.jti"@ != "aauth.account"@,
        "aauth.exp"@ != "aauth.agent_jkt"@,
        "aauth.exp"@ != "aauth.ps"@,
        "aauth.exp"@ != "aauth.parent_agent"@,
        "aauth.exp"@ != "aauth.mission_s256"@,
        "aauth.exp"@ != "aauth.tenant"@,
        "aauth.exp"@ != "aauth.account"@,
        "aauth.agent_jkt"@ != "aauth.ps"@,
        "aauth.agent_jkt"@ != "aauth.parent_agent"@,
        "aauth.agent_jkt"@ != "aauth.mission_s256"@,
        "aauth.agent_jkt"@ != "aauth.tenant"@,
        "aauth.agent_jkt"@ != "aauth.account"@,
        "aauth.ps"@ != "aauth.parent_agent"@,
        "aauth.ps"@ != "aauth.mission_s256"@,
        "aauth.ps"@ != "aauth.tenant"@,
        "aauth.ps"@ != "aauth.account"@,
        "aauth.mission_s256"@ != "aauth.tenant"@,
        "aauth.mission_s256"@ != "aauth.account"@,
        "aauth.tenant"@ != "aauth.account"@,
{
    reveal_strlit("aauth.token_type");
    reveal_strlit("aauth.jti");
    reveal_strlit("aauth.exp");
    reveal_strlit("aauth.agent_jkt");
    reveal_strlit("aauth.ps");
    reveal_strlit("aauth.parent_agent");
    reveal_strlit("aauth.mission_s256");
    reveal_strlit("aauth.tenant");
    reveal_strlit("aauth.account");
    assert("aauth.token_type"@[6] == 't' && "aauth.token_type"@.len() == 16);
    assert("aauth.jti"@[6] == 'j');
    assert("aauth.exp"@[6] == 'e');
    assert("aauth.agent_jkt"@[6] == 'a' && "aauth.agent_jkt"@.len() == 15);
    assert("aauth.ps"@[6] == 'p' && "aauth.ps"@.len() == 8);
    assert("aauth.parent_agent"@[6] == 'p' && "aauth.parent_agent"@.len() == 18);
    assert("aauth.mission_s256"@[6] == 'm');
    assert("aauth.tenant"@[6] == 't' && "aauth.tenant"@.len() == 12);
    assert("aauth.account"@[6] == 'a' && "aauth.account"@.len() == 13);
}

/// The attributes of an agent are its claims, each under its name, and no others.
pub proof fn agent_attributes(
    cfg: AauthConfig,
    c: crate::tokens::AgentTokenClaims,
    thumbprint: Option<String>,
    r: PluginIdentity,
)
    requires
        r@ == identity(cfg, VerifiedIdentity::Agent(c), text_of(thumbprint)),
    ensures
        ({
            let m = r.attributes@;
            &&& m.contains_pair("aauth.token_type"@, "agent"@)
            &&& m.contains_pair("aauth.jti"@, c.jti@)
            &&& m.contains_pair("aauth.exp"@, decimal(c.exp as nat))
            &&& mirrors(m, "aauth.agent_jkt"@, thumbprint)
            &&& mirrors(m, "aauth.ps"@, c.ps)
            &&& mirrors(m, "aauth.parent_agent"@, c.parent_agent)
            &&& forall|n: Seq<char>| #[trigger]
                m.contains_key(n) ==> n == "aauth.token_type"@ || n == "aauth.jti"@ || n
                    == "aauth.exp"@ || n == "aauth.agent_jkt"@ || n == "aauth.ps"@ || n
                    == "aauth.parent_agent"@
        }),
{
    lemma_attribute_names();
}

/// The attributes of a person are the person's claims, each under its name, with
/// the issuer as person server, and no others.
pub proof fn person_attributes(
    cfg: AauthConfig,
    c: crate::tokens::PersonTokenClaims,
    thumbprint: Option<String>,
    r: PluginIdentity,
)
    requires
        r@ == identity(cfg, VerifiedIdentity::Person(c), text_of(thumbprint)),
    ensures
        ({
            let m = r.attributes@;
            &&& m.contains_pair("aauth.token_type"@, "person"@)
            &&& m.contains_pair("aauth.jti"@, c.jti@)
            &&& m.contains_pair("aauth.exp"@, decimal(c.exp as nat))
            &&& m.contains_pair("aauth.ps"@, c.iss@)
            &&& mirrors(m, "aauth.agent_jkt"@, thumbprint)
            &&& mirrors(m, "aauth.mission_s256"@, c.mission_s256)
            &&& mirrors(m, "aauth.tenant"@, c.tenant)
            &&& forall|n: Seq<char>| #[trigger]
                m.contains_key(n) ==> n == "aauth.token_type"@ || n == "aauth.jti"@ || n
                    == "aauth.exp"@ || n == "aauth.agent_jkt"@ || n == "aauth.ps"@ || n
                    == "aauth.mission_s256"@ || n == "aauth.tenant"@
        }),
{
    lemma_attribute_names();
}

/// The attributes of a grant are its claims, each under its name, with the person
/// server that vouches for the subject, and no others.
pub proof fn grant_attributes(
    cfg: AauthConfig,
    c: crate::tokens::AuthTokenClaims,
    thumbprint: Option<String>,
    r: PluginIdentity,
)
    requires
        r@ == identity(cfg, VerifiedIdentity::Auth(c), text_of(thumbprint)),
    ensures
        ({
            let m = r.attributes@;
            &&& m.contains_pair("aauth.token_type"@, "auth"@)
            &&& m.contains_pair("aauth.jti"@, c.jti@)
            &&& m.contains_pair("aauth.exp"@, decimal(c.exp as nat))
            &&& m.contains_pair("aauth.ps"@, c.ps@)
            &&& mirrors(m, "aauth.agent_jkt"@, thumbprint)
            &&& mirrors(m, "aauth.account"@, c.account)
            &&& mirrors(m, "aauth.mission_s256"@, c.mission_s256)
            &&& mirrors(m, "aauth.tenant"@, c.tenant)
            &&& forall|n: Seq<char>| #[trigger]
                m.contains_key(n) ==> n == "aauth.token_type"@ || n == "aauth.jti"@ || n
                    == "aauth.exp"@ || n == "aauth.agent_jkt"@ || n == "aauth.ps"@ || n
                    == "aauth.account"@ || n == "aauth.mission_s256"@ || n == "aauth.tenant"@
        }),
{
    lemma_attribute_names();
}

// --- the request ---------------------------------------------------------------------

/// A request whose signature is asked about is asked about as it came: its method,
/// its path and its query are those that the gateway names, character for
/// character, with a question mark before the query; its fields are those that its
/// headers make. A path that is not named is the root; a method or a query that is
/// not named is empty.
pub proof fn request_is_asked_about_as_it_came(
    cfg: AauthConfig,
    headers: Seq<(String, String)>,
    metadata: RequestMetadata,
    ev: Evidence,
    seen: Option<Map<Seq<char>, i64>>,
    now: u64,
    step: ResolveStep,
    parts: RequestParts,
    policy: VerifyPolicy,
    kept: Box<Evidence>,
)
    requires
        step@ == resolution(cfg, headers, metadata, ev, seen, now),
        step == ResolveStep::Needs(Action::ParseSignature { parts, policy }, kept),
    ensures
        metadata.path matches Some(path) ==> parts.path@ == path@,
        metadata.path is None ==> parts.path@ == seq!['/'],
        metadata.method matches Some(method) ==> parts.method@ == method@,
        metadata.method is None ==> parts.method@.len() == 0,
        metadata.query matches Some(query) ==> (query@.len() > 0 ==> parts.query@ == seq!['?']
            + query@),
        metadata.query matches Some(query) ==> (query@.len() == 0 ==> parts.query@.len() == 0),
        metadata.query is None ==> parts.query@.len() == 0,
        forall|name: Seq<char>|
            lowered(name) == name ==> #[trigger] first_header(parts.fields@, name) == field_of(
                headers,
                name,
            ),
        policy.now == now,
        policy.window_secs == cfg.signature_window_secs,
        policy.extra_required@.len() == cfg.additional_covered_components@.len(),
        forall|i: int|
            0 <= i < policy.extra_required@.len() ==> (#[trigger] policy.extra_required@[i])@
                == cfg.additional_covered_components@[i]@,
{
    reveal_strlit("/");
    reveal_strlit("?");
    assert("/"@ =~= seq!['/']);
    assert("?"@ =~= seq!['?']);
    let asked = signed_request(cfg, headers, metadata);
    assert(listed_fields(parts.fields@) == asked.fields);
    assert forall|name: Seq<char>| lowered(name) == name implies #[trigger] first_header(
        parts.fields@,
        name,
    ) == field_of(headers, name) by {
        assert(listed_fields(parts.fields@).contains_key(name) == asked.fields.contains_key(name));
        if asked.fields.contains_key(name) {
            assert(listed_fields(parts.fields@)[name] == asked.fields[name]);
        }
    }
    let extra = crate::text::views(policy.extra_required@);
    let wanted = crate::text::views(cfg.additional_covered_components@);
    assert(extra == wanted);
    assert(extra.len() == policy.extra_required@.len());
    assert(wanted.len() == cfg.additional_covered_components@.len());
    assert forall|i: int| 0 <= i < policy.extra_required@.len() implies (
    #[trigger] policy.extra_required@[i])@ == cfg.additional_covered_components@[i]@ by {
        assert(extra[i] == policy.extra_required@[i]@);
        assert(wanted[i] == cfg.additional_covered_components@[i]@);
    }
}

/// Requests whose paths differ are asked about with different paths, and so are
/// those whose methods or whose queries differ.
pub proof fn different_requests_are_asked_about_differently(
    cfg: AauthConfig,
    headers1: Seq<(String, String)>,
    headers2: Seq<(String, String)>,
    metadata1: RequestMetadata,
    metadata2: RequestMetadata,
    ev1: Evidence,
    ev2: Evidence,
    seen: Option<Map<Seq<char>, i64>>,
    now: u64,
    step1: ResolveStep,
    step2: ResolveStep,
    parts1: RequestParts,
    parts2: RequestParts,
    policy1: VerifyPolicy,
    policy2: VerifyPolicy,
    kept1: Box<Evidence>,
    kept2: Box<Evidence>,
)
    requires
        step1@ == resolution(cfg, headers1, metadata1, ev1, seen, now),
        step2@ == resolution(cfg, headers2, metadata2, ev2, seen, now),
        step1 == ResolveStep::Needs(
            Action::ParseSignature { parts: parts1, policy: policy1 },
            kept1,
        ),
        step2 == ResolveStep::Needs(
            Action::ParseSignature { parts: parts2, policy: policy2 },
            kept2,
        ),
    ensures
        metadata1.path matches Some(a) ==> (metadata2.path matches Some(b) ==> (a@ != b@
            ==> parts1.path@ != parts2.path@)),
        metadata1.method matches Some(a) ==> (metadata2.method matches Some(b) ==> (a@ != b@
            ==> parts1.method@ != parts2.method@)),
        metadata1.query matches Some(a) ==> (metadata2.query matches Some(b) ==> (a@ != b@
            ==> parts1.query@ != parts2.query@)),
{
    request_is_asked_about_as_it_came(
        cfg,
        headers1,
        metadata1,
        ev1,
        seen,
        now,
        step1,
        parts1,
        policy1,
        kept1,
    );
    request_is_asked_about_as_it_came(
        cfg,
        headers2,
        metadata2,
        ev2,
        seen,
        now,
        step2,
        parts2,
        policy2,
        kept2,
    );
    if let (Some(a), Some(b)) = (metadata1.query, metadata2.query) {
        if parts1.query@ == parts2.query@ {
            if a@.len() > 0 && b@.len() > 0 {
                assert((seq!['?'] + a@).skip(1) =~= a@);
                assert((seq!['?'] + b@).skip(1) =~= b@);
            } else if a@.len() == 0 && b@.len() == 0 {
                assert(a@ =~= b@);
            }
        }
    }
}

/// A request that is accepted is remembered under the path and the method that the
/// gateway names, character for character, until its time of signing plus the
/// configured window.
pub proof fn accepted_request_is_remembered_as_it_came(
    cfg: AauthConfig,
    headers: Seq<(String, String)>,
    metadata: RequestMetadata,
    ev: Evidence,
    m: Map<Seq<char>, i64>,
    now: u64,
    vid: VerifiedIdentity,
    p: ParsedSignature,
    thumbprint: String,
    method: String,
    path: String,
)
    requires
        resolution(cfg, headers, metadata, ev, Some(m), now) == ResolveStepView::Identified(vid),
        ev.signature matches Some(Ok(q)) && q == p,
        ev.thumbprint matches Some(Some(s)) && s == thumbprint,
        metadata.method == Some(method),
        metadata.path == Some(path),
        cfg.signature_window_secs <= 0x7fff_ffff_ffff_ffff,
        p.created + cfg.signature_window_secs <= 0x7fff_ffff_ffff_ffff,
    ensures
        ({
            let place = tuple_key(
                thumbprint@,
                p.created,
                method@,
                expected_authority(cfg, headers),
                path@,
            );
            memory_after(
                headers,
                signed_request(cfg, headers, metadata),
                cfg,
                ev,
                Some(m),
                now,
            ) matches Some(after) && after.contains_key(place) && after[place] == p.created
                + cfg.signature_window_secs
        }),
{
}

/// The authority that a signature has to cover is the operator's, where one is
/// configured; otherwise that of the first `Host` header; without one it is empty.
/// White space around it and its case do not count. Of the header, and of it
/// alone, one default port is dropped.
pub proof fn authority_that_counts(cfg: AauthConfig, headers: Seq<(String, String)>)
    ensures
        cfg.expected_authority matches Some(a) ==> expected_authority(cfg, headers) == lowered(
            trimmed(a@),
        ),
        cfg.expected_authority is None ==> match first_header(headers, "host"@) {
            Some(host) => {
                let a = expected_authority(cfg, headers);
                let whole = lowered(trimmed(host));
                if exists|bare: Seq<char>| whole == #[trigger] (bare + ":443"@) {
                    whole == a + ":443"@
                } else {
                    whole == a
                }
            },
            None => expected_authority(cfg, headers).len() == 0,
        },
{
    if cfg.expected_authority is None {
        if let Some(host) = first_header(headers, "host"@) {
            canonical_form(host);
        }
    }
}

/// The canonical form of a `Host` value is its text without white space around it,
/// in lower case, and without one default port behind it.
pub proof fn canonical_form(host: Seq<char>)
    ensures
        ({
            let whole = lowered(trimmed(host));
            if exists|bare: Seq<char>| whole == #[trigger] (bare + ":443"@) {
                whole == canonical(host) + ":443"@
            } else {
                whole == canonical(host)
            }
        }),
{
    let whole = lowered(trimmed(host));
    suffix_is_what_stands_behind(whole, ":443"@, canonical(host));
    if exists|bare: Seq<char>| whole == #[trigger] (bare + ":443"@) {
        let bare = choose|bare: Seq<char>| whole == #[trigger] (bare + ":443"@);
        suffix_is_what_stands_behind(whole, ":443"@, bare);
    }
}

// --- the resolution ------------------------------------------------------------------

/// A request that did not come over HTTP is left to others. Any other is resolved
/// as its verification goes: what that waits for is waited for, whom it verified is
/// identified, what it rejected is refused for the same reason, and a request
/// without a credential is left to others.
pub proof fn resolution_follows_the_verification(
    cfg: AauthConfig,
    headers: Seq<(String, String)>,
    metadata: RequestMetadata,
    ev: Evidence,
    seen: Option<Map<Seq<char>, i64>>,
    now: u64,
)
    ensures
        ({
            let step = resolution(cfg, headers, metadata, ev, seen, now);
            if lowered(metadata.transport@) == "http"@ {
                match progress(
                    headers,
                    signed_request(cfg, headers, metadata),
                    cfg,
                    ev,
                    seen,
                    now,
                ) {
                    ProgressView::Needs(action) => step == ResolveStepView::Needs(action),
                    ProgressView::Done(OutcomeView::Verified(vid)) => step
                        == ResolveStepView::Identified(vid),
                    ProgressView::Done(OutcomeView::Rejected(e)) => step
                        == ResolveStepView::Refused(e),
                    ProgressView::Done(OutcomeView::NoCredential) => step
                        == ResolveStepView::Finished(ResolutionView::Unresolved),
                }
            } else {
                step == ResolveStepView::Finished(ResolutionView::Unresolved)
            }
        }),
{
    reveal_strlit("http");
    assert(lowered("http"@) =~= "http"@);
}

/// A signed request over HTTP without an authority is refused.
pub proof fn signed_request_without_authority_is_refused(
    cfg: AauthConfig,
    headers: Seq<(String, String)>,
    metadata: RequestMetadata,
    ev: Evidence,
    seen: Option<Map<Seq<char>, i64>>,
    now: u64,
)
    requires
        lowered(metadata.transport@) == "http"@,
        presents_credential(headers),
        cfg.expected_authority is None,
        first_header(headers, "host"@) is None,
    ensures
        resolution(cfg, headers, metadata, ev, seen, now) matches ResolveStepView::Refused(e)
            && e.code == SigErrorCode::InvalidRequest,
{
    reveal_strlit("http");
    assert(lowered("http"@) =~= "http"@);
}

// --- refusals ------------------------------------------------------------------------

/// The names of the codes on the wire.
pub proof fn code_names(code: SigErrorCode)
    ensures
        match code {
            SigErrorCode::InvalidRequest => code.name() == "invalid_request"@,
            SigErrorCode::InvalidInput => code.name() == "invalid_input"@,
            SigErrorCode::InvalidSignature => code.name() == "invalid_signature"@,
            SigErrorCode::UnsupportedScheme => code.name() == "unsupported_scheme"@,
            SigErrorCode::UnsupportedAlgorithm => code.name() == "unsupported_algorithm"@,
            SigErrorCode::InvalidKey => code.name() == "invalid_key"@,
            SigErrorCode::UnknownKey => code.name() == "unknown_key"@,
            SigErrorCode::IssuerMissing => code.name() == "issuer_missing"@,
            SigErrorCode::IssuerMismatch => code.name() == "issuer_mismatch"@,
            SigErrorCode::InvalidJwt => code.name() == "invalid_jwt"@,
            SigErrorCode::ExpiredJwt => code.name() == "expired_jwt"@,
            SigErrorCode::Other(name) => code.name() == name@,
        },
{
}

/// A refusal gives its code and its text as the reason. Its first header names the
/// code, and the components that the signature has to cover where it covered too
/// few. A second one follows exactly where the scheme or the algorithm was at
/// fault, and names what would be accepted.
pub proof fn refusals_tell_the_client_what_to_do(
    e: SigErrorView,
    list: Seq<char>,
    r: IdentityResolution,
)
    requires
        r@ == refusal(e, list),
    ensures
        r matches IdentityResolution::Invalid { reason, response_headers: h } && {
            &&& reason@ == e.code.name() + ": "@ + e.detail
            &&& h@.len() >= 1 && h@[0].0@ == "signature-error"@
            &&& e.required_input is None ==> h@[0].1@ == "error="@ + e.code.name()
            &&& e.required_input is Some ==> h@[0].1@ == "error="@ + e.code.name()
                + ", required_input="@ + list
            &&& e.code is UnsupportedScheme ==> h@.len() == 2 && h@[1].0@
                == "accept-signature-scheme"@ && h@[1].1@ == "jwt"@
            &&& e.code is UnsupportedAlgorithm ==> h@.len() == 2 && h@[1].0@
                == "accept-signature-alg"@ && h@[1].1@ == "Ed25519, ES256"@
            &&& !(e.code is UnsupportedScheme) && !(e.code is UnsupportedAlgorithm) ==> h@.len()
                == 1
        },
{
    if let IdentityResolution::Invalid { reason, response_headers: h } = r {
        let v = crate::identity::header_views(h@);
        assert(v.len() == h@.len());
        assert(v == crate::identity::refusal_headers(e, list));
        assert(v[0] == (h@[0].0@, h@[0].1@));
        if h@.len() > 1 {
            assert(v[1] == (h@[1].0@, h@[1].1@));
        }
    }
}

/// Resolutions are counted under three different names.
pub proof fn resolutions_are_counted_apart(r: IdentityResolution)
    ensures
        r is Resolved <==> r.label() == "resolved"@,
        r is Unresolved <==> r.label() == "none"@,
        r is Invalid <==> r.label() == "invalid"@,
{
    reveal_strlit("resolved");
    reveal_strlit("none");
    reveal_strlit("invalid");
    assert("resolved"@.len() == 8 && "none"@.len() == 4 && "invalid"@.len() == 7);
}

} // verus!
