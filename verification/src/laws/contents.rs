//! What the contracts speak of is what the values hold: the content of a value is
//! each of its fields, unchanged.

use vstd::prelude::*;
use vstd::string::*;

use crate::config::{ConfigError, ConfigErrorView, ConfigStop, ConfigStopView};
use crate::egress::{
    FetchAction, FetchActionView, FetchEvidence, GetAction, GetActionView, GetEvidence,
};
use crate::error::{sig_error, SigError, SigErrorCode};
use crate::headers::{first_header, listed_fields};
use crate::identity::{IdentityResolution, ResolutionView, ResolveStep, ResolveStepView};
use crate::replay::ReplayGuard;
use crate::text::{lowered, views};
use crate::url::{text_of, UrlParts};
use crate::verification::{
    memory, stop_view, Action, ActionView, Evidence, Outcome, OutcomeView, Progress, ProgressView,
    Stop, StopView,
};

verus! {

/// The content of a list of strings is that of each, in order.
pub proof fn strings_are_seen_one_by_one(v: Seq<String>)
    ensures
        views(v).len() == v.len(),
        forall|i: int| 0 <= i < v.len() ==> views(v)[i] == (#[trigger] v[i])@,
{
}

/// The content of an optional string is that of the string, where there is one.
pub proof fn optional_strings_are_seen(s: Option<String>)
    ensures
        s matches Some(t) ==> text_of(s) == Some(t@),
        s is None ==> text_of(s) is None,
{
}

/// The content of an error is its code, its text and the components it names.
pub proof fn errors_are_seen_whole(e: SigError, code: SigErrorCode, detail: Seq<char>)
    ensures
        e@.code == e.code,
        e@.detail == e.detail@,
        e.required_input is None <==> e@.required_input is None,
        e.required_input matches Some(v) ==> (e@.required_input matches Some(w) && w.len()
            == v@.len() && forall|i: int| 0 <= i < w.len() ==> #[trigger] w[i] == v@[i]@),
        sig_error(code, detail).code == code,
        sig_error(code, detail).detail == detail,
        sig_error(code, detail).required_input is None,
{
}

/// The content of the parts of a URL.
pub proof fn url_parts_are_seen_whole(p: UrlParts)
    ensures
        p@.scheme == p.scheme@,
        p@.username == p.username@,
        p@.password is Some <==> p.password is Some,
        p@.host is Some <==> p.host is Some,
        p.host matches Some(h) ==> p@.host == Some(h@),
        p@.port == p.port,
{
}

/// The content of an action of a verification.
pub proof fn actions_are_seen_whole(a: Action)
    ensures
        match a {
            Action::ParseSignature { parts, policy } => a@ matches ActionView::ParseSignature {
                parts: v,
                now,
                window_secs,
                extra_required,
            } && v.method == parts.method@ && v.authority == parts.authority@ && v.path
                == parts.path@ && v.query == parts.query@ && (forall|name: Seq<char>|
                lowered(name) == name ==> match #[trigger] first_header(parts.fields@, name) {
                    Some(value) => v.fields.contains_key(name) && v.fields[name] == value,
                    None => !v.fields.contains_key(name),
                }) && now == policy.now && window_secs == policy.window_secs
                && extra_required.len() == policy.extra_required@.len() && forall|i: int|
                0 <= i < extra_required.len() ==> #[trigger] extra_required[i]
                    == policy.extra_required@[i]@,
            Action::DecodeToken { token } => a@ == ActionView::DecodeToken { token: token@ },
            Action::CheckAlgorithm { alg } => a@ == ActionView::CheckAlgorithm { alg: alg@ },
            Action::CheckIssuer { iss, insecure_dev } => a@ == ActionView::CheckIssuer {
                iss: iss@,
                insecure_dev,
            },
            Action::GetKey(k) => a@ matches ActionView::GetKey(v) && v.iss == k.iss@ && v.dwk
                == k.dwk@ && v.kid == k.kid@,
            Action::VerifyToken { key } => a@ == ActionView::VerifyToken { key },
            Action::RefreshKey(k) => a@ matches ActionView::RefreshKey(v) && v.iss == k.iss@
                && v.dwk == k.dwk@ && v.kid == k.kid@,
            Action::VerifyTokenAgain { key } => a@ == ActionView::VerifyTokenAgain { key },
            Action::ValidateAgent { now, insecure_dev } => a@ == ActionView::ValidateAgent {
                now,
                insecure_dev,
            },
            Action::ValidatePerson { now, resource_id, insecure_dev } => a@
                == ActionView::ValidatePerson { now, resource_id: resource_id@, insecure_dev },
            Action::ValidateAuth { now, resource_id, dwk, insecure_dev } => a@
                == ActionView::ValidateAuth {
                now,
                resource_id: resource_id@,
                dwk: dwk@,
                insecure_dev,
            },
            Action::VerifyPossession { key } => a@ == ActionView::VerifyPossession { key },
            Action::Thumbprint { key } => a@ == ActionView::Thumbprint { key },
        },
{
    if let Action::ParseSignature { parts, policy } = a {
        assert forall|name: Seq<char>| lowered(name) == name implies match #[trigger] first_header(
            parts.fields@,
            name,
        ) {
            Some(value) => listed_fields(parts.fields@).contains_key(name) && listed_fields(
                parts.fields@,
            )[name] == value,
            None => !listed_fields(parts.fields@).contains_key(name),
        } by {}
    }
}

/// The content of how far a verification has come.
pub proof fn progress_is_seen_whole(p: Progress, o: Outcome, s: Stop)
    ensures
        p matches Progress::Needs(a, _) ==> p@ == ProgressView::Needs(a@),
        p matches Progress::Done(d) ==> p@ == ProgressView::Done(d@),
        o is NoCredential ==> o@ == OutcomeView::NoCredential,
        o matches Outcome::Verified(vid) ==> o@ == OutcomeView::Verified(*vid),
        o matches Outcome::Rejected(e) ==> o@ == OutcomeView::Rejected(e@),
        s matches Stop::Needs(a) ==> s@ == StopView::Needs(a@),
        s matches Stop::Reject(e) ==> s@ == StopView::Reject(e@),
        stop_view(Some(s)) == Some(s@),
        stop_view(None) is None,
{
}

/// The content of how far a resolution has come.
pub proof fn resolutions_are_seen_whole(s: ResolveStep, r: IdentityResolution)
    ensures
        s matches ResolveStep::Needs(a, _) ==> s@ == ResolveStepView::Needs(a@),
        s matches ResolveStep::Identified(vid) ==> s@ == ResolveStepView::Identified(*vid),
        s matches ResolveStep::Refused(e) ==> s@ == ResolveStepView::Refused(e@),
        s matches ResolveStep::Finished(f) ==> s@ == ResolveStepView::Finished(f@),
        r is Unresolved ==> r@ == ResolutionView::Unresolved,
        r matches IdentityResolution::Resolved { identity } ==> r@ == (ResolutionView::Resolved {
            identity: identity@,
        }),
        r matches IdentityResolution::Invalid { reason, response_headers: h } ==> (r@ matches
            ResolutionView::Invalid { reason: text, response_headers: w } && text == reason@
            && w.len() == h@.len() && forall|i: int|
            0 <= i < w.len() ==> (#[trigger] w[i]).0 == h@[i].0@ && w[i].1 == h@[i].1@),
{
}

/// The content of an action of a fetch.
pub proof fn fetches_are_seen_whole(g: GetAction, f: FetchAction)
    ensures
        match g {
            GetAction::Resolve { host, port } => g@ == (GetActionView::Resolve {
                host: host@,
                port,
            }),
            GetAction::Send { host, pinned, timeout_secs, https_only } => g@
                == (GetActionView::Send { host: host@, pinned, timeout_secs, https_only }),
            GetAction::Read { limit } => g@ == (GetActionView::Read { limit }),
        },
        match f {
            FetchAction::Metadata { url, action } => f@ == (FetchActionView::Metadata {
                url: url@,
                action: action@,
            }),
            FetchAction::Hosts { iss, jwks_uri } => f@ == (FetchActionView::Hosts {
                iss: iss@,
                jwks_uri: jwks_uri@,
            }),
            FetchAction::Jwks { url, action } => f@ == (FetchActionView::Jwks {
                url: url@,
                action: action@,
            }),
            FetchAction::Keys { body } => f@ == (FetchActionView::Keys { body: body@ }),
        },
{
}

/// The content of where a validation stops.
pub proof fn faults_are_seen_whole(s: ConfigStop, e: ConfigError)
    ensures
        s matches ConfigStop::Needs(id) ==> s@ == ConfigStopView::Needs(id@),
        s matches ConfigStop::Invalid(f) ==> s@ == ConfigStopView::Invalid(f@),
        crate::config::stop_view(Some(s)) == Some(s@),
        crate::config::stop_view(None) is None,
        match e {
            ConfigError::NoTrustedIssuers => e@ is NoTrustedIssuers,
            ConfigError::BlankIssuer(i) => e@ matches ConfigErrorView::BlankIssuer(n) && n == i,
            ConfigError::InvalidServer { list, index, identifier, reason } => e@ matches
                ConfigErrorView::InvalidServer { list: l, index: n, identifier: id, reason: why }
                && l == list && n == index && id == identifier@ && why == reason@,
            ConfigError::ZeroSignatureWindow => e@ is ZeroSignatureWindow,
            ConfigError::MissingResourceIdentifier => e@ is MissingResourceIdentifier,
            ConfigError::InvalidResourceIdentifier { identifier, reason } => e@ matches
                ConfigErrorView::InvalidResourceIdentifier { identifier: id, reason: why } && id
                == identifier@ && why == reason@,
            ConfigError::NoPersonServers => e@ is NoPersonServers,
            ConfigError::AuthWithoutPerson => e@ is AuthWithoutPerson,
            ConfigError::IncompleteRevocation(i) => e@ matches
                ConfigErrorView::IncompleteRevocation(n) && n == i,
            ConfigError::ZeroRefreshFloor => e@ is ZeroRefreshFloor,
            ConfigError::ZeroMaxTtl => e@ is ZeroMaxTtl,
            ConfigError::ZeroFetchTimeout => e@ is ZeroFetchTimeout,
            ConfigError::ResponseCapTooSmall => e@ is ResponseCapTooSmall,
            ConfigError::UnknownTrustLevel(s) => e@ matches ConfigErrorView::UnknownTrustLevel(t)
                && t == s@,
        },
{
}

/// What a guard remembers is seen where there is a guard.
pub proof fn memory_is_that_of_the_guard(replay: Option<ReplayGuard>)
    ensures
        replay matches Some(guard) ==> memory(replay) == Some(guard@),
        replay is None ==> memory(replay) is None,
{
}

/// Where nothing was gathered, no check counts as made and no answer as given.
pub proof fn empty_evidence_holds_nothing()
    ensures
        ({
            let e = Evidence::empty();
            &&& e.signature is None && e.token is None && e.algorithm is None
            &&& e.issuer_valid is None && e.key is None && e.token_signature is None
            &&& e.refreshed_key is None && e.refreshed_signature is None
            &&& e.agent_claims is None && e.person_claims is None && e.auth_claims is None
            &&& e.possession is None && e.thumbprint is None
        }),
        ({
            let f = FetchEvidence::empty();
            &&& f.metadata.addresses is None && f.metadata.head is None && f.metadata.body is None
            &&& f.hosts is None && f.keys is None
            &&& f.jwks.addresses is None && f.jwks.head is None && f.jwks.body is None
        }),
        ({
            let g = GetEvidence::empty();
            g.addresses is None && g.head is None && g.body is None
        }),
{
}

} // verus!
