//! Whom a configuration trusts, what it revokes, and when it is valid.

use vstd::prelude::*;
use vstd::string::*;

use crate::config::{
    complete, revocations_stop, servers_stop, verdict, verdict_index, AauthConfig, AuthTokenConfig,
    ConfigErrorView, ConfigStopView, IdentifierCheck, PersonTokenConfig, RevokedToken, ServerList,
};
use crate::laws::texts::blank_text_trims_to_nothing;
use crate::text::{decimal, is_space, trimmed};

verus! {

// --- trust ---------------------------------------------------------------------------

/// Every issuer on the list is trusted, wherever it stands.
pub proof fn every_listed_issuer_is_trusted(cfg: AauthConfig, i: int)
    requires
        0 <= i < cfg.trusted_issuers@.len(),
    ensures
        cfg.trusts_issuer(cfg.trusted_issuers@[i]@),
{
}

/// Unless any issuer is admitted, an issuer is trusted only when it is on the
/// list, character for character.
pub proof fn only_listed_issuers_are_trusted(cfg: AauthConfig, iss: Seq<char>)
    requires
        cfg.trusts_issuer(iss),
        !cfg.allow_any_issuer,
    ensures
        exists|i: int| 0 <= i < cfg.trusted_issuers@.len() && cfg.trusted_issuers@[i]@ == iss,
{
}

/// Where any issuer is admitted, each is trusted.
pub proof fn any_issuer_is_trusted_where_admitted(cfg: AauthConfig, iss: Seq<char>)
    requires
        cfg.allow_any_issuer,
    ensures
        cfg.trusts_issuer(iss),
{
}

/// Every person server on the list is trusted, wherever it stands, while person
/// tokens are on.
pub proof fn every_listed_person_server_is_trusted(cfg: PersonTokenConfig, i: int)
    requires
        cfg.enabled,
        0 <= i < cfg.trusted_person_servers@.len(),
    ensures
        cfg.trusts(cfg.trusted_person_servers@[i]@),
{
}

/// A person server is trusted only when person tokens are on and it is on the
/// list, character for character.
pub proof fn only_listed_person_servers_are_trusted(cfg: PersonTokenConfig, iss: Seq<char>)
    requires
        cfg.trusts(iss),
    ensures
        cfg.enabled,
        exists|i: int|
            0 <= i < cfg.trusted_person_servers@.len() && cfg.trusted_person_servers@[i]@ == iss,
{
}

/// Every access server on the list is trusted, wherever it stands, while auth
/// tokens are on.
pub proof fn every_listed_access_server_is_trusted(cfg: AuthTokenConfig, i: int)
    requires
        cfg.enabled,
        0 <= i < cfg.trusted_access_servers@.len(),
    ensures
        cfg.trusts(cfg.trusted_access_servers@[i]@),
{
}

/// An access server is trusted only when auth tokens are on and it is on the list,
/// character for character.
pub proof fn only_listed_access_servers_are_trusted(cfg: AuthTokenConfig, iss: Seq<char>)
    requires
        cfg.trusts(iss),
    ensures
        cfg.enabled,
        exists|i: int|
            0 <= i < cfg.trusted_access_servers@.len() && cfg.trusted_access_servers@[i]@ == iss,
{
}

/// Every listed pair of issuer and identifier is revoked.
pub proof fn every_listed_token_is_revoked(cfg: AauthConfig, i: int)
    requires
        0 <= i < cfg.revoked_tokens@.len(),
    ensures
        cfg.revokes(cfg.revoked_tokens@[i].iss@, cfg.revoked_tokens@[i].jti@),
{
}

/// A token is revoked only by a pair that names both its issuer and its
/// identifier.
pub proof fn only_listed_tokens_are_revoked(cfg: AauthConfig, iss: Seq<char>, jti: Seq<char>)
    requires
        cfg.revokes(iss, jti),
    ensures
        exists|i: int|
            0 <= i < cfg.revoked_tokens@.len() && (#[trigger] cfg.revoked_tokens@[i]).iss@ == iss
                && cfg.revoked_tokens@[i].jti@ == jti,
{
}

/// Tokens have to be issued for the configured identifier, and for none where
/// none is configured.
pub proof fn audience_is_the_configured_one(cfg: PersonTokenConfig)
    ensures
        cfg.resource_identifier matches Some(s) ==> cfg.resource() == s@,
        cfg.resource_identifier is None ==> cfg.resource().len() == 0,
{
}

// --- validity ------------------------------------------------------------------------

/// Whether the first verdict on `id` is that it is well-formed.
#[verifier::opaque]
pub open spec fn accepted(known: Seq<IdentifierCheck>, id: Seq<char>) -> bool {
    exists|j: int|
        0 <= j < known.len() && (#[trigger] known[j]).identifier@ == id && known[j].error is None
            && forall|k: int| 0 <= k < j ==> (#[trigger] known[k]).identifier@ != id
}

/// Whether a text holds anything but white space.
#[verifier::opaque]
pub open spec fn has_content(s: Seq<char>) -> bool {
    exists|k: int| 0 <= k < s.len() && !is_space(#[trigger] s[k])
}

proof fn lemma_content(s: Seq<char>)
    ensures
        has_content(s) <==> trimmed(s).len() > 0,
{
    reveal(has_content);
    blank_text_trims_to_nothing(s);
}

proof fn lemma_verdict_index(known: Seq<IdentifierCheck>, id: Seq<char>)
    ensures
        verdict_index(known, id) <= known.len(),
        verdict_index(known, id) < known.len() ==> known[verdict_index(
            known,
            id,
        ) as int].identifier@ == id,
        forall|k: int|
            0 <= k < verdict_index(known, id) ==> (#[trigger] known[k]).identifier@ != id,
    decreases known.len(),
{
    if known.len() > 0 && known[0].identifier@ != id {
        let rest = known.skip(1);
        lemma_verdict_index(rest, id);
        assert forall|k: int| 0 <= k < verdict_index(known, id) implies (
        #[trigger] known[k]).identifier@ != id by {
            if k > 0 {
                assert(known[k] == rest[k - 1]);
            }
        }
    }
}

/// An identifier counts as well-formed exactly when the first verdict on it says
/// so.
pub proof fn first_verdict_counts(known: Seq<IdentifierCheck>, id: Seq<char>)
    ensures
        (verdict(known, id) == Some(None::<Seq<char>>)) <==> accepted(known, id),
{
    reveal(accepted);
    lemma_verdict_index(known, id);
    let i = verdict_index(known, id) as int;
    if accepted(known, id) {
        let j = choose|j: int|
            0 <= j < known.len() && (#[trigger] known[j]).identifier@ == id && known[j].error
                is None && forall|k: int| 0 <= k < j ==> (#[trigger] known[k]).identifier@ != id;
        assert(known[j].identifier@ == id);
        if i < j {
            assert(known[i].identifier@ == id);
        }
    }
}

proof fn lemma_servers(
    list: ServerList,
    servers: Seq<String>,
    from: nat,
    known: Seq<IdentifierCheck>,
)
    ensures
        servers_stop(list, servers, from, known) is None <==> forall|i: int|
            from <= i < servers.len() ==> accepted(known, (#[trigger] servers[i])@) && (list
                == ServerList::TrustedIssuers ==> has_content(servers[i]@)),
    decreases servers.len() - from,
{
    if from < servers.len() {
        lemma_servers(list, servers, from + 1, known);
        let id = servers[from as int]@;
        first_verdict_counts(known, id);
        lemma_content(id);
        if servers_stop(list, servers, from, known) is None {
            assert forall|i: int| from <= i < servers.len() implies accepted(
                known,
                (#[trigger] servers[i])@,
            ) && (list == ServerList::TrustedIssuers ==> has_content(servers[i]@)) by {}
        }
    }
}

proof fn lemma_revocations(revoked: Seq<RevokedToken>, from: nat)
    ensures
        revocations_stop(revoked, from) is None <==> forall|i: int|
            from <= i < revoked.len() ==> has_content((#[trigger] revoked[i]).iss@) && has_content(
                revoked[i].jti@,
            ),
    decreases revoked.len() - from,
{
    if from < revoked.len() {
        lemma_revocations(revoked, from + 1);
        let r = revoked[from as int];
        lemma_content(r.iss@);
        lemma_content(r.jti@);
        if revocations_stop(revoked, from) is None {
            assert(complete(r));
        }
    }
}

/// A configuration is valid exactly when it trusts an issuer or any, every listed
/// server is well-formed and no issuer blank, the window is not empty, person
/// tokens come with a resource and a person server, auth tokens with person
/// tokens, every revocation is complete, the fetch limits are usable and the trust
/// level is one of the two.
pub proof fn validity(cfg: AauthConfig, known: Seq<IdentifierCheck>)
    ensures
        cfg.stop(known) is None <==> {
            &&& cfg.trusted_issuers@.len() > 0 || cfg.allow_any_issuer
            &&& forall|i: int|
                0 <= i < cfg.trusted_issuers@.len() ==> accepted(
                    known,
                    (#[trigger] cfg.trusted_issuers@[i])@,
                ) && has_content(cfg.trusted_issuers@[i]@)
            &&& cfg.signature_window_secs > 0
            &&& cfg.person_tokens.enabled ==> {
                &&& cfg.person_tokens.resource_identifier matches Some(id) && id@.len() > 0
                    && accepted(known, id@)
                &&& cfg.person_tokens.trusted_person_servers@.len() > 0
                &&& forall|i: int|
                    0 <= i < cfg.person_tokens.trusted_person_servers@.len() ==> accepted(
                        known,
                        (#[trigger] cfg.person_tokens.trusted_person_servers@[i])@,
                    )
            }
            &&& cfg.auth_tokens.enabled ==> {
                &&& cfg.person_tokens.enabled
                &&& forall|i: int|
                    0 <= i < cfg.auth_tokens.trusted_access_servers@.len() ==> accepted(
                        known,
                        (#[trigger] cfg.auth_tokens.trusted_access_servers@[i])@,
                    )
            }
            &&& forall|i: int|
                0 <= i < cfg.revoked_tokens@.len() ==> has_content(
                    (#[trigger] cfg.revoked_tokens@[i]).iss@,
                ) && has_content(cfg.revoked_tokens@[i].jti@)
            &&& cfg.jwks.refresh_floor_secs > 0 && cfg.jwks.max_ttl_secs > 0
                && cfg.jwks.fetch_timeout_secs > 0 && cfg.jwks.max_response_bytes >= 1024
            &&& cfg.resolution.trust_level@ == "verified"@ || cfg.resolution.trust_level@
                == "header_asserted"@
        },
{
    lemma_servers(ServerList::TrustedIssuers, cfg.trusted_issuers@, 0, known);
    lemma_servers(
        ServerList::PersonServers,
        cfg.person_tokens.trusted_person_servers@,
        0,
        known,
    );
    lemma_servers(ServerList::AccessServers, cfg.auth_tokens.trusted_access_servers@, 0, known);
    lemma_revocations(cfg.revoked_tokens@, 0);
    if let Some(id) = cfg.person_tokens.resource_identifier {
        first_verdict_counts(known, id@);
    }
}

proof fn lemma_server_error(
    list: ServerList,
    servers: Seq<String>,
    from: nat,
    known: Seq<IdentifierCheck>,
    e: ConfigErrorView,
)
    requires
        servers_stop(list, servers, from, known) == Some(ConfigStopView::Invalid(e)),
    ensures
        match e {
            ConfigErrorView::BlankIssuer(i) => list == ServerList::TrustedIssuers && from <= i
                < servers.len() && !has_content(servers[i as int]@),
            ConfigErrorView::InvalidServer { list: l, index, identifier, reason } => l == list
                && from <= index < servers.len() && servers[index as int]@ == identifier && exists|
                j: int,
            |
                0 <= j < known.len() && (#[trigger] known[j]).identifier@ == identifier
                    && (known[j].error matches Some(why) && why@ == reason),
            _ => false,
        },
    decreases servers.len() - from,
{
    if from < servers.len() {
        let id = servers[from as int]@;
        lemma_verdict_index(known, id);
        lemma_content(id);
        let at = verdict_index(known, id) as int;
        if at < known.len() {
            assert(known[at].identifier@ == id);
        }
        if servers_stop(list, servers, from + 1, known) == Some(ConfigStopView::Invalid(e)) {
            lemma_server_error(list, servers, from + 1, known, e);
        }
    }
}

proof fn lemma_revocation_error(revoked: Seq<RevokedToken>, from: nat, e: ConfigErrorView)
    requires
        revocations_stop(revoked, from) == Some(ConfigStopView::Invalid(e)),
    ensures
        e matches ConfigErrorView::IncompleteRevocation(i) && from <= i < revoked.len() && !(
        has_content(revoked[i as int].iss@) && has_content(revoked[i as int].jti@)),
    decreases revoked.len() - from,
{
    if from < revoked.len() {
        let r = revoked[from as int];
        lemma_content(r.iss@);
        lemma_content(r.jti@);
        if revocations_stop(revoked, from + 1) == Some(ConfigStopView::Invalid(e)) {
            lemma_revocation_error(revoked, from + 1, e);
        }
    }
}

/// An error that validation reports names a fault that is there: the entry, its
/// place and the reason are those of the configuration and of the verdict.
pub proof fn reported_fault_is_there(
    cfg: AauthConfig,
    known: Seq<IdentifierCheck>,
    e: ConfigErrorView,
)
    requires
        cfg.stop(known) == Some(ConfigStopView::Invalid(e)),
    ensures
        match e {
            ConfigErrorView::NoTrustedIssuers => cfg.trusted_issuers@.len() == 0
                && !cfg.allow_any_issuer,
            ConfigErrorView::BlankIssuer(i) => i < cfg.trusted_issuers@.len() && !has_content(
                cfg.trusted_issuers@[i as int]@,
            ),
            ConfigErrorView::InvalidServer { list, index, identifier, reason } => {
                let servers = match list {
                    ServerList::TrustedIssuers => cfg.trusted_issuers@,
                    ServerList::PersonServers => cfg.person_tokens.trusted_person_servers@,
                    ServerList::AccessServers => cfg.auth_tokens.trusted_access_servers@,
                };
                &&& index < servers.len() && servers[index as int]@ == identifier
                &&& exists|j: int|
                    0 <= j < known.len() && (#[trigger] known[j]).identifier@ == identifier
                        && (known[j].error matches Some(why) && why@ == reason)
            },
            ConfigErrorView::ZeroSignatureWindow => cfg.signature_window_secs == 0,
            ConfigErrorView::MissingResourceIdentifier => cfg.person_tokens.enabled && (
            cfg.person_tokens.resource_identifier matches Some(id) ==> id@.len() == 0),
            ConfigErrorView::InvalidResourceIdentifier { identifier, reason } => (
            cfg.person_tokens.resource_identifier matches Some(id) && id@ == identifier) && exists|
                j: int,
            |
                0 <= j < known.len() && (#[trigger] known[j]).identifier@ == identifier
                    && (known[j].error matches Some(why) && why@ == reason),
            ConfigErrorView::NoPersonServers => cfg.person_tokens.enabled
                && cfg.person_tokens.trusted_person_servers@.len() == 0,
            ConfigErrorView::AuthWithoutPerson => cfg.auth_tokens.enabled
                && !cfg.person_tokens.enabled,
            ConfigErrorView::IncompleteRevocation(i) => i < cfg.revoked_tokens@.len() && !(
            has_content(cfg.revoked_tokens@[i as int].iss@) && has_content(
                cfg.revoked_tokens@[i as int].jti@,
            )),
            ConfigErrorView::ZeroRefreshFloor => cfg.jwks.refresh_floor_secs == 0,
            ConfigErrorView::ZeroMaxTtl => cfg.jwks.max_ttl_secs == 0,
            ConfigErrorView::ZeroFetchTimeout => cfg.jwks.fetch_timeout_secs == 0,
            ConfigErrorView::ResponseCapTooSmall => cfg.jwks.max_response_bytes < 1024,
            ConfigErrorView::UnknownTrustLevel(s) => s == cfg.resolution.trust_level@ && s
                != "verified"@ && s != "header_asserted"@,
        },
{
    let stop = Some(ConfigStopView::Invalid(e));
    if servers_stop(ServerList::TrustedIssuers, cfg.trusted_issuers@, 0, known) == stop {
        lemma_server_error(ServerList::TrustedIssuers, cfg.trusted_issuers@, 0, known, e);
    }
    let people = cfg.person_tokens.trusted_person_servers@;
    if servers_stop(ServerList::PersonServers, people, 0, known) == stop {
        lemma_server_error(ServerList::PersonServers, people, 0, known, e);
    }
    let access = cfg.auth_tokens.trusted_access_servers@;
    if servers_stop(ServerList::AccessServers, access, 0, known) == stop {
        lemma_server_error(ServerList::AccessServers, access, 0, known, e);
    }
    if revocations_stop(cfg.revoked_tokens@, 0) == stop {
        lemma_revocation_error(cfg.revoked_tokens@, 0, e);
    }
    if let Some(id) = cfg.person_tokens.resource_identifier {
        lemma_verdict_index(known, id@);
        let at = verdict_index(known, id@) as int;
        if at < known.len() {
            assert(known[at].identifier@ == id@);
        }
    }
}

proof fn lemma_first_server_error(
    list: ServerList,
    servers: Seq<String>,
    from: nat,
    known: Seq<IdentifierCheck>,
    e: ConfigErrorView,
)
    requires
        servers_stop(list, servers, from, known) == Some(ConfigStopView::Invalid(e)),
    ensures
        match e {
            ConfigErrorView::BlankIssuer(i) => forall|k: int|
                from <= k < i ==> accepted(known, (#[trigger] servers[k])@) && (list
                    == ServerList::TrustedIssuers ==> has_content(servers[k]@)),
            ConfigErrorView::InvalidServer { index: i, .. } => forall|k: int|
                from <= k < i ==> accepted(known, (#[trigger] servers[k])@) && (list
                    == ServerList::TrustedIssuers ==> has_content(servers[k]@)),
            _ => false,
        },
    decreases servers.len() - from,
{
    if from < servers.len() {
        let id = servers[from as int]@;
        first_verdict_counts(known, id);
        lemma_content(id);
        if crate::config::server_stop(list, id, from, known) is None {
            lemma_first_server_error(list, servers, from + 1, known, e);
        }
    }
}

proof fn lemma_first_revocation_error(revoked: Seq<RevokedToken>, from: nat, e: ConfigErrorView)
    requires
        revocations_stop(revoked, from) == Some(ConfigStopView::Invalid(e)),
    ensures
        e matches ConfigErrorView::IncompleteRevocation(i) && forall|k: int|
            from <= k < i ==> has_content((#[trigger] revoked[k]).iss@) && has_content(
                revoked[k].jti@,
            ),
    decreases revoked.len() - from,
{
    if from < revoked.len() {
        let r = revoked[from as int];
        lemma_content(r.iss@);
        lemma_content(r.jti@);
        if complete(r) {
            lemma_first_revocation_error(revoked, from + 1, e);
        }
    }
}

/// Whether the trusted issuers are in order.
pub open spec fn issuers_in_order(cfg: AauthConfig, known: Seq<IdentifierCheck>) -> bool {
    &&& cfg.trusted_issuers@.len() > 0 || cfg.allow_any_issuer
    &&& forall|i: int|
        0 <= i < cfg.trusted_issuers@.len() ==> accepted(
            known,
            (#[trigger] cfg.trusted_issuers@[i])@,
        ) && has_content(cfg.trusted_issuers@[i]@)
}

/// Whether the settings of person tokens are in order.
pub open spec fn person_tokens_in_order(
    cfg: PersonTokenConfig,
    known: Seq<IdentifierCheck>,
) -> bool {
    cfg.enabled ==> {
        &&& cfg.resource_identifier matches Some(id) && id@.len() > 0 && accepted(known, id@)
        &&& cfg.trusted_person_servers@.len() > 0
        &&& forall|i: int|
            0 <= i < cfg.trusted_person_servers@.len() ==> accepted(
                known,
                (#[trigger] cfg.trusted_person_servers@[i])@,
            )
    }
}

/// Whether the settings of auth tokens are in order.
pub open spec fn auth_tokens_in_order(cfg: AauthConfig, known: Seq<IdentifierCheck>) -> bool {
    cfg.auth_tokens.enabled ==> {
        &&& cfg.person_tokens.enabled
        &&& forall|i: int|
            0 <= i < cfg.auth_tokens.trusted_access_servers@.len() ==> accepted(
                known,
                (#[trigger] cfg.auth_tokens.trusted_access_servers@[i])@,
            )
    }
}

/// Whether every revocation is complete.
pub open spec fn revocations_in_order(revoked: Seq<RevokedToken>) -> bool {
    forall|i: int|
        0 <= i < revoked.len() ==> has_content((#[trigger] revoked[i]).iss@) && has_content(
            revoked[i].jti@,
        )
}

/// The settings that are checked before the one that an error is about.
pub open spec fn earlier_settings_in_order(
    cfg: AauthConfig,
    known: Seq<IdentifierCheck>,
    e: ConfigErrorView,
) -> bool {
    let issuers = issuers_in_order(cfg, known);
    let window = issuers && cfg.signature_window_secs > 0;
    let people = window && person_tokens_in_order(cfg.person_tokens, known);
    let access = people && auth_tokens_in_order(cfg, known);
    let revocations = access && revocations_in_order(cfg.revoked_tokens@);
    let resource = cfg.person_tokens.resource_identifier matches Some(id) && accepted(known, id@);
    match e {
        ConfigErrorView::NoTrustedIssuers => true,
        ConfigErrorView::BlankIssuer(n) => forall|k: int|
            0 <= k < n ==> accepted(known, (#[trigger] cfg.trusted_issuers@[k])@) && has_content(
                cfg.trusted_issuers@[k]@,
            ),
        ConfigErrorView::InvalidServer { list, index, .. } => match list {
            ServerList::TrustedIssuers => has_content(cfg.trusted_issuers@[index as int]@)
                && forall|k: int|
                0 <= k < index ==> accepted(known, (#[trigger] cfg.trusted_issuers@[k])@)
                    && has_content(cfg.trusted_issuers@[k]@),
            ServerList::PersonServers => window && cfg.person_tokens.enabled && resource && forall|
                k: int,
            |
                0 <= k < index ==> accepted(
                    known,
                    (#[trigger] cfg.person_tokens.trusted_person_servers@[k])@,
                ),
            ServerList::AccessServers => people && cfg.auth_tokens.enabled
                && cfg.person_tokens.enabled && forall|k: int|
                0 <= k < index ==> accepted(
                    known,
                    (#[trigger] cfg.auth_tokens.trusted_access_servers@[k])@,
                ),
        },
        ConfigErrorView::ZeroSignatureWindow => issuers,
        ConfigErrorView::MissingResourceIdentifier => window,
        ConfigErrorView::InvalidResourceIdentifier { .. } => window && cfg.person_tokens.enabled,
        ConfigErrorView::NoPersonServers => window && resource,
        ConfigErrorView::AuthWithoutPerson => people,
        ConfigErrorView::IncompleteRevocation(n) => access && forall|k: int|
            0 <= k < n ==> has_content((#[trigger] cfg.revoked_tokens@[k]).iss@) && has_content(
                cfg.revoked_tokens@[k].jti@,
            ),
        ConfigErrorView::ZeroRefreshFloor => revocations,
        ConfigErrorView::ZeroMaxTtl => revocations && cfg.jwks.refresh_floor_secs > 0,
        ConfigErrorView::ZeroFetchTimeout => revocations && cfg.jwks.refresh_floor_secs > 0
            && cfg.jwks.max_ttl_secs > 0,
        ConfigErrorView::ResponseCapTooSmall => revocations && cfg.jwks.refresh_floor_secs > 0
            && cfg.jwks.max_ttl_secs > 0 && cfg.jwks.fetch_timeout_secs > 0,
        ConfigErrorView::UnknownTrustLevel(_) => revocations && cfg.jwks.refresh_floor_secs > 0
            && cfg.jwks.max_ttl_secs > 0 && cfg.jwks.fetch_timeout_secs > 0
            && cfg.jwks.max_response_bytes >= 1024,
    }
}

/// Validation reports the first fault, in the order of the settings and of the
/// entries in a list.
#[verifier::spinoff_prover]
#[verifier::rlimit(40)]
pub proof fn first_fault_is_reported(
    cfg: AauthConfig,
    known: Seq<IdentifierCheck>,
    e: ConfigErrorView,
)
    requires
        cfg.stop(known) == Some(ConfigStopView::Invalid(e)),
    ensures
        earlier_settings_in_order(cfg, known, e),
{
    let stop = Some(ConfigStopView::Invalid(e));
    let issuers = cfg.trusted_issuers@;
    let people = cfg.person_tokens.trusted_person_servers@;
    let access = cfg.auth_tokens.trusted_access_servers@;
    reported_fault_is_there(cfg, known, e);
    lemma_servers(ServerList::TrustedIssuers, issuers, 0, known);
    lemma_servers(ServerList::PersonServers, people, 0, known);
    lemma_servers(ServerList::AccessServers, access, 0, known);
    lemma_revocations(cfg.revoked_tokens@, 0);
    if let Some(id) = cfg.person_tokens.resource_identifier {
        first_verdict_counts(known, id@);
    }
    if servers_stop(ServerList::TrustedIssuers, issuers, 0, known) == stop {
        lemma_server_error(ServerList::TrustedIssuers, issuers, 0, known, e);
        lemma_first_server_error(ServerList::TrustedIssuers, issuers, 0, known, e);
        if e is InvalidServer {
            lemma_invalid_is_not_blank(issuers, 0, known, e);
        }
    }
    if servers_stop(ServerList::PersonServers, people, 0, known) == stop {
        lemma_server_error(ServerList::PersonServers, people, 0, known, e);
        lemma_first_server_error(ServerList::PersonServers, people, 0, known, e);
    }
    if servers_stop(ServerList::AccessServers, access, 0, known) == stop {
        lemma_server_error(ServerList::AccessServers, access, 0, known, e);
        lemma_first_server_error(ServerList::AccessServers, access, 0, known, e);
    }
    if revocations_stop(cfg.revoked_tokens@, 0) == stop {
        lemma_first_revocation_error(cfg.revoked_tokens@, 0, e);
    }
}

proof fn lemma_invalid_is_not_blank(
    servers: Seq<String>,
    from: nat,
    known: Seq<IdentifierCheck>,
    e: ConfigErrorView,
)
    requires
        servers_stop(ServerList::TrustedIssuers, servers, from, known) == Some(
            ConfigStopView::Invalid(e),
        ),
        e is InvalidServer,
    ensures
        has_content(servers[e->index as int]@),
    decreases servers.len() - from,
{
    if from < servers.len() {
        let id = servers[from as int]@;
        lemma_content(id);
        if crate::config::server_stop(ServerList::TrustedIssuers, id, from, known) is None {
            lemma_invalid_is_not_blank(servers, from + 1, known, e);
        }
    }
}

proof fn lemma_asked_server(
    list: ServerList,
    servers: Seq<String>,
    from: nat,
    known: Seq<IdentifierCheck>,
    id: Seq<char>,
)
    requires
        servers_stop(list, servers, from, known) == Some(ConfigStopView::Needs(id)),
    ensures
        exists|i: int| from <= i < servers.len() && (#[trigger] servers[i])@ == id,
        forall|j: int| 0 <= j < known.len() ==> (#[trigger] known[j]).identifier@ != id,
    decreases servers.len() - from,
{
    if from < servers.len() {
        let head = servers[from as int]@;
        if crate::config::server_stop(list, head, from, known) is None {
            lemma_asked_server(list, servers, from + 1, known, id);
        } else {
            lemma_verdict_index(known, head);
            assert(servers[from as int]@ == id);
        }
    }
}

proof fn lemma_revocations_ask_nothing(revoked: Seq<RevokedToken>, from: nat, id: Seq<char>)
    ensures
        revocations_stop(revoked, from) != Some(ConfigStopView::Needs(id)),
    decreases revoked.len() - from,
{
    if from < revoked.len() {
        lemma_revocations_ask_nothing(revoked, from + 1, id);
    }
}

/// A verdict is asked for only on an identifier that the configuration holds and
/// that counts under it, as it stands, and on which none is known.
pub proof fn asked_identifier_is_there(
    cfg: AauthConfig,
    known: Seq<IdentifierCheck>,
    id: Seq<char>,
)
    requires
        cfg.stop(known) == Some(ConfigStopView::Needs(id)),
    ensures
        forall|j: int| 0 <= j < known.len() ==> (#[trigger] known[j]).identifier@ != id,
        (exists|i: int|
            0 <= i < cfg.trusted_issuers@.len() && (#[trigger] cfg.trusted_issuers@[i])@ == id) || (
        cfg.person_tokens.enabled && ((cfg.person_tokens.resource_identifier matches Some(s) && s@
            == id) || (exists|i: int|
            0 <= i < cfg.person_tokens.trusted_person_servers@.len() && (
            #[trigger] cfg.person_tokens.trusted_person_servers@[i])@ == id))) || (
        cfg.auth_tokens.enabled && exists|i: int|
            0 <= i < cfg.auth_tokens.trusted_access_servers@.len() && (
            #[trigger] cfg.auth_tokens.trusted_access_servers@[i])@ == id),
{
    let needs = Some(ConfigStopView::Needs(id));
    let issuers = cfg.trusted_issuers@;
    let people = cfg.person_tokens.trusted_person_servers@;
    let access = cfg.auth_tokens.trusted_access_servers@;
    lemma_revocations_ask_nothing(cfg.revoked_tokens@, 0, id);
    if let Some(s) = cfg.person_tokens.resource_identifier {
        lemma_verdict_index(known, s@);
    }
    if servers_stop(ServerList::TrustedIssuers, issuers, 0, known) == needs {
        lemma_asked_server(ServerList::TrustedIssuers, issuers, 0, known, id);
    }
    if servers_stop(ServerList::PersonServers, people, 0, known) == needs {
        lemma_asked_server(ServerList::PersonServers, people, 0, known, id);
    }
    if servers_stop(ServerList::AccessServers, access, 0, known) == needs {
        lemma_asked_server(ServerList::AccessServers, access, 0, known, id);
    }
}

/// The texts of the errors name the setting that is at fault, the place in its
/// list, the entry itself and the reason.
pub proof fn error_texts(e: ConfigErrorView)
    ensures
        match e {
            ConfigErrorView::BlankIssuer(i) => e.text() == "identity.aauth: trusted_issuers["@
                + decimal(i) + "] is empty"@,
            ConfigErrorView::InvalidServer { list, index, identifier, reason } => e.text()
                == "identity.aauth: "@ + match list {
                ServerList::TrustedIssuers => "trusted_issuers"@,
                ServerList::PersonServers => "person_tokens.trusted_person_servers"@,
                ServerList::AccessServers => "auth_tokens.trusted_access_servers"@,
            } + "["@ + decimal(index) + "] `"@ + identifier + "` is not a valid AAuth "@
                + match list {
                ServerList::TrustedIssuers => "issuer"@,
                ServerList::PersonServers => "server identifier"@,
                ServerList::AccessServers => "server identifier"@,
            } + ": "@ + reason,
            ConfigErrorView::ZeroSignatureWindow => e.text()
                == "identity.aauth: signature_window_secs must be greater than 0"@,
            ConfigErrorView::InvalidResourceIdentifier { identifier, reason } => e.text()
                == "identity.aauth: person_tokens.resource_identifier `"@ + identifier
                + "` is not a valid AAuth server identifier: "@ + reason,
            ConfigErrorView::IncompleteRevocation(i) => e.text()
                == "identity.aauth: revoked_tokens["@ + decimal(i)
                + "] needs both `iss` and `jti`"@,
            ConfigErrorView::ZeroRefreshFloor => e.text()
                == "identity.aauth: jwks.refresh_floor_secs must be greater than 0"@,
            ConfigErrorView::ZeroMaxTtl => e.text()
                == "identity.aauth: jwks.max_ttl_secs must be greater than 0"@,
            ConfigErrorView::ZeroFetchTimeout => e.text()
                == "identity.aauth: jwks.fetch_timeout_secs must be greater than 0"@,
            ConfigErrorView::ResponseCapTooSmall => e.text()
                == "identity.aauth: jwks.max_response_bytes must be at least 1024"@,
            ConfigErrorView::UnknownTrustLevel(s) => e.text()
                == "identity.aauth: resolution.trust_level must be `verified` or `header_asserted`, got '"@
                + s + "'"@,
            ConfigErrorView::NoTrustedIssuers => e.text()
                == "identity.aauth: `trusted_issuers` is empty — refusing to accept tokens from any Agent Provider (any AP could vouch for an accepted identity). List the AP issuers you trust, or opt in with `allow_any_issuer: true`."@,
            ConfigErrorView::MissingResourceIdentifier => e.text()
                == "identity.aauth: person_tokens.enabled requires `resource_identifier` — the gateway's own AAuth server identifier the PS issues tokens for (`aud`)"@,
            ConfigErrorView::NoPersonServers => e.text()
                == "identity.aauth: person_tokens.enabled requires a non-empty `trusted_person_servers` allow-list (a PS asserts who the person is; there is deliberately no allow-any escape hatch)"@,
            ConfigErrorView::AuthWithoutPerson => e.text()
                == "identity.aauth: auth_tokens.enabled requires person_tokens.enabled — an auth token for this resource can only exist after it verified a person token, and the two share `resource_identifier` and the trusted person-server list"@,
        },
{
}

} // verus!
