//! Operator configuration.
//!
//! The resolver fails closed: an empty Agent-Provider allow-list without an
//! explicit `allow_any_issuer` is refused, because any Agent Provider could
//! otherwise mint an accepted identity.
//!
//! Whether a string is a well-formed AAuth server identifier is decided by the
//! identifier grammar, outside this module. Validation asks for one verdict at
//! a time and is called again with the verdicts collected so far.

use vstd::prelude::*;
use vstd::string::*;

use crate::error::either;
use crate::text::{self, decimal, trimmed};

verus! {

/// The complete configuration of the resolver.
#[derive(Debug, Clone)]
pub struct AauthConfig {
    /// Agent-Provider issuers (`iss`) the gateway trusts. Exact match against
    /// the server identifier (no trailing slash).
    pub trusted_issuers: Vec<String>,
    /// Accept a token from any `iss`. Dangerous: this trusts any self-asserted
    /// agent identity, so downstream authorization must key on
    /// `(issuer, subject_id)`, never `subject_id` alone.
    pub allow_any_issuer: bool,
    /// Symmetric `created` window, seconds.
    pub signature_window_secs: u64,
    /// Override of the `@authority` the signature is verified against. Taken
    /// verbatim (trimmed, lowercased): give the port if and only if the agent
    /// signs one.
    pub expected_authority: Option<String>,
    /// Components a signature has to cover in addition to
    /// `@method @authority @path signature-key`.
    pub additional_covered_components: Vec<String>,
    /// Person tokens, off by default.
    pub person_tokens: PersonTokenConfig,
    /// Auth tokens, off by default; they require person tokens.
    pub auth_tokens: AuthTokenConfig,
    /// Reject a signature tuple that was already accepted inside the window.
    pub replay_protection: bool,
    /// Tokens revoked out of band, matched by `(iss, jti)`.
    pub revoked_tokens: Vec<RevokedToken>,
    /// Metadata and JWKS fetching and caching.
    pub jwks: JwksConfig,
    /// Development escape hatch: admit `http://` and non-public addresses.
    pub insecure_dev_mode: bool,
    /// How a resolved identity is labelled.
    pub resolution: ResolutionConfig,
}

/// A token revoked by `(iss, jti)`; `jti` alone collides across issuers.
#[derive(Debug, Clone)]
pub struct RevokedToken {
    pub iss: String,
    pub jti: String,
}

/// Acceptance of person tokens.
#[derive(Debug, Clone)]
pub struct PersonTokenConfig {
    pub enabled: bool,
    /// Person-Server issuers whose tokens are accepted. There is no allow-any:
    /// a person server asserts who the person is.
    pub trusted_person_servers: Vec<String>,
    /// This gateway's own AAuth server identifier, which a token's `aud` must
    /// equal. Required when `enabled`.
    pub resource_identifier: Option<String>,
}

/// Acceptance of auth tokens.
#[derive(Debug, Clone)]
pub struct AuthTokenConfig {
    pub enabled: bool,
    /// Access Servers whose auth tokens are accepted. Those of a person server
    /// are accepted from `PersonTokenConfig::trusted_person_servers`.
    pub trusted_access_servers: Vec<String>,
}

/// Metadata and JWKS fetching and caching.
#[derive(Debug, Clone)]
pub struct JwksConfig {
    /// JWKS hosts admitted even when they differ from the issuer host.
    pub cross_origin_hosts: Vec<String>,
    /// Minimum seconds between fetch attempts per issuer.
    pub refresh_floor_secs: u64,
    /// Maximum age of a cached JWKS, seconds.
    pub max_ttl_secs: u64,
    /// Timeout of a whole fetch, seconds.
    pub fetch_timeout_secs: u64,
    /// Hard cap on a response body, bytes.
    pub max_response_bytes: usize,
}

/// How a resolved identity is labelled.
#[derive(Debug, Clone)]
pub struct ResolutionConfig {
    /// `verified` or `header_asserted`.
    pub trust_level: String,
    pub auth_provider_label: String,
}

// --- defaults --------------------------------------------------------------------

/// The signature window when none is configured.
pub fn default_signature_window_secs() -> (r: u64)
    ensures
        r == 60,
{
    60
}

/// The fetch floor when none is configured.
pub fn default_refresh_floor_secs() -> (r: u64)
    ensures
        r == 60,
{
    60
}

/// The cache ceiling when none is configured: 24 hours.
pub fn default_max_ttl_secs() -> (r: u64)
    ensures
        r == 24 * 3600,
{
    24 * 3600
}

/// The fetch timeout when none is configured.
pub fn default_fetch_timeout_secs() -> (r: u64)
    ensures
        r == 10,
{
    10
}

/// The body cap when none is configured: 64 KiB.
pub fn default_max_response_bytes() -> (r: usize)
    ensures
        r == 64 * 1024,
{
    64 * 1024
}

/// The trust level when none is configured.
pub fn default_trust_level() -> (r: String)
    ensures
        r@ == "verified"@,
{
    "verified".to_owned()
}

/// The provider label when none is configured.
pub fn default_auth_provider_label() -> (r: String)
    ensures
        r@ == "aauth"@,
{
    "aauth".to_owned()
}

impl Default for PersonTokenConfig {
    fn default() -> (r: Self)
        ensures
            !r.enabled,
            r.trusted_person_servers@.len() == 0,
            r.resource_identifier is None,
    {
        PersonTokenConfig {
            enabled: false,
            trusted_person_servers: Vec::new(),
            resource_identifier: None,
        }
    }
}

impl Default for AuthTokenConfig {
    fn default() -> (r: Self)
        ensures
            !r.enabled,
            r.trusted_access_servers@.len() == 0,
    {
        AuthTokenConfig { enabled: false, trusted_access_servers: Vec::new() }
    }
}

impl Default for JwksConfig {
    fn default() -> (r: Self)
        ensures
            r.cross_origin_hosts@.len() == 0,
            r.refresh_floor_secs == 60,
            r.max_ttl_secs == 24 * 3600,
            r.fetch_timeout_secs == 10,
            r.max_response_bytes == 64 * 1024,
    {
        JwksConfig {
            cross_origin_hosts: Vec::new(),
            refresh_floor_secs: default_refresh_floor_secs(),
            max_ttl_secs: default_max_ttl_secs(),
            fetch_timeout_secs: default_fetch_timeout_secs(),
            max_response_bytes: default_max_response_bytes(),
        }
    }
}

impl Default for ResolutionConfig {
    fn default() -> (r: Self)
        ensures
            r.trust_level@ == "verified"@,
            r.auth_provider_label@ == "aauth"@,
    {
        ResolutionConfig {
            trust_level: default_trust_level(),
            auth_provider_label: default_auth_provider_label(),
        }
    }
}

impl Default for AauthConfig {
    /// The configuration in which nothing is set.
    fn default() -> (r: Self)
        ensures
            r.trusted_issuers@.len() == 0,
            !r.allow_any_issuer,
            r.signature_window_secs == 60,
            r.expected_authority is None,
            r.additional_covered_components@.len() == 0,
            !r.person_tokens.enabled,
            r.person_tokens.trusted_person_servers@.len() == 0,
            r.person_tokens.resource_identifier is None,
            !r.auth_tokens.enabled,
            r.auth_tokens.trusted_access_servers@.len() == 0,
            !r.replay_protection,
            r.revoked_tokens@.len() == 0,
            r.jwks.cross_origin_hosts@.len() == 0,
            r.jwks.refresh_floor_secs == 60,
            r.jwks.max_ttl_secs == 24 * 3600,
            r.jwks.fetch_timeout_secs == 10,
            r.jwks.max_response_bytes == 64 * 1024,
            !r.insecure_dev_mode,
            r.resolution.trust_level@ == "verified"@,
            r.resolution.auth_provider_label@ == "aauth"@,
    {
        AauthConfig {
            trusted_issuers: Vec::new(),
            allow_any_issuer: false,
            signature_window_secs: default_signature_window_secs(),
            expected_authority: None,
            additional_covered_components: Vec::new(),
            person_tokens: PersonTokenConfig::default(),
            auth_tokens: AuthTokenConfig::default(),
            replay_protection: false,
            revoked_tokens: Vec::new(),
            jwks: JwksConfig::default(),
            insecure_dev_mode: false,
            resolution: ResolutionConfig::default(),
        }
    }
}

// --- allow-lists -----------------------------------------------------------------

/// Whether `s` is one of the strings of `list`, character for character.
pub open spec fn listed(list: Seq<String>, s: Seq<char>) -> bool {
    exists|i: int| 0 <= i < list.len() && (#[trigger] list[i])@ == s
}

/// Whether `s` is one of the strings of `list`, character for character.
pub fn in_list(list: &Vec<String>, s: &str) -> (r: bool)
    ensures
        r == listed(list@, s@),
{
    let mut i: usize = 0;
    while i < list.len()
        invariant
            i <= list@.len(),
            forall|j: int| 0 <= j < i ==> (#[trigger] list@[j])@ != s@,
        decreases list@.len() - i,
    {
        if *list[i].as_str() == *s {
            return true;
        }
        i = i + 1;
    }
    false
}

impl AauthConfig {
    /// Whether `iss` is admitted by the trust policy over Agent Providers.
    pub open spec fn trusts_issuer(self, iss: Seq<char>) -> bool {
        self.allow_any_issuer || listed(self.trusted_issuers@, iss)
    }

    /// Whether `(iss, jti)` names a revoked token.
    pub open spec fn revokes(self, iss: Seq<char>, jti: Seq<char>) -> bool {
        exists|i: int|
            0 <= i < self.revoked_tokens@.len() && (#[trigger] self.revoked_tokens@[i]).iss@ == iss
                && self.revoked_tokens@[i].jti@ == jti
    }

    /// Whether `(iss, jti)` names a revoked token.
    pub fn is_revoked(&self, iss: &str, jti: &str) -> (r: bool)
        ensures
            r == self.revokes(iss@, jti@),
    {
        let mut i: usize = 0;
        while i < self.revoked_tokens.len()
            invariant
                i <= self.revoked_tokens@.len(),
                forall|j: int|
                    0 <= j < i ==> !((#[trigger] self.revoked_tokens@[j]).iss@ == iss@
                        && self.revoked_tokens@[j].jti@ == jti@),
            decreases self.revoked_tokens@.len() - i,
        {
            let entry = &self.revoked_tokens[i];
            if *entry.iss.as_str() == *iss && *entry.jti.as_str() == *jti {
                return true;
            }
            i = i + 1;
        }
        false
    }

    /// Whether `iss` is admitted by the trust policy over Agent Providers.
    pub fn issuer_trusted(&self, iss: &str) -> (r: bool)
        ensures
            r == self.trusts_issuer(iss@),
    {
        self.allow_any_issuer || in_list(&self.trusted_issuers, iss)
    }
}

impl AuthTokenConfig {
    /// Whether `iss` is an allow-listed Access Server.
    pub open spec fn trusts(self, iss: Seq<char>) -> bool {
        self.enabled && listed(self.trusted_access_servers@, iss)
    }

    /// Whether `iss` is an allow-listed Access Server.
    pub fn as_trusted(&self, iss: &str) -> (r: bool)
        ensures
            r == self.trusts(iss@),
    {
        self.enabled && in_list(&self.trusted_access_servers, iss)
    }
}

impl PersonTokenConfig {
    /// Whether `iss` is an allow-listed Person Server.
    pub open spec fn trusts(self, iss: Seq<char>) -> bool {
        self.enabled && listed(self.trusted_person_servers@, iss)
    }

    /// Whether `iss` is an allow-listed Person Server.
    pub fn ps_trusted(&self, iss: &str) -> (r: bool)
        ensures
            r == self.trusts(iss@),
    {
        self.enabled && in_list(&self.trusted_person_servers, iss)
    }

    /// The identifier tokens have to be issued for; empty when none is set.
    pub open spec fn resource(self) -> Seq<char> {
        match self.resource_identifier {
            Some(s) => s@,
            None => Seq::empty(),
        }
    }

    /// The identifier tokens have to be issued for; empty when none is set.
    pub fn resource_id(&self) -> (r: String)
        ensures
            r@ == self.resource(),
    {
        match &self.resource_identifier {
            Some(s) => s.clone(),
            None => String::new(),
        }
    }
}

// --- validation ------------------------------------------------------------------

/// The lists of server identifiers in a configuration.
#[derive(Debug, Clone, Copy, PartialEq, Eq, Structural)]
pub enum ServerList {
    TrustedIssuers,
    PersonServers,
    AccessServers,
}

/// What is wrong with a configuration.
#[derive(Debug)]
pub enum ConfigError {
    /// No issuer is trusted and `allow_any_issuer` is off.
    NoTrustedIssuers,
    /// The trusted issuer at this index is blank.
    BlankIssuer(usize),
    /// The entry at `index` of a list is no server identifier.
    InvalidServer { list: ServerList, index: usize, identifier: String, reason: String },
    ZeroSignatureWindow,
    /// Person tokens are on without a `resource_identifier`.
    MissingResourceIdentifier,
    InvalidResourceIdentifier { identifier: String, reason: String },
    /// Person tokens are on without a trusted person server.
    NoPersonServers,
    /// Auth tokens are on while person tokens are off.
    AuthWithoutPerson,
    /// The revocation at this index lacks its `iss` or its `jti`.
    IncompleteRevocation(usize),
    ZeroRefreshFloor,
    ZeroMaxTtl,
    ZeroFetchTimeout,
    /// The body cap is below 1024 bytes.
    ResponseCapTooSmall,
    UnknownTrustLevel(String),
}

/// The content of a [`ConfigError`].
pub ghost enum ConfigErrorView {
    NoTrustedIssuers,
    BlankIssuer(nat),
    InvalidServer { list: ServerList, index: nat, identifier: Seq<char>, reason: Seq<char> },
    ZeroSignatureWindow,
    MissingResourceIdentifier,
    InvalidResourceIdentifier { identifier: Seq<char>, reason: Seq<char> },
    NoPersonServers,
    AuthWithoutPerson,
    IncompleteRevocation(nat),
    ZeroRefreshFloor,
    ZeroMaxTtl,
    ZeroFetchTimeout,
    ResponseCapTooSmall,
    UnknownTrustLevel(Seq<char>),
}

impl View for ConfigError {
    type V = ConfigErrorView;

    open spec fn view(&self) -> ConfigErrorView {
        match *self {
            ConfigError::NoTrustedIssuers => ConfigErrorView::NoTrustedIssuers,
            ConfigError::BlankIssuer(i) => ConfigErrorView::BlankIssuer(i as nat),
            ConfigError::InvalidServer { list, index, identifier, reason } => {
                ConfigErrorView::InvalidServer {
                    list,
                    index: index as nat,
                    identifier: identifier@,
                    reason: reason@,
                }
            },
            ConfigError::ZeroSignatureWindow => ConfigErrorView::ZeroSignatureWindow,
            ConfigError::MissingResourceIdentifier => ConfigErrorView::MissingResourceIdentifier,
            ConfigError::InvalidResourceIdentifier { identifier, reason } => {
                ConfigErrorView::InvalidResourceIdentifier {
                    identifier: identifier@,
                    reason: reason@,
                }
            },
            ConfigError::NoPersonServers => ConfigErrorView::NoPersonServers,
            ConfigError::AuthWithoutPerson => ConfigErrorView::AuthWithoutPerson,
            ConfigError::IncompleteRevocation(i) => ConfigErrorView::IncompleteRevocation(i as nat),
            ConfigError::ZeroRefreshFloor => ConfigErrorView::ZeroRefreshFloor,
            ConfigError::ZeroMaxTtl => ConfigErrorView::ZeroMaxTtl,
            ConfigError::ZeroFetchTimeout => ConfigErrorView::ZeroFetchTimeout,
            ConfigError::ResponseCapTooSmall => ConfigErrorView::ResponseCapTooSmall,
            ConfigError::UnknownTrustLevel(s) => ConfigErrorView::UnknownTrustLevel(s@),
        }
    }
}

impl ServerList {
    /// The list's name in the configuration.
    pub open spec fn name(self) -> Seq<char> {
        match self {
            ServerList::TrustedIssuers => "trusted_issuers"@,
            ServerList::PersonServers => "person_tokens.trusted_person_servers"@,
            ServerList::AccessServers => "auth_tokens.trusted_access_servers"@,
        }
    }

    /// What the entries of the list have to be.
    pub open spec fn noun(self) -> Seq<char> {
        match self {
            ServerList::TrustedIssuers => "issuer"@,
            _ => "server identifier"@,
        }
    }

    fn name_str(&self) -> (r: &'static str)
        ensures
            r@ == self.name(),
    {
        match self {
            ServerList::TrustedIssuers => "trusted_issuers",
            ServerList::PersonServers => "person_tokens.trusted_person_servers",
            ServerList::AccessServers => "auth_tokens.trusted_access_servers",
        }
    }

    fn noun_str(&self) -> (r: &'static str)
        ensures
            r@ == self.noun(),
    {
        match self {
            ServerList::TrustedIssuers => "issuer",
            _ => "server identifier",
        }
    }
}

impl ConfigErrorView {
    /// The operator-facing text of the error.
    pub open spec fn text(self) -> Seq<char> {
        match self {
            ConfigErrorView::NoTrustedIssuers => {
                "identity.aauth: `trusted_issuers` is empty — refusing to accept tokens from any Agent Provider (any AP could vouch for an accepted identity). List the AP issuers you trust, or opt in with `allow_any_issuer: true`."@
            },
            ConfigErrorView::BlankIssuer(i) => {
                "identity.aauth: trusted_issuers["@ + decimal(i) + "] is empty"@
            },
            ConfigErrorView::InvalidServer { list, index, identifier, reason } => {
                "identity.aauth: "@ + list.name() + "["@ + decimal(index) + "] `"@ + identifier
                    + "` is not a valid AAuth "@ + list.noun() + ": "@ + reason
            },
            ConfigErrorView::ZeroSignatureWindow => {
                "identity.aauth: signature_window_secs must be greater than 0"@
            },
            ConfigErrorView::MissingResourceIdentifier => {
                "identity.aauth: person_tokens.enabled requires `resource_identifier` — the gateway's own AAuth server identifier the PS issues tokens for (`aud`)"@
            },
            ConfigErrorView::InvalidResourceIdentifier { identifier, reason } => {
                "identity.aauth: person_tokens.resource_identifier `"@ + identifier
                    + "` is not a valid AAuth server identifier: "@ + reason
            },
            ConfigErrorView::NoPersonServers => {
                "identity.aauth: person_tokens.enabled requires a non-empty `trusted_person_servers` allow-list (a PS asserts who the person is; there is deliberately no allow-any escape hatch)"@
            },
            ConfigErrorView::AuthWithoutPerson => {
                "identity.aauth: auth_tokens.enabled requires person_tokens.enabled — an auth token for this resource can only exist after it verified a person token, and the two share `resource_identifier` and the trusted person-server list"@
            },
            ConfigErrorView::IncompleteRevocation(i) => {
                "identity.aauth: revoked_tokens["@ + decimal(i) + "] needs both `iss` and `jti`"@
            },
            ConfigErrorView::ZeroRefreshFloor => {
                "identity.aauth: jwks.refresh_floor_secs must be greater than 0"@
            },
            ConfigErrorView::ZeroMaxTtl => {
                "identity.aauth: jwks.max_ttl_secs must be greater than 0"@
            },
            ConfigErrorView::ZeroFetchTimeout => {
                "identity.aauth: jwks.fetch_timeout_secs must be greater than 0"@
            },
            ConfigErrorView::ResponseCapTooSmall => {
                "identity.aauth: jwks.max_response_bytes must be at least 1024"@
            },
            ConfigErrorView::UnknownTrustLevel(s) => {
                "identity.aauth: resolution.trust_level must be `verified` or `header_asserted`, got '"@
                    + s + "'"@
            },
        }
    }
}

impl ConfigError {
    /// The operator-facing text of the error.
    pub fn message(&self) -> (r: String)
        ensures
            r@ == self@.text(),
    {
        match self {
            ConfigError::NoTrustedIssuers => {
                "identity.aauth: `trusted_issuers` is empty — refusing to accept tokens from any Agent Provider (any AP could vouch for an accepted identity). List the AP issuers you trust, or opt in with `allow_any_issuer: true`.".to_owned()
            },
            ConfigError::BlankIssuer(i) => {
                "identity.aauth: trusted_issuers[".to_owned().concat(
                    text::to_decimal(*i as u64).as_str(),
                ).concat("] is empty")
            },
            ConfigError::InvalidServer { list, index, identifier, reason } => {
                "identity.aauth: ".to_owned().concat(list.name_str()).concat("[").concat(
                    text::to_decimal(*index as u64).as_str(),
                ).concat("] `").concat(identifier.as_str()).concat("` is not a valid AAuth ").concat(
                    list.noun_str(),
                ).concat(": ").concat(reason.as_str())
            },
            ConfigError::ZeroSignatureWindow => {
                "identity.aauth: signature_window_secs must be greater than 0".to_owned()
            },
            ConfigError::MissingResourceIdentifier => {
                "identity.aauth: person_tokens.enabled requires `resource_identifier` — the gateway's own AAuth server identifier the PS issues tokens for (`aud`)".to_owned()
            },
            ConfigError::InvalidResourceIdentifier { identifier, reason } => {
                "identity.aauth: person_tokens.resource_identifier `".to_owned().concat(
                    identifier.as_str(),
                ).concat("` is not a valid AAuth server identifier: ").concat(reason.as_str())
            },
            ConfigError::NoPersonServers => {
                "identity.aauth: person_tokens.enabled requires a non-empty `trusted_person_servers` allow-list (a PS asserts who the person is; there is deliberately no allow-any escape hatch)".to_owned()
            },
            ConfigError::AuthWithoutPerson => {
                "identity.aauth: auth_tokens.enabled requires person_tokens.enabled — an auth token for this resource can only exist after it verified a person token, and the two share `resource_identifier` and the trusted person-server list".to_owned()
            },
            ConfigError::IncompleteRevocation(i) => {
                "identity.aauth: revoked_tokens[".to_owned().concat(
                    text::to_decimal(*i as u64).as_str(),
                ).concat("] needs both `iss` and `jti`")
            },
            ConfigError::ZeroRefreshFloor => {
                "identity.aauth: jwks.refresh_floor_secs must be greater than 0".to_owned()
            },
            ConfigError::ZeroMaxTtl => {
                "identity.aauth: jwks.max_ttl_secs must be greater than 0".to_owned()
            },
            ConfigError::ZeroFetchTimeout => {
                "identity.aauth: jwks.fetch_timeout_secs must be greater than 0".to_owned()
            },
            ConfigError::ResponseCapTooSmall => {
                "identity.aauth: jwks.max_response_bytes must be at least 1024".to_owned()
            },
            ConfigError::UnknownTrustLevel(s) => {
                "identity.aauth: resolution.trust_level must be `verified` or `header_asserted`, got '".to_owned().concat(
                    s.as_str(),
                ).concat("'")
            },
        }
    }
}

/// The grammar's verdict on one server identifier.
#[derive(Debug)]
pub struct IdentifierCheck {
    pub identifier: String,
    /// Why the identifier is malformed; `None` when it is well-formed.
    pub error: Option<String>,
}

/// Where a validation stops: at a verdict it still needs, or at an error.
#[derive(Debug)]
pub enum ConfigStop {
    Needs(String),
    Invalid(ConfigError),
}

/// The content of a [`ConfigStop`].
pub ghost enum ConfigStopView {
    Needs(Seq<char>),
    Invalid(ConfigErrorView),
}

impl View for ConfigStop {
    type V = ConfigStopView;

    open spec fn view(&self) -> ConfigStopView {
        match *self {
            ConfigStop::Needs(s) => ConfigStopView::Needs(s@),
            ConfigStop::Invalid(e) => ConfigStopView::Invalid(e@),
        }
    }
}

/// The content of an optional [`ConfigStop`].
pub open spec fn stop_view(stop: Option<ConfigStop>) -> Option<ConfigStopView> {
    match stop {
        Some(s) => Some(s@),
        None => None,
    }
}

/// Stops with `error` unless `ok`.
pub open spec fn unless(ok: bool, error: ConfigErrorView) -> Option<ConfigStopView> {
    if ok {
        None
    } else {
        Some(ConfigStopView::Invalid(error))
    }
}

/// The index of the first verdict on `id`, or the length when there is none.
pub open spec fn verdict_index(known: Seq<IdentifierCheck>, id: Seq<char>) -> nat
    decreases known.len(),
{
    if known.len() == 0 || known[0].identifier@ == id {
        0
    } else {
        1 + verdict_index(known.skip(1), id)
    }
}

/// The verdict on `id`: not known, well-formed, or malformed for a reason.
pub open spec fn verdict(known: Seq<IdentifierCheck>, id: Seq<char>) -> Option<Option<Seq<char>>> {
    let i = verdict_index(known, id);
    if i < known.len() {
        Some(
            match known[i as int].error {
                Some(reason) => Some(reason@),
                None => None,
            },
        )
    } else {
        None
    }
}

/// Whether `id` is known to be a well-formed server identifier.
pub open spec fn well_formed(known: Seq<IdentifierCheck>, id: Seq<char>) -> bool {
    verdict(known, id) == Some(None::<Seq<char>>)
}

/// The verdict on one entry of a server list.
pub open spec fn server_stop(
    list: ServerList,
    id: Seq<char>,
    index: nat,
    known: Seq<IdentifierCheck>,
) -> Option<ConfigStopView> {
    if list == ServerList::TrustedIssuers && trimmed(id).len() == 0 {
        Some(ConfigStopView::Invalid(ConfigErrorView::BlankIssuer(index)))
    } else {
        match verdict(known, id) {
            None => Some(ConfigStopView::Needs(id)),
            Some(None) => None,
            Some(Some(reason)) => Some(
                ConfigStopView::Invalid(
                    ConfigErrorView::InvalidServer { list, index, identifier: id, reason },
                ),
            ),
        }
    }
}

/// The first stop among the entries of a server list, from index `from` on.
pub open spec fn servers_stop(
    list: ServerList,
    servers: Seq<String>,
    from: nat,
    known: Seq<IdentifierCheck>,
) -> Option<ConfigStopView>
    decreases servers.len() - from,
{
    if from >= servers.len() {
        None
    } else {
        either(
            server_stop(list, servers[from as int]@, from, known),
            servers_stop(list, servers, from + 1, known),
        )
    }
}

/// Whether a revocation names both its `iss` and its `jti`.
pub open spec fn complete(r: RevokedToken) -> bool {
    trimmed(r.iss@).len() > 0 && trimmed(r.jti@).len() > 0
}

/// The first incomplete revocation, from index `from` on.
pub open spec fn revocations_stop(revoked: Seq<RevokedToken>, from: nat) -> Option<ConfigStopView>
    decreases revoked.len() - from,
{
    if from >= revoked.len() {
        None
    } else {
        either(
            unless(complete(revoked[from as int]), ConfigErrorView::IncompleteRevocation(from)),
            revocations_stop(revoked, from + 1),
        )
    }
}

impl PersonTokenConfig {
    /// Where the validation of the person-token settings stops.
    pub open spec fn stop(self, known: Seq<IdentifierCheck>) -> Option<ConfigStopView> {
        if !self.enabled {
            None
        } else {
            either(
                unless(self.resource().len() > 0, ConfigErrorView::MissingResourceIdentifier),
                either(
                    match verdict(known, self.resource()) {
                        None => Some(ConfigStopView::Needs(self.resource())),
                        Some(None) => None,
                        Some(Some(reason)) => Some(
                            ConfigStopView::Invalid(
                                ConfigErrorView::InvalidResourceIdentifier {
                                    identifier: self.resource(),
                                    reason,
                                },
                            ),
                        ),
                    },
                    either(
                        unless(
                            self.trusted_person_servers@.len() > 0,
                            ConfigErrorView::NoPersonServers,
                        ),
                        servers_stop(
                            ServerList::PersonServers,
                            self.trusted_person_servers@,
                            0,
                            known,
                        ),
                    ),
                ),
            )
        }
    }
}

impl AuthTokenConfig {
    /// Where the validation of the auth-token settings stops.
    pub open spec fn stop(
        self,
        person_tokens_enabled: bool,
        known: Seq<IdentifierCheck>,
    ) -> Option<ConfigStopView> {
        if !self.enabled {
            None
        } else {
            either(
                unless(person_tokens_enabled, ConfigErrorView::AuthWithoutPerson),
                servers_stop(ServerList::AccessServers, self.trusted_access_servers@, 0, known),
            )
        }
    }
}

impl JwksConfig {
    /// Where the validation of the fetch settings stops.
    pub open spec fn stop(self) -> Option<ConfigStopView> {
        either(
            unless(self.refresh_floor_secs > 0, ConfigErrorView::ZeroRefreshFloor),
            either(
                unless(self.max_ttl_secs > 0, ConfigErrorView::ZeroMaxTtl),
                either(
                    unless(self.fetch_timeout_secs > 0, ConfigErrorView::ZeroFetchTimeout),
                    unless(self.max_response_bytes >= 1024, ConfigErrorView::ResponseCapTooSmall),
                ),
            ),
        )
    }
}

impl ResolutionConfig {
    /// Where the validation of the labels stops.
    pub open spec fn stop(self) -> Option<ConfigStopView> {
        unless(
            self.trust_level@ == "verified"@ || self.trust_level@ == "header_asserted"@,
            ConfigErrorView::UnknownTrustLevel(self.trust_level@),
        )
    }
}

impl AauthConfig {
    /// Where the validation of the whole configuration stops: the first
    /// failing check, in the order of the settings; `None` when it is valid.
    pub open spec fn stop(self, known: Seq<IdentifierCheck>) -> Option<ConfigStopView> {
        either(
            unless(
                self.trusted_issuers@.len() > 0 || self.allow_any_issuer,
                ConfigErrorView::NoTrustedIssuers,
            ),
            either(
                servers_stop(ServerList::TrustedIssuers, self.trusted_issuers@, 0, known),
                either(
                    unless(self.signature_window_secs > 0, ConfigErrorView::ZeroSignatureWindow),
                    either(
                        self.person_tokens.stop(known),
                        either(
                            self.auth_tokens.stop(self.person_tokens.enabled, known),
                            either(
                                revocations_stop(self.revoked_tokens@, 0),
                                either(self.jwks.stop(), self.resolution.stop()),
                            ),
                        ),
                    ),
                ),
            ),
        )
    }
}

/// The verdict on `id`: not known, well-formed, or malformed for a reason.
fn find_verdict(known: &Vec<IdentifierCheck>, id: &str) -> (r: Option<Option<String>>)
    ensures
        match r {
            None => verdict(known@, id@) is None,
            Some(None) => well_formed(known@, id@),
            Some(Some(reason)) => verdict(known@, id@) == Some(Some(reason@)),
        },
{
    let mut i: usize = 0;
    assert(known@.skip(0) =~= known@);
    while i < known.len()
        invariant
            i <= known@.len(),
            verdict_index(known@, id@) == i + verdict_index(known@.skip(i as int), id@),
        decreases known@.len() - i,
    {
        if *known[i].identifier.as_str() == *id {
            return Some(known[i].error.clone());
        }
        assert(known@.skip(i as int).skip(1) =~= known@.skip(i + 1));
        i = i + 1;
    }
    None
}

/// Checks one server list.
fn check_servers(list: ServerList, servers: &Vec<String>, known: &Vec<IdentifierCheck>) -> (r:
    Option<ConfigStop>)
    ensures
        stop_view(r) == servers_stop(list, servers@, 0, known@),
{
    let mut i: usize = 0;
    while i < servers.len()
        invariant
            i <= servers@.len(),
            servers_stop(list, servers@, 0, known@) == servers_stop(
                list,
                servers@,
                i as nat,
                known@,
            ),
        decreases servers@.len() - i,
    {
        let id = servers[i].as_str();
        if list == ServerList::TrustedIssuers && text::trim(id).as_str().is_empty() {
            return Some(ConfigStop::Invalid(ConfigError::BlankIssuer(i)));
        }
        match find_verdict(known, id) {
            None => {
                return Some(ConfigStop::Needs(id.to_owned()));
            },
            Some(Some(reason)) => {
                return Some(
                    ConfigStop::Invalid(
                        ConfigError::InvalidServer {
                            list,
                            index: i,
                            identifier: id.to_owned(),
                            reason,
                        },
                    ),
                );
            },
            Some(None) => {},
        }
        i = i + 1;
    }
    None
}

impl PersonTokenConfig {
    /// Validates the person-token settings against the verdicts known so far.
    pub fn validate(&self, known: &Vec<IdentifierCheck>) -> (r: Option<ConfigStop>)
        ensures
            stop_view(r) == self.stop(known@),
    {
        if !self.enabled {
            return None;
        }
        let rid = self.resource_id();
        if rid.as_str().is_empty() {
            return Some(ConfigStop::Invalid(ConfigError::MissingResourceIdentifier));
        }
        match find_verdict(known, rid.as_str()) {
            None => {
                return Some(ConfigStop::Needs(rid));
            },
            Some(Some(reason)) => {
                return Some(
                    ConfigStop::Invalid(
                        ConfigError::InvalidResourceIdentifier { identifier: rid, reason },
                    ),
                );
            },
            Some(None) => {},
        }
        if self.trusted_person_servers.len() == 0 {
            return Some(ConfigStop::Invalid(ConfigError::NoPersonServers));
        }
        check_servers(ServerList::PersonServers, &self.trusted_person_servers, known)
    }
}

impl AuthTokenConfig {
    /// Validates the auth-token settings against the verdicts known so far.
    pub fn validate(&self, person_tokens_enabled: bool, known: &Vec<IdentifierCheck>) -> (r: Option<
        ConfigStop,
    >)
        ensures
            stop_view(r) == self.stop(person_tokens_enabled, known@),
    {
        if !self.enabled {
            return None;
        }
        if !person_tokens_enabled {
            return Some(ConfigStop::Invalid(ConfigError::AuthWithoutPerson));
        }
        check_servers(ServerList::AccessServers, &self.trusted_access_servers, known)
    }
}

impl JwksConfig {
    /// Validates the fetch settings.
    pub fn validate(&self) -> (r: Option<ConfigStop>)
        ensures
            stop_view(r) == self.stop(),
    {
        if self.refresh_floor_secs == 0 {
            return Some(ConfigStop::Invalid(ConfigError::ZeroRefreshFloor));
        }
        if self.max_ttl_secs == 0 {
            return Some(ConfigStop::Invalid(ConfigError::ZeroMaxTtl));
        }
        if self.fetch_timeout_secs == 0 {
            return Some(ConfigStop::Invalid(ConfigError::ZeroFetchTimeout));
        }
        if self.max_response_bytes < 1024 {
            return Some(ConfigStop::Invalid(ConfigError::ResponseCapTooSmall));
        }
        None
    }
}

impl ResolutionConfig {
    /// Validates the labels.
    pub fn validate(&self) -> (r: Option<ConfigStop>)
        ensures
            stop_view(r) == self.stop(),
    {
        let level = self.trust_level.as_str();
        if *level == *"verified" || *level == *"header_asserted" {
            None
        } else {
            Some(ConfigStop::Invalid(ConfigError::UnknownTrustLevel(level.to_owned())))
        }
    }
}

impl AauthConfig {
    /// Validates the configuration against the identifier verdicts known so
    /// far: `None` when it is valid, otherwise the next verdict that is needed
    /// or the first error.
    pub fn validate(&self, known: &Vec<IdentifierCheck>) -> (r: Option<ConfigStop>)
        ensures
            stop_view(r) == self.stop(known@),
    {
        if self.trusted_issuers.len() == 0 && !self.allow_any_issuer {
            return Some(ConfigStop::Invalid(ConfigError::NoTrustedIssuers));
        }
        let issuers = check_servers(ServerList::TrustedIssuers, &self.trusted_issuers, known);
        if issuers.is_some() {
            return issuers;
        }
        if self.signature_window_secs == 0 {
            return Some(ConfigStop::Invalid(ConfigError::ZeroSignatureWindow));
        }
        let persons = self.person_tokens.validate(known);
        if persons.is_some() {
            return persons;
        }
        let auths = self.auth_tokens.validate(self.person_tokens.enabled, known);
        if auths.is_some() {
            return auths;
        }
        let mut i: usize = 0;
        while i < self.revoked_tokens.len()
            invariant
                i <= self.revoked_tokens@.len(),
                revocations_stop(self.revoked_tokens@, 0) == revocations_stop(
                    self.revoked_tokens@,
                    i as nat,
                ),
                self.stop(known@) == either(
                    revocations_stop(self.revoked_tokens@, 0),
                    either(self.jwks.stop(), self.resolution.stop()),
                ),
            decreases self.revoked_tokens@.len() - i,
        {
            let r = &self.revoked_tokens[i];
            if text::trim(r.iss.as_str()).as_str().is_empty() || text::trim(
                r.jti.as_str(),
            ).as_str().is_empty() {
                return Some(ConfigStop::Invalid(ConfigError::IncompleteRevocation(i)));
            }
            i = i + 1;
        }
        let fetching = self.jwks.validate();
        if fetching.is_some() {
            return fetching;
        }
        self.resolution.validate()
    }
}

// --- what a valid configuration guarantees ---------------------------------------

proof fn lemma_servers_known(
    list: ServerList,
    servers: Seq<String>,
    from: nat,
    known: Seq<IdentifierCheck>,
)
    requires
        servers_stop(list, servers, from, known) is None,
    ensures
        forall|i: int| from <= i < servers.len() ==> well_formed(known, (#[trigger] servers[i])@),
    decreases servers.len() - from,
{
    if from < servers.len() {
        lemma_servers_known(list, servers, from + 1, known);
    }
}

/// A configuration that passes validation is closed: the only ways in are the
/// listed issuers, unless the operator opted into any issuer, and every listed
/// issuer is a well-formed server identifier, so that a typo is found when the
/// configuration is loaded and not at a request.
pub proof fn valid_config_is_fail_closed(
    cfg: AauthConfig,
    known: Seq<IdentifierCheck>,
    iss: Seq<char>,
)
    requires
        cfg.stop(known) is None,
    ensures
        cfg.trusted_issuers@.len() > 0 || cfg.allow_any_issuer,
        cfg.trusts_issuer(iss) && !cfg.allow_any_issuer ==> well_formed(known, iss),
        cfg.signature_window_secs > 0,
{
    lemma_servers_known(ServerList::TrustedIssuers, cfg.trusted_issuers@, 0, known);
}

/// In a valid configuration, trusting a person server means that person tokens
/// are on, that the gateway has a well-formed identifier of its own and that
/// the person server is a well-formed identifier on a non-empty list.
pub proof fn valid_config_pins_person_servers(
    cfg: AauthConfig,
    known: Seq<IdentifierCheck>,
    iss: Seq<char>,
)
    requires
        cfg.stop(known) is None,
        cfg.person_tokens.trusts(iss),
    ensures
        cfg.person_tokens.enabled,
        cfg.person_tokens.resource().len() > 0,
        well_formed(known, cfg.person_tokens.resource()),
        well_formed(known, iss),
{
    lemma_servers_known(
        ServerList::PersonServers,
        cfg.person_tokens.trusted_person_servers@,
        0,
        known,
    );
}

/// In a valid configuration, auth tokens are on only where person tokens are,
/// and every trusted access server is a well-formed identifier.
pub proof fn valid_config_auth_requires_person(
    cfg: AauthConfig,
    known: Seq<IdentifierCheck>,
    iss: Seq<char>,
)
    requires
        cfg.stop(known) is None,
    ensures
        cfg.auth_tokens.enabled ==> cfg.person_tokens.enabled,
        cfg.auth_tokens.trusts(iss) ==> well_formed(known, iss),
{
    if cfg.auth_tokens.enabled {
        lemma_servers_known(
            ServerList::AccessServers,
            cfg.auth_tokens.trusted_access_servers@,
            0,
            known,
        );
    }
}

proof fn lemma_needs_unknown(
    list: ServerList,
    servers: Seq<String>,
    from: nat,
    known: Seq<IdentifierCheck>,
    id: Seq<char>,
)
    requires
        servers_stop(list, servers, from, known) == Some(ConfigStopView::Needs(id)),
    ensures
        verdict(known, id) is None,
    decreases servers.len() - from,
{
    if from < servers.len() && server_stop(list, servers[from as int]@, from, known) is None {
        lemma_needs_unknown(list, servers, from + 1, known, id);
    }
}

proof fn lemma_revocations_need_nothing(revoked: Seq<RevokedToken>, from: nat, id: Seq<char>)
    ensures
        revocations_stop(revoked, from) != Some(ConfigStopView::Needs(id)),
    decreases revoked.len() - from,
{
    if from < revoked.len() {
        lemma_revocations_need_nothing(revoked, from + 1, id);
    }
}

/// Validation asks only for verdicts it does not have, so that collecting the
/// verdicts it asks for comes to an end.
pub proof fn validation_asks_for_unknown_verdicts(
    cfg: AauthConfig,
    known: Seq<IdentifierCheck>,
    id: Seq<char>,
)
    requires
        cfg.stop(known) == Some(ConfigStopView::Needs(id)),
    ensures
        verdict(known, id) is None,
{
    let needs = Some(ConfigStopView::Needs(id));
    lemma_revocations_need_nothing(cfg.revoked_tokens@, 0, id);
    if servers_stop(ServerList::TrustedIssuers, cfg.trusted_issuers@, 0, known) == needs {
        lemma_needs_unknown(ServerList::TrustedIssuers, cfg.trusted_issuers@, 0, known, id);
    }
    if servers_stop(
        ServerList::PersonServers,
        cfg.person_tokens.trusted_person_servers@,
        0,
        known,
    ) == needs {
        lemma_needs_unknown(
            ServerList::PersonServers,
            cfg.person_tokens.trusted_person_servers@,
            0,
            known,
            id,
        );
    }
    if servers_stop(
        ServerList::AccessServers,
        cfg.auth_tokens.trusted_access_servers@,
        0,
        known,
    ) == needs {
        lemma_needs_unknown(
            ServerList::AccessServers,
            cfg.auth_tokens.trusted_access_servers@,
            0,
            known,
            id,
        );
    }
}

} // verus!
