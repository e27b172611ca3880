//! The identity resolver: from a request to a gateway identity.

use vstd::prelude::*;
use vstd::string::*;

use crate::config::{AauthConfig, ConfigStop, IdentifierCheck};
use crate::error::{SigError, SigErrorCode, SigErrorView};
use crate::headers::{field_map, first_header, lookup_header, presents_credential};
use crate::jwks::{Entry, JwksResolver};
use crate::replay::ReplayGuard;
use crate::text::{self, decimal, lowered, same_name, trimmed, views};
use crate::url::text_of;
use crate::verification::{
    canonical, canonical_authority, memory, memory_after, progress, verify, Action, ActionView,
    Evidence, Outcome, OutcomeView, Progress, ProgressView, RequestView, VerifiedIdentity,
};

verus! {

/// The algorithms that keys and tokens may use.
pub const SUPPORTED_ALGS: &'static str = "Ed25519, ES256";

// --- attributes ------------------------------------------------------------------------

/// Where an attribute of that name stands; the length when there is none.
spec fn position(entries: Seq<(String, String)>, name: Seq<char>) -> nat
    decreases entries.len(),
{
    if entries.len() == 0 {
        0
    } else if entries[0].0@ == name {
        0
    } else {
        1 + position(entries.skip(1), name)
    }
}

proof fn lemma_position(entries: Seq<(String, String)>, name: Seq<char>)
    ensures
        position(entries, name) <= entries.len(),
        position(entries, name) < entries.len() ==> entries[position(entries, name) as int].0@
            == name,
        forall|i: int|
            0 <= i < position(entries, name) ==> (#[trigger] entries[i]).0@ != name,
    decreases entries.len(),
{
    if entries.len() > 0 && entries[0].0@ != name {
        let rest = entries.skip(1);
        lemma_position(rest, name);
        assert forall|i: int| 0 <= i < position(entries, name) implies (#[trigger] entries[i]).0@
            != name by {
            if i > 0 {
                assert(entries[i] == rest[i - 1]);
            }
        }
    }
}

/// The attributes of an identity: at most one value for each name.
#[derive(Debug)]
pub struct Attributes {
    entries: Vec<(String, String)>,
}

impl View for Attributes {
    type V = Map<Seq<char>, Seq<char>>;

    closed spec fn view(&self) -> Map<Seq<char>, Seq<char>> {
        Map::new(
            |name: Seq<char>| position(self.entries@, name) < self.entries@.len(),
            |name: Seq<char>| self.entries@[position(self.entries@, name) as int].1@,
        )
    }
}

impl Attributes {
    #[verifier::type_invariant]
    spec fn distinct(self) -> bool {
        forall|i: int, j: int|
            0 <= i < j < self.entries@.len() ==> (#[trigger] self.entries@[i]).0@ != (
            #[trigger] self.entries@[j]).0@
    }

    /// No attributes.
    pub fn new() -> (r: Self)
        ensures
            r@ == Map::<Seq<char>, Seq<char>>::empty(),
    {
        let r = Attributes { entries: Vec::new() };
        assert(r@ =~= Map::<Seq<char>, Seq<char>>::empty());
        r
    }

    fn find(&self, name: &str) -> (r: usize)
        ensures
            r == position(self.entries@, name@),
            r <= self.entries@.len(),
    {
        proof {
            lemma_position(self.entries@, name@);
        }
        let mut i: usize = 0;
        while i < self.entries.len()
            invariant
                i <= self.entries@.len(),
                i <= position(self.entries@, name@) <= self.entries@.len(),
                position(self.entries@, name@) < self.entries@.len() ==> self.entries@[position(
                    self.entries@,
                    name@,
                ) as int].0@ == name@,
                forall|j: int|
                    0 <= j < position(self.entries@, name@) ==> (#[trigger] self.entries@[j]).0@
                        != name@,
            decreases self.entries@.len() - i,
        {
            if *self.entries[i].0.as_str() == *name {
                return i;
            }
            i = i + 1;
        }
        i
    }

    /// Sets an attribute.
    pub fn insert(&mut self, name: &str, value: String)
        ensures
            final(self)@ == old(self)@.insert(name@, value@),
    {
        proof {
            use_type_invariant(&*self);
        }
        let at: usize = self.find(name);
        let ghost before = self.entries@;
        proof {
            lemma_position(before, name@);
        }
        let mut entries: Vec<(String, String)> = Vec::new();
        std::mem::swap(&mut entries, &mut self.entries);
        if at < entries.len() {
            entries.set(at, (name.to_owned(), value));
        } else {
            entries.push((name.to_owned(), value));
        }
        let ghost after = entries@;
        self.entries = entries;
        proof {
            let target = old(self)@.insert(name@, value@);
            assert forall|other: Seq<char>| #[trigger]
                self@.dom().contains(other) == target.dom().contains(other) && (
                self@.dom().contains(other) ==> self@[other] == target[other]) by {
                lemma_position(before, other);
                lemma_position(after, other);
                lemma_same_position(before, after, at as int, name@, other);
            }
            assert(self@ =~= target);
        }
    }

    /// The value of an attribute.
    pub fn get(&self, name: &str) -> (r: Option<String>)
        ensures
            match r {
                Some(v) => self@.contains_key(name@) && v@ == self@[name@],
                None => !self@.contains_key(name@),
            },
    {
        let at: usize = self.find(name);
        if at < self.entries.len() {
            Some(self.entries[at].1.clone())
        } else {
            None
        }
    }

    /// All attributes, each name once.
    pub fn into_entries(self) -> (r: Vec<(String, String)>)
        ensures
            forall|i: int|
                0 <= i < r@.len() ==> self@.contains_key((#[trigger] r@[i]).0@)
                    && self@[r@[i].0@] == r@[i].1@,
            forall|name: Seq<char>| #[trigger]
                self@.contains_key(name) ==> exists|i: int|
                    0 <= i < r@.len() && (#[trigger] r@[i]).0@ == name,
            forall|i: int, j: int|
                0 <= i < j < r@.len() ==> (#[trigger] r@[i]).0@ != (#[trigger] r@[j]).0@,
    {
        proof {
            use_type_invariant(&self);
            assert forall|i: int| 0 <= i < self.entries@.len() implies self@.contains_key(
                (#[trigger] self.entries@[i]).0@,
            ) && self@[self.entries@[i].0@] == self.entries@[i].1@ by {
                lemma_position(self.entries@, self.entries@[i].0@);
            }
            assert forall|name: Seq<char>| #[trigger] self@.contains_key(name) implies exists|i: int|
                0 <= i < self.entries@.len() && (#[trigger] self.entries@[i]).0@ == name by {
                lemma_position(self.entries@, name);
                assert(self.entries@[position(self.entries@, name) as int].0@ == name);
            }
        }
        self.entries
    }
}

proof fn lemma_same_position(
    before: Seq<(String, String)>,
    after: Seq<(String, String)>,
    at: int,
    name: Seq<char>,
    other: Seq<char>,
)
    requires
        at == position(before, name),
        0 <= at < after.len(),
        after[at].0@ == name,
        at < before.len() ==> after.len() == before.len(),
        at == before.len() ==> after.len() == before.len() + 1,
        forall|i: int| 0 <= i < before.len() && i != at ==> #[trigger] after[i] == before[i],
    ensures
        other != name && position(before, other) < before.len() ==> position(after, other)
            == position(before, other),
        other != name && position(before, other) == before.len() ==> position(after, other)
            == after.len(),
        position(after, name) == at,
{
    lemma_position(before, other);
    lemma_position(after, other);
    lemma_position(before, name);
    lemma_position(after, name);
    let pa = position(after, other) as int;
    let pb = position(before, other) as int;
    if other != name {
        if pb < before.len() {
            assert(pb != at);
            assert(after[pb].0@ == other);
            if pa < pb {
                assert(after[pa].0@ == other);
                assert(pa != at);
                assert(before[pa].0@ == other);
            }
        } else if pa < after.len() {
            assert(after[pa].0@ == other);
            assert(pa != at);
            assert(before[pa] == after[pa]);
        }
    }
    let pn = position(after, name) as int;
    if pn < at {
        assert(after[pn].0@ == name);
        assert(before[pn].0@ == name);
    }
}

// --- identities --------------------------------------------------------------------------

/// A resolved identity, as the gateway knows it.
#[derive(Debug)]
pub struct PluginIdentity {
    pub kind: String,
    pub trust_level: String,
    pub subject_id: Option<String>,
    pub auth_provider: Option<String>,
    pub issuer: Option<String>,
    pub roles: Vec<String>,
    pub groups: Vec<String>,
    pub scopes: Vec<String>,
    pub attributes: Attributes,
}

/// The content of a [`PluginIdentity`].
pub ghost struct IdentityView {
    pub kind: Seq<char>,
    pub trust_level: Seq<char>,
    pub subject_id: Option<Seq<char>>,
    pub auth_provider: Option<Seq<char>>,
    pub issuer: Option<Seq<char>>,
    pub roles: Seq<Seq<char>>,
    pub groups: Seq<Seq<char>>,
    pub scopes: Seq<Seq<char>>,
    pub attributes: Map<Seq<char>, Seq<char>>,
}

impl View for PluginIdentity {
    type V = IdentityView;

    open spec fn view(&self) -> IdentityView {
        IdentityView {
            kind: self.kind@,
            trust_level: self.trust_level@,
            subject_id: text_of(self.subject_id),
            auth_provider: text_of(self.auth_provider),
            issuer: text_of(self.issuer),
            roles: views(self.roles@),
            groups: views(self.groups@),
            scopes: views(self.scopes@),
            attributes: self.attributes@,
        }
    }
}

/// Attributes with one more, where it has a value.
pub open spec fn with_attribute(
    m: Map<Seq<char>, Seq<char>>,
    name: Seq<char>,
    value: Option<Seq<char>>,
) -> Map<Seq<char>, Seq<char>> {
    match value {
        Some(v) => m.insert(name, v),
        None => m,
    }
}

fn insert_optional(attributes: &mut Attributes, name: &str, value: Option<String>)
    ensures
        final(attributes)@ == with_attribute(old(attributes)@, name@, text_of(value)),
{
    if let Some(value) = value {
        attributes.insert(name, value);
    }
}

/// Attributes with those that every credential yields: the token's identifier,
/// the thumbprint of its key and its expiry.
pub open spec fn with_common(
    m: Map<Seq<char>, Seq<char>>,
    jti: Seq<char>,
    thumbprint: Option<Seq<char>>,
    exp: u64,
) -> Map<Seq<char>, Seq<char>> {
    with_attribute(
        m.insert("aauth.jti"@, jti),
        "aauth.agent_jkt"@,
        thumbprint,
    ).insert("aauth.exp"@, decimal(exp as nat))
}

/// Adds the attributes that every credential yields.
pub fn insert_common(attributes: &mut Attributes, jti: &str, thumbprint: Option<String>, exp: u64)
    ensures
        final(attributes)@ == with_common(old(attributes)@, jti@, text_of(thumbprint), exp),
{
    attributes.insert("aauth.jti", jti.to_owned());
    insert_optional(attributes, "aauth.agent_jkt", thumbprint);
    attributes.insert("aauth.exp", text::to_decimal(exp));
}

/// The attributes of a verified identity.
pub open spec fn identity_attributes(
    vid: VerifiedIdentity,
    thumbprint: Option<Seq<char>>,
) -> Map<Seq<char>, Seq<char>> {
    let none = Map::<Seq<char>, Seq<char>>::empty();
    match vid {
        VerifiedIdentity::Agent(c) => {
            let m = with_common(
                none.insert("aauth.token_type"@, "agent"@),
                c.jti@,
                thumbprint,
                c.exp,
            );
            with_attribute(
                with_attribute(m, "aauth.ps"@, text_of(c.ps)),
                "aauth.parent_agent"@,
                text_of(c.parent_agent),
            )
        },
        VerifiedIdentity::Person(c) => {
            let m = with_common(
                none.insert("aauth.token_type"@, "person"@),
                c.jti@,
                thumbprint,
                c.exp,
            ).insert("aauth.ps"@, c.iss@);
            with_attribute(
                with_attribute(m, "aauth.mission_s256"@, text_of(c.mission_s256)),
                "aauth.tenant"@,
                text_of(c.tenant),
            )
        },
        VerifiedIdentity::Auth(c) => {
            let m = with_common(
                none.insert("aauth.token_type"@, "auth"@),
                c.jti@,
                thumbprint,
                c.exp,
            ).insert("aauth.ps"@, c.ps@);
            with_attribute(
                with_attribute(
                    with_attribute(m, "aauth.account"@, text_of(c.account)),
                    "aauth.mission_s256"@,
                    text_of(c.mission_s256),
                ),
                "aauth.tenant"@,
                text_of(c.tenant),
            )
        },
    }
}

/// The subject and the issuer of a verified identity.
pub open spec fn principal(vid: VerifiedIdentity) -> (Seq<char>, Seq<char>) {
    match vid {
        VerifiedIdentity::Agent(c) => (c.sub@, c.iss@),
        VerifiedIdentity::Person(c) => (c.sub@, c.iss@),
        VerifiedIdentity::Auth(c) => (c.sub@, c.iss@),
    }
}

/// The scopes of a verified identity: those that an auth token grants.
pub open spec fn granted_scopes(vid: VerifiedIdentity) -> Seq<Seq<char>> {
    match vid {
        VerifiedIdentity::Auth(c) => views(c.scopes@),
        _ => Seq::empty(),
    }
}

/// The gateway identity of a verified identity.
pub open spec fn identity(
    cfg: AauthConfig,
    vid: VerifiedIdentity,
    thumbprint: Option<Seq<char>>,
) -> IdentityView {
    IdentityView {
        kind: cfg.resolution.trust_level@,
        trust_level: cfg.resolution.trust_level@,
        subject_id: Some(principal(vid).0),
        auth_provider: Some(cfg.resolution.auth_provider_label@),
        issuer: Some(principal(vid).1),
        roles: Seq::empty(),
        groups: Seq::empty(),
        scopes: granted_scopes(vid),
        attributes: identity_attributes(vid, thumbprint),
    }
}

/// Maps a verified identity to a gateway identity. `thumbprint` is that of the
/// key which the credential confirms, where it has one.
pub fn build_identity(cfg: &AauthConfig, vid: VerifiedIdentity, thumbprint: Option<String>) -> (r:
    PluginIdentity)
    ensures
        r@ == identity(*cfg, vid, text_of(thumbprint)),
{
    let mut attributes = Attributes::new();
    let mut scopes: Vec<String> = Vec::new();
    let (subject_id, issuer) = match vid {
        VerifiedIdentity::Agent(claims) => {
            attributes.insert("aauth.token_type", "agent".to_owned());
            insert_common(&mut attributes, claims.jti.as_str(), thumbprint, claims.exp);
            insert_optional(&mut attributes, "aauth.ps", claims.ps);
            insert_optional(&mut attributes, "aauth.parent_agent", claims.parent_agent);
            (claims.sub, claims.iss)
        },
        VerifiedIdentity::Person(claims) => {
            attributes.insert("aauth.token_type", "person".to_owned());
            insert_common(&mut attributes, claims.jti.as_str(), thumbprint, claims.exp);
            attributes.insert("aauth.ps", claims.iss.clone());
            insert_optional(&mut attributes, "aauth.mission_s256", claims.mission_s256);
            insert_optional(&mut attributes, "aauth.tenant", claims.tenant);
            (claims.sub, claims.iss)
        },
        VerifiedIdentity::Auth(claims) => {
            attributes.insert("aauth.token_type", "auth".to_owned());
            insert_common(&mut attributes, claims.jti.as_str(), thumbprint, claims.exp);
            attributes.insert("aauth.ps", claims.ps);
            scopes = claims.scopes;
            insert_optional(&mut attributes, "aauth.account", claims.account);
            insert_optional(&mut attributes, "aauth.mission_s256", claims.mission_s256);
            insert_optional(&mut attributes, "aauth.tenant", claims.tenant);
            (claims.sub, claims.iss)
        },
    };
    let roles: Vec<String> = Vec::new();
    let groups: Vec<String> = Vec::new();
    assert(views(roles@) =~= Seq::<Seq<char>>::empty());
    assert(views(groups@) =~= Seq::<Seq<char>>::empty());
    PluginIdentity {
        kind: cfg.resolution.trust_level.clone(),
        trust_level: cfg.resolution.trust_level.clone(),
        subject_id: Some(subject_id),
        auth_provider: Some(cfg.resolution.auth_provider_label.clone()),
        issuer: Some(issuer),
        roles,
        groups,
        scopes,
        attributes,
    }
}

// --- refusals ----------------------------------------------------------------------------

/// The contents of a list of headers.
pub open spec fn header_views(headers: Seq<(String, String)>) -> Seq<(Seq<char>, Seq<char>)> {
    headers.map_values(|h: (String, String)| (h.0@, h.1@))
}

/// The value of the `Signature-Error` header. `list` is the inner list of strings
/// (RFC 8941) that the required components make.
pub open spec fn signature_error_value(e: SigErrorView, list: Seq<char>) -> Seq<char> {
    match e.required_input {
        Some(_) => "error="@ + e.code.name() + ", required_input="@ + list,
        None => "error="@ + e.code.name(),
    }
}

/// The headers that a refusal carries: the error itself and, where the client
/// can recover, what would be accepted.
pub open spec fn refusal_headers(e: SigErrorView, list: Seq<char>) -> Seq<
    (Seq<char>, Seq<char>),
> {
    let first = seq![("signature-error"@, signature_error_value(e, list))];
    match e.code {
        SigErrorCode::UnsupportedScheme => first.push(("accept-signature-scheme"@, "jwt"@)),
        SigErrorCode::UnsupportedAlgorithm => first.push(
            ("accept-signature-alg"@, SUPPORTED_ALGS@),
        ),
        _ => first,
    }
}

/// The headers that the refusal of a request carries. `list` is the inner list of
/// strings (RFC 8941) that the required components make; it is not read when the
/// error names none.
pub fn error_response_headers(err: &SigError, list: &str) -> (r: Vec<(String, String)>)
    ensures
        header_views(r@) == refusal_headers(err@, list@),
{
    let mut value = "error=".to_owned().concat(err.code.as_str());
    if err.required_input.is_some() {
        value = value.concat(", required_input=").concat(list);
    }
    let mut headers: Vec<(String, String)> = Vec::new();
    headers.push(("signature-error".to_owned(), value));
    match &err.code {
        SigErrorCode::UnsupportedScheme => {
            headers.push(("accept-signature-scheme".to_owned(), "jwt".to_owned()));
        },
        SigErrorCode::UnsupportedAlgorithm => {
            headers.push(("accept-signature-alg".to_owned(), SUPPORTED_ALGS.to_owned()));
        },
        _ => {},
    }
    assert(header_views(headers@) =~= refusal_headers(err@, list@));
    headers
}

// --- resolution --------------------------------------------------------------------------

/// What the gateway says of a request besides its headers.
#[derive(Debug)]
pub struct RequestMetadata {
    pub transport: String,
    pub method: Option<String>,
    pub path: Option<String>,
    /// The query, without its question mark.
    pub query: Option<String>,
}

/// How a request was resolved.
#[derive(Debug)]
pub enum IdentityResolution {
    /// No credential: others may resolve the request.
    Unresolved,
    /// A credential that was refused.
    Invalid { reason: String, response_headers: Vec<(String, String)> },
    /// An identity.
    Resolved { identity: PluginIdentity },
}

/// The content of an [`IdentityResolution`].
pub ghost enum ResolutionView {
    Unresolved,
    Invalid { reason: Seq<char>, response_headers: Seq<(Seq<char>, Seq<char>)> },
    Resolved { identity: IdentityView },
}

impl View for IdentityResolution {
    type V = ResolutionView;

    open spec fn view(&self) -> ResolutionView {
        match *self {
            IdentityResolution::Unresolved => ResolutionView::Unresolved,
            IdentityResolution::Invalid { reason, response_headers } => ResolutionView::Invalid {
                reason: reason@,
                response_headers: header_views(response_headers@),
            },
            IdentityResolution::Resolved { identity } => ResolutionView::Resolved {
                identity: identity@,
            },
        }
    }
}

impl IdentityResolution {
    /// The name under which a resolution is counted.
    pub open spec fn label(self) -> Seq<char> {
        match self {
            IdentityResolution::Resolved { .. } => "resolved"@,
            IdentityResolution::Unresolved => "none"@,
            IdentityResolution::Invalid { .. } => "invalid"@,
        }
    }

    /// The name under which a resolution is counted.
    pub fn outcome(&self) -> (r: &'static str)
        ensures
            r@ == self.label(),
    {
        match self {
            IdentityResolution::Resolved { .. } => "resolved",
            IdentityResolution::Unresolved => "none",
            IdentityResolution::Invalid { .. } => "invalid",
        }
    }
}

/// How far a resolution has come.
#[derive(Debug)]
pub enum ResolveStep {
    /// The next action, with the evidence handed back for it.
    Needs(Action, Box<Evidence>),
    /// The request is verified: see [`resolved`].
    Identified(Box<VerifiedIdentity>),
    /// The request is refused: see [`refused`].
    Refused(SigError),
    /// The request is left to others.
    Finished(IdentityResolution),
}

/// The content of a [`ResolveStep`].
pub ghost enum ResolveStepView {
    Needs(ActionView),
    Identified(VerifiedIdentity),
    Refused(SigErrorView),
    Finished(ResolutionView),
}

impl View for ResolveStep {
    type V = ResolveStepView;

    open spec fn view(&self) -> ResolveStepView {
        match *self {
            ResolveStep::Needs(action, _) => ResolveStepView::Needs(action@),
            ResolveStep::Identified(vid) => ResolveStepView::Identified(*vid),
            ResolveStep::Refused(e) => ResolveStepView::Refused(e@),
            ResolveStep::Finished(resolution) => ResolveStepView::Finished(resolution@),
        }
    }
}

/// The authority that the signature has to cover: the operator's, as it stands
/// but for its case, or else the canonical form of the `Host` header.
pub open spec fn expected_authority(cfg: AauthConfig, headers: Seq<(String, String)>) -> Seq<char> {
    match cfg.expected_authority {
        Some(a) => lowered(trimmed(a@)),
        None => match first_header(headers, "host"@) {
            Some(host) => canonical(host),
            None => Seq::empty(),
        },
    }
}

/// The request as the signature covers it.
pub open spec fn signed_request(
    cfg: AauthConfig,
    headers: Seq<(String, String)>,
    metadata: RequestMetadata,
) -> RequestView {
    RequestView {
        method: match metadata.method {
            Some(method) => method@,
            None => Seq::empty(),
        },
        authority: expected_authority(cfg, headers),
        path: match metadata.path {
            Some(path) => path@,
            None => "/"@,
        },
        query: match metadata.query {
            Some(query) => if query@.len() > 0 {
                "?"@ + query@
            } else {
                Seq::empty()
            },
            None => Seq::empty(),
        },
        fields: field_map(headers),
    }
}

/// Whether a request can carry a signature: those over HTTP only.
pub open spec fn over_http(metadata: RequestMetadata) -> bool {
    same_name(metadata.transport@, "http"@)
}

/// The resolution of a refused request.
pub open spec fn refusal(e: SigErrorView, list: Seq<char>) -> ResolutionView {
    ResolutionView::Invalid {
        reason: e.code.name() + ": "@ + e.detail,
        response_headers: refusal_headers(e, list),
    }
}

/// How far a resolution comes on the evidence.
pub open spec fn resolution(
    cfg: AauthConfig,
    headers: Seq<(String, String)>,
    metadata: RequestMetadata,
    ev: Evidence,
    seen: Option<Map<Seq<char>, i64>>,
    now: u64,
) -> ResolveStepView {
    if !over_http(metadata) {
        ResolveStepView::Finished(ResolutionView::Unresolved)
    } else {
        match progress(headers, signed_request(cfg, headers, metadata), cfg, ev, seen, now) {
            ProgressView::Needs(action) => ResolveStepView::Needs(action),
            ProgressView::Done(OutcomeView::NoCredential) => ResolveStepView::Finished(
                ResolutionView::Unresolved,
            ),
            ProgressView::Done(OutcomeView::Rejected(e)) => ResolveStepView::Refused(e),
            ProgressView::Done(OutcomeView::Verified(vid)) => ResolveStepView::Identified(vid),
        }
    }
}

/// Resolves a request on the evidence gathered so far.
pub fn resolve(
    cfg: &AauthConfig,
    headers: &[(String, String)],
    metadata: &RequestMetadata,
    evidence: Evidence,
    replay: &mut Option<ReplayGuard>,
    now: u64,
) -> (r: ResolveStep)
    ensures
        r@ == resolution(*cfg, headers@, *metadata, evidence, memory(*old(replay)), now),
        r matches ResolveStep::Needs(_, kept) ==> *kept == evidence,
        memory(*final(replay)) == if over_http(*metadata) {
            memory_after(
                headers@,
                signed_request(*cfg, headers@, *metadata),
                *cfg,
                evidence,
                memory(*old(replay)),
                now,
            )
        } else {
            memory(*old(replay))
        },
{
    if !text::eq_ignore_case(metadata.transport.as_str(), "http") {
        return ResolveStep::Finished(IdentityResolution::Unresolved);
    }
    let authority = match &cfg.expected_authority {
        Some(a) => text::to_lower(text::trim(a.as_str()).as_str()),
        None => match lookup_header(headers, "host") {
            Some(host) => canonical_authority(host),
            None => String::new(),
        },
    };
    let method = match &metadata.method {
        Some(method) => method.clone(),
        None => String::new(),
    };
    let path = match &metadata.path {
        Some(path) => path.clone(),
        None => "/".to_owned(),
    };
    let query = match &metadata.query {
        Some(query) => if query.as_str().is_empty() {
            String::new()
        } else {
            "?".to_owned().concat(query.as_str())
        },
        None => String::new(),
    };
    match verify(
        headers,
        method.as_str(),
        authority.as_str(),
        path.as_str(),
        query.as_str(),
        cfg,
        evidence,
        replay,
        now,
    ) {
        Progress::Needs(action, kept) => ResolveStep::Needs(action, kept),
        Progress::Done(Outcome::NoCredential) => ResolveStep::Finished(IdentityResolution::Unresolved),
        Progress::Done(Outcome::Rejected(err)) => ResolveStep::Refused(err),
        Progress::Done(Outcome::Verified(vid)) => ResolveStep::Identified(vid),
    }
}

/// Concludes the resolution of a verified request.
pub fn resolved(cfg: &AauthConfig, vid: VerifiedIdentity, thumbprint: Option<String>) -> (r:
    IdentityResolution)
    ensures
        r@ == (ResolutionView::Resolved { identity: identity(*cfg, vid, text_of(thumbprint)) }),
{
    IdentityResolution::Resolved { identity: build_identity(cfg, vid, thumbprint) }
}

/// Concludes the resolution of a refused request. `list` is the inner list of
/// strings (RFC 8941) that the required components make; it is not read when the
/// error names none.
pub fn refused(err: &SigError, list: &str) -> (r: IdentityResolution)
    ensures
        r@ == refusal(err@, list@),
{
    IdentityResolution::Invalid {
        reason: err.code.as_str().to_owned().concat(": ").concat(err.detail.as_str()),
        response_headers: error_response_headers(err, list),
    }
}

/// The state of a resolver.
pub struct AauthIdentityPlugin {
    pub config: AauthConfig,
    pub jwks: JwksResolver,
    /// Present when replays are to be rejected.
    pub replay: Option<ReplayGuard>,
}

impl AauthIdentityPlugin {
    /// A resolver under a configuration that was found valid. Any other is
    /// refused: a resolver that is misconfigured does not come into being.
    pub fn from_config(config: AauthConfig, known: &Vec<IdentifierCheck>) -> (r: Result<
        Self,
        ConfigStop,
    >)
        ensures
            match r {
                Ok(plugin) => {
                    &&& config.stop(known@) is None
                    &&& plugin.config == config
                    &&& plugin.jwks@.policy.allow_insecure == config.insecure_dev_mode
                    &&& plugin.jwks@.policy.timeout_secs == config.jwks.fetch_timeout_secs
                    &&& plugin.jwks@.policy.max_response_bytes == config.jwks.max_response_bytes
                    &&& plugin.jwks@.policy.cross_origin_hosts@ == config.jwks.cross_origin_hosts@
                    &&& plugin.jwks@.floor == config.jwks.refresh_floor_secs
                    &&& plugin.jwks@.max_age == config.jwks.max_ttl_secs
                    &&& plugin.jwks@.entries == Map::<Seq<char>, Entry>::empty()
                    &&& plugin.jwks@.attempts == Map::<Seq<char>, u128>::empty()
                    &&& memory(plugin.replay) == if config.replay_protection {
                        Some(Map::<Seq<char>, i64>::empty())
                    } else {
                        None
                    }
                },
                Err(stop) => config.stop(known@) == Some(stop@),
            },
    {
        if let Some(stop) = config.validate(known) {
            return Err(stop);
        }
        let jwks = JwksResolver::new(&config.jwks, config.insecure_dev_mode);
        let replay = if config.replay_protection {
            Some(ReplayGuard::new())
        } else {
            None
        };
        Ok(AauthIdentityPlugin { config, jwks, replay })
    }
}

// --- what a resolution promises ------------------------------------------------------------

/// A request without a signature header, or not over HTTP, is left to others,
/// and so is no other.
pub proof fn others_resolve_unsigned_requests(
    cfg: AauthConfig,
    headers: Seq<(String, String)>,
    metadata: RequestMetadata,
    ev: Evidence,
    seen: Option<Map<Seq<char>, i64>>,
    now: u64,
)
    ensures
        resolution(cfg, headers, metadata, ev, seen, now) == ResolveStepView::Finished(
            ResolutionView::Unresolved,
        ) <==> !over_http(metadata) || !presents_credential(headers),
{
}

/// Every refusal names its error in the `Signature-Error` header, and names what
/// would be accepted exactly when the scheme or the algorithm was at fault.
pub proof fn refusals_name_their_error(e: SigErrorView, list: Seq<char>)
    ensures
        refusal_headers(e, list).len() > 0,
        refusal_headers(e, list)[0] == ("signature-error"@, signature_error_value(e, list)),
        refusal_headers(e, list).contains(("accept-signature-scheme"@, "jwt"@)) <==> e.code
            == SigErrorCode::UnsupportedScheme,
        refusal_headers(e, list).contains(("accept-signature-alg"@, SUPPORTED_ALGS@)) <==> e.code
            == SigErrorCode::UnsupportedAlgorithm,
{
    reveal_strlit("signature-error");
    reveal_strlit("accept-signature-scheme");
    reveal_strlit("accept-signature-alg");
    let h = refusal_headers(e, list);
    assert("signature-error"@.len() != "accept-signature-scheme"@.len());
    assert("signature-error"@.len() != "accept-signature-alg"@.len());
    assert("accept-signature-alg"@.len() != "accept-signature-scheme"@.len());
    if e.code == SigErrorCode::UnsupportedScheme || e.code == SigErrorCode::UnsupportedAlgorithm {
        assert(h[1] == h.last());
    }
}

/// Only a grant carries scopes: an agent or a person is granted none.
pub proof fn only_grants_carry_scopes(
    cfg: AauthConfig,
    vid: VerifiedIdentity,
    thumbprint: Option<Seq<char>>,
)
    ensures
        !(vid is Auth) ==> identity(cfg, vid, thumbprint).scopes.len() == 0,
        vid matches VerifiedIdentity::Auth(c) ==> identity(cfg, vid, thumbprint).scopes == views(
            c.scopes@,
        ),
        identity(cfg, vid, thumbprint).roles.len() == 0,
        identity(cfg, vid, thumbprint).groups.len() == 0,
{
}

/// Every identity names its kind of credential, the token, its expiry and,
/// where it has one, the thumbprint of its key.
pub proof fn identities_carry_common_attributes(
    cfg: AauthConfig,
    vid: VerifiedIdentity,
    thumbprint: Option<Seq<char>>,
)
    ensures
        ({
            let m = identity(cfg, vid, thumbprint).attributes;
            let (kind, jti, exp) = match vid {
                VerifiedIdentity::Agent(c) => ("agent"@, c.jti@, c.exp),
                VerifiedIdentity::Person(c) => ("person"@, c.jti@, c.exp),
                VerifiedIdentity::Auth(c) => ("auth"@, c.jti@, c.exp),
            };
            &&& m.contains_pair("aauth.token_type"@, kind)
            &&& m.contains_pair("aauth.jti"@, jti)
            &&& m.contains_pair("aauth.exp"@, decimal(exp as nat))
            &&& match thumbprint {
                Some(t) => m.contains_pair("aauth.agent_jkt"@, t),
                None => !m.contains_key("aauth.agent_jkt"@),
            }
        }),
{
    reveal_strlit("aauth.token_type");
    reveal_strlit("aauth.jti");
    reveal_strlit("aauth.exp");
    reveal_strlit("aauth.agent_jkt");
    reveal_strlit("aauth.ps");
    reveal_strlit("aauth.parent_agent");
    reveal_strlit("aauth.mission_s256");
    reveal_strlit("aauth.tenant");
    reveal_strlit("aauth.account");
    assert("aauth.jti"@[6] == 'j');
    assert("aauth.exp"@[6] == 'e');
    assert("aauth.agent_jkt"@[6] == 'a');
    assert("aauth.token_type"@[6] == 't');
    assert("aauth.tenant"@.len() != "aauth.token_type"@.len());
    assert("aauth.account"@.len() != "aauth.agent_jkt"@.len());
    assert("aauth.ps"@[6] == 'p');
    assert("aauth.parent_agent"@[6] == 'p');
    assert("aauth.mission_s256"@[6] == 'm');
    assert("aauth.tenant"@[6] == 't');
    assert("aauth.account"@[6] == 'a');
}

/// An authority that the operator configured is taken as it stands, but for its
/// case, whatever the `Host` header says: its port is kept.
pub proof fn configured_authority_is_kept(
    cfg: AauthConfig,
    headers: Seq<(String, String)>,
    other: Seq<(String, String)>,
)
    requires
        cfg.expected_authority is Some,
    ensures
        expected_authority(cfg, headers) == lowered(trimmed(cfg.expected_authority->Some_0@)),
        expected_authority(cfg, headers) == expected_authority(cfg, other),
{
}

} // verus!
