//! What may be fetched, and how.
//!
//! The issuer and the key-set address that a request presents come from a token
//! that nobody has verified yet, so every fetch is fenced in: HTTPS only, no
//! redirects, no host with a non-public address, the connection pinned to a
//! vetted address, the body capped.
//!
//! [`EgressPolicy::get_json`] and [`EgressPolicy::fetch`] touch no network. They
//! are given the results gathered so far and either conclude or name the one
//! action whose result they need next.

use vstd::prelude::*;
use vstd::string::*;

use crate::config::{in_list, listed};
use crate::error::{copy_strings, sig_error, SigError, SigErrorCode, SigErrorView};
use crate::ip::{ip_is_public, is_public, IpAddr};
use crate::json::{self, json_document, json_strings, named};
use crate::text::{self, decimal, number, same_name, split_on, trimmed, unquoted, views, without_prefix};
use crate::tokens::Jwks;
use crate::url::{self, url_parts, UrlPartsView};

verus! {

/// What the operator permits of fetches.
#[derive(Debug)]
pub struct EgressPolicy {
    /// Permits plain HTTP and non-public addresses.
    pub allow_insecure: bool,
    /// Limit on the duration of a fetch, in seconds.
    pub timeout_secs: u64,
    /// Limit on the size of a body.
    pub max_response_bytes: usize,
    /// Hosts that may serve the keys of an issuer on another host.
    pub cross_origin_hosts: Vec<String>,
}

impl Clone for EgressPolicy {
    fn clone(&self) -> (r: Self)
        ensures
            r.allow_insecure == self.allow_insecure,
            r.timeout_secs == self.timeout_secs,
            r.max_response_bytes == self.max_response_bytes,
            r.cross_origin_hosts@ == self.cross_origin_hosts@,
    {
        EgressPolicy {
            allow_insecure: self.allow_insecure,
            timeout_secs: self.timeout_secs,
            max_response_bytes: self.max_response_bytes,
            cross_origin_hosts: copy_strings(&self.cross_origin_hosts),
        }
    }
}

// --- freshness -----------------------------------------------------------------------

/// Whether a `Cache-Control` directive forbids caching.
pub open spec fn forbids_caching(directive: Seq<char>) -> bool {
    same_name(trimmed(directive), "no-store"@) || same_name(trimmed(directive), "no-cache"@)
}

/// What follows `max-age=` in a directive, in one of its usual spellings.
pub open spec fn max_age_value(directive: Seq<char>) -> Option<Seq<char>> {
    let d = trimmed(directive);
    if without_prefix(d, "max-age="@) is Some {
        without_prefix(d, "max-age="@)
    } else if without_prefix(d, "Max-Age="@) is Some {
        without_prefix(d, "Max-Age="@)
    } else {
        without_prefix(d, "MAX-AGE="@)
    }
}

/// The seconds that a directive grants, if it is a `max-age` with a number.
pub open spec fn max_age(directive: Seq<char>) -> Option<u64> {
    match max_age_value(directive) {
        Some(v) => number(unquoted(trimmed(v))),
        None => None,
    }
}

/// The seconds that the first of the directives from `from` on grants which
/// grants any.
pub open spec fn first_max_age(directives: Seq<Seq<char>>, from: nat) -> Option<u64>
    decreases directives.len() - from,
{
    if from >= directives.len() {
        None
    } else if max_age(directives[from as int]) is Some {
        max_age(directives[from as int])
    } else {
        first_max_age(directives, from + 1)
    }
}

/// The freshness lifetime, in seconds, that a `Cache-Control` value asks for.
pub open spec fn freshness(value: Seq<char>) -> Option<u64> {
    let directives = split_on(value, ',');
    if exists|i: int| 0 <= i < directives.len() && forbids_caching(#[trigger] directives[i]) {
        Some(0)
    } else {
        first_max_age(directives, 0)
    }
}

fn max_age_seconds(directive: &str) -> (r: Option<u64>)
    ensures
        r == max_age(directive@),
{
    let d = text::trim(directive);
    let value = match text::strip_prefix(d.as_str(), "max-age=") {
        Some(v) => v,
        None => match text::strip_prefix(d.as_str(), "Max-Age=") {
            Some(v) => v,
            None => match text::strip_prefix(d.as_str(), "MAX-AGE=") {
                Some(v) => v,
                None => {
                    return None;
                },
            },
        },
    };
    text::parse_number(text::unquote(text::trim(value.as_str()).as_str()).as_str())
}

/// The freshness lifetime, in seconds, that a `Cache-Control` value asks for:
/// the first `max-age`, or zero when caching is forbidden. `None` when the value
/// says nothing of either.
pub fn cache_control_ttl(value: &str) -> (r: Option<u64>)
    ensures
        r == freshness(value@),
{
    let directives = text::split(value, ',');
    let ghost ds = split_on(value@, ',');
    assert(directives@.len() == ds.len()) by {
        assert(views(directives@).len() == directives@.len());
    }
    let mut found: Option<u64> = None;
    let mut i: usize = 0;
    while i < directives.len()
        invariant
            ds == split_on(value@, ','),
            views(directives@) == ds,
            directives@.len() == ds.len(),
            i <= ds.len(),
            forall|j: int| 0 <= j < i ==> !forbids_caching(#[trigger] ds[j]),
            match found {
                Some(_) => found == first_max_age(ds, 0),
                None => first_max_age(ds, 0) == first_max_age(ds, i as nat),
            },
        decreases ds.len() - i,
    {
        let directive = directives[i].as_str();
        assert(views(directives@)[i as int] == directive@);
        let d = text::trim(directive);
        if text::eq_ignore_case(d.as_str(), "no-store") || text::eq_ignore_case(
            d.as_str(),
            "no-cache",
        ) {
            assert(forbids_caching(ds[i as int]));
            return Some(0);
        }
        if found.is_none() {
            found = max_age_seconds(directive);
        }
        i = i + 1;
    }
    found
}

// --- one document --------------------------------------------------------------------

/// Why a request got no answer.
#[derive(Debug)]
pub enum SendError {
    /// The client could not be built.
    Build(String),
    /// The request failed.
    Request(String),
}

/// The head of a response.
#[derive(Debug)]
pub struct ResponseHead {
    pub status: u16,
    /// The `Cache-Control` value, where it is readable text.
    pub cache_control: Option<String>,
}

/// The results gathered so far for one document.
#[derive(Debug)]
pub struct GetEvidence {
    /// The addresses that the host resolves to.
    pub addresses: Option<Result<Vec<IpAddr>, String>>,
    pub head: Option<Result<ResponseHead, SendError>>,
    /// The body, or as much of it as was to be read.
    pub body: Option<Result<Vec<u8>, String>>,
}

/// Outside work that the fetch of a document waits for.
#[derive(Debug)]
pub enum GetAction {
    /// Resolve the host: `GetEvidence::addresses`.
    Resolve { host: String, port: u16 },
    /// Send the request without following redirects, with connections to the
    /// host pinned to the address, the first that was resolved:
    /// `GetEvidence::head`.
    Send { host: String, pinned: IpAddr, timeout_secs: u64, https_only: bool },
    /// Read at most `limit` bytes of the body: `GetEvidence::body`.
    Read { limit: u64 },
}

/// The content of a [`GetAction`].
pub ghost enum GetActionView {
    Resolve { host: Seq<char>, port: u16 },
    Send { host: Seq<char>, pinned: IpAddr, timeout_secs: u64, https_only: bool },
    Read { limit: u64 },
}

impl View for GetAction {
    type V = GetActionView;

    open spec fn view(&self) -> GetActionView {
        match *self {
            GetAction::Resolve { host, port } => GetActionView::Resolve { host: host@, port },
            GetAction::Send { host, pinned, timeout_secs, https_only } => GetActionView::Send {
                host: host@,
                pinned,
                timeout_secs,
                https_only,
            },
            GetAction::Read { limit } => GetActionView::Read { limit },
        }
    }
}

/// How far the fetch of a document has come.
#[derive(Debug)]
pub enum GetStep {
    Needs(GetAction),
    /// It failed, for this reason.
    Failed(String),
    /// The document, and the freshness lifetime that its response advertised,
    /// in seconds.
    Done(serde_json::Value, Option<u64>),
}

/// Where the fetch of a document stops.
pub ghost enum GetStopView {
    Needs(GetActionView),
    Failed(Seq<char>),
}

impl GetEvidence {
    /// Nothing gathered yet.
    pub open spec fn empty() -> GetEvidence {
        GetEvidence { addresses: None, head: None, body: None }
    }

    /// Nothing gathered yet.
    pub fn new() -> (r: Self)
        ensures
            r == GetEvidence::empty(),
    {
        GetEvidence { addresses: None, head: None, body: None }
    }

    /// The freshness lifetime that the response advertised.
    pub open spec fn ttl(self) -> Option<u64> {
        match self.head {
            Some(Ok(head)) => match head.cache_control {
                Some(value) => freshness(value@),
                None => None,
            },
            _ => None,
        }
    }

    /// The string members of the document in the body.
    pub open spec fn document(self) -> Map<Seq<char>, Seq<char>> {
        json_document(self.body->Some_0->Ok_0@)->Ok_0
    }
}

/// Whether some address is not public.
pub open spec fn any_non_public(addresses: Seq<IpAddr>) -> bool {
    exists|i: int| 0 <= i < addresses.len() && !is_public(#[trigger] addresses[i])
}

/// The number of bytes to read at most: one more than is acceptable.
pub open spec fn read_limit(cap: usize) -> u64 {
    if cap == u64::MAX {
        u64::MAX
    } else {
        (cap + 1) as u64
    }
}

/// Why a status is not one of success, when it is not.
pub open spec fn status_error(url: Seq<char>, status: u16) -> Option<Seq<char>> {
    if 300 <= status < 400 {
        Some("redirect from "@ + url + " refused"@)
    } else if 200 <= status < 300 {
        None
    } else {
        Some("HTTP "@ + decimal(status as nat) + " from "@ + url)
    }
}

fn check_status(url: &str, status: u16) -> (r: Option<String>)
    ensures
        url::text_of(r) == status_error(url@, status),
{
    if 300 <= status && status < 400 {
        Some("redirect from ".to_owned().concat(url).concat(" refused"))
    } else if 200 <= status && status < 300 {
        None
    } else {
        Some(
            "HTTP ".to_owned().concat(text::to_decimal(status as u64).as_str()).concat(
                " from ",
            ).concat(url),
        )
    }
}

impl EgressPolicy {
    /// Why a URL may not be fetched, when it may not.
    pub open spec fn admission_error(self, parts: UrlPartsView) -> Option<Seq<char>> {
        if parts.scheme == "http"@ && !self.allow_insecure {
            Some("plain http egress not allowed"@)
        } else if parts.scheme != "http"@ && parts.scheme != "https"@ {
            Some("unsupported URL scheme '"@ + parts.scheme + "'"@)
        } else if parts.username.len() > 0 || parts.password is Some {
            Some("userinfo in URL rejected"@)
        } else if parts.host is None {
            Some("URL has no host"@)
        } else if parts.port is None {
            Some("URL has no port"@)
        } else {
            None
        }
    }

    /// Admits a URL: the host and the port to connect to.
    pub fn admit_url(&self, parts: url::UrlParts) -> (r: Result<(String, u16), String>)
        ensures
            match r {
                Ok((host, port)) => self.admission_error(parts@) is None && parts@.host == Some(
                    host@,
                ) && parts@.port == Some(port),
                Err(e) => self.admission_error(parts@) == Some(e@),
            },
    {
        let scheme = parts.scheme.as_str();
        if *scheme == *"http" {
            if !self.allow_insecure {
                return Err("plain http egress not allowed".to_owned());
            }
        } else if !(*scheme == *"https") {
            return Err(
                "unsupported URL scheme '".to_owned().concat(scheme).concat("'"),
            );
        }
        if !parts.username.as_str().is_empty() || parts.password.is_some() {
            return Err("userinfo in URL rejected".to_owned());
        }
        let host = match parts.host {
            Some(host) => host,
            None => {
                return Err("URL has no host".to_owned());
            },
        };
        match parts.port {
            Some(port) => Ok((host, port)),
            None => Err("URL has no port".to_owned()),
        }
    }

    /// Why a host may not be connected to, when it may not.
    pub open spec fn vetting_error(self, host: Seq<char>, addresses: Seq<IpAddr>) -> Option<
        Seq<char>,
    > {
        if addresses.len() == 0 {
            Some(host + " did not resolve"@)
        } else if !self.allow_insecure && any_non_public(addresses) {
            Some("host "@ + host + " resolves to a non-public address"@)
        } else {
            None
        }
    }

    /// Vets the addresses of a host: the one to connect to is the first. A host
    /// that has a public and a non-public address is refused.
    pub fn vet_addresses(&self, host: &str, addresses: &Vec<IpAddr>) -> (r: Result<IpAddr, String>)
        ensures
            match r {
                Ok(pinned) => self.vetting_error(host@, addresses@) is None && pinned
                    == addresses@[0],
                Err(e) => self.vetting_error(host@, addresses@) == Some(e@),
            },
    {
        if addresses.len() == 0 {
            return Err(host.to_owned().concat(" did not resolve"));
        }
        if !self.allow_insecure {
            let mut i: usize = 0;
            while i < addresses.len()
                invariant
                    i <= addresses@.len(),
                    forall|j: int| 0 <= j < i ==> is_public(#[trigger] addresses@[j]),
                    !self.allow_insecure,
                    addresses@.len() > 0,
                decreases addresses@.len() - i,
            {
                if !ip_is_public(addresses[i]) {
                    assert(!is_public(addresses@[i as int]));
                    return Err(
                        "host ".to_owned().concat(host).concat(
                            " resolves to a non-public address",
                        ),
                    );
                }
                i = i + 1;
            }
        }
        Ok(addresses[0])
    }

    /// Where the exchange with an admitted host stops, if it does.
    pub open spec fn exchange_stop(
        self,
        url: Seq<char>,
        host: Seq<char>,
        port: u16,
        ev: GetEvidence,
    ) -> Option<GetStopView> {
        match ev.addresses {
            None => Some(GetStopView::Needs(GetActionView::Resolve { host, port })),
            Some(Err(e)) => Some(
                GetStopView::Failed("dns resolution of "@ + host + " failed: "@ + e@),
            ),
            Some(Ok(addresses)) => match self.vetting_error(host, addresses@) {
                Some(e) => Some(GetStopView::Failed(e)),
                None => match ev.head {
                    None => Some(
                        GetStopView::Needs(
                            GetActionView::Send {
                                host,
                                pinned: addresses@[0],
                                timeout_secs: self.timeout_secs,
                                https_only: !self.allow_insecure,
                            },
                        ),
                    ),
                    Some(Err(SendError::Build(e))) => Some(
                        GetStopView::Failed("client build failed: "@ + e@),
                    ),
                    Some(Err(SendError::Request(e))) => Some(
                        GetStopView::Failed("request failed: "@ + e@),
                    ),
                    Some(Ok(head)) => match status_error(url, head.status) {
                        Some(e) => Some(GetStopView::Failed(e)),
                        None => self.body_stop(url, ev),
                    },
                },
            },
        }
    }

    /// Where reading the body stops, if it does.
    pub open spec fn body_stop(self, url: Seq<char>, ev: GetEvidence) -> Option<GetStopView> {
        match ev.body {
            None => Some(
                GetStopView::Needs(
                    GetActionView::Read { limit: read_limit(self.max_response_bytes) },
                ),
            ),
            Some(Err(e)) => Some(GetStopView::Failed("read body failed: "@ + e@)),
            Some(Ok(body)) => if body@.len() > self.max_response_bytes {
                Some(
                    GetStopView::Failed(
                        "response from "@ + url + " exceeds "@ + decimal(
                            self.max_response_bytes as nat,
                        ) + " bytes"@,
                    ),
                )
            } else {
                match json_document(body@) {
                    Err(e) => Some(GetStopView::Failed("invalid JSON from "@ + url + ": "@ + e)),
                    Ok(_) => None,
                }
            },
        }
    }

    /// Where the fetch of a document stops, if it does.
    pub open spec fn get_stop(self, url: Seq<char>, ev: GetEvidence) -> Option<GetStopView> {
        match url_parts(url) {
            Err(e) => Some(GetStopView::Failed("bad URL: "@ + e)),
            Ok(parts) => match self.admission_error(parts) {
                Some(e) => Some(GetStopView::Failed(e)),
                None => self.exchange_stop(url, parts.host->Some_0, parts.port->Some_0, ev),
            },
        }
    }

    /// Fetches a JSON document from an admitted host.
    pub fn exchange(&self, url: &str, host: &str, port: u16, evidence: &GetEvidence) -> (r: GetStep)
        ensures
            match r {
                GetStep::Needs(action) => self.exchange_stop(url@, host@, port, *evidence) == Some(
                    GetStopView::Needs(action@),
                ),
                GetStep::Failed(e) => self.exchange_stop(url@, host@, port, *evidence) == Some(
                    GetStopView::Failed(e@),
                ),
                GetStep::Done(document, ttl) => self.exchange_stop(url@, host@, port, *evidence)
                    is None && json_strings(document) == evidence.document() && ttl
                    == evidence.ttl(),
            },
    {
        let addresses = match &evidence.addresses {
            None => {
                return GetStep::Needs(GetAction::Resolve { host: host.to_owned(), port });
            },
            Some(Err(e)) => {
                return GetStep::Failed(
                    "dns resolution of ".to_owned().concat(host).concat(" failed: ").concat(
                        e.as_str(),
                    ),
                );
            },
            Some(Ok(addresses)) => addresses,
        };
        let pinned = match self.vet_addresses(host, addresses) {
            Ok(pinned) => pinned,
            Err(e) => {
                return GetStep::Failed(e);
            },
        };
        let head = match &evidence.head {
            None => {
                return GetStep::Needs(
                    GetAction::Send {
                        host: host.to_owned(),
                        pinned,
                        timeout_secs: self.timeout_secs,
                        https_only: !self.allow_insecure,
                    },
                );
            },
            Some(Err(SendError::Build(e))) => {
                return GetStep::Failed("client build failed: ".to_owned().concat(e.as_str()));
            },
            Some(Err(SendError::Request(e))) => {
                return GetStep::Failed("request failed: ".to_owned().concat(e.as_str()));
            },
            Some(Ok(head)) => head,
        };
        if let Some(e) = check_status(url, head.status) {
            return GetStep::Failed(e);
        }
        let ttl = match &head.cache_control {
            Some(value) => cache_control_ttl(value.as_str()),
            None => None,
        };
        let body = match &evidence.body {
            None => {
                let limit: u64 = (self.max_response_bytes as u64).saturating_add(1);
                return GetStep::Needs(GetAction::Read { limit });
            },
            Some(Err(e)) => {
                return GetStep::Failed("read body failed: ".to_owned().concat(e.as_str()));
            },
            Some(Ok(body)) => body,
        };
        if body.len() > self.max_response_bytes {
            return GetStep::Failed(
                "response from ".to_owned().concat(url).concat(" exceeds ").concat(
                    text::to_decimal(self.max_response_bytes as u64).as_str(),
                ).concat(" bytes"),
            );
        }
        match json::parse_json(body.as_slice()) {
            Ok(document) => GetStep::Done(document, ttl),
            Err(e) => GetStep::Failed(
                "invalid JSON from ".to_owned().concat(url).concat(": ").concat(e.as_str()),
            ),
        }
    }

    /// Fetches a JSON document. Every check applies to every URL.
    pub fn get_json(&self, url: &str, evidence: &GetEvidence) -> (r: GetStep)
        ensures
            match r {
                GetStep::Needs(action) => self.get_stop(url@, *evidence) == Some(
                    GetStopView::Needs(action@),
                ),
                GetStep::Failed(e) => self.get_stop(url@, *evidence) == Some(
                    GetStopView::Failed(e@),
                ),
                GetStep::Done(document, ttl) => self.get_stop(url@, *evidence) is None
                    && json_strings(document) == evidence.document() && ttl == evidence.ttl(),
            },
    {
        let parts = match url::parse_url(url) {
            Ok(parts) => parts,
            Err(e) => {
                return GetStep::Failed("bad URL: ".to_owned().concat(e.as_str()));
            },
        };
        match self.admit_url(parts) {
            Ok((host, port)) => self.exchange(url, host.as_str(), port, evidence),
            Err(e) => GetStep::Failed(e),
        }
    }
}

// --- an issuer's key set -------------------------------------------------------------

/// The hosts of the issuer and of its key set, where they have one.
#[derive(Debug)]
pub struct Hosts {
    pub issuer: Option<String>,
    pub jwks: Option<String>,
}

/// The results gathered so far for a key set.
#[derive(Debug)]
pub struct FetchEvidence {
    pub metadata: GetEvidence,
    pub hosts: Option<Hosts>,
    pub jwks: GetEvidence,
    /// The keys in the body of the key set, or why it is none.
    pub keys: Option<Result<Jwks, String>>,
}

/// Outside work that the fetch of a key set waits for.
#[derive(Debug)]
pub enum FetchAction {
    /// Fetch the metadata document: `FetchEvidence::metadata`.
    Metadata { url: String, action: GetAction },
    /// Determine the two hosts: `FetchEvidence::hosts`.
    Hosts { iss: String, jwks_uri: String },
    /// Fetch the key set: `FetchEvidence::jwks`.
    Jwks { url: String, action: GetAction },
    /// Read the keys in the body of the key set: `FetchEvidence::keys`.
    Keys { body: Vec<u8> },
}

/// The content of a [`FetchAction`].
pub ghost enum FetchActionView {
    Metadata { url: Seq<char>, action: GetActionView },
    Hosts { iss: Seq<char>, jwks_uri: Seq<char> },
    Jwks { url: Seq<char>, action: GetActionView },
    Keys { body: Seq<u8> },
}

impl View for FetchAction {
    type V = FetchActionView;

    open spec fn view(&self) -> FetchActionView {
        match *self {
            FetchAction::Metadata { url, action } => FetchActionView::Metadata {
                url: url@,
                action: action@,
            },
            FetchAction::Hosts { iss, jwks_uri } => FetchActionView::Hosts {
                iss: iss@,
                jwks_uri: jwks_uri@,
            },
            FetchAction::Jwks { url, action } => FetchActionView::Jwks {
                url: url@,
                action: action@,
            },
            FetchAction::Keys { body } => FetchActionView::Keys { body: body@ },
        }
    }
}

/// How far the fetch of a key set has come.
#[derive(Debug)]
pub enum FetchStep {
    /// The next action, with the evidence handed back for it.
    Needs(FetchAction, Box<FetchEvidence>),
    Failed(SigError),
    /// The keys, and the freshness lifetime that their response advertised, in
    /// seconds.
    Fetched(Jwks, Option<u64>),
}

/// Where the fetch of a key set stops.
pub ghost enum FetchStopView {
    Needs(FetchActionView),
    Failed(SigErrorView),
}

impl FetchEvidence {
    /// Nothing gathered yet.
    pub open spec fn empty() -> FetchEvidence {
        FetchEvidence {
            metadata: GetEvidence::empty(),
            hosts: None,
            jwks: GetEvidence::empty(),
            keys: None,
        }
    }

    /// Nothing gathered yet.
    pub fn new() -> (r: Self)
        ensures
            r == FetchEvidence::empty(),
    {
        FetchEvidence {
            metadata: GetEvidence::new(),
            hosts: None,
            jwks: GetEvidence::new(),
            keys: None,
        }
    }
}

/// The address of an issuer's metadata document.
pub open spec fn metadata_url(iss: Seq<char>, dwk: Seq<char>) -> Seq<char> {
    iss + "/.well-known/"@ + dwk
}

/// Why a metadata document is refused, when it is: it has to name the issuer it
/// was fetched for, and a key set.
pub open spec fn metadata_error(
    iss: Seq<char>,
    url: Seq<char>,
    issuer: Option<Seq<char>>,
    jwks_uri: Option<Seq<char>>,
) -> Option<SigErrorView> {
    if issuer is None {
        Some(
            sig_error(
                SigErrorCode::IssuerMissing,
                "metadata document at "@ + url + " has no `issuer` member"@,
            ),
        )
    } else if issuer != Some(iss) {
        Some(
            sig_error(
                SigErrorCode::IssuerMismatch,
                "metadata `issuer` at "@ + url
                    + " does not match the identity it was fetched under"@,
            ),
        )
    } else if jwks_uri is None {
        Some(sig_error(SigErrorCode::UnknownKey, "no jwks_uri in "@ + url))
    } else {
        None
    }
}

/// Checks what a metadata document names: the address of the key set.
pub fn check_metadata(iss: &str, url: &str, issuer: Option<String>, jwks_uri: Option<String>) -> (r:
    Result<String, SigError>)
    ensures
        match r {
            Ok(uri) => metadata_error(iss@, url@, url::text_of(issuer), url::text_of(jwks_uri))
                is None && url::text_of(jwks_uri) == Some(uri@),
            Err(e) => metadata_error(iss@, url@, url::text_of(issuer), url::text_of(jwks_uri))
                == Some(e@),
        },
{
    match issuer {
        None => {
            return Err(
                SigError::new(
                    SigErrorCode::IssuerMissing,
                    "metadata document at ".to_owned().concat(url).concat(
                        " has no `issuer` member",
                    ),
                ),
            );
        },
        Some(issuer) => {
            if !(*issuer.as_str() == *iss) {
                return Err(
                    SigError::new(
                        SigErrorCode::IssuerMismatch,
                        "metadata `issuer` at ".to_owned().concat(url).concat(
                            " does not match the identity it was fetched under",
                        ),
                    ),
                );
            }
        },
    }
    match jwks_uri {
        Some(uri) => Ok(uri),
        None => Err(
            SigError::new(SigErrorCode::UnknownKey, "no jwks_uri in ".to_owned().concat(url)),
        ),
    }
}

impl EgressPolicy {
    /// Whether a key set may be fetched: from the issuer's own host, or from one
    /// that the operator listed.
    pub open spec fn admits_hosts(self, hosts: Hosts) -> bool {
        match hosts.jwks {
            Some(jwks) => url::text_of(hosts.issuer) == Some(jwks@) || listed(
                self.cross_origin_hosts@,
                jwks@,
            ),
            None => false,
        }
    }

    /// Whether a key set may be fetched.
    pub fn admit_hosts(&self, hosts: &Hosts) -> (r: bool)
        ensures
            r == self.admits_hosts(*hosts),
    {
        match &hosts.jwks {
            Some(jwks) => {
                if let Some(issuer) = &hosts.issuer {
                    if *issuer.as_str() == *jwks.as_str() {
                        return true;
                    }
                }
                in_list(&self.cross_origin_hosts, jwks.as_str())
            },
            None => false,
        }
    }

    /// Where the fetch of the key set that a metadata document names stops, if
    /// it does.
    pub open spec fn jwks_stop(self, iss: Seq<char>, uri: Seq<char>, ev: FetchEvidence) -> Option<
        FetchStopView,
    > {
        match ev.hosts {
            None => Some(
                FetchStopView::Needs(FetchActionView::Hosts { iss, jwks_uri: uri }),
            ),
            Some(hosts) => if !self.admits_hosts(hosts) {
                Some(
                    FetchStopView::Failed(
                        sig_error(
                            SigErrorCode::InvalidKey,
                            "jwks_uri host for "@ + iss
                                + " is cross-origin and not admitted (add it to jwks.cross_origin_hosts to allow)"@,
                        ),
                    ),
                )
            } else {
                match self.get_stop(uri, ev.jwks) {
                    Some(GetStopView::Needs(action)) => Some(
                        FetchStopView::Needs(FetchActionView::Jwks { url: uri, action }),
                    ),
                    Some(GetStopView::Failed(e)) => Some(
                        FetchStopView::Failed(
                            sig_error(SigErrorCode::UnknownKey, "jwks fetch: "@ + e),
                        ),
                    ),
                    None => match ev.keys {
                        None => Some(
                            FetchStopView::Needs(
                                FetchActionView::Keys { body: ev.jwks.body->Some_0->Ok_0@ },
                            ),
                        ),
                        Some(Err(e)) => Some(
                            FetchStopView::Failed(
                                sig_error(SigErrorCode::InvalidKey, "invalid JWKS: "@ + e@),
                            ),
                        ),
                        Some(Ok(_)) => None,
                    },
                }
            },
        }
    }

    /// Where the fetch of an issuer's key set stops, if it does.
    pub open spec fn fetch_stop(self, iss: Seq<char>, dwk: Seq<char>, ev: FetchEvidence) -> Option<
        FetchStopView,
    > {
        let url = metadata_url(iss, dwk);
        match self.get_stop(url, ev.metadata) {
            Some(GetStopView::Needs(action)) => Some(
                FetchStopView::Needs(FetchActionView::Metadata { url, action }),
            ),
            Some(GetStopView::Failed(e)) => Some(
                FetchStopView::Failed(
                    sig_error(SigErrorCode::UnknownKey, "metadata fetch: "@ + e),
                ),
            ),
            None => {
                let document = ev.metadata.document();
                let jwks_uri = named(document, "jwks_uri"@);
                match metadata_error(iss, url, named(document, "issuer"@), jwks_uri) {
                    Some(e) => Some(FetchStopView::Failed(e)),
                    None => self.jwks_stop(iss, jwks_uri->Some_0, ev),
                }
            },
        }
    }

    /// Fetches the key set that a metadata document names.
    fn fetch_jwks(&self, iss: &str, uri: String, evidence: FetchEvidence) -> (r: FetchStep)
        ensures
            match r {
                FetchStep::Needs(action, kept) => self.jwks_stop(iss@, uri@, evidence) == Some(
                    FetchStopView::Needs(action@),
                ) && *kept == evidence,
                FetchStep::Failed(e) => self.jwks_stop(iss@, uri@, evidence) == Some(
                    FetchStopView::Failed(e@),
                ),
                FetchStep::Fetched(keys, ttl) => self.jwks_stop(iss@, uri@, evidence) is None
                    && evidence.keys == Some(Ok::<Jwks, String>(keys)) && ttl
                    == evidence.jwks.ttl(),
            },
    {
        match &evidence.hosts {
            None => {
                return FetchStep::Needs(
                    FetchAction::Hosts { iss: iss.to_owned(), jwks_uri: uri },
                    Box::new(evidence),
                );
            },
            Some(hosts) => {
                if !self.admit_hosts(hosts) {
                    return FetchStep::Failed(
                        SigError::new(
                            SigErrorCode::InvalidKey,
                            "jwks_uri host for ".to_owned().concat(iss).concat(
                                " is cross-origin and not admitted (add it to jwks.cross_origin_hosts to allow)",
                            ),
                        ),
                    );
                }
            },
        }
        let ttl = match self.get_json(uri.as_str(), &evidence.jwks) {
            GetStep::Needs(action) => {
                return FetchStep::Needs(
                    FetchAction::Jwks { url: uri, action },
                    Box::new(evidence),
                );
            },
            GetStep::Failed(e) => {
                return FetchStep::Failed(
                    SigError::new(
                        SigErrorCode::UnknownKey,
                        "jwks fetch: ".to_owned().concat(e.as_str()),
                    ),
                );
            },
            GetStep::Done(_, ttl) => ttl,
        };
        if evidence.keys.is_none() {
            let body = evidence.jwks.body.as_ref().unwrap().as_ref().unwrap().clone();
            return FetchStep::Needs(FetchAction::Keys { body }, Box::new(evidence));
        }
        match evidence.keys.unwrap() {
            Ok(keys) => FetchStep::Fetched(keys, ttl),
            Err(e) => FetchStep::Failed(
                SigError::new(
                    SigErrorCode::InvalidKey,
                    "invalid JWKS: ".to_owned().concat(e.as_str()),
                ),
            ),
        }
    }

    /// Fetches an issuer's key set: the metadata document first, which has to
    /// name the issuer itself, then the key set that it names, on an admitted
    /// host.
    pub fn fetch(&self, iss: &str, dwk: &str, evidence: FetchEvidence) -> (r: FetchStep)
        ensures
            match r {
                FetchStep::Needs(action, kept) => self.fetch_stop(iss@, dwk@, evidence) == Some(
                    FetchStopView::Needs(action@),
                ) && *kept == evidence,
                FetchStep::Failed(e) => self.fetch_stop(iss@, dwk@, evidence) == Some(
                    FetchStopView::Failed(e@),
                ),
                FetchStep::Fetched(keys, ttl) => self.fetch_stop(iss@, dwk@, evidence) is None
                    && evidence.keys == Some(Ok::<Jwks, String>(keys)) && ttl
                    == evidence.jwks.ttl(),
            },
    {
        let url = iss.to_owned().concat("/.well-known/").concat(dwk);
        let document = match self.get_json(url.as_str(), &evidence.metadata) {
            GetStep::Needs(action) => {
                return FetchStep::Needs(
                    FetchAction::Metadata { url, action },
                    Box::new(evidence),
                );
            },
            GetStep::Failed(e) => {
                return FetchStep::Failed(
                    SigError::new(
                        SigErrorCode::UnknownKey,
                        "metadata fetch: ".to_owned().concat(e.as_str()),
                    ),
                );
            },
            GetStep::Done(document, _) => document,
        };
        let issuer = json::string_member(&document, "issuer");
        let jwks_uri = json::string_member(&document, "jwks_uri");
        match check_metadata(iss, url.as_str(), issuer, jwks_uri) {
            Ok(uri) => self.fetch_jwks(iss, uri, evidence),
            Err(e) => FetchStep::Failed(e),
        }
    }
}

// --- what the policy promises ----------------------------------------------------------

/// Unless insecure fetches are permitted, a request is only ever sent over
/// HTTPS, without credentials in its URL, to the host of the URL, pinned to one
/// of that host's addresses, all of which are public.
pub proof fn requests_go_to_public_hosts(
    policy: EgressPolicy,
    url: Seq<char>,
    ev: GetEvidence,
    host: Seq<char>,
    pinned: IpAddr,
    timeout_secs: u64,
    https_only: bool,
)
    requires
        !policy.allow_insecure,
        policy.get_stop(url, ev) == Some(
            GetStopView::Needs(GetActionView::Send { host, pinned, timeout_secs, https_only }),
        ),
    ensures
        https_only,
        timeout_secs == policy.timeout_secs,
        url_parts(url) matches Ok(parts) && parts.scheme == "https"@ && parts.username.len() == 0
            && parts.password is None && parts.host == Some(host),
        ev.addresses matches Some(Ok(addresses)) && addresses@.contains(pinned) && forall|i: int|
            0 <= i < addresses@.len() ==> is_public(#[trigger] addresses@[i]),
{
    let addresses = ev.addresses->Some_0->Ok_0@;
    assert(addresses[0] == pinned);
    assert forall|i: int| 0 <= i < addresses.len() implies is_public(#[trigger] addresses[i]) by {
        assert(!any_non_public(addresses));
    }
}

/// Whether or not insecure fetches are permitted, nothing is asked of the
/// network for a URL that is neither HTTP nor HTTPS or that holds credentials.
pub proof fn only_admitted_urls_are_fetched(policy: EgressPolicy, url: Seq<char>, ev: GetEvidence)
    requires
        !(policy.get_stop(url, ev) matches Some(GetStopView::Failed(_))),
    ensures
        url_parts(url) matches Ok(parts) && (parts.scheme == "https"@ || (parts.scheme == "http"@
            && policy.allow_insecure)) && parts.username.len() == 0 && parts.password is None,
{
}

/// A document is taken only from a successful response, never through a
/// redirect, and only when its body is within the cap.
pub proof fn documents_are_bounded(policy: EgressPolicy, url: Seq<char>, ev: GetEvidence)
    requires
        policy.get_stop(url, ev) is None,
    ensures
        ev.head matches Some(Ok(head)) && 200 <= head.status < 300,
        ev.body matches Some(Ok(body)) && body@.len() <= policy.max_response_bytes,
{
}

/// Keys are taken only for an issuer whose own metadata document names it, and
/// only from its host or from one that the operator listed.
pub proof fn keys_come_from_the_issuer(
    policy: EgressPolicy,
    iss: Seq<char>,
    dwk: Seq<char>,
    ev: FetchEvidence,
)
    requires
        policy.fetch_stop(iss, dwk, ev) is None,
    ensures
        policy.get_stop(metadata_url(iss, dwk), ev.metadata) is None,
        named(ev.metadata.document(), "issuer"@) == Some(iss),
        named(ev.metadata.document(), "jwks_uri"@) matches Some(uri) && policy.get_stop(
            uri,
            ev.jwks,
        ) is None,
        ev.hosts matches Some(hosts) && policy.admits_hosts(hosts),
        ev.keys matches Some(Ok(_)),
{
}

/// A key set is asked for only at the address that the issuer's own metadata
/// document names, and only on an admitted host.
pub proof fn key_sets_are_fetched_from_admitted_hosts(
    policy: EgressPolicy,
    iss: Seq<char>,
    dwk: Seq<char>,
    ev: FetchEvidence,
    url: Seq<char>,
    action: GetActionView,
)
    requires
        policy.fetch_stop(iss, dwk, ev) == Some(
            FetchStopView::Needs(FetchActionView::Jwks { url, action }),
        ),
    ensures
        named(ev.metadata.document(), "issuer"@) == Some(iss),
        named(ev.metadata.document(), "jwks_uri"@) == Some(url),
        ev.hosts matches Some(hosts) && policy.admits_hosts(hosts),
{
}

/// Whether the slot that an action fills is still empty.
pub open spec fn get_slot_empty(ev: GetEvidence, action: GetActionView) -> bool {
    match action {
        GetActionView::Resolve { .. } => ev.addresses is None,
        GetActionView::Send { .. } => ev.head is None,
        GetActionView::Read { .. } => ev.body is None,
    }
}

/// A fetch never asks for work that was done, and has keys read from the body that
/// was fetched.
pub proof fn fetch_asks_only_for_missing_evidence(
    policy: EgressPolicy,
    iss: Seq<char>,
    dwk: Seq<char>,
    ev: FetchEvidence,
    action: FetchActionView,
)
    requires
        policy.fetch_stop(iss, dwk, ev) == Some(FetchStopView::Needs(action)),
    ensures
        match action {
            FetchActionView::Metadata { action, .. } => get_slot_empty(ev.metadata, action),
            FetchActionView::Hosts { .. } => ev.hosts is None,
            FetchActionView::Jwks { action, .. } => get_slot_empty(ev.jwks, action),
            FetchActionView::Keys { body } => ev.keys is None && (ev.jwks.body matches Some(Ok(b)) && b@
                == body),
        },
{
}

/// Whether every slot of `part` is empty or holds what `whole` holds.
pub open spec fn get_within(part: GetEvidence, whole: GetEvidence) -> bool {
    &&& part.addresses is None || part.addresses == whole.addresses
    &&& part.head is None || part.head == whole.head
    &&& part.body is None || part.body == whole.body
}

/// Whether every slot of `part` is empty or holds what `whole` holds.
pub open spec fn fetch_within(part: FetchEvidence, whole: FetchEvidence) -> bool {
    &&& get_within(part.metadata, whole.metadata)
    &&& part.hosts is None || part.hosts == whole.hosts
    &&& get_within(part.jwks, whole.jwks)
    &&& part.keys is None || part.keys == whole.keys
}

/// What a fetch concludes on part of the evidence, it concludes on all of it.
pub proof fn fetch_conclusion_stands(
    policy: EgressPolicy,
    iss: Seq<char>,
    dwk: Seq<char>,
    part: FetchEvidence,
    whole: FetchEvidence,
)
    requires
        fetch_within(part, whole),
        !(policy.fetch_stop(iss, dwk, part) matches Some(FetchStopView::Needs(_))),
    ensures
        policy.fetch_stop(iss, dwk, whole) == policy.fetch_stop(iss, dwk, part),
{
}

} // verus!
