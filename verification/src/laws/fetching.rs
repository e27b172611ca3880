//! What is fetched, from where, and what a fetch makes of the answers.

use vstd::prelude::*;
use vstd::string::*;

use crate::egress::{
    any_non_public, first_max_age, forbids_caching, freshness, max_age, EgressPolicy,
    FetchActionView, FetchEvidence, FetchStopView, GetActionView, GetEvidence, GetStopView, Hosts,
    SendError,
};
use crate::error::SigErrorCode;
use crate::ip::{is_public, IpAddr};
use crate::json::json_document;
use crate::laws::texts::prefix_is_what_stands_before;
use crate::text::{decimal, lowered, number, split_on, trimmed, unquoted};
use crate::url::{url_parts, UrlPartsView};

verus! {

// --- one document --------------------------------------------------------------------

/// Whether a URL may be fetched at all, and its host and port: HTTPS, or HTTP where
/// insecure fetches are permitted, with a host and a port and without credentials.
pub open spec fn admissible(policy: EgressPolicy, url: Seq<char>, host: Seq<char>, port: u16) -> bool {
    url_parts(url) matches Ok(p) && (p.scheme == "https"@ || (p.scheme == "http"@
        && policy.allow_insecure)) && p.username.len() == 0 && p.password is None && p.host == Some(
        host,
    ) && p.port == Some(port)
}

/// Whether a host may be connected to: it has addresses, and all of them are public
/// unless insecure fetches are permitted.
pub open spec fn vetted(policy: EgressPolicy, addresses: Seq<IpAddr>) -> bool {
    addresses.len() > 0 && (policy.allow_insecure || forall|i: int|
        0 <= i < addresses.len() ==> is_public(#[trigger] addresses[i]))
}

proof fn lemma_vetted(policy: EgressPolicy, host: Seq<char>, addresses: Seq<IpAddr>)
    ensures
        policy.vetting_error(host, addresses) is None <==> vetted(policy, addresses),
{
    if vetted(policy, addresses) {
        assert(policy.allow_insecure || !any_non_public(addresses));
    }
}

/// An admissible URL has its own host resolved first, with its own port.
pub proof fn admissible_url_is_resolved(
    policy: EgressPolicy,
    url: Seq<char>,
    ev: GetEvidence,
    host: Seq<char>,
    port: u16,
)
    requires
        admissible(policy, url, host, port),
        ev.addresses is None,
    ensures
        policy.get_stop(url, ev) == Some(
            GetStopView::Needs(GetActionView::Resolve { host, port }),
        ),
{
    reveal_strlit("http");
    reveal_strlit("https");
    assert("http"@.len() != "https"@.len());
}

/// Any other URL fails at once, whatever was gathered.
pub proof fn inadmissible_url_fails(policy: EgressPolicy, url: Seq<char>, ev: GetEvidence)
    requires
        forall|host: Seq<char>, port: u16| !(#[trigger] admissible(policy, url, host, port)),
    ensures
        policy.get_stop(url, ev) matches Some(GetStopView::Failed(_)),
{
    if let Ok(p) = url_parts(url) {
        if p.host is Some && p.port is Some {
            assert(!admissible(policy, url, p.host->Some_0, p.port->Some_0));
        }
    }
}

/// A vetted host is asked, at the first of its addresses, within the time limit
/// and over HTTPS alone unless insecure fetches are permitted.
pub proof fn vetted_host_is_asked(
    policy: EgressPolicy,
    url: Seq<char>,
    ev: GetEvidence,
    host: Seq<char>,
    port: u16,
    addresses: Vec<IpAddr>,
)
    requires
        admissible(policy, url, host, port),
        ev.addresses == Some(Ok::<Vec<IpAddr>, String>(addresses)),
        vetted(policy, addresses@),
        ev.head is None,
    ensures
        policy.get_stop(url, ev) == Some(
            GetStopView::Needs(
                GetActionView::Send {
                    host,
                    pinned: addresses@[0],
                    timeout_secs: policy.timeout_secs,
                    https_only: !policy.allow_insecure,
                },
            ),
        ),
{
    admissible_url_is_resolved(
        policy,
        url,
        (GetEvidence { addresses: None, head: ev.head, body: ev.body }),
        host,
        port,
    );
    lemma_vetted(policy, host, addresses@);
}

/// A host that does not resolve, or that is not vetted, fails the fetch.
pub proof fn unvetted_host_fails(
    policy: EgressPolicy,
    url: Seq<char>,
    ev: GetEvidence,
)
    requires
        ev.addresses matches Some(a) && (a matches Ok(addresses) ==> !vetted(policy, addresses@)),
    ensures
        policy.get_stop(url, ev) matches Some(GetStopView::Failed(_)),
{
    if let Ok(p) = url_parts(url) {
        if let Some(Ok(addresses)) = ev.addresses {
            lemma_vetted(policy, p.host->Some_0, addresses@);
        }
    }
}

/// The failure of a host names it, and tells a name that cannot be resolved from a
/// host without addresses and from one with an address that is not public.
pub proof fn host_failures_are_named(
    policy: EgressPolicy,
    url: Seq<char>,
    ev: GetEvidence,
    host: Seq<char>,
    port: u16,
)
    requires
        admissible(policy, url, host, port),
    ensures
        ev.addresses matches Some(Err(e)) ==> policy.get_stop(url, ev) == Some(
            GetStopView::Failed("dns resolution of "@ + host + " failed: "@ + e@),
        ),
        ev.addresses matches Some(Ok(addresses)) ==> {
            &&& addresses@.len() == 0 ==> policy.get_stop(url, ev) == Some(
                GetStopView::Failed(host + " did not resolve"@),
            )
            &&& addresses@.len() > 0 && !vetted(policy, addresses@) ==> policy.get_stop(url, ev)
                == Some(
                GetStopView::Failed("host "@ + host + " resolves to a non-public address"@),
            )
        },
{
    admissible_url_is_resolved(
        policy,
        url,
        (GetEvidence { addresses: None, head: ev.head, body: ev.body }),
        host,
        port,
    );
    if let Some(Ok(addresses)) = ev.addresses {
        lemma_vetted(policy, host, addresses@);
    }
}

/// Behind a vetted host's answer, the fetch of a document goes on as follows. A
/// status of success leads to the body, of which one byte more than the cap is
/// read. A body within the cap that is JSON is the document. Everything else, a
/// redirect among it, fails.
pub proof fn answer_of_a_vetted_host(
    policy: EgressPolicy,
    url: Seq<char>,
    ev: GetEvidence,
    host: Seq<char>,
    port: u16,
    addresses: Vec<IpAddr>,
)
    requires
        admissible(policy, url, host, port),
        ev.addresses == Some(Ok::<Vec<IpAddr>, String>(addresses)),
        vetted(policy, addresses@),
        ev.head is Some,
    ensures
        ev.head matches Some(Err(SendError::Build(e))) ==> policy.get_stop(url, ev) == Some(
            GetStopView::Failed("client build failed: "@ + e@),
        ),
        ev.head matches Some(Err(SendError::Request(e))) ==> policy.get_stop(url, ev) == Some(
            GetStopView::Failed("request failed: "@ + e@),
        ),
        ev.head matches Some(Ok(head)) ==> {
            let stop = policy.get_stop(url, ev);
            if 200 <= head.status <= 299 {
                match ev.body {
                    None => stop matches Some(GetStopView::Needs(GetActionView::Read { limit }))
                        && (policy.max_response_bytes < u64::MAX ==> limit
                        == policy.max_response_bytes + 1),
                    Some(Err(e)) => stop == Some(
                        GetStopView::Failed("read body failed: "@ + e@),
                    ),
                    Some(Ok(body)) => if body@.len() > policy.max_response_bytes {
                        stop == Some(
                            GetStopView::Failed(
                                "response from "@ + url + " exceeds "@ + decimal(
                                    policy.max_response_bytes as nat,
                                ) + " bytes"@,
                            ),
                        )
                    } else {
                        match json_document(body@) {
                            Ok(_) => stop is None,
                            Err(e) => stop == Some(
                                GetStopView::Failed("invalid JSON from "@ + url + ": "@ + e),
                            ),
                        }
                    },
                }
            } else if 300 <= head.status <= 399 {
                stop == Some(GetStopView::Failed("redirect from "@ + url + " refused"@))
            } else {
                stop == Some(
                    GetStopView::Failed("HTTP "@ + decimal(head.status as nat) + " from "@ + url),
                )
            }
        },
{
    admissible_url_is_resolved(
        policy,
        url,
        (GetEvidence { addresses: None, head: ev.head, body: ev.body }),
        host,
        port,
    );
    lemma_vetted(policy, host, addresses@);
}

/// A document is concluded only from an admissible URL, a vetted host, a status of
/// success and a JSON body within the cap.
pub proof fn documents_have_passed_every_fence(policy: EgressPolicy, url: Seq<char>, ev: GetEvidence)
    requires
        policy.get_stop(url, ev) is None,
    ensures
        exists|host: Seq<char>, port: u16| #[trigger] admissible(policy, url, host, port),
        ev.addresses matches Some(Ok(addresses)) && vetted(policy, addresses@),
        ev.head matches Some(Ok(head)) && 200 <= head.status <= 299,
        ev.body matches Some(Ok(body)) && body@.len() <= policy.max_response_bytes && json_document(
            body@,
        ) is Ok,
{
    let p = url_parts(url)->Ok_0;
    assert(admissible(policy, url, p.host->Some_0, p.port->Some_0));
    lemma_vetted(policy, p.host->Some_0, ev.addresses->Some_0->Ok_0@);
}

/// The texts of the failures that a maintainer reads in the log.
pub proof fn fetch_failures_are_named(policy: EgressPolicy, url: Seq<char>, ev: GetEvidence, p: UrlPartsView)
    requires
        url_parts(url) == Ok::<UrlPartsView, Seq<char>>(p),
    ensures
        p.scheme == "http"@ && !policy.allow_insecure ==> policy.get_stop(url, ev) == Some(
            GetStopView::Failed("plain http egress not allowed"@),
        ),
        p.scheme != "http"@ && p.scheme != "https"@ ==> policy.get_stop(url, ev) == Some(
            GetStopView::Failed("unsupported URL scheme '"@ + p.scheme + "'"@),
        ),
        p.scheme == "https"@ && (p.username.len() > 0 || p.password is Some) ==> policy.get_stop(
            url,
            ev,
        ) == Some(GetStopView::Failed("userinfo in URL rejected"@)),
{
    reveal_strlit("http");
    reveal_strlit("https");
    assert("http"@.len() != "https"@.len());
}

// --- an issuer's key set -------------------------------------------------------------

/// The metadata document is asked for at the issuer's address, followed by
/// `/.well-known/` and the name of the document, character for character.
pub proof fn metadata_is_at_the_well_known_address(
    policy: EgressPolicy,
    iss: Seq<char>,
    dwk: Seq<char>,
    ev: FetchEvidence,
    url: Seq<char>,
    action: GetActionView,
)
    requires
        policy.fetch_stop(iss, dwk, ev) == Some(
            FetchStopView::Needs(FetchActionView::Metadata { url, action }),
        ),
    ensures
        url.len() == iss.len() + 13 + dwk.len(),
        forall|i: int| 0 <= i < iss.len() ==> url[i] == #[trigger] iss[i],
        url.subrange(iss.len() as int, (iss.len() + 13) as int) == "/.well-known/"@,
        url.skip((iss.len() + 13) as int) == dwk,
        policy.get_stop(url, ev.metadata) == Some(GetStopView::Needs(action)),
{
    reveal_strlit("/.well-known/");
    assert(url.subrange(iss.len() as int, (iss.len() + 13) as int) =~= "/.well-known/"@);
    assert(url.skip((iss.len() + 13) as int) =~= dwk);
}

/// The documents of one issuer are asked for at different addresses when their
/// names differ.
pub proof fn documents_of_an_issuer_have_their_own_addresses(
    policy: EgressPolicy,
    iss: Seq<char>,
    dwk1: Seq<char>,
    dwk2: Seq<char>,
    ev1: FetchEvidence,
    ev2: FetchEvidence,
    url1: Seq<char>,
    url2: Seq<char>,
    action1: GetActionView,
    action2: GetActionView,
)
    requires
        dwk1 != dwk2,
        policy.fetch_stop(iss, dwk1, ev1) == Some(
            FetchStopView::Needs(FetchActionView::Metadata { url: url1, action: action1 }),
        ),
        policy.fetch_stop(iss, dwk2, ev2) == Some(
            FetchStopView::Needs(FetchActionView::Metadata { url: url2, action: action2 }),
        ),
    ensures
        url1 != url2,
{
    metadata_is_at_the_well_known_address(policy, iss, dwk1, ev1, url1, action1);
    metadata_is_at_the_well_known_address(policy, iss, dwk2, ev2, url2, action2);
}

/// The documents of two issuers are asked for at different addresses.
pub proof fn issuers_have_their_own_addresses(
    policy: EgressPolicy,
    iss1: Seq<char>,
    iss2: Seq<char>,
    dwk: Seq<char>,
    ev1: FetchEvidence,
    ev2: FetchEvidence,
    url1: Seq<char>,
    url2: Seq<char>,
    action1: GetActionView,
    action2: GetActionView,
)
    requires
        iss1 != iss2,
        policy.fetch_stop(iss1, dwk, ev1) == Some(
            FetchStopView::Needs(FetchActionView::Metadata { url: url1, action: action1 }),
        ),
        policy.fetch_stop(iss2, dwk, ev2) == Some(
            FetchStopView::Needs(FetchActionView::Metadata { url: url2, action: action2 }),
        ),
    ensures
        url1 != url2,
{
    metadata_is_at_the_well_known_address(policy, iss1, dwk, ev1, url1, action1);
    metadata_is_at_the_well_known_address(policy, iss2, dwk, ev2, url2, action2);
    if url1 == url2 {
        assert(iss1.len() == iss2.len());
        assert(iss1 =~= url1.take(iss1.len() as int));
        assert(iss2 =~= url2.take(iss2.len() as int));
    }
}

/// While the metadata document is not there, a fetch waits for it and for nothing
/// else, or fails with the code for an unknown key.
pub proof fn metadata_comes_first(
    policy: EgressPolicy,
    iss: Seq<char>,
    dwk: Seq<char>,
    ev: FetchEvidence,
)
    ensures
        ({
            let url = iss + "/.well-known/"@ + dwk;
            match policy.get_stop(url, ev.metadata) {
                Some(GetStopView::Needs(action)) => policy.fetch_stop(iss, dwk, ev) == Some(
                    FetchStopView::Needs(FetchActionView::Metadata { url, action }),
                ),
                Some(GetStopView::Failed(e)) => policy.fetch_stop(iss, dwk, ev) matches Some(
                    FetchStopView::Failed(f),
                ) && f.code == SigErrorCode::UnknownKey && f.detail == "metadata fetch: "@ + e,
                None => !(policy.fetch_stop(iss, dwk, ev) matches Some(
                    FetchStopView::Needs(FetchActionView::Metadata { .. }),
                )),
            }
        }),
{
}

/// The host of a key set is admitted exactly when it is the issuer's own host or
/// one that the operator listed, wherever it stands in the list.
pub proof fn admitted_hosts(policy: EgressPolicy, hosts: Hosts)
    ensures
        policy.admits_hosts(hosts) <==> (hosts.jwks matches Some(jwks) && ((
        hosts.issuer matches Some(issuer) && issuer@ == jwks@) || exists|i: int|
            0 <= i < policy.cross_origin_hosts@.len() && (#[trigger] policy.cross_origin_hosts@[i])@
                == jwks@)),
{
    if let Some(jwks) = hosts.jwks {
        if exists|i: int|
            0 <= i < policy.cross_origin_hosts@.len() && (#[trigger] policy.cross_origin_hosts@[i])@
                == jwks@ {
            let i = choose|i: int|
                0 <= i < policy.cross_origin_hosts@.len() && (
                #[trigger] policy.cross_origin_hosts@[i])@ == jwks@;
            assert(policy.cross_origin_hosts@[i]@ == jwks@);
        }
    }
}

/// With its metadata document at hand, a fetch goes on as follows. The document has
/// to name an issuer, that issuer has to be the one that was asked about, and the
/// document has to name a key set: each failing has its code. Then the hosts of
/// the issuer and of the key set it names are determined.
pub proof fn metadata_leads_to_the_hosts(
    policy: EgressPolicy,
    iss: Seq<char>,
    dwk: Seq<char>,
    ev: FetchEvidence,
    body: Vec<u8>,
    document: Map<Seq<char>, Seq<char>>,
)
    requires
        policy.get_stop(iss + "/.well-known/"@ + dwk, ev.metadata) is None,
        ev.metadata.body == Some(Ok::<Vec<u8>, String>(body)),
        json_document(body@) == Ok::<Map<Seq<char>, Seq<char>>, Seq<char>>(document),
    ensures
        ({
            let url = iss + "/.well-known/"@ + dwk;
            let stop = policy.fetch_stop(iss, dwk, ev);
            if !document.contains_key("issuer"@) {
                stop matches Some(FetchStopView::Failed(e)) && e.code == SigErrorCode::IssuerMissing
                    && e.detail == "metadata document at "@ + url + " has no `issuer` member"@
            } else if document["issuer"@] != iss {
                stop matches Some(FetchStopView::Failed(e)) && e.code
                    == SigErrorCode::IssuerMismatch && e.detail == "metadata `issuer` at "@ + url
                    + " does not match the identity it was fetched under"@
            } else if !document.contains_key("jwks_uri"@) {
                stop matches Some(FetchStopView::Failed(e)) && e.code == SigErrorCode::UnknownKey
                    && e.detail == "no jwks_uri in "@ + url
            } else {
                ev.hosts is None ==> stop == Some(
                    FetchStopView::Needs(
                        FetchActionView::Hosts { iss, jwks_uri: document["jwks_uri"@] },
                    ),
                )
            }
        }),
{
}

/// With the hosts determined, a fetch goes on as follows. A key set on a host that
/// is not admitted is refused. Otherwise the key set is fetched at the address that
/// the metadata document names; its body is read for keys; and the fetch concludes
/// once they were read.
pub proof fn hosts_lead_to_the_keys(
    policy: EgressPolicy,
    iss: Seq<char>,
    dwk: Seq<char>,
    ev: FetchEvidence,
    body: Vec<u8>,
    document: Map<Seq<char>, Seq<char>>,
    hosts: Hosts,
)
    requires
        policy.get_stop(iss + "/.well-known/"@ + dwk, ev.metadata) is None,
        ev.metadata.body == Some(Ok::<Vec<u8>, String>(body)),
        json_document(body@) == Ok::<Map<Seq<char>, Seq<char>>, Seq<char>>(document),
        document.contains_key("issuer"@) && document["issuer"@] == iss,
        document.contains_key("jwks_uri"@),
        ev.hosts == Some(hosts),
    ensures
        ({
            let stop = policy.fetch_stop(iss, dwk, ev);
            let uri = document["jwks_uri"@];
            if !policy.admits_hosts(hosts) {
                stop matches Some(FetchStopView::Failed(e)) && e.code == SigErrorCode::InvalidKey
            } else {
                match policy.get_stop(uri, ev.jwks) {
                    Some(GetStopView::Needs(action)) => stop == Some(
                        FetchStopView::Needs(FetchActionView::Jwks { url: uri, action }),
                    ),
                    Some(GetStopView::Failed(e)) => stop matches Some(FetchStopView::Failed(f))
                        && f.code == SigErrorCode::UnknownKey && f.detail == "jwks fetch: "@ + e,
                    None => match ev.keys {
                        None => stop matches Some(
                            FetchStopView::Needs(FetchActionView::Keys { body: b }),
                        ) && ev.jwks.body matches Some(Ok(fetched)) && b == fetched@,
                        Some(Err(why)) => stop matches Some(FetchStopView::Failed(e)) && e.code
                            == SigErrorCode::InvalidKey && e.detail == "invalid JWKS: "@ + why@,
                        Some(Ok(_)) => stop is None,
                    },
                }
            }
        }),
{
}

/// Keys are concluded only when the issuer's own metadata document was fetched at
/// its well-known address and names the issuer, the key set was fetched at the
/// address that it names, and that is on an admitted host.
pub proof fn keys_have_passed_every_fence(
    policy: EgressPolicy,
    iss: Seq<char>,
    dwk: Seq<char>,
    ev: FetchEvidence,
)
    requires
        policy.fetch_stop(iss, dwk, ev) is None,
    ensures
        policy.get_stop(iss + "/.well-known/"@ + dwk, ev.metadata) is None,
        ev.metadata.body matches Some(Ok(body)) && json_document(body@) matches Ok(document)
            && document.contains_key("issuer"@) && document["issuer"@] == iss
            && document.contains_key("jwks_uri"@) && policy.get_stop(document["jwks_uri"@], ev.jwks)
            is None,
        ev.hosts matches Some(hosts) && policy.admits_hosts(hosts),
        ev.keys matches Some(Ok(_)),
{
}

// --- freshness -----------------------------------------------------------------------

/// A directive that forbids caching, in whatever case and wherever it stands among
/// the others, leaves no freshness.
pub proof fn forbidden_caching_leaves_no_freshness(value: Seq<char>, i: int)
    requires
        0 <= i < split_on(value, ',').len(),
        lowered(trimmed(split_on(value, ',')[i])) == "no-store"@ || lowered(
            trimmed(split_on(value, ',')[i]),
        ) == "no-cache"@,
    ensures
        freshness(value) == Some(0u64),
{
    reveal_strlit("no-store");
    reveal_strlit("no-cache");
    assert(lowered("no-store"@) =~= "no-store"@);
    assert(lowered("no-cache"@) =~= "no-cache"@);
    assert(forbids_caching(split_on(value, ',')[i]));
}

/// Whether a directive is a `max-age` of `n` seconds in one of the three
/// spellings, quoted or not.
pub open spec fn grants(directive: Seq<char>, n: u64) -> bool {
    exists|v: Seq<char>|
        (trimmed(directive) == #[trigger] ("max-age="@ + v) || trimmed(directive) == "Max-Age="@ + v
            || trimmed(directive) == "MAX-AGE="@ + v) && number(unquoted(trimmed(v))) == Some(n)
}

proof fn lemma_grants(directive: Seq<char>, n: u64)
    ensures
        grants(directive, n) <==> max_age(directive) == Some(n),
{
    let d = trimmed(directive);
    reveal_strlit("max-age=");
    reveal_strlit("Max-Age=");
    reveal_strlit("MAX-AGE=");
    let a = "max-age="@;
    let b = "Max-Age="@;
    let c = "MAX-AGE="@;
    assert(a[0] != b[0] && a[0] != c[0] && b[1] != c[1]);
    assert forall|v: Seq<char>| true implies (d == #[trigger] (a + v) <==> crate::text::without_prefix(
        d,
        a,
    ) == Some(v)) && (d == b + v <==> crate::text::without_prefix(d, b) == Some(v)) && (d == c + v
        <==> crate::text::without_prefix(d, c) == Some(v)) by {
        prefix_is_what_stands_before(d, a, v);
        prefix_is_what_stands_before(d, b, v);
        prefix_is_what_stands_before(d, c, v);
    }
    if max_age(directive) == Some(n) {
        let v = crate::egress::max_age_value(directive)->Some_0;
        let first = a + v;
        assert(d == first || d == b + v || d == c + v);
        assert(number(unquoted(trimmed(v))) == Some(n));
        assert(grants(directive, n));
    }
    if grants(directive, n) {
        let v = choose|v: Seq<char>|
            (trimmed(directive) == #[trigger] ("max-age="@ + v) || trimmed(directive) == "Max-Age="@
                + v || trimmed(directive) == "MAX-AGE="@ + v) && number(unquoted(trimmed(v)))
                == Some(n);
        let w = a + v;
        assert((a + v)[0] == a[0] && (b + v)[0] == b[0] && (c + v)[0] == c[0]);
        assert((b + v)[1] == b[1] && (c + v)[1] == c[1]);
        if crate::text::without_prefix(d, a) is Some {
            let u = crate::text::without_prefix(d, a)->Some_0;
            let w = a + u;
            assert(d == a + u);
            assert((a + u)[0] == a[0]);
        }
        if crate::text::without_prefix(d, b) is Some {
            let u = crate::text::without_prefix(d, b)->Some_0;
            let w = a + u;
            assert(d == b + u);
            assert((b + u)[0] == b[0] && (b + u)[1] == b[1]);
        }
    }
}

proof fn lemma_first_max_age(ds: Seq<Seq<char>>, from: nat, i: int)
    requires
        from <= i < ds.len(),
        max_age(ds[i]) is Some,
        forall|j: int| from <= j < i ==> max_age(#[trigger] ds[j]) is None,
    ensures
        first_max_age(ds, from) == max_age(ds[i]),
    decreases i - from,
{
    if from < i {
        assert(max_age(ds[from as int]) is None);
        lemma_first_max_age(ds, from + 1, i);
    }
}

proof fn lemma_no_max_age(ds: Seq<Seq<char>>, from: nat)
    requires
        forall|j: int| from <= j < ds.len() ==> max_age(#[trigger] ds[j]) is None,
    ensures
        first_max_age(ds, from) is None,
    decreases ds.len() - from,
{
    if from < ds.len() {
        lemma_no_max_age(ds, from + 1);
    }
}

proof fn lemma_none_forbids(ds: Seq<Seq<char>>)
    requires
        forall|j: int|
            0 <= j < ds.len() ==> lowered(trimmed(#[trigger] ds[j])) != "no-store"@ && lowered(
                trimmed(ds[j]),
            ) != "no-cache"@,
    ensures
        !(exists|i: int| 0 <= i < ds.len() && forbids_caching(#[trigger] ds[i])),
{
    reveal_strlit("no-store");
    reveal_strlit("no-cache");
    assert(lowered("no-store"@) =~= "no-store"@);
    assert(lowered("no-cache"@) =~= "no-cache"@);
}

/// Where no directive forbids caching, the first `max-age` with a number counts.
pub proof fn first_max_age_counts(value: Seq<char>, i: int, n: u64)
    requires
        0 <= i < split_on(value, ',').len(),
        grants(split_on(value, ',')[i], n),
        forall|j: int, k: u64| 0 <= j < i ==> !(#[trigger] grants(split_on(value, ',')[j], k)),
        forall|j: int|
            0 <= j < split_on(value, ',').len() ==> lowered(
                trimmed(#[trigger] split_on(value, ',')[j]),
            ) != "no-store"@ && lowered(trimmed(split_on(value, ',')[j])) != "no-cache"@,
    ensures
        freshness(value) == Some(n),
{
    let ds = split_on(value, ',');
    lemma_none_forbids(ds);
    lemma_grants(ds[i], n);
    assert forall|j: int| 0 <= j < i implies max_age(#[trigger] ds[j]) is None by {
        if let Some(k) = max_age(ds[j]) {
            lemma_grants(ds[j], k);
            assert(grants(ds[j], k));
        }
    }
    lemma_first_max_age(ds, 0, i);
}

/// A value without either says nothing.
pub proof fn other_directives_say_nothing(value: Seq<char>)
    requires
        forall|j: int, k: u64|
            0 <= j < split_on(value, ',').len() ==> !(#[trigger] grants(split_on(value, ',')[j], k)),
        forall|j: int|
            0 <= j < split_on(value, ',').len() ==> lowered(
                trimmed(#[trigger] split_on(value, ',')[j]),
            ) != "no-store"@ && lowered(trimmed(split_on(value, ',')[j])) != "no-cache"@,
    ensures
        freshness(value) is None,
{
    let ds = split_on(value, ',');
    lemma_none_forbids(ds);
    assert forall|j: int| 0 <= j < ds.len() implies max_age(#[trigger] ds[j]) is None by {
        if let Some(k) = max_age(ds[j]) {
            lemma_grants(ds[j], k);
            assert(grants(ds[j], k));
        }
    }
    lemma_no_max_age(ds, 0);
}

/// The freshness of a document is that of its response's `Cache-Control` field, and
/// none where the response has no such field.
pub proof fn freshness_is_that_of_the_response(ev: GetEvidence)
    ensures
        ev.head matches Some(Ok(head)) ==> {
            &&& head.cache_control matches Some(value) ==> ev.ttl() == freshness(value@)
            &&& head.cache_control is None ==> ev.ttl() is None
        },
{
}

} // verus!
