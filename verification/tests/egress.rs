use identity_aauth::egress::{
    cache_control_ttl, EgressPolicy, GetAction, GetEvidence, GetStep, Hosts, ResponseHead,
    SendError,
};
use identity_aauth::ip::{ip_is_public, IpAddr};
use identity_aauth::url::UrlParts;

fn v4(text: &str) -> IpAddr {
    let o: Vec<u8> = text.split('.').map(|p| p.parse().unwrap()).collect();
    IpAddr::V4([o[0], o[1], o[2], o[3]])
}

#[test]
fn private_and_reserved_v4_blocked() {
    for ip in [
        "127.0.0.1",
        "10.0.0.1",
        "172.16.0.1",
        "192.168.1.1",
        "169.254.1.1",
        "0.0.0.0",
        "100.64.0.1",
        "192.0.0.1",
        "198.18.0.1",
        "240.0.0.1",
        "203.0.113.7",
    ] {
        assert!(!ip_is_public(v4(ip)), "{ip} must be blocked");
    }
}

#[test]
fn public_v4_allowed() {
    for ip in ["8.8.8.8", "1.1.1.1", "93.184.216.34"] {
        assert!(ip_is_public(v4(ip)), "{ip} must be allowed");
    }
}

#[test]
fn v4_range_edges() {
    for ip in [
        "9.255.255.255", "11.0.0.0", "100.63.255.255", "100.128.0.0", "126.255.255.255",
        "128.0.0.0", "169.253.255.255", "169.255.0.0", "172.15.255.255", "172.32.0.0",
        "192.0.1.0", "192.0.3.0", "192.167.255.255", "192.169.0.0", "198.17.255.255",
        "198.20.0.0", "198.51.99.255", "198.51.101.0", "203.0.112.255", "203.0.114.0",
        "239.255.255.255", "1.0.0.0",
    ] {
        assert!(ip_is_public(v4(ip)), "{ip} must be allowed");
    }
    for ip in [
        "10.255.255.255", "100.64.0.0", "100.127.255.255", "127.255.255.255", "169.254.0.0",
        "172.31.255.255", "192.0.0.255", "192.0.2.255", "192.168.255.255", "198.19.255.255",
        "198.51.100.0", "203.0.113.255", "255.255.255.255", "0.255.255.255",
    ] {
        assert!(!ip_is_public(v4(ip)), "{ip} must be blocked");
    }
}

#[test]
fn v6_ranges() {
    assert!(!ip_is_public(IpAddr::V6([0, 0, 0, 0, 0, 0, 0, 1])));
    assert!(!ip_is_public(IpAddr::V6([0xfc00, 0, 0, 0, 0, 0, 0, 1])));
    assert!(!ip_is_public(IpAddr::V6([0xfe80, 0, 0, 0, 0, 0, 0, 1])));
    assert!(!ip_is_public(IpAddr::V6([0x2001, 0xdb8, 0, 0, 0, 0, 0, 1])));
    assert!(ip_is_public(IpAddr::V6([0x2606, 0x4700, 0x4700, 0, 0, 0, 0, 0x1111])));
}

#[test]
fn v6_transition_and_multicast_blocked() {
    for first in [[0x64, 0xff9b], [0x2001, 0], [0x2002, 5], [0xff02, 0], [0xfdff, 1], [0xfebf, 1]] {
        let s = [first[0], first[1], 0, 0, 0, 0, 0, 1];
        assert!(!ip_is_public(IpAddr::V6(s)), "{s:?} must be blocked");
    }
    assert!(!ip_is_public(IpAddr::V6([0, 0, 0, 0, 0, 0, 0x0808, 0x0808])));
    assert!(ip_is_public(IpAddr::V6([0x2001, 1, 0, 0, 0, 0, 0, 1])));
}

#[test]
fn v6_reserved_blocked() {
    for first in [0x100, 0x1fff, 0x4000, 0x5f00, 0xdfff, 0xfec0, 0xfe00] {
        let s = [first, 0, 0, 0, 0, 0, 0, 1];
        assert!(!ip_is_public(IpAddr::V6(s)), "{s:?} must be blocked");
    }
    for first in [0x2000, 0x2400, 0x2a00, 0x3ffe] {
        let s = [first, 0, 0, 0, 0, 0, 0, 1];
        assert!(ip_is_public(IpAddr::V6(s)), "{s:?} must be allowed");
    }
}

#[test]
fn v6_benchmarking_and_documentation_blocked() {
    assert!(!ip_is_public(IpAddr::V6([0x2001, 2, 0, 0, 0, 0, 0, 1])));
    assert!(!ip_is_public(IpAddr::V6([0x2001, 2, 0, 0xffff, 0, 0, 0, 1])));
    assert!(ip_is_public(IpAddr::V6([0x2001, 2, 1, 0, 0, 0, 0, 1])));
    assert!(!ip_is_public(IpAddr::V6([0x3fff, 0, 0, 0, 0, 0, 0, 1])));
    assert!(!ip_is_public(IpAddr::V6([0x3fff, 0x0fff, 0, 0, 0, 0, 0, 1])));
    assert!(ip_is_public(IpAddr::V6([0x3fff, 0x1000, 0, 0, 0, 0, 0, 1])));
    assert!(ip_is_public(IpAddr::V6([0x3ffe, 0, 0, 0, 0, 0, 0, 1])));
}

#[test]
fn v4_mapped_v6_private_blocked() {
    assert!(!ip_is_public(IpAddr::V6([0, 0, 0, 0, 0, 0xffff, 0x0a00, 0x0001])));
    assert!(ip_is_public(IpAddr::V6([0, 0, 0, 0, 0, 0xffff, 0x0808, 0x0808])));
}

#[test]
fn cache_control_ttl_parsing() {
    assert_eq!(cache_control_ttl("max-age=300"), Some(300));
    assert_eq!(cache_control_ttl("public, max-age=60, must-revalidate"), Some(60));
    assert_eq!(cache_control_ttl("no-store"), Some(0));
    assert_eq!(cache_control_ttl("max-age=900, no-cache"), Some(0));
    assert_eq!(cache_control_ttl("private"), None);
    assert_eq!(cache_control_ttl("max-age=nonsense"), None);
}

#[test]
fn cache_control_ttl_edges() {
    assert_eq!(cache_control_ttl("max-age=1, max-age=2"), Some(1));
    assert_eq!(cache_control_ttl("max-age=x, max-age=2"), Some(2));
    assert_eq!(cache_control_ttl(" Max-Age= \"7\" "), Some(7));
    assert_eq!(cache_control_ttl("MAX-AGE=+8"), Some(8));
    assert_eq!(cache_control_ttl("mAx-age=8"), None);
    assert_eq!(cache_control_ttl("NO-Store"), Some(0));
    assert_eq!(cache_control_ttl("max-age=18446744073709551615"), Some(u64::MAX));
    assert_eq!(cache_control_ttl("max-age=18446744073709551616"), None);
    assert_eq!(cache_control_ttl(""), None);
}

fn policy(allow_insecure: bool) -> EgressPolicy {
    EgressPolicy {
        allow_insecure,
        timeout_secs: 5,
        max_response_bytes: 4096,
        cross_origin_hosts: vec!["keys.example".to_owned()],
    }
}

fn failure(step: GetStep) -> String {
    match step {
        GetStep::Failed(e) => e,
        other => panic!("expected a failure, got {other:?}"),
    }
}

fn refused(policy: &EgressPolicy, url: &str) -> String {
    failure(policy.get_json(url, &GetEvidence::new()))
}

#[test]
fn urls_are_admitted_by_scheme_and_userinfo() {
    let strict = policy(false);
    assert_eq!(refused(&strict, "http://ap.example/x"), "plain http egress not allowed");
    assert_eq!(refused(&strict, "ftp://ap.example/x"), "unsupported URL scheme 'ftp'");
    assert_eq!(refused(&strict, "https://u@ap.example/"), "userinfo in URL rejected");
    assert_eq!(refused(&strict, "https://:p@ap.example/"), "userinfo in URL rejected");
    assert_eq!(refused(&strict, "no url"), "bad URL: relative URL without a base");
    assert_eq!(refused(&strict, "https://"), "bad URL: empty host");
    match strict.get_json("https://AP.example:8443/x", &GetEvidence::new()) {
        GetStep::Needs(GetAction::Resolve { host, port }) => {
            assert_eq!((host.as_str(), port), ("ap.example", 8443));
        }
        other => panic!("{other:?}"),
    }
    match policy(true).get_json("http://ap.example/x", &GetEvidence::new()) {
        GetStep::Needs(GetAction::Resolve { host, port }) => {
            assert_eq!((host.as_str(), port), ("ap.example", 80));
        }
        other => panic!("{other:?}"),
    }
}

#[test]
fn url_without_host_or_port_refused() {
    let parts = |host: Option<&str>, port: Option<u16>| UrlParts {
        scheme: "https".to_owned(),
        username: String::new(),
        password: None,
        host: host.map(|h| h.to_owned()),
        port,
    };
    let strict = policy(false);
    assert_eq!(strict.admit_url(parts(None, Some(1))).unwrap_err(), "URL has no host");
    assert_eq!(strict.admit_url(parts(Some("h"), None)).unwrap_err(), "URL has no port");
    assert_eq!(strict.admit_url(parts(Some("h"), Some(1))).unwrap(), ("h".to_owned(), 1));
}

const URL: &str = "https://ap.example/x";

fn resolved(addresses: Vec<IpAddr>) -> GetEvidence {
    GetEvidence { addresses: Some(Ok(addresses)), ..GetEvidence::new() }
}

#[test]
fn addresses_are_vetted_and_pinned() {
    let strict = policy(false);
    assert_eq!(
        failure(strict.get_json(URL, &resolved(Vec::new()))),
        "ap.example did not resolve"
    );
    assert_eq!(
        failure(strict.get_json(URL, &resolved(vec![v4("8.8.8.8"), v4("10.0.0.1")]))),
        "host ap.example resolves to a non-public address"
    );
    let failed = GetEvidence { addresses: Some(Err("timeout".to_owned())), ..GetEvidence::new() };
    assert_eq!(
        failure(strict.get_json(URL, &failed)),
        "dns resolution of ap.example failed: timeout"
    );
    match strict.get_json(URL, &resolved(vec![v4("8.8.8.8"), v4("1.1.1.1")])) {
        GetStep::Needs(GetAction::Send { host, pinned, timeout_secs, https_only }) => {
            assert_eq!(host, "ap.example");
            assert_eq!(pinned, v4("8.8.8.8"));
            assert_eq!(timeout_secs, 5);
            assert!(https_only);
        }
        other => panic!("{other:?}"),
    }
    match policy(true).get_json(URL, &resolved(vec![v4("10.0.0.1")])) {
        GetStep::Needs(GetAction::Send { pinned, https_only, .. }) => {
            assert_eq!(pinned, v4("10.0.0.1"));
            assert!(!https_only);
        }
        other => panic!("{other:?}"),
    }
}

fn answered(status: u16, cache_control: Option<&str>) -> GetEvidence {
    GetEvidence {
        head: Some(Ok(ResponseHead {
            status,
            cache_control: cache_control.map(|s| s.to_owned()),
        })),
        ..resolved(vec![v4("8.8.8.8")])
    }
}

#[test]
fn responses_are_judged_by_status() {
    let strict = policy(false);
    let sent = |e: SendError| GetEvidence { head: Some(Err(e)), ..answered(0, None) };
    assert_eq!(
        failure(strict.get_json(URL, &sent(SendError::Build("b".to_owned())))),
        "client build failed: b"
    );
    assert_eq!(
        failure(strict.get_json(URL, &sent(SendError::Request("r".to_owned())))),
        "request failed: r"
    );
    assert_eq!(
        failure(strict.get_json(URL, &answered(302, None))),
        "redirect from https://ap.example/x refused"
    );
    for (status, text) in [(199, "HTTP 199"), (404, "HTTP 404"), (503, "HTTP 503")] {
        assert_eq!(
            failure(strict.get_json(URL, &answered(status, None))),
            format!("{text} from https://ap.example/x")
        );
    }
    for status in [200, 299] {
        assert!(matches!(
            strict.get_json(URL, &answered(status, None)),
            GetStep::Needs(GetAction::Read { limit: 4097 })
        ));
    }
}

#[test]
fn bodies_are_capped_and_parsed() {
    let strict = policy(false);
    let with = |body: Result<Vec<u8>, String>| GetEvidence {
        body: Some(body),
        ..answered(200, Some("max-age=120"))
    };
    assert_eq!(
        failure(strict.get_json(URL, &with(Err("reset".to_owned())))),
        "read body failed: reset"
    );
    assert_eq!(
        failure(strict.get_json(URL, &with(Ok(vec![b' '; 4097])))),
        "response from https://ap.example/x exceeds 4096 bytes"
    );
    assert_eq!(
        failure(strict.get_json(URL, &with(Ok(b"{".to_vec())))),
        "invalid JSON from https://ap.example/x: EOF while parsing an object at line 1 column 1"
    );
    match strict.get_json(URL, &with(Ok(b"{\"issuer\":\"i\"}".to_vec()))) {
        GetStep::Done(document, ttl) => {
            assert_eq!(document["issuer"], "i");
            assert_eq!(ttl, Some(120));
        }
        other => panic!("{other:?}"),
    }
}

#[test]
fn key_sets_stay_on_admitted_hosts() {
    let hosts = |issuer: Option<&str>, jwks: Option<&str>| Hosts {
        issuer: issuer.map(|s| s.to_owned()),
        jwks: jwks.map(|s| s.to_owned()),
    };
    let strict = policy(false);
    assert!(strict.admit_hosts(&hosts(Some("ap.example"), Some("ap.example"))));
    assert!(strict.admit_hosts(&hosts(Some("ap.example"), Some("keys.example"))));
    assert!(strict.admit_hosts(&hosts(None, Some("keys.example"))));
    assert!(!strict.admit_hosts(&hosts(Some("ap.example"), Some("evil.example"))));
    assert!(!strict.admit_hosts(&hosts(Some("ap.example"), None)));
    assert!(!strict.admit_hosts(&hosts(None, None)));
    assert!(strict.clone().admit_hosts(&hosts(None, Some("keys.example"))));
}
