use identity_aauth::config::JwksConfig;
use identity_aauth::egress::{
    FetchAction, FetchEvidence, GetAction, GetEvidence, Hosts, ResponseHead,
};
use identity_aauth::error::{SigError, SigErrorCode};
use identity_aauth::ip::IpAddr;
use identity_aauth::jwks::{
    FetchPermit, JwksResolver, KeyStep, RefreshStep, MAX_CACHE_ENTRIES,
};
use identity_aauth::tokens::{Jwk, Jwks, PublishedKey};
use serde_json::Value;

const BASE: &str = "http://127.0.0.1:8080";
const SECOND: u128 = 1_000_000_000;

fn text(s: &str) -> Value {
    Value::String(s.to_owned())
}

fn object(members: Vec<(&str, Value)>) -> Value {
    Value::Object(members.into_iter().map(|(k, v)| (k.to_owned(), v)).collect())
}

/// Canned responses by URL, with a count of the requests.
struct Server {
    routes: Vec<(String, u16, Option<String>, String)>,
    hits: usize,
}

impl Server {
    fn get(&mut self, url: &str) -> (u16, Option<String>, String) {
        self.hits += 1;
        for (route, status, cache_control, body) in &self.routes {
            if route == url {
                return (*status, cache_control.clone(), body.clone());
            }
        }
        (200, None, "{}".to_owned())
    }
}

fn host_of(url: &str) -> Option<String> {
    let rest = url.strip_prefix("http://").or_else(|| url.strip_prefix("https://"))?;
    let authority = rest.split('/').next()?;
    Some(authority.split(':').next()?.to_owned())
}

/// Reads a key set: keys without a `kid` are dropped, and only Ed25519 keys are
/// implemented.
fn read_keys(body: &[u8]) -> Result<Jwks, String> {
    let value: Value = serde_json::from_slice(body).map_err(|e| e.to_string())?;
    let list = value.get("keys").and_then(|k| k.as_array()).ok_or("missing field `keys`")?;
    let member = |k: &Value, name: &str| k.get(name).and_then(|v| v.as_str()).map(|s| s.to_owned());
    let mut keys = Vec::new();
    for k in list {
        let Some(kid) = member(k, "kid") else { continue };
        let key = match (member(k, "kty"), member(k, "crv"), member(k, "x")) {
            (Some(kty), Some(crv), Some(x)) if kty == "OKP" => Some(Jwk {
                kty,
                crv,
                x,
                y: None,
                alg: member(k, "alg"),
                kid: Some(kid.clone()),
            }),
            _ => None,
        };
        keys.push(PublishedKey { kid, key });
    }
    Ok(Jwks { keys })
}

fn perform(server: &mut Server, url: &str, action: GetAction, evidence: &mut GetEvidence) {
    match action {
        GetAction::Resolve { .. } => evidence.addresses = Some(Ok(vec![IpAddr::V4([127, 0, 0, 1])])),
        GetAction::Send { pinned, .. } => {
            assert_eq!(pinned, IpAddr::V4([127, 0, 0, 1]));
            let (status, cache_control, _) = server.get(url);
            evidence.head = Some(Ok(ResponseHead { status, cache_control }));
        }
        GetAction::Read { limit } => {
            let hits = server.hits;
            let (_, _, body) = server.get(url);
            server.hits = hits;
            evidence.body = Some(Ok(body.into_bytes().into_iter().take(limit as usize).collect()));
        }
    }
}

fn finish(
    resolver: &mut JwksResolver,
    server: &mut Server,
    mut permit: FetchPermit,
    now: u128,
) -> Result<Jwk, SigError> {
    let mut evidence = FetchEvidence::new();
    loop {
        match resolver.refresh_step(permit, evidence, now) {
            RefreshStep::Done(result) => return result,
            RefreshStep::Needs(action, kept, back) => {
                permit = back;
                evidence = *kept;
                match action {
                    FetchAction::Metadata { url, action } => {
                        perform(server, &url, action, &mut evidence.metadata)
                    }
                    FetchAction::Hosts { iss, jwks_uri } => {
                        evidence.hosts = Some(Hosts {
                            issuer: host_of(&iss),
                            jwks: host_of(&jwks_uri),
                        })
                    }
                    FetchAction::Jwks { url, action } => {
                        perform(server, &url, action, &mut evidence.jwks)
                    }
                    FetchAction::Keys { body } => evidence.keys = Some(read_keys(&body)),
                }
            }
        }
    }
}

fn get_key_at(
    resolver: &mut JwksResolver,
    server: &mut Server,
    iss: &str,
    kid: &str,
    now: u128,
) -> Result<Jwk, SigError> {
    match resolver.get_key(iss, "aauth-agent.json", kid, now)? {
        KeyStep::Found(key) => Ok(key),
        KeyStep::Fetch(permit) => finish(resolver, server, permit, now),
    }
}

fn jwks_config(cross_origin_hosts: &[&str]) -> JwksConfig {
    JwksConfig {
        cross_origin_hosts: cross_origin_hosts.iter().map(|s| s.to_string()).collect(),
        refresh_floor_secs: 60,
        max_ttl_secs: 24 * 3600,
        fetch_timeout_secs: 5,
        max_response_bytes: 4096,
    }
}

fn resolver_for_tests() -> JwksResolver {
    JwksResolver::new(&jwks_config(&[]), true)
}

fn ed25519_jwks_body(kid: &str) -> String {
    let key = object(vec![
        ("kty", text("OKP")),
        ("crv", text("Ed25519")),
        ("x", text("11qYAYKxCrfVS_7TyWQHOg7hcvPapiMlrwIaaPcHURo")),
        ("alg", text("Ed25519")),
        ("kid", text(kid)),
    ]);
    object(vec![("keys", Value::Array(vec![key]))]).to_string()
}

const X: &str = "11qYAYKxCrfVS_7TyWQHOg7hcvPapiMlrwIaaPcHURo";

fn metadata_body(issuer: &str, jwks_uri: &str) -> String {
    object(vec![("issuer", text(issuer)), ("jwks_uri", text(jwks_uri))]).to_string()
}

fn standard_server(metadata: String, jwks_body: String, cache_control: Option<&str>) -> Server {
    Server {
        routes: vec![
            (format!("{BASE}/.well-known/aauth-agent.json"), 200, None, metadata),
            (
                format!("{BASE}/jwks.json"),
                200,
                cache_control.map(|s| s.to_owned()),
                jwks_body,
            ),
        ],
        hits: 0,
    }
}

fn own_keys(jwks_body: String, cache_control: Option<&str>) -> Server {
    let metadata = metadata_body(BASE, &format!("{BASE}/jwks.json"));
    standard_server(metadata, jwks_body, cache_control)
}

fn only_error(mut server: Server, kid: &str) -> SigError {
    get_key_at(&mut resolver_for_tests(), &mut server, BASE, kid, 0).unwrap_err()
}

#[test]
fn http_happy_path_resolves_and_caches() {
    let mut server = own_keys(ed25519_jwks_body("k1"), Some("max-age=120"));
    let mut resolver = resolver_for_tests();
    let key = get_key_at(&mut resolver, &mut server, BASE, "k1", 0).unwrap();
    assert_eq!(key.x, X);
    assert_eq!(server.hits, 2, "metadata + jwks");
    let again = get_key_at(&mut resolver, &mut server, BASE, "k1", 119 * SECOND).unwrap();
    assert_eq!(again.x, X);
    assert_eq!(server.hits, 2, "no additional fetches");
    // Past the advertised lifetime it is fetched again.
    get_key_at(&mut resolver, &mut server, BASE, "k1", 120 * SECOND).unwrap();
    assert_eq!(server.hits, 4);
}

#[test]
fn http_metadata_issuer_mismatch_rejected() {
    let metadata = metadata_body("https://evil.example", &format!("{BASE}/jwks.json"));
    let err = only_error(standard_server(metadata, ed25519_jwks_body("k1"), None), "k1");
    assert_eq!(err.code, SigErrorCode::IssuerMismatch);
    assert_eq!(
        err.detail,
        "metadata `issuer` at http://127.0.0.1:8080/.well-known/aauth-agent.json does not match \
         the identity it was fetched under"
    );
}

#[test]
fn http_metadata_issuer_missing_rejected() {
    let metadata = object(vec![("jwks_uri", text(&format!("{BASE}/jwks.json")))]).to_string();
    let err = only_error(standard_server(metadata, ed25519_jwks_body("k1"), None), "k1");
    assert_eq!(err.code, SigErrorCode::IssuerMissing);
}

#[test]
fn http_metadata_issuer_that_is_no_string_is_missing() {
    let metadata = object(vec![
        ("issuer", Value::from(7)),
        ("jwks_uri", text(&format!("{BASE}/jwks.json"))),
    ]);
    let server = standard_server(metadata.to_string(), ed25519_jwks_body("k1"), None);
    assert_eq!(only_error(server, "k1").code, SigErrorCode::IssuerMissing);
}

#[test]
fn http_metadata_without_jwks_uri_rejected() {
    let metadata = object(vec![("issuer", text(BASE))]).to_string();
    let err = only_error(standard_server(metadata, "{}".to_owned(), None), "k1");
    assert_eq!(err.code, SigErrorCode::UnknownKey);
    assert!(err.detail.contains("jwks_uri"), "detail: {}", err.detail);
}

#[test]
fn http_cross_origin_jwks_requires_admission() {
    let mut server = standard_server(
        metadata_body(BASE, "http://localhost:9090/jwks.json"),
        "{}".to_owned(),
        None,
    );
    server.routes.push((
        "http://localhost:9090/jwks.json".to_owned(),
        200,
        None,
        ed25519_jwks_body("k1"),
    ));
    let err = get_key_at(&mut resolver_for_tests(), &mut server, BASE, "k1", 0).unwrap_err();
    assert_eq!(err.code, SigErrorCode::InvalidKey);
    assert!(err.detail.contains("cross-origin"), "detail: {}", err.detail);
    assert_eq!(server.hits, 1, "the key set is not asked for");

    let mut resolver = JwksResolver::new(&jwks_config(&["localhost"]), true);
    let key = get_key_at(&mut resolver, &mut server, BASE, "k1", 0).unwrap();
    assert_eq!(key.x, X);
}

#[test]
fn http_kid_of_unsupported_type_reports_unsupported_algorithm() {
    let key = object(vec![
        ("kty", text("RSA")),
        ("n", text("abc")),
        ("e", text("AQAB")),
        ("kid", text("rsa1")),
    ]);
    let body = object(vec![("keys", Value::Array(vec![key]))]).to_string();
    let err = only_error(own_keys(body, None), "rsa1");
    assert_eq!(err.code, SigErrorCode::UnsupportedAlgorithm);
    assert_eq!(
        err.detail,
        "kid 'rsa1' at http://127.0.0.1:8080 is a key type/algorithm this build does not implement"
    );
}

#[test]
fn kid_of_unsupported_type_is_reported_inside_the_floor_too() {
    let key = object(vec![("kty", text("RSA")), ("kid", text("rsa1"))]);
    let body = object(vec![("keys", Value::Array(vec![key]))]).to_string();
    let mut server = own_keys(body, None);
    let mut resolver = resolver_for_tests();
    for now in [0, SECOND, 60 * SECOND - 1] {
        let err = get_key_at(&mut resolver, &mut server, BASE, "rsa1", now).unwrap_err();
        assert_eq!(err.code, SigErrorCode::UnsupportedAlgorithm);
        assert_eq!(
            err.detail,
            "kid 'rsa1' at http://127.0.0.1:8080 is a key type/algorithm this build does not \
             implement"
        );
    }
    assert_eq!(server.hits, 2, "no additional fetches");
    let err = get_key_at(&mut resolver, &mut server, BASE, "other", SECOND).unwrap_err();
    assert_eq!(err.code, SigErrorCode::UnknownKey);
    assert!(err.detail.contains("floor"), "detail: {}", err.detail);
}

#[test]
fn http_unknown_kid_floor_gates_refetch() {
    let mut server = own_keys(ed25519_jwks_body("k1"), None);
    let mut resolver = resolver_for_tests();
    let err = get_key_at(&mut resolver, &mut server, BASE, "missing", 0).unwrap_err();
    assert_eq!(err.code, SigErrorCode::UnknownKey);
    assert_eq!(err.detail, "kid 'missing' not in JWKS of http://127.0.0.1:8080");
    let fetched = server.hits;
    let err2 = get_key_at(&mut resolver, &mut server, BASE, "missing", 60 * SECOND - 1).unwrap_err();
    assert_eq!(err2.code, SigErrorCode::UnknownKey);
    assert_eq!(
        err2.detail,
        "kid 'missing' not found for http://127.0.0.1:8080 (fetch floor active)"
    );
    assert_eq!(server.hits, fetched);
    // The floor has passed.
    let err3 = get_key_at(&mut resolver, &mut server, BASE, "missing", 60 * SECOND).unwrap_err();
    assert!(err3.detail.contains("not in JWKS"), "detail: {}", err3.detail);
    assert_eq!(server.hits, 2 * fetched);
}

#[test]
fn http_oversized_body_rejected() {
    let body = format!("{}{}", ed25519_jwks_body("k1"), " ".repeat(8192));
    let err = only_error(own_keys(body, None), "k1");
    assert_eq!(
        err.detail,
        "jwks fetch: response from http://127.0.0.1:8080/jwks.json exceeds 4096 bytes"
    );
}

#[test]
fn http_redirect_refused() {
    let mut server = own_keys(ed25519_jwks_body("k1"), None);
    server.routes[0].1 = 302;
    let err = only_error(server, "k1");
    assert_eq!(err.code, SigErrorCode::UnknownKey);
    assert_eq!(
        err.detail,
        "metadata fetch: redirect from \
         http://127.0.0.1:8080/.well-known/aauth-agent.json refused"
    );
}

#[test]
fn invalid_key_set_rejected() {
    let err = only_error(own_keys("{}".to_owned(), None), "k1");
    assert_eq!(err.code, SigErrorCode::InvalidKey);
    assert_eq!(err.detail, "invalid JWKS: missing field `keys`");
}

#[test]
fn lifetimes_are_held_between_floor_and_greatest_age() {
    for (cache_control, lifetime) in
        [(Some("no-store"), 60), (Some("max-age=999999"), 86_400), (None, 86_400)]
    {
        let mut server = own_keys(ed25519_jwks_body("k1"), cache_control);
        let mut resolver = resolver_for_tests();
        get_key_at(&mut resolver, &mut server, BASE, "k1", 7).unwrap();
        get_key_at(&mut resolver, &mut server, BASE, "k1", 6 + lifetime * SECOND).unwrap();
        assert_eq!(server.hits, 2, "{cache_control:?}");
        get_key_at(&mut resolver, &mut server, BASE, "k1", 7 + lifetime * SECOND).unwrap();
        assert_eq!(server.hits, 4, "{cache_control:?}");
    }
}

#[test]
fn refresh_bypasses_the_cache_but_not_the_floor() {
    let mut server = own_keys(ed25519_jwks_body("k1"), None);
    let mut resolver = resolver_for_tests();
    get_key_at(&mut resolver, &mut server, BASE, "k1", 0).unwrap();
    let err = resolver.refresh_and_get(BASE, "aauth-agent.json", "k1", SECOND).unwrap_err();
    assert!(err.detail.contains("floor"));
    let permit = resolver.refresh_and_get(BASE, "aauth-agent.json", "k1", 60 * SECOND).unwrap();
    // A failed fetch leaves what is cached.
    server.routes.clear();
    assert!(finish(&mut resolver, &mut server, permit, 60 * SECOND).is_err());
    let key = get_key_at(&mut resolver, &mut server, BASE, "k1", 61 * SECOND).unwrap();
    assert_eq!(key.x, X);
}

/// Evidence of a fetch that went as far as its key set, under these keys.
fn fetched(cache_control: Option<&str>, status: u16, keys: Result<Jwks, String>) -> FetchEvidence {
    let get = |status: u16, cache_control: Option<&str>, body: String| GetEvidence {
        addresses: Some(Ok(vec![IpAddr::V4([127, 0, 0, 1])])),
        head: Some(Ok(ResponseHead {
            status,
            cache_control: cache_control.map(|s| s.to_owned()),
        })),
        body: Some(Ok(body.into_bytes())),
    };
    let host = || Some("127.0.0.1".to_owned());
    FetchEvidence {
        metadata: get(200, None, metadata_body(BASE, &format!("{BASE}/jwks.json"))),
        hosts: Some(Hosts { issuer: host(), jwks: host() }),
        jwks: get(status, cache_control, ed25519_jwks_body("k1")),
        keys: Some(keys),
    }
}

#[test]
fn floor_above_the_greatest_age_conflicts_with_a_fetched_lifetime_only() {
    let config = JwksConfig { refresh_floor_secs: 100, max_ttl_secs: 50, ..jwks_config(&[]) };
    let mut resolver = JwksResolver::new(&config, true);
    let dwk = "aauth-agent.json";
    let keys = || read_keys(ed25519_jwks_body("k1").as_bytes());
    // A failing fetch hands on its own error, whatever its response advertised.
    let permit = resolver.refresh_and_get(BASE, dwk, "k1", 0).unwrap();
    let failed = fetched(Some("max-age=70"), 503, keys());
    match resolver.try_refresh_step(permit, failed, 0) {
        Some(RefreshStep::Done(Err(e))) => {
            assert_eq!(e.detail, "jwks fetch: HTTP 503 from http://127.0.0.1:8080/jwks.json");
        }
        other => panic!("{other:?}"),
    }
    let permit = resolver.refresh_and_get(BASE, dwk, "k1", 100 * SECOND).unwrap();
    let failed = fetched(Some("max-age=70"), 200, Err("bad".to_owned()));
    match resolver.refresh_step(permit, failed, 100 * SECOND) {
        RefreshStep::Done(Err(e)) => assert_eq!(e.detail, "invalid JWKS: bad"),
        other => panic!("{other:?}"),
    }
    let permit = resolver.refresh_and_get(BASE, dwk, "k1", 200 * SECOND).unwrap();
    let conflict = fetched(Some("max-age=70"), 200, keys());
    assert!(resolver.try_refresh_step(permit, conflict, 200 * SECOND).is_none());
    let permit = match resolver.get_key(BASE, dwk, "k1", 300 * SECOND) {
        Ok(KeyStep::Fetch(permit)) => permit,
        other => panic!("{other:?}"),
    };
    let plain = fetched(None, 200, keys());
    assert!(matches!(
        resolver.try_refresh_step(permit, plain, 300 * SECOND),
        Some(RefreshStep::Done(Ok(_)))
    ));
    assert!(matches!(resolver.get_key(BASE, dwk, "k1", 350 * SECOND - 1), Ok(KeyStep::Found(_))));
}

#[test]
fn keys_are_read_from_the_fetched_body() {
    let mut resolver = resolver_for_tests();
    let mut evidence = fetched(None, 200, Err(String::new()));
    evidence.keys = None;
    let permit = resolver.refresh_and_get(BASE, "aauth-agent.json", "k1", 0).unwrap();
    match resolver.refresh_step(permit, evidence, 0) {
        RefreshStep::Needs(FetchAction::Keys { body }, _, _) => {
            assert_eq!(body, ed25519_jwks_body("k1").into_bytes());
        }
        other => panic!("{other:?}"),
    }
}

/// Attempts a fetch and stores a key set for it.
fn store(resolver: &mut JwksResolver, iss: &str, dwk: &str, body: &str, now: u128) -> bool {
    let permit = resolver.refresh_and_get(iss, dwk, "k1", now).unwrap();
    resolver.store(permit, read_keys(body.as_bytes()).unwrap(), None, now).is_ok()
}

#[test]
fn documents_are_cached_apart() {
    let mut resolver = resolver_for_tests();
    assert!(store(&mut resolver, "https://a", "aauth-agent.json", &ed25519_jwks_body("k1"), 0));
    assert!(matches!(
        resolver.get_key("https://a", "aauth-agent.json", "k1", 1),
        Ok(KeyStep::Found(_))
    ));
    assert!(matches!(
        resolver.get_key("https://a", "aauth-person.json", "k1", 1),
        Ok(KeyStep::Fetch(_))
    ));
}

#[test]
fn last_fetch_is_served() {
    let mut resolver = resolver_for_tests();
    let body = ed25519_jwks_body("k1");
    let newer = body.replace(X, "newer");
    assert!(store(&mut resolver, "https://a", "d", &body, 0));
    assert!(store(&mut resolver, "https://b", "d", &body, 0));
    assert!(store(&mut resolver, "https://a", "d", &newer, 60 * SECOND));
    match resolver.get_key("https://a", "d", "k1", 61 * SECOND) {
        Ok(KeyStep::Found(key)) => assert_eq!(key.x, "newer"),
        other => panic!("{other:?}"),
    }
    match resolver.get_key("https://b", "d", "k1", 61 * SECOND) {
        Ok(KeyStep::Found(key)) => assert_eq!(key.x, X),
        other => panic!("{other:?}"),
    }
}

#[test]
fn overflow_forgets_the_cache() {
    let mut resolver = resolver_for_tests();
    let body = ed25519_jwks_body("k1");
    for i in 0..MAX_CACHE_ENTRIES {
        assert!(store(&mut resolver, &format!("https://{i}"), "d", &body, 0));
    }
    // Replacing an entry needs no room.
    assert!(store(&mut resolver, "https://1", "d", &body, 60 * SECOND));
    assert!(matches!(resolver.get_key("https://0", "d", "k1", 1), Ok(KeyStep::Found(_))));
    assert!(resolver.refresh_and_get("https://0", "d", "k1", 1).is_err());
    // One more issuer overflows both maps.
    assert!(store(&mut resolver, "https://new", "d", &body, 1));
    assert!(matches!(resolver.get_key("https://0", "d", "k1", 1), Ok(KeyStep::Fetch(_))));
    assert!(matches!(resolver.get_key("https://new", "d", "k1", 1), Ok(KeyStep::Found(_))));
}

#[test]
fn first_implemented_key_under_a_kid_is_found() {
    let key = |x: &str| Jwk {
        kty: "OKP".to_owned(),
        crv: "Ed25519".to_owned(),
        x: x.to_owned(),
        y: None,
        alg: None,
        kid: None,
    };
    let published = |kid: &str, key: Option<Jwk>| PublishedKey { kid: kid.to_owned(), key };
    let jwks = Jwks {
        keys: vec![
            published("b", None),
            published("a", Some(key("1"))),
            published("b", Some(key("2"))),
            published("b", Some(key("3"))),
            published("c", None),
        ],
    };
    assert_eq!(jwks.find("b").unwrap().x, "2");
    assert!(jwks.find("c").is_none() && jwks.kid_present("c"));
    assert!(jwks.find("d").is_none() && !jwks.kid_present("d"));
}
