use ed25519_dalek::{Signature, Signer, SigningKey, Verifier, VerifyingKey};
use identity_aauth::config::{
    AauthConfig, AuthTokenConfig, ConfigError, ConfigStop, IdentifierCheck, PersonTokenConfig,
    RevokedToken,
};
use identity_aauth::error::{JwtError, JwtErrorKind, SigError, SigErrorCode};
use identity_aauth::headers::{field_value, has_any_signature, header_fields, lookup_header};
use identity_aauth::identity::{
    build_identity, error_response_headers, refused, resolve, resolved, Attributes, IdentityResolution, PluginIdentity, RequestMetadata,
    ResolveStep,
};
use identity_aauth::replay::ReplayGuard;
use identity_aauth::tokens::{
    AgentTokenClaims, AuthTokenClaims, Confirmation, DecodedJwt, Jwk, JwtHeader, ParsedSignature,
    PersonTokenClaims, SigKeyScheme, TYP_AGENT, TYP_AUTH, TYP_PERSON,
};
use identity_aauth::verification::{
    canonical_authority, claims_error, resolve_key, verify, Action, Evidence, KeyResolver, Outcome, Progress, RequestParts, VerifiedIdentity, VerifyPolicy,
};
use identity_aauth::AauthIdentityPlugin;
use serde_json::Value;

const ISS: &str = "https://ap.example";
const AUTHORITY: &str = "ap.example";
const SUB: &str = "aauth:k7q3p9n2@ap.example";
const PS_ISS: &str = "https://ps.example";
const RESOURCE_ID: &str = "https://gw.example";
const NOW: u64 = 1_700_000_000;

// --- encodings ---------------------------------------------------------------------

const B64: &[u8; 64] = b"ABCDEFGHIJKLMNOPQRSTUVWXYZabcdefghijklmnopqrstuvwxyz0123456789-_";

fn b64(data: &[u8]) -> String {
    let mut out = String::new();
    for chunk in data.chunks(3) {
        let mut n: u32 = 0;
        for i in 0..3 {
            n = n << 8 | u32::from(*chunk.get(i).unwrap_or(&0));
        }
        for i in 0..=chunk.len() {
            out.push(B64[(n >> (18 - 6 * i) & 63) as usize] as char);
        }
    }
    out
}

fn unb64(text: &str) -> Option<Vec<u8>> {
    let mut out = Vec::new();
    let mut n: u32 = 0;
    let mut bits = 0;
    for c in text.bytes() {
        n = n << 6 | B64.iter().position(|b| *b == c)? as u32;
        bits += 6;
        if bits >= 8 {
            bits -= 8;
            out.push((n >> bits) as u8);
            n &= (1 << bits) - 1;
        }
    }
    Some(out)
}

fn text(s: &str) -> Value {
    Value::String(s.to_owned())
}

fn object(members: Vec<(&str, Value)>) -> Value {
    Value::Object(members.into_iter().map(|(k, v)| (k.to_owned(), v)).collect())
}

/// An inner list of strings.
fn string_list(items: &[String]) -> String {
    let quoted: Vec<String> = items.iter().map(|s| format!("\"{s}\"")).collect();
    format!("({})", quoted.join(" "))
}

fn string(v: &Value, name: &str) -> Option<String> {
    v.get(name).and_then(|m| m.as_str()).map(|s| s.to_owned())
}

// --- keys and tokens ---------------------------------------------------------------

fn signing_key(seed: u8) -> SigningKey {
    SigningKey::from_bytes(&[seed; 32])
}

fn jwk_of(key: &SigningKey, kid: Option<&str>) -> Jwk {
    Jwk {
        kty: "OKP".to_owned(),
        crv: "Ed25519".to_owned(),
        x: b64(key.verifying_key().as_bytes()),
        y: None,
        alg: Some("Ed25519".to_owned()),
        kid: kid.map(|s| s.to_owned()),
    }
}

fn jwk_value(jwk: &Jwk) -> Value {
    let mut v = object(vec![("kty", text(&jwk.kty)), ("crv", text(&jwk.crv)), ("x", text(&jwk.x))]);
    if let Some(alg) = &jwk.alg {
        v["alg"] = text(alg);
    }
    v
}

fn sign_jwt(alg: &str, typ: &str, kid: &str, payload: &Value, key: &SigningKey) -> String {
    let header = object(vec![("alg", text(alg)), ("typ", text(typ)), ("kid", text(kid))]);
    let input = format!(
        "{}.{}",
        b64(header.to_string().as_bytes()),
        b64(payload.to_string().as_bytes())
    );
    let signature = key.sign(input.as_bytes());
    format!("{input}.{}", b64(&signature.to_bytes()))
}

fn decode_jwt(token: &str) -> Result<DecodedJwt, String> {
    let parts: Vec<&str> = token.split('.').collect();
    if parts.len() != 3 {
        return Err("Malformed".to_owned());
    }
    let json = |part: &str| -> Result<Value, String> {
        let bytes = unb64(part).ok_or("Malformed")?;
        serde_json::from_slice(&bytes).map_err(|_| "Malformed".to_owned())
    };
    let header = json(parts[0])?;
    Ok(DecodedJwt {
        header: JwtHeader {
            alg: string(&header, "alg").ok_or("Malformed")?,
            typ: string(&header, "typ"),
            kid: string(&header, "kid"),
        },
        payload: json(parts[1])?,
    })
}

fn check_alg(alg: &str) -> Result<(), String> {
    match alg {
        "Ed25519" | "ES256" => Ok(()),
        "Ed448" => Err("Ed448 is permitted but not implemented".to_owned()),
        _ => Err("unsupported algorithm".to_owned()),
    }
}

fn verifies(key: &Jwk, message: &[u8], signature: &[u8]) -> bool {
    let Some(bytes) = unb64(&key.x) else { return false };
    let Ok(bytes) = <[u8; 32]>::try_from(bytes) else { return false };
    let Ok(key) = VerifyingKey::from_bytes(&bytes) else { return false };
    match Signature::from_slice(signature) {
        Ok(signature) => key.verify(message, &signature).is_ok(),
        Err(_) => false,
    }
}

fn verify_jwt(token: &str, alg: &str, key: &Jwk) -> Result<(), JwtError> {
    let error = |kind, text: &str| Err(JwtError { kind, text: text.to_owned() });
    match &key.alg {
        None => return error(JwtErrorKind::KeyMissingAlg, "key has no alg"),
        Some(a) if a != alg => {
            return error(JwtErrorKind::UnsupportedAlgorithm, "alg differs from the key's");
        }
        Some(_) => {}
    }
    let (input, signature) = token.rsplit_once('.').unwrap();
    if verifies(key, input.as_bytes(), &unb64(signature).unwrap()) {
        Ok(())
    } else {
        error(JwtErrorKind::Other, "BadSignature")
    }
}

fn thumbprint(key: &Jwk) -> Option<String> {
    let canonical = format!("{{\"crv\":\"{}\",\"kty\":\"{}\",\"x\":\"{}\"}}", key.crv, key.kty, key.x);
    Some(b64(&<sha2::Sha256 as sha2::Digest>::digest(canonical.as_bytes())))
}

fn bare_origin(id: &str, insecure: bool) -> bool {
    let host = id.strip_prefix("https://").or_else(|| {
        if insecure { id.strip_prefix("http://") } else { None }
    });
    matches!(host, Some(h) if !h.is_empty() && !h.contains('/'))
}

// --- claims ------------------------------------------------------------------------

struct Common {
    iss: String,
    sub: String,
    jti: String,
    cnf: Confirmation,
    iat: u64,
    exp: u64,
}

fn common_claims(p: &Value, now: u64) -> Result<Common, String> {
    let claim = |name: &str| string(p, name).ok_or(format!("missing {name}"));
    let number = |name: &str| p.get(name).and_then(|v| v.as_u64()).ok_or(format!("missing {name}"));
    let exp = number("exp")?;
    if exp <= now {
        return Err("token expired".to_owned());
    }
    let jwk = p.get("cnf").and_then(|c| c.get("jwk")).ok_or("missing cnf.jwk")?;
    if string(jwk, "alg").as_deref() != Some("Ed25519") {
        return Err("cnf.jwk carries no fully-specified alg".to_owned());
    }
    Ok(Common {
        iss: claim("iss")?,
        sub: claim("sub")?,
        jti: claim("jti")?,
        cnf: Confirmation {
            jwk: Jwk {
                kty: string(jwk, "kty").ok_or("cnf.jwk")?,
                crv: string(jwk, "crv").ok_or("cnf.jwk")?,
                x: string(jwk, "x").ok_or("cnf.jwk")?,
                y: None,
                alg: string(jwk, "alg"),
                kid: None,
            },
        },
        iat: number("iat")?,
        exp,
    })
}

fn agent_claims(p: &Value, now: u64) -> Result<AgentTokenClaims, String> {
    let c = common_claims(p, now)?;
    Ok(AgentTokenClaims {
        iss: c.iss,
        sub: c.sub,
        jti: c.jti,
        cnf: c.cnf,
        iat: c.iat,
        exp: c.exp,
        ps: string(p, "ps"),
        parent_agent: string(p, "parent_agent"),
    })
}

fn audience(p: &Value, resource: &str) -> Result<String, String> {
    match string(p, "aud") {
        Some(aud) if aud == resource => Ok(aud),
        _ => Err("aud is not this resource".to_owned()),
    }
}

fn person_claims(p: &Value, now: u64, resource: &str) -> Result<PersonTokenClaims, String> {
    for forbidden in ["scope", "account"] {
        if p.get(forbidden).is_some() {
            return Err(format!("person token must not contain {forbidden}"));
        }
    }
    let aud = audience(p, resource)?;
    let c = common_claims(p, now)?;
    if c.exp - c.iat > 3600 {
        return Err("lifetime exceeds the 3600s ceiling".to_owned());
    }
    Ok(PersonTokenClaims {
        iss: c.iss,
        sub: c.sub,
        aud,
        jti: c.jti,
        cnf: c.cnf,
        iat: c.iat,
        exp: c.exp,
        mission_s256: string(p, "mission_s256"),
        tenant: string(p, "tenant"),
    })
}

fn auth_claims(p: &Value, now: u64, resource: &str, dwk: &str) -> Result<AuthTokenClaims, String> {
    let aud = audience(p, resource)?;
    let c = common_claims(p, now)?;
    let ps = string(p, "ps").ok_or("missing ps")?;
    if dwk == "aauth-person.json" && ps != c.iss {
        return Err("ps is not the issuer".to_owned());
    }
    Ok(AuthTokenClaims {
        iss: c.iss,
        sub: c.sub,
        aud,
        jti: c.jti,
        ps,
        cnf: c.cnf,
        iat: c.iat,
        exp: c.exp,
        scopes: string(p, "scope")
            .unwrap_or_default()
            .split_whitespace()
            .map(|s| s.to_owned())
            .collect(),
        account: string(p, "account"),
        mission_s256: string(p, "mission_s256"),
        tenant: string(p, "tenant"),
    })
}

// --- request signatures --------------------------------------------------------------

const REQUIRED: [&str; 4] = ["@method", "@authority", "@path", "signature-key"];

fn signature_base(
    components: &[String],
    params: &str,
    parts: &RequestParts,
    header: &dyn Fn(&str) -> Option<String>,
) -> String {
    let mut base = String::new();
    for c in components {
        let value = match c.as_str() {
            "@method" => parts.method.clone(),
            "@authority" => parts.authority.clone(),
            "@path" => parts.path.clone(),
            "@query" => parts.query.clone(),
            name => header(name).unwrap_or_default(),
        };
        base.push_str(&format!("\"{c}\": {value}\n"));
    }
    base.push_str(&format!("\"@signature-params\": {params}"));
    base
}

struct Parsed {
    signature: ParsedSignature,
    base: String,
    bytes: Vec<u8>,
}

fn parse_signature(parts: &RequestParts, policy: &VerifyPolicy) -> Result<Parsed, SigError> {
    let bad = |code, detail: &str| SigError::new(code, detail.to_owned());
    let get = |name: &str| {
        lookup_header(&parts.fields, name)
            .map(|v| v.to_owned())
            .ok_or(bad(SigErrorCode::InvalidRequest, "missing header"))
    };
    let (input, signature, key) = (get("signature-input")?, get("signature")?, get("signature-key")?);
    let params = input.strip_prefix("sig=").unwrap().to_owned();
    let (list, created) = params.split_once(";created=").unwrap();
    let components: Vec<String> = list
        .trim_matches(|c| c == '(' || c == ')')
        .split(' ')
        .map(|c| c.trim_matches('"').to_owned())
        .collect();
    let mut required: Vec<String> = REQUIRED.iter().map(|s| s.to_string()).collect();
    required.extend(policy.extra_required.iter().cloned());
    if required.iter().any(|r| !components.contains(r)) {
        let mut e = bad(SigErrorCode::InvalidInput, "missing components");
        e.required_input = Some(required);
        return Err(e);
    }
    let created: i64 = created.parse().unwrap();
    if (created - policy.now as i64).unsigned_abs() > policy.window_secs {
        return Err(bad(SigErrorCode::InvalidSignature, "created outside the window"));
    }
    let scheme = match key.strip_prefix("sig=jwt;jwt=\"") {
        Some(rest) => SigKeyScheme::Jwt(rest.trim_end_matches('"').to_owned()),
        None => SigKeyScheme::Other,
    };
    let header = |name: &str| lookup_header(&parts.fields, name).map(|v| v.to_owned());
    Ok(Parsed {
        base: signature_base(&components, &params, parts, &header),
        bytes: unb64(signature.strip_prefix("sig=:").unwrap().trim_end_matches(':')).unwrap(),
        signature: ParsedSignature { scheme, created },
    })
}

/// Signs a request and hands back its headers.
fn sign_headers(
    method: &str,
    authority: &str,
    path: &str,
    key_value: &str,
    key: &SigningKey,
) -> Vec<(String, String)> {
    let components: Vec<String> = REQUIRED.iter().map(|s| s.to_string()).collect();
    let list: Vec<String> = components.iter().map(|c| format!("\"{c}\"")).collect();
    let params = format!("({});created={NOW}", list.join(" "));
    let parts = RequestParts {
        method: method.to_owned(),
        authority: authority.to_owned(),
        path: path.to_owned(),
        query: String::new(),
        fields: Vec::new(),
    };
    let header = |_: &str| Some(key_value.to_owned());
    let signature = key.sign(signature_base(&components, &params, &parts, &header).as_bytes());
    vec![
        ("host".to_owned(), authority.to_owned()),
        ("signature-input".to_owned(), format!("sig={params}")),
        ("signature".to_owned(), format!("sig=:{}:", b64(&signature.to_bytes()))),
        ("signature-key".to_owned(), key_value.to_owned()),
    ]
}

fn jwt_value(token: &str) -> String {
    format!("sig=jwt;jwt=\"{token}\"")
}

// --- the driver ----------------------------------------------------------------------

struct StaticKeyResolver {
    key: Jwk,
}

impl KeyResolver for StaticKeyResolver {
    fn get_key(&self, _iss: &str, _dwk: &str, _kid: &str) -> Result<Jwk, SigError> {
        Ok(self.key.clone())
    }
    fn refresh_and_get(&self, _iss: &str, _dwk: &str, _kid: &str) -> Result<Jwk, SigError> {
        Ok(self.key.clone())
    }
}

struct Signed {
    headers: Vec<(String, String)>,
    resolver: StaticKeyResolver,
}

/// Performs actions, and keeps what the library does not hold.
struct Worker<'a> {
    headers: &'a [(String, String)],
    keys: &'a dyn KeyResolver,
    parsed: Option<Parsed>,
    token: String,
    asked: Vec<&'static str>,
}

struct Borrowed<'a>(&'a dyn KeyResolver);

impl KeyResolver for Borrowed<'_> {
    fn get_key(&self, iss: &str, dwk: &str, kid: &str) -> Result<Jwk, SigError> {
        self.0.get_key(iss, dwk, kid)
    }
    fn refresh_and_get(&self, iss: &str, dwk: &str, kid: &str) -> Result<Jwk, SigError> {
        self.0.refresh_and_get(iss, dwk, kid)
    }
}

impl<'a> Worker<'a> {
    fn new(headers: &'a [(String, String)], keys: &'a dyn KeyResolver) -> Self {
        Worker { headers, keys, parsed: None, token: String::new(), asked: Vec::new() }
    }

    fn perform(&mut self, action: Action, mut ev: Evidence) -> Evidence {
        if let Action::GetKey(_) | Action::RefreshKey(_) = &action {
            self.asked.push(if matches!(action, Action::GetKey(_)) { "key" } else { "refresh" });
            return resolve_key(&Borrowed(self.keys), &action, ev);
        }
        let decoded = || ev.token.as_ref().unwrap().as_ref().unwrap();
        match action {
            Action::ParseSignature { parts, policy } => {
                self.asked.push("signature");
                match parse_signature(&parts, &policy) {
                    Ok(parsed) => {
                        let scheme = match &parsed.signature.scheme {
                            SigKeyScheme::Jwt(t) => SigKeyScheme::Jwt(t.clone()),
                            SigKeyScheme::Other => SigKeyScheme::Other,
                        };
                        let created = parsed.signature.created;
                        ev.signature = Some(Ok(ParsedSignature { scheme, created }));
                        self.parsed = Some(parsed);
                    }
                    Err(e) => ev.signature = Some(Err(e)),
                }
            }
            Action::DecodeToken { token } => {
                self.asked.push("token");
                ev.token = Some(decode_jwt(&token));
                self.token = token;
            }
            Action::CheckAlgorithm { alg } => {
                self.asked.push("algorithm");
                ev.algorithm = Some(check_alg(&alg));
            }
            Action::CheckIssuer { iss, insecure_dev } => {
                self.asked.push("issuer");
                ev.issuer_valid = Some(bare_origin(&iss, insecure_dev));
            }
            Action::VerifyToken { key } => {
                self.asked.push("token signature");
                ev.token_signature = Some(verify_jwt(&self.token, &decoded().header.alg, &key));
            }
            Action::VerifyTokenAgain { key } => {
                self.asked.push("token signature again");
                ev.refreshed_signature = Some(verify_jwt(&self.token, &decoded().header.alg, &key));
            }
            Action::ValidateAgent { now, .. } => {
                self.asked.push("claims");
                ev.agent_claims = Some(agent_claims(&decoded().payload, now));
            }
            Action::ValidatePerson { now, resource_id, .. } => {
                self.asked.push("claims");
                ev.person_claims = Some(person_claims(&decoded().payload, now, &resource_id));
            }
            Action::ValidateAuth { now, resource_id, dwk, .. } => {
                self.asked.push("claims");
                ev.auth_claims = Some(auth_claims(&decoded().payload, now, &resource_id, &dwk));
            }
            Action::VerifyPossession { key } => {
                self.asked.push("possession");
                let parsed = self.parsed.as_ref().unwrap();
                ev.possession = Some(if verifies(&key, parsed.base.as_bytes(), &parsed.bytes) {
                    Ok(())
                } else {
                    Err(SigError::new(SigErrorCode::InvalidSignature, "bad signature".to_owned()))
                });
            }
            Action::Thumbprint { key } => {
                self.asked.push("thumbprint");
                ev.thumbprint = Some(thumbprint(&key));
            }
            Action::GetKey(_) | Action::RefreshKey(_) => unreachable!(),
        }
        ev
    }

    fn run(
        &mut self,
        method: &str,
        path: &str,
        cfg: &AauthConfig,
        replay: &mut Option<ReplayGuard>,
    ) -> Outcome {
        let mut evidence = Evidence::new();
        loop {
            match verify(self.headers, method, AUTHORITY, path, "", cfg, evidence, replay, NOW) {
                Progress::Done(outcome) => return outcome,
                Progress::Needs(action, kept) => evidence = self.perform(action, *kept),
            }
        }
    }
}

fn run(s: &Signed, method: &str, path: &str, cfg: &AauthConfig) -> Outcome {
    Worker::new(&s.headers, &s.resolver).run(method, path, cfg, &mut None)
}

fn rejection(out: Outcome) -> SigError {
    match out {
        Outcome::Rejected(e) => e,
        other => panic!("expected rejection, got {}", outcome_name(&other)),
    }
}

fn outcome_name(o: &Outcome) -> String {
    match o {
        Outcome::Verified(_) => "verified".into(),
        Outcome::NoCredential => "no-credential".into(),
        Outcome::Rejected(e) => format!("rejected({}: {})", e.code.as_str(), e.detail),
    }
}

// --- signed requests ---------------------------------------------------------------

fn agent_payload(dwk: &str, sub: &str, iat_offset: i64, exp_offset: i64, cnf: Value) -> Value {
    object(vec![
        ("iss", text(ISS)),
        ("dwk", text(dwk)),
        ("sub", text(sub)),
        ("jti", text("jti-1")),
        ("cnf", object(vec![("jwk", cnf)])),
        ("iat", Value::from(NOW as i64 + iat_offset)),
        ("exp", Value::from(NOW as i64 + exp_offset)),
    ])
}

#[allow(clippy::too_many_arguments)]
fn sign_request_full(
    method: &str,
    authority: &str,
    path: &str,
    dwk: &str,
    typ: &str,
    sub: &str,
    iat_offset: i64,
    exp_offset: i64,
    use_hwk_scheme: bool,
) -> Signed {
    let issuer_key = signing_key(1);
    let agent_key = signing_key(2);
    let cnf = jwk_value(&jwk_of(&agent_key, None));
    let payload = agent_payload(dwk, sub, iat_offset, exp_offset, cnf);
    let token = sign_jwt("Ed25519", typ, "k1", &payload, &issuer_key);
    let key_value = if use_hwk_scheme {
        format!("sig=hwk;x=\"{}\"", jwk_of(&agent_key, None).x)
    } else {
        jwt_value(&token)
    };
    Signed {
        headers: sign_headers(method, authority, path, &key_value, &agent_key),
        resolver: StaticKeyResolver { key: jwk_of(&issuer_key, Some("k1")) },
    }
}

fn signed_with_algs(alg: &str, cnf_alg: Option<&str>, method: &str, path: &str) -> Signed {
    let issuer_key = signing_key(1);
    let agent_key = signing_key(2);
    let mut cnf = jwk_of(&agent_key, None);
    cnf.alg = cnf_alg.map(|s| s.to_owned());
    let payload = agent_payload("aauth-agent.json", SUB, 0, 3600, jwk_value(&cnf));
    let token = sign_jwt(alg, TYP_AGENT, "k1", &payload, &issuer_key);
    Signed {
        headers: sign_headers(method, AUTHORITY, path, &jwt_value(&token), &agent_key),
        resolver: StaticKeyResolver { key: jwk_of(&issuer_key, Some("k1")) },
    }
}

fn valid(method: &str, path: &str) -> Signed {
    sign_request_full(
        method, AUTHORITY, path, "aauth-agent.json", TYP_AGENT, SUB, 0, 3600, false,
    )
}

/// Validates a configuration, answering every verdict that it asks for.
fn validated(cfg: AauthConfig) -> AauthConfig {
    let mut known: Vec<IdentifierCheck> = Vec::new();
    loop {
        match cfg.validate(&known) {
            None => return cfg,
            Some(ConfigStop::Invalid(e)) => panic!("{}", e.message()),
            Some(ConfigStop::Needs(identifier)) => {
                let valid = bare_origin(&identifier, cfg.insecure_dev_mode);
                let error = if valid { None } else { Some("malformed".to_owned()) };
                known.push(IdentifierCheck { identifier, error });
            }
        }
    }
}

fn cfg() -> AauthConfig {
    validated(AauthConfig { trusted_issuers: vec![ISS.to_owned()], ..AauthConfig::default() })
}

fn person_cfg() -> AauthConfig {
    validated(AauthConfig {
        trusted_issuers: vec![ISS.to_owned()],
        person_tokens: PersonTokenConfig {
            enabled: true,
            resource_identifier: Some(RESOURCE_ID.to_owned()),
            trusted_person_servers: vec![PS_ISS.to_owned()],
        },
        ..AauthConfig::default()
    })
}

fn auth_cfg() -> AauthConfig {
    validated(AauthConfig {
        auth_tokens: AuthTokenConfig { enabled: true, ..AuthTokenConfig::default() },
        ..person_cfg()
    })
}

fn sign_ps_request(typ: &str, payload: &Value) -> Signed {
    let ps_key = signing_key(3);
    let token = sign_jwt("Ed25519", typ, "ps1", payload, &ps_key);
    Signed {
        headers: sign_headers("POST", AUTHORITY, "/mcp", &jwt_value(&token), &signing_key(4)),
        resolver: StaticKeyResolver { key: jwk_of(&ps_key, Some("ps1")) },
    }
}

fn sign_person_request(aud: &str, lifetime: i64, mutate: impl FnOnce(&mut Value)) -> Signed {
    let cnf = jwk_value(&jwk_of(&signing_key(4), None));
    let mut payload = object(vec![
        ("iss", text(PS_ISS)),
        ("dwk", text("aauth-person.json")),
        ("aud", text(aud)),
        ("sub", text("8f14e45fceea167a5a36dedd4bea2543")),
        ("cnf", object(vec![("jwk", cnf)])),
        ("jti", text("pt-1")),
        ("iat", Value::from(NOW)),
        ("exp", Value::from(NOW as i64 + lifetime)),
    ]);
    mutate(&mut payload);
    sign_ps_request(TYP_PERSON, &payload)
}

fn sign_auth_request(mutate: impl FnOnce(&mut Value)) -> Signed {
    let cnf = jwk_value(&jwk_of(&signing_key(4), None));
    let mut payload = object(vec![
        ("iss", text(PS_ISS)),
        ("dwk", text("aauth-person.json")),
        ("aud", text(RESOURCE_ID)),
        ("jti", text("at-1")),
        ("ps", text(PS_ISS)),
        ("sub", text("8f14e45fceea167a5a36dedd4bea2543")),
        ("cnf", object(vec![("jwk", cnf)])),
        ("iat", Value::from(NOW)),
        ("exp", Value::from(NOW + 900)),
        ("scope", text("tools:read tools:write")),
    ]);
    mutate(&mut payload);
    sign_ps_request(TYP_AUTH, &payload)
}

fn identity_kind(v: &VerifiedIdentity) -> &'static str {
    match v {
        VerifiedIdentity::Agent(_) => "agent",
        VerifiedIdentity::Person(_) => "person",
        VerifiedIdentity::Auth(_) => "auth",
    }
}

fn verified(out: Outcome) -> VerifiedIdentity {
    match out {
        Outcome::Verified(v) => *v,
        other => panic!("expected verified, got {}", outcome_name(&other)),
    }
}

fn expect_agent(out: Outcome) -> AgentTokenClaims {
    match verified(out) {
        VerifiedIdentity::Agent(claims) => claims,
        other => panic!("expected agent, got {}", identity_kind(&other)),
    }
}

fn expect_person(out: Outcome) -> PersonTokenClaims {
    match verified(out) {
        VerifiedIdentity::Person(claims) => claims,
        other => panic!("expected person, got {}", identity_kind(&other)),
    }
}

// --- agent tokens --------------------------------------------------------------------

#[test]
fn happy_path_verifies_and_maps_sub() {
    let s = valid("POST", "/mcp");
    let claims = expect_agent(run(&s, "POST", "/mcp", &cfg()));
    assert_eq!(claims.sub, SUB);
    assert_eq!(claims.iss, ISS);
}

#[test]
fn no_signature_headers_is_no_credential() {
    let s = Signed {
        headers: vec![("host".to_string(), AUTHORITY.to_string())],
        resolver: StaticKeyResolver { key: jwk_of(&signing_key(1), None) },
    };
    assert!(matches!(run(&s, "POST", "/mcp", &cfg()), Outcome::NoCredential));
}

#[test]
fn untrusted_issuer_rejected() {
    let s = valid("POST", "/mcp");
    let other = validated(AauthConfig {
        trusted_issuers: vec!["https://evil.example".to_owned()],
        ..AauthConfig::default()
    });
    let e = rejection(run(&s, "POST", "/mcp", &other));
    assert_eq!(e.code.as_str(), "invalid_key");
    assert_eq!(
        e.detail,
        "issuer 'https://ap.example' is not in the trusted Agent-Provider allow-list"
    );
}

#[test]
fn tampered_path_rejected() {
    let s = valid("POST", "/mcp");
    assert_eq!(rejection(run(&s, "POST", "/admin", &cfg())).code.as_str(), "invalid_signature");
}

#[test]
fn tampered_method_rejected() {
    let s = valid("POST", "/mcp");
    assert_eq!(rejection(run(&s, "GET", "/mcp", &cfg())).code.as_str(), "invalid_signature");
}

#[test]
fn expired_token_rejected() {
    let s = sign_request_full(
        "POST", AUTHORITY, "/mcp", "aauth-agent.json", TYP_AGENT, SUB, -7200, -3600, false,
    );
    let e = rejection(run(&s, "POST", "/mcp", &cfg()));
    assert_eq!(e.code.as_str(), "expired_jwt", "detail: {}", e.detail);
    assert_eq!(e.detail, "agent token rejected: token expired");
}

#[test]
fn wrong_typ_rejected() {
    let s = sign_request_full(
        "POST", AUTHORITY, "/mcp", "aauth-agent.json", "aa-auth+jwt", SUB, 0, 3600, false,
    );
    assert_eq!(rejection(run(&s, "POST", "/mcp", &cfg())).code.as_str(), "invalid_jwt");
}

#[test]
fn unknown_typ_rejected() {
    let s = sign_request_full(
        "POST", AUTHORITY, "/mcp", "aauth-agent.json", "aa-resource+jwt", SUB, 0, 3600, false,
    );
    let e = rejection(run(&s, "POST", "/mcp", &auth_cfg()));
    assert_eq!(e.code.as_str(), "invalid_jwt");
    assert_eq!(
        e.detail,
        "unsupported Signature-Key JWT typ 'aa-resource+jwt' (expected aa-agent+jwt, \
         aa-person+jwt or aa-auth+jwt)"
    );
}

#[test]
fn wrong_dwk_rejected_before_fetch() {
    let s = sign_request_full(
        "POST", AUTHORITY, "/mcp", "../secrets", TYP_AGENT, SUB, 0, 3600, false,
    );
    let mut worker = Worker::new(&s.headers, &s.resolver);
    let e = rejection(worker.run("POST", "/mcp", &cfg(), &mut None));
    assert_eq!(e.code.as_str(), "invalid_jwt");
    assert!(e.detail.contains("dwk"), "detail: {}", e.detail);
    assert_eq!(
        e.detail,
        "agent token `dwk` must be 'aauth-agent.json', got '../secrets'"
    );
    assert!(!worker.asked.contains(&"key"));
}

#[test]
fn non_jwt_scheme_rejected_as_unsupported_scheme() {
    let s = sign_request_full(
        "POST", AUTHORITY, "/mcp", "aauth-agent.json", TYP_AGENT, SUB, 0, 3600, true,
    );
    assert_eq!(rejection(run(&s, "POST", "/mcp", &cfg())).code.as_str(), "unsupported_scheme");
}

#[test]
fn overlong_token_lifetime_rejected() {
    let s = sign_request_full(
        "POST", AUTHORITY, "/mcp", "aauth-agent.json", TYP_AGENT, SUB, 0, 25 * 3600, false,
    );
    let e = rejection(run(&s, "POST", "/mcp", &cfg()));
    assert_eq!(e.code.as_str(), "invalid_jwt");
    assert!(e.detail.contains("ceiling"), "detail: {}", e.detail);
    assert_eq!(e.detail, "agent token lifetime exceeds the 86400s ceiling");
    let s = sign_request_full(
        "POST", AUTHORITY, "/mcp", "aauth-agent.json", TYP_AGENT, SUB, 0, 24 * 3600, false,
    );
    expect_agent(run(&s, "POST", "/mcp", &cfg()));
}

#[test]
fn ed25519_agent_token_accepted() {
    let s = signed_with_algs("Ed25519", Some("Ed25519"), "POST", "/mcp");
    assert_eq!(expect_agent(run(&s, "POST", "/mcp", &cfg())).sub, SUB);
}

#[test]
fn forbidden_agent_token_algs_rejected() {
    for alg in ["EdDSA", "none", "HS256", "HS512", "RS256", "ES256"] {
        let s = signed_with_algs(alg, Some("Ed25519"), "POST", "/mcp");
        let mut worker = Worker::new(&s.headers, &s.resolver);
        let e = rejection(worker.run("POST", "/mcp", &cfg(), &mut None));
        assert_eq!(
            e.code.as_str(),
            "unsupported_algorithm",
            "alg {alg} — detail: {}",
            e.detail
        );
        assert_eq!(worker.asked.contains(&"key"), alg == "ES256", "alg {alg}");
    }
}

#[test]
fn ed448_agent_token_reports_unimplemented() {
    let s = signed_with_algs("Ed448", Some("Ed25519"), "POST", "/mcp");
    let e = rejection(run(&s, "POST", "/mcp", &cfg()));
    assert_eq!(e.code.as_str(), "unsupported_algorithm");
    assert!(e.detail.contains("Ed448"), "detail: {}", e.detail);
}

#[test]
fn cnf_jwk_without_fully_specified_alg_rejected() {
    for cnf_alg in [None, Some("EdDSA"), Some("HS256")] {
        let s = signed_with_algs("Ed25519", cnf_alg, "POST", "/mcp");
        let e = rejection(run(&s, "POST", "/mcp", &cfg()));
        assert_eq!(e.code.as_str(), "invalid_jwt", "cnf alg {cnf_alg:?}");
        assert!(e.detail.contains("cnf.jwk"), "detail: {}", e.detail);
    }
}

#[test]
fn missing_required_extra_component_rejected() {
    let s = valid("POST", "/mcp");
    let strict = validated(AauthConfig {
        additional_covered_components: vec!["content-digest".to_owned()],
        ..cfg()
    });
    assert_eq!(rejection(run(&s, "POST", "/mcp", &strict)).code.as_str(), "invalid_input");
}

#[test]
fn missing_authority_rejected() {
    let s = valid("POST", "/mcp");
    let step = verify(
        &s.headers, "POST", "", "/mcp", "", &cfg(), Evidence::new(), &mut None, NOW,
    );
    match step {
        Progress::Done(Outcome::Rejected(e)) => {
            assert_eq!(e.code.as_str(), "invalid_request");
            assert_eq!(e.detail, "missing Host / @authority to verify the signature against");
        }
        other => panic!("{other:?}"),
    }
}

#[test]
fn tokens_without_names_rejected() {
    let agent = signing_key(2);
    let cnf = jwk_value(&jwk_of(&agent, None));
    let mut payload = agent_payload("aauth-agent.json", SUB, 0, 3600, cnf);
    payload.as_object_mut().unwrap().remove("iss");
    let token = sign_jwt("Ed25519", TYP_AGENT, "k1", &payload, &signing_key(1));
    let s = Signed {
        headers: sign_headers("POST", AUTHORITY, "/mcp", &jwt_value(&token), &agent),
        resolver: StaticKeyResolver { key: jwk_of(&signing_key(1), Some("k1")) },
    };
    let e = rejection(run(&s, "POST", "/mcp", &cfg()));
    assert_eq!((e.code.as_str(), e.detail.as_str()), ("invalid_jwt", "agent token has no `iss`"));

    let mut ev = Evidence::new();
    ev.signature = Some(Ok(ParsedSignature {
        scheme: SigKeyScheme::Jwt("t".to_owned()),
        created: NOW as i64,
    }));
    ev.token = Some(Ok(DecodedJwt {
        header: JwtHeader {
            alg: "Ed25519".to_owned(),
            typ: Some(TYP_PERSON.to_owned()),
            kid: None,
        },
        payload: object(vec![("iss", text(PS_ISS))]),
    }));
    ev.algorithm = Some(Ok(()));
    let step =
        verify(&s.headers, "POST", AUTHORITY, "/mcp", "", &person_cfg(), ev, &mut None, NOW);
    match step {
        Progress::Done(Outcome::Rejected(e)) => {
            assert_eq!(e.detail, "person token header has no `kid`");
        }
        other => panic!("{other:?}"),
    }
}

#[test]
fn malformed_tokens_and_issuers_rejected() {
    let s = Signed {
        headers: sign_headers("POST", AUTHORITY, "/mcp", &jwt_value("junk"), &signing_key(2)),
        resolver: StaticKeyResolver { key: jwk_of(&signing_key(1), Some("k1")) },
    };
    let e = rejection(run(&s, "POST", "/mcp", &cfg()));
    assert_eq!(
        (e.code.as_str(), e.detail.as_str()),
        ("invalid_jwt", "malformed AAuth token: Malformed")
    );

    let agent = signing_key(2);
    let cnf = jwk_value(&jwk_of(&agent, None));
    let mut payload = agent_payload("aauth-agent.json", SUB, 0, 3600, cnf);
    payload["iss"] = text("https://ap.example/x");
    let token = sign_jwt("Ed25519", TYP_AGENT, "k1", &payload, &signing_key(1));
    let s = Signed {
        headers: sign_headers("POST", AUTHORITY, "/mcp", &jwt_value(&token), &agent),
        resolver: s.resolver,
    };
    let any = AauthConfig { allow_any_issuer: true, ..AauthConfig::default() };
    let e = rejection(run(&s, "POST", "/mcp", &any));
    assert_eq!(
        (e.code.as_str(), e.detail.as_str()),
        (
            "invalid_key",
            "issuer 'https://ap.example/x' is not a valid AAuth server identifier"
        )
    );
}

// --- keys ----------------------------------------------------------------------------

/// Holds one key at first and another when asked anew.
struct Rekeyed {
    first: Result<Jwk, SigError>,
    second: Result<Jwk, SigError>,
}

impl KeyResolver for Rekeyed {
    fn get_key(&self, iss: &str, dwk: &str, kid: &str) -> Result<Jwk, SigError> {
        assert_eq!((iss, dwk, kid), (ISS, "aauth-agent.json", "k1"));
        self.first.clone()
    }
    fn refresh_and_get(&self, iss: &str, dwk: &str, kid: &str) -> Result<Jwk, SigError> {
        assert_eq!((iss, dwk, kid), (ISS, "aauth-agent.json", "k1"));
        self.second.clone()
    }
}

#[test]
fn replaced_key_is_fetched_once() {
    let s = valid("POST", "/mcp");
    let keys = Rekeyed {
        first: Ok(jwk_of(&signing_key(9), Some("k1"))),
        second: Ok(jwk_of(&signing_key(1), Some("k1"))),
    };
    let mut worker = Worker::new(&s.headers, &keys);
    expect_agent(worker.run("POST", "/mcp", &cfg(), &mut None));
    assert_eq!(
        worker.asked,
        [
            "signature", "token", "algorithm", "issuer", "key", "token signature", "refresh",
            "token signature again", "claims", "possession"
        ]
    );
}

#[test]
fn key_failures_keep_their_codes() {
    let unknown = || Err(SigError::new(SigErrorCode::UnknownKey, "no such key".to_owned()));
    let wrong = || Ok(jwk_of(&signing_key(9), Some("k1")));
    let alg = |alg: Option<&str>| {
        Ok(Jwk { alg: alg.map(|s| s.to_owned()), ..jwk_of(&signing_key(1), Some("k1")) })
    };
    for (first, second, code, detail) in [
        (unknown(), wrong(), "unknown_key", "no such key"),
        (wrong(), unknown(), "unknown_key", "no such key"),
        (wrong(), wrong(), "invalid_jwt", "token signature invalid: BadSignature"),
        (wrong(), alg(None), "unsupported_algorithm", "issuer key: key has no alg"),
        (
            wrong(),
            alg(Some("ES256")),
            "unsupported_algorithm",
            "issuer key: alg differs from the key's",
        ),
    ] {
        let s = valid("POST", "/mcp");
        let mut worker = Worker::new(&s.headers, &s.resolver);
        let keys = Rekeyed { first, second };
        worker.keys = &keys;
        let e = rejection(worker.run("POST", "/mcp", &cfg(), &mut None));
        assert_eq!((e.code.as_str(), e.detail.as_str()), (code, detail));
    }
}

#[test]
fn inconsistent_issuer_key_is_an_invalid_key() {
    for (kind, code, prefix) in [
        (JwtErrorKind::InconsistentKey, "invalid_key", "issuer key: e"),
        (JwtErrorKind::UnimplementedAlgorithmEd448, "unsupported_algorithm", "issuer key: e"),
        (JwtErrorKind::Other, "invalid_jwt", "token signature invalid: e"),
    ] {
        let s = valid("POST", "/mcp");
        let mut evidence = Evidence::new();
        let mut worker = Worker::new(&s.headers, &s.resolver);
        let outcome = loop {
            let step =
                verify(&s.headers, "POST", AUTHORITY, "/mcp", "", &cfg(), evidence, &mut None, NOW);
            match step {
                Progress::Done(outcome) => break outcome,
                Progress::Needs(action, kept) => {
                    evidence = *kept;
                    let failed = || Some(Err(JwtError { kind, text: "e".to_owned() }));
                    match action {
                        Action::VerifyToken { .. } => evidence.token_signature = failed(),
                        Action::VerifyTokenAgain { .. } => evidence.refreshed_signature = failed(),
                        other => evidence = worker.perform(other, evidence),
                    }
                }
            }
        };
        let e = rejection(outcome);
        assert_eq!((e.code.as_str(), e.detail.as_str()), (code, prefix));
    }
}

// --- person tokens -------------------------------------------------------------------

#[test]
fn person_token_happy_path() {
    let s = sign_person_request(RESOURCE_ID, 1800, |c| {
        c["mission_s256"] = text("dBjftJeZ4CVP-mB92K27uhbUJU1p1r_wW1gFWFOEjXk");
        c["tenant"] = text("corp");
    });
    let claims = expect_person(run(&s, "POST", "/mcp", &person_cfg()));
    assert_eq!(claims.iss, PS_ISS);
    assert_eq!(claims.aud, RESOURCE_ID);
    assert_eq!(
        claims.mission_s256.as_deref(),
        Some("dBjftJeZ4CVP-mB92K27uhbUJU1p1r_wW1gFWFOEjXk")
    );
    assert_eq!(claims.tenant.as_deref(), Some("corp"));
}

#[test]
fn person_token_rejected_when_mode_is_off() {
    let s = sign_person_request(RESOURCE_ID, 1800, |_| {});
    let e = rejection(run(&s, "POST", "/mcp", &cfg()));
    assert_eq!(e.code.as_str(), "invalid_jwt");
    assert!(e.detail.contains("not accepted"), "detail: {}", e.detail);
}

#[test]
fn person_token_wrong_aud_rejected() {
    let s = sign_person_request("https://other.example", 1800, |_| {});
    let e = rejection(run(&s, "POST", "/mcp", &person_cfg()));
    assert_eq!(e.code.as_str(), "invalid_jwt");
    assert!(e.detail.contains("aud"), "detail: {}", e.detail);
}

#[test]
fn person_token_from_untrusted_ps_rejected() {
    let mut cfg = person_cfg();
    cfg.person_tokens.trusted_person_servers = vec!["https://elsewhere.example".to_owned()];
    let s = sign_person_request(RESOURCE_ID, 1800, |_| {});
    let e = rejection(run(&s, "POST", "/mcp", &cfg));
    assert_eq!(e.code.as_str(), "invalid_key");
    assert_eq!(
        e.detail,
        "person server 'https://ps.example' is not in the trusted_person_servers allow-list"
    );
}

#[test]
fn person_token_with_forbidden_scope_claim_rejected() {
    let s = sign_person_request(RESOURCE_ID, 1800, |c| {
        c["scope"] = text("data.read");
    });
    let e = rejection(run(&s, "POST", "/mcp", &person_cfg()));
    assert!(e.detail.contains("scope"), "detail: {}", e.detail);
}

#[test]
fn person_token_lifetime_over_one_hour_rejected() {
    let s = sign_person_request(RESOURCE_ID, 2 * 3600, |_| {});
    let e = rejection(run(&s, "POST", "/mcp", &person_cfg()));
    assert!(e.detail.contains("ceiling"), "detail: {}", e.detail);
}

#[test]
fn agent_token_still_verifies_with_person_mode_on() {
    let s = valid("POST", "/mcp");
    assert_eq!(expect_agent(run(&s, "POST", "/mcp", &person_cfg())).sub, SUB);
}

// --- replay and revocation -------------------------------------------------------------

#[test]
fn replay_guard_rejects_second_presentation() {
    let s = valid("POST", "/mcp");
    let mut guard = Some(ReplayGuard::new());
    let cfg = cfg();
    let mut present = || Worker::new(&s.headers, &s.resolver).run("POST", "/mcp", &cfg, &mut guard);
    assert!(matches!(present(), Outcome::Verified(_)));
    let e = rejection(present());
    assert_eq!(e.code.as_str(), "invalid_signature");
    assert!(e.detail.contains("replayed"), "detail: {}", e.detail);
}

#[test]
fn refused_request_is_not_remembered() {
    let s = valid("POST", "/mcp");
    let mut guard = Some(ReplayGuard::new());
    let mut strict = cfg();
    strict.revoked_tokens = vec![RevokedToken { iss: ISS.to_owned(), jti: "jti-1".to_owned() }];
    let mut worker = Worker::new(&s.headers, &s.resolver);
    assert!(rejection(worker.run("POST", "/mcp", &strict, &mut guard)).detail.contains("revoked"));
    assert!(matches!(worker.run("POST", "/mcp", &cfg(), &mut guard), Outcome::Verified(_)));
}

#[test]
fn replay_allowed_when_protection_off() {
    let s = valid("POST", "/mcp");
    let cfg = cfg();
    for _ in 0..2 {
        assert!(matches!(run(&s, "POST", "/mcp", &cfg), Outcome::Verified(_)));
    }
}

#[test]
fn revoked_token_rejected() {
    let mut cfg = cfg();
    cfg.revoked_tokens = vec![RevokedToken { iss: ISS.to_owned(), jti: "jti-1".to_owned() }];
    let s = valid("POST", "/mcp");
    let e = rejection(run(&s, "POST", "/mcp", &cfg));
    assert!(e.detail.contains("revoked"), "detail: {}", e.detail);
    assert_eq!(e.detail, "agent token is revoked");
    cfg.revoked_tokens[0].jti = "other".to_owned();
    assert!(matches!(run(&s, "POST", "/mcp", &cfg), Outcome::Verified(_)));
}

// --- auth tokens ---------------------------------------------------------------------

#[test]
fn auth_token_happy_path_yields_scopes() {
    let s = sign_auth_request(|c| {
        c["account"] = text("ws-42");
    });
    match verified(run(&s, "POST", "/mcp", &auth_cfg())) {
        VerifiedIdentity::Auth(claims) => {
            assert_eq!(claims.scopes, vec!["tools:read", "tools:write"]);
            assert_eq!(claims.account.as_deref(), Some("ws-42"));
            assert_eq!(claims.ps, PS_ISS);
        }
        _ => panic!("expected auth identity"),
    }
}

#[test]
fn auth_token_of_an_access_server() {
    let mut cfg = auth_cfg();
    cfg.auth_tokens.trusted_access_servers = vec!["https://as.example".to_owned()];
    let s = sign_auth_request(|c| {
        c["iss"] = text("https://as.example");
        c["dwk"] = text("aauth-access.json");
    });
    assert_eq!(identity_kind(&verified(run(&s, "POST", "/mcp", &cfg))), "auth");
    // An access server does not publish its keys as a person server does.
    let s = sign_auth_request(|c| {
        c["iss"] = text("https://as.example");
    });
    assert_eq!(
        rejection(run(&s, "POST", "/mcp", &cfg)).detail,
        "auth token `dwk` must be 'aauth-access.json', got 'aauth-person.json'"
    );
}

fn plugin(cfg: AauthConfig) -> AauthIdentityPlugin {
    let known = [ISS, PS_ISS, RESOURCE_ID]
        .iter()
        .map(|s| IdentifierCheck { identifier: s.to_string(), error: None })
        .collect();
    match AauthIdentityPlugin::from_config(cfg, &known) {
        Ok(plugin) => plugin,
        Err(stop) => panic!("{stop:?}"),
    }
}

fn mapped(s: &Signed, cfg: AauthConfig) -> PluginIdentity {
    let mut plugin = plugin(cfg);
    let out = Worker::new(&s.headers, &s.resolver).run(
        "POST",
        "/mcp",
        &plugin.config,
        &mut plugin.replay,
    );
    build_identity(&plugin.config, verified(out), thumbprint(&jwk_of(&signing_key(4), None)))
}

fn attribute(id: &PluginIdentity, name: &str) -> Option<String> {
    id.attributes.get(name)
}

#[test]
fn auth_token_identity_mapping() {
    let s = sign_auth_request(|_| {});
    let id = mapped(&s, auth_cfg());
    assert_eq!(id.scopes, vec!["tools:read", "tools:write"]);
    assert_eq!(id.issuer.as_deref(), Some(PS_ISS));
    assert_eq!(attribute(&id, "aauth.token_type").unwrap(), "auth");
    assert_eq!(attribute(&id, "aauth.ps").unwrap(), PS_ISS);
    assert_eq!(attribute(&id, "aauth.jti").unwrap(), "at-1");
    assert_eq!(attribute(&id, "aauth.agent_jkt").unwrap().len(), 43, "base64url SHA-256");
    assert_eq!(attribute(&id, "aauth.exp").unwrap(), "1700000900");
    assert_eq!((id.kind.as_str(), id.trust_level.as_str()), ("verified", "verified"));
    assert_eq!(id.auth_provider.as_deref(), Some("aauth"));
    assert_eq!(id.subject_id.as_deref(), Some("8f14e45fceea167a5a36dedd4bea2543"));
    assert!(id.roles.is_empty() && id.groups.is_empty());
}

#[test]
fn auth_token_rejected_when_mode_off() {
    let s = sign_auth_request(|_| {});
    let e = rejection(run(&s, "POST", "/mcp", &person_cfg()));
    assert!(e.detail.contains("auth_tokens.enabled"), "detail: {}", e.detail);
}

#[test]
fn auth_token_from_untrusted_issuer_rejected() {
    let s = sign_auth_request(|c| {
        c["iss"] = text("https://rogue.example");
        c["ps"] = text("https://rogue.example");
    });
    let e = rejection(run(&s, "POST", "/mcp", &auth_cfg()));
    assert_eq!(e.code.as_str(), "invalid_key");
    assert_eq!(
        e.detail,
        "auth-token issuer 'https://rogue.example' is neither a trusted person server nor a \
         trusted access server"
    );
}

#[test]
fn auth_token_wrong_aud_rejected() {
    let s = sign_auth_request(|c| {
        c["aud"] = text("https://other.example");
    });
    let e = rejection(run(&s, "POST", "/mcp", &auth_cfg()));
    assert!(e.detail.contains("aud"), "detail: {}", e.detail);
}

#[test]
fn person_identity_carries_thumbprint_and_expiry() {
    let s = sign_person_request(RESOURCE_ID, 1800, |_| {});
    let id = mapped(&s, person_cfg());
    assert_eq!(attribute(&id, "aauth.token_type").unwrap(), "person");
    assert_eq!(attribute(&id, "aauth.ps").unwrap(), PS_ISS);
    assert_eq!(attribute(&id, "aauth.jti").unwrap(), "pt-1");
    assert_eq!(attribute(&id, "aauth.agent_jkt").unwrap().len(), 43);
    assert_eq!(attribute(&id, "aauth.exp").unwrap(), "1700001800");
    assert!(id.scopes.is_empty(), "a person token grants no scopes");
}

#[test]
fn agent_identity_without_thumbprint() {
    let s = valid("POST", "/mcp");
    let id = build_identity(&cfg(), verified(run(&s, "POST", "/mcp", &cfg())), None);
    let mut entries = id.attributes.into_entries();
    entries.sort();
    let expected = [
        ("aauth.exp", "1700003600"),
        ("aauth.jti", "jti-1"),
        ("aauth.token_type", "agent"),
    ];
    assert_eq!(
        entries,
        expected.map(|(k, v)| (k.to_owned(), v.to_owned())).to_vec()
    );
}

#[test]
fn attributes_hold_one_value_for_a_name() {
    let mut attributes = Attributes::new();
    attributes.insert("a", "1".to_owned());
    attributes.insert("b", "2".to_owned());
    attributes.insert("a", "3".to_owned());
    assert_eq!(attributes.get("a").as_deref(), Some("3"));
    assert_eq!(attributes.get("c"), None);
    assert_eq!(attributes.into_entries().len(), 2);
}

// --- refusals ------------------------------------------------------------------------

fn pair(name: &str, value: &str) -> (String, String) {
    (name.to_owned(), value.to_owned())
}

#[test]
fn error_headers_carry_signature_error_and_recovery_hints() {
    let headers = |code, detail: &str| {
        error_response_headers(&SigError::new(code, detail.to_owned()), "")
    };
    let plain = headers(SigErrorCode::ExpiredJwt, "agent token expired");
    assert_eq!(plain, vec![pair("signature-error", "error=expired_jwt")]);

    let scheme = headers(SigErrorCode::UnsupportedScheme, "hwk is not AAuth");
    assert!(scheme.contains(&pair("signature-error", "error=unsupported_scheme")));
    assert!(scheme.contains(&pair("accept-signature-scheme", "jwt")));

    let alg = headers(SigErrorCode::UnsupportedAlgorithm, "EdDSA is polymorphic");
    assert!(alg.contains(&pair("accept-signature-alg", "Ed25519, ES256")));

    let mut with_input = SigError::new(SigErrorCode::InvalidInput, "missing components".to_owned());
    with_input.required_input = Some(vec!["@method".to_owned(), "signature-key".to_owned()]);
    let list = string_list(with_input.required_input.as_deref().unwrap());
    let headers = error_response_headers(&with_input, &list);
    assert_eq!(
        headers[0].1,
        "error=invalid_input, required_input=(\"@method\" \"signature-key\")"
    );
}

#[test]
fn other_codes_keep_their_names() {
    let e = SigError::new(SigErrorCode::Other("clock_skew".to_owned()), "late".to_owned());
    assert_eq!(
        error_response_headers(&e.clone(), "unread"),
        vec![pair("signature-error", "error=clock_skew")]
    );
    match refused(&e, "unread") {
        IdentityResolution::Invalid { reason, .. } => assert_eq!(reason, "clock_skew: late"),
        other => panic!("{other:?}"),
    }
}

#[test]
fn claim_failures_are_told_apart() {
    let e = claims_error("token expired at 5", "person token");
    assert_eq!((e.code, e.detail.as_str()), (
        SigErrorCode::ExpiredJwt,
        "person token rejected: token expired at 5"
    ));
    assert_eq!(claims_error("bad aud", "auth token").code, SigErrorCode::InvalidJwt);
}

// --- resolution ----------------------------------------------------------------------

fn metadata(transport: &str, query: Option<&str>) -> RequestMetadata {
    RequestMetadata {
        transport: transport.to_owned(),
        method: Some("POST".to_owned()),
        path: Some("/mcp".to_owned()),
        query: query.map(|s| s.to_owned()),
    }
}

fn resolve_request(
    s: &Signed,
    cfg: &AauthConfig,
    metadata: &RequestMetadata,
) -> IdentityResolution {
    let mut worker = Worker::new(&s.headers, &s.resolver);
    let mut evidence = Evidence::new();
    loop {
        match resolve(cfg, &s.headers, metadata, evidence, &mut None, NOW) {
            ResolveStep::Finished(resolution) => return resolution,
            ResolveStep::Identified(vid) => return resolved(cfg, *vid, None),
            ResolveStep::Refused(e) => {
                let list = string_list(e.required_input.as_deref().unwrap_or_default());
                return refused(&e, &list);
            }
            ResolveStep::Needs(action, kept) => evidence = worker.perform(action, *kept),
        }
    }
}

#[test]
fn plugin_no_credentials_falls_through() {
    let plugin = plugin(cfg());
    let s = Signed {
        headers: vec![pair("host", AUTHORITY)],
        resolver: StaticKeyResolver { key: jwk_of(&signing_key(1), None) },
    };
    let out = resolve_request(&s, &plugin.config, &metadata("http", None));
    assert!(matches!(out, IdentityResolution::Unresolved));
    assert_eq!(out.outcome(), "none");
}

#[test]
fn requests_resolve_to_identities() {
    let s = valid("POST", "/mcp");
    match resolve_request(&s, &cfg(), &metadata("HTTP", None)) {
        IdentityResolution::Resolved { identity } => {
            assert_eq!(identity.subject_id.as_deref(), Some(SUB));
        }
        other => panic!("{other:?}"),
    }
    let out = resolve_request(&s, &cfg(), &metadata("stdio", None));
    assert!(matches!(out, IdentityResolution::Unresolved));
    let mut tampered = metadata("http", None);
    tampered.path = Some("/admin".to_owned());
    match resolve_request(&s, &cfg(), &tampered) {
        IdentityResolution::Invalid { reason, response_headers } => {
            assert_eq!(reason, "invalid_signature: bad signature");
            assert_eq!(response_headers, vec![pair("signature-error", "error=invalid_signature")]);
        }
        other => panic!("{other:?}"),
    }
}

#[test]
fn refusals_name_the_required_components() {
    let s = valid("POST", "/mcp");
    let strict =
        AauthConfig { additional_covered_components: vec!["@query".to_owned()], ..cfg() };
    match resolve_request(&s, &strict, &metadata("http", None)) {
        IdentityResolution::Invalid { response_headers, .. } => assert_eq!(
            response_headers,
            vec![pair(
                "signature-error",
                "error=invalid_input, required_input=(\"@method\" \"@authority\" \"@path\" \
                 \"signature-key\" \"@query\")"
            )]
        ),
        other => panic!("{other:?}"),
    }
}

fn asked_parts(cfg: &AauthConfig, headers: &[(String, String)], m: &RequestMetadata) -> RequestParts {
    match resolve(cfg, headers, m, Evidence::new(), &mut None, NOW) {
        ResolveStep::Needs(Action::ParseSignature { parts, policy }, _) => {
            assert_eq!((policy.now, policy.window_secs), (NOW, 60));
            parts
        }
        other => panic!("{other:?}"),
    }
}

#[test]
fn request_parts_are_derived() {
    let mut headers = vec![pair("HOST", " Gw.Example:443 "), pair("host", "other")];
    headers.push(pair("Signature", "x"));
    let parts = asked_parts(&cfg(), &headers, &metadata("http", Some("a=b")));
    assert_eq!(parts.authority, "gw.example");
    assert_eq!((parts.method.as_str(), parts.path.as_str()), ("POST", "/mcp"));
    assert_eq!(parts.query, "?a=b");
    assert_eq!(parts.fields, vec![pair("host", "Gw.Example:443, other"), pair("signature", "x")]);
    let bare = RequestMetadata {
        transport: "http".to_owned(),
        method: None,
        path: None,
        query: Some(String::new()),
    };
    let pinned = AauthConfig { expected_authority: Some(" MCPG.example:443".to_owned()), ..cfg() };
    let parts = asked_parts(&pinned, &headers, &bare);
    assert_eq!(parts.authority, "mcpg.example:443", "the override keeps its port");
    assert_eq!((parts.method.as_str(), parts.path.as_str(), parts.query.as_str()), ("", "/", ""));
}

#[test]
fn canonical_authorities() {
    assert_eq!(canonical_authority(" AP.Example "), "ap.example");
    assert_eq!(canonical_authority("ap.example:443"), "ap.example");
    assert_eq!(canonical_authority("ap.example:80"), "ap.example:80");
    assert_eq!(canonical_authority("ap.example:8443"), "ap.example:8443");
    for host in ["AP.Example", "ap.example:80", "[::1]:443"] {
        let once = canonical_authority(host);
        assert_eq!(canonical_authority(&once), once);
        assert_eq!(canonical_authority(&host.to_uppercase()), once);
    }
    // Only one port is taken off, and what stood before it is not trimmed again.
    assert_eq!(canonical_authority("a:443:443"), "a:443");
    assert_eq!(canonical_authority("a :443"), "a ");
}

#[test]
fn header_lookup() {
    let headers = vec![pair("A", " 1 "), pair("b", "2"), pair("a", "3")];
    assert_eq!(field_value(&headers, "a").as_deref(), Some("1, 3"));
    assert_eq!(field_value(&headers, "c"), None);
    assert_eq!(lookup_header(&headers, "a"), Some(" 1 "));
    assert_eq!(lookup_header(&headers, "c"), None);
    assert!(!has_any_signature(&headers));
    for name in ["Signature", "SIGNATURE-INPUT", "signature-key"] {
        assert!(has_any_signature(&[pair(name, "")]));
    }
}

#[test]
fn fields_are_listed_once_in_lower_case() {
    let headers = vec![pair("A", " 1 "), pair("b", "2"), pair("a", "3")];
    assert_eq!(header_fields(&headers), vec![pair("a", "1, 3"), pair("b", "2")]);
    assert_eq!(header_fields(&[]), Vec::new());
}

#[test]
fn spelling_of_headers_does_not_matter() {
    let s = valid("POST", "/mcp");
    let other: Vec<(String, String)> =
        s.headers.iter().map(|(n, v)| (n.to_uppercase(), format!(" {v}\t"))).collect();
    let s = Signed { headers: other, resolver: s.resolver };
    expect_agent(run(&s, "POST", "/mcp", &cfg()));

    let one = vec![pair("x", "0"), pair("Signature", "a, b"), pair("y", "1")];
    let two = vec![pair("x", "0"), pair("signature", "a"), pair("SIGNATURE", "b"), pair("y", "1")];
    assert_eq!(header_fields(&one), header_fields(&two));
    // A blank second part is the exception: its line cannot be told from none.
    let blank = [pair("n", "a, ")];
    assert_eq!(field_value(&blank, "n").as_deref(), Some("a,"));
    assert_eq!(field_value(&[pair("n", "a"), pair("n", "")], "n").as_deref(), Some("a, "));
}

#[test]
fn empty_issuers_refuse_to_load() {
    let stop = AauthIdentityPlugin::from_config(AauthConfig::default(), &Vec::new());
    assert!(matches!(stop, Err(ConfigStop::Invalid(ConfigError::NoTrustedIssuers))));
    let unknown = AauthIdentityPlugin::from_config(cfg(), &Vec::new());
    assert!(matches!(unknown, Err(ConfigStop::Needs(id)) if id == ISS));
    assert!(plugin(cfg()).replay.is_none());
    assert!(plugin(AauthConfig { replay_protection: true, ..cfg() }).replay.is_some());
}
