use identity_aauth::config::{
    AauthConfig, AuthTokenConfig, ConfigError, ConfigStop, IdentifierCheck, JwksConfig,
    PersonTokenConfig, ResolutionConfig, RevokedToken, ServerList,
};

/// A server identifier: a scheme and a host, with nothing behind it.
fn identifier_error(id: &str) -> Option<String> {
    match id.strip_prefix("https://") {
        Some(host) if !host.is_empty() && !host.contains('/') => None,
        _ => Some("not a bare https origin".to_owned()),
    }
}

/// Validates a configuration, answering every verdict that it asks for.
fn validated(cfg: AauthConfig) -> Result<AauthConfig, ConfigError> {
    let mut known: Vec<IdentifierCheck> = Vec::new();
    loop {
        match cfg.validate(&known) {
            None => return Ok(cfg),
            Some(ConfigStop::Invalid(e)) => return Err(e),
            Some(ConfigStop::Needs(identifier)) => {
                assert!(known.iter().all(|k| k.identifier != identifier));
                let error = identifier_error(&identifier);
                known.push(IdentifierCheck { identifier, error });
            }
        }
    }
}

fn issuers(list: &[&str]) -> AauthConfig {
    AauthConfig {
        trusted_issuers: list.iter().map(|s| s.to_string()).collect(),
        ..AauthConfig::default()
    }
}

fn ap() -> AauthConfig {
    issuers(&["https://ap.example"])
}

fn message(cfg: AauthConfig) -> String {
    validated(cfg).unwrap_err().message()
}

#[test]
fn minimal_config_parses() {
    let cfg = validated(ap()).unwrap();
    assert_eq!(cfg.signature_window_secs, 60);
    assert_eq!(cfg.jwks.refresh_floor_secs, 60);
    assert_eq!(cfg.jwks.max_ttl_secs, 24 * 3600);
    assert_eq!(cfg.resolution.trust_level, "verified");
}

#[test]
fn defaults() {
    let cfg = AauthConfig::default();
    assert!(!cfg.allow_any_issuer && !cfg.replay_protection && !cfg.insecure_dev_mode);
    assert!(!cfg.person_tokens.enabled && !cfg.auth_tokens.enabled);
    assert_eq!(cfg.expected_authority, None);
    assert_eq!(cfg.jwks.fetch_timeout_secs, 10);
    assert_eq!(cfg.jwks.max_response_bytes, 65536);
    assert_eq!(cfg.resolution.auth_provider_label, "aauth");
}

#[test]
fn configurations_can_be_copied() {
    let cfg = AauthConfig { revoked_tokens: vec![revoked("https://ap.example", "abc")], ..ap() };
    let copy = cfg.clone();
    assert_eq!(format!("{copy:?}"), format!("{cfg:?}"));
}

#[test]
fn empty_issuers_needs_opt_in() {
    assert!(validated(AauthConfig::default()).is_err());
    validated(AauthConfig { allow_any_issuer: true, ..AauthConfig::default() }).unwrap();
    assert_eq!(
        message(AauthConfig::default()),
        "identity.aauth: `trusted_issuers` is empty — refusing to accept tokens from any Agent \
         Provider (any AP could vouch for an accepted identity). List the AP issuers you trust, \
         or opt in with `allow_any_issuer: true`."
    );
}

#[test]
fn bad_issuer_shape_rejected() {
    assert!(validated(issuers(&["https://ap.example/"])).is_err());
    assert!(validated(issuers(&["ap.example"])).is_err());
    assert_eq!(
        message(issuers(&["https://ap.example", "ap.example"])),
        "identity.aauth: trusted_issuers[1] `ap.example` is not a valid AAuth issuer: \
         not a bare https origin"
    );
}

#[test]
fn blank_issuer_rejected() {
    assert_eq!(
        message(issuers(&["https://ap.example", " \t"])),
        "identity.aauth: trusted_issuers[1] is empty"
    );
}

#[test]
fn bad_trust_level_rejected() {
    let cfg = AauthConfig {
        resolution: ResolutionConfig {
            trust_level: "root".to_owned(),
            ..ResolutionConfig::default()
        },
        ..ap()
    };
    assert_eq!(
        message(cfg),
        "identity.aauth: resolution.trust_level must be `verified` or `header_asserted`, got 'root'"
    );
    let cfg = AauthConfig {
        resolution: ResolutionConfig {
            trust_level: "header_asserted".to_owned(),
            ..ResolutionConfig::default()
        },
        ..ap()
    };
    assert!(validated(cfg).is_ok());
}

fn person(resource: Option<&str>, servers: &[&str]) -> PersonTokenConfig {
    PersonTokenConfig {
        enabled: true,
        resource_identifier: resource.map(|s| s.to_owned()),
        trusted_person_servers: servers.iter().map(|s| s.to_string()).collect(),
    }
}

#[test]
fn person_tokens_config_fails_closed() {
    let cfg = AauthConfig { person_tokens: person(None, &["https://ps.example"]), ..ap() };
    assert!(matches!(validated(cfg), Err(ConfigError::MissingResourceIdentifier)));
    let cfg = AauthConfig { person_tokens: person(Some("https://gw.example"), &[]), ..ap() };
    assert!(matches!(validated(cfg), Err(ConfigError::NoPersonServers)));
    let cfg = AauthConfig {
        person_tokens: person(Some("https://gw.example"), &["https://ps.example"]),
        ..ap()
    };
    let cfg = validated(cfg).unwrap();
    assert!(cfg.person_tokens.ps_trusted("https://ps.example"));
    assert!(!cfg.person_tokens.ps_trusted("https://other.example"));
}

#[test]
fn malformed_person_settings_rejected() {
    let cfg = AauthConfig { person_tokens: person(Some("gw"), &["https://ps.example"]), ..ap() };
    assert!(matches!(
        validated(cfg),
        Err(ConfigError::InvalidResourceIdentifier { identifier, .. }) if identifier == "gw"
    ));
    let cfg = AauthConfig { person_tokens: person(Some("https://gw.example"), &["ps"]), ..ap() };
    assert!(matches!(
        validated(cfg),
        Err(ConfigError::InvalidServer { list: ServerList::PersonServers, index: 0, .. })
    ));
}

#[test]
fn auth_tokens_config_requires_person_mode() {
    let cfg = AauthConfig {
        auth_tokens: AuthTokenConfig { enabled: true, ..AuthTokenConfig::default() },
        ..ap()
    };
    assert!(matches!(validated(cfg), Err(ConfigError::AuthWithoutPerson)));
}

#[test]
fn malformed_access_server_rejected() {
    let cfg = AauthConfig {
        person_tokens: person(Some("https://gw.example"), &["https://ps.example"]),
        auth_tokens: AuthTokenConfig {
            enabled: true,
            trusted_access_servers: vec!["https://as.example".to_owned(), "as".to_owned()],
        },
        ..ap()
    };
    assert!(matches!(
        validated(cfg),
        Err(ConfigError::InvalidServer { list: ServerList::AccessServers, index: 1, .. })
    ));
}

#[test]
fn access_servers_match_exactly() {
    let cfg = AuthTokenConfig {
        enabled: true,
        trusted_access_servers: vec!["https://as.example".to_owned()],
    };
    assert!(cfg.as_trusted("https://as.example"));
    assert!(!cfg.as_trusted("https://as.example/"));
}

fn revoked(iss: &str, jti: &str) -> RevokedToken {
    RevokedToken { iss: iss.to_owned(), jti: jti.to_owned() }
}

#[test]
fn revoked_tokens_match_by_pair() {
    let cfg = AauthConfig { revoked_tokens: vec![revoked("https://ap.example", "abc")], ..ap() };
    let cfg = validated(cfg).unwrap();
    assert!(cfg.is_revoked("https://ap.example", "abc"));
    assert!(!cfg.is_revoked("https://ap.example", "xyz"));
    assert!(!cfg.is_revoked("https://other.example", "abc"));
}

#[test]
fn incomplete_revocation_rejected() {
    let cfg = AauthConfig {
        revoked_tokens: vec![revoked("https://ap.example", "abc"), revoked("x", " ")],
        ..ap()
    };
    assert_eq!(
        message(cfg),
        "identity.aauth: revoked_tokens[1] needs both `iss` and `jti`"
    );
}

#[test]
fn issuer_trusted_matches_exact() {
    let cfg = validated(ap()).unwrap();
    assert!(cfg.issuer_trusted("https://ap.example"));
    assert!(!cfg.issuer_trusted("https://evil.example"));
    assert!(!cfg.issuer_trusted("https://ap.example/"));
    let any = AauthConfig { allow_any_issuer: true, ..AauthConfig::default() };
    assert!(any.issuer_trusted("https://evil.example"));
}

#[test]
fn zero_limits_rejected() {
    let cfg = AauthConfig { signature_window_secs: 0, ..ap() };
    assert!(matches!(validated(cfg), Err(ConfigError::ZeroSignatureWindow)));
    let with = |jwks: JwksConfig| validated(AauthConfig { jwks, ..ap() }).unwrap_err();
    assert!(matches!(
        with(JwksConfig { refresh_floor_secs: 0, ..JwksConfig::default() }),
        ConfigError::ZeroRefreshFloor
    ));
    assert!(matches!(
        with(JwksConfig { max_ttl_secs: 0, ..JwksConfig::default() }),
        ConfigError::ZeroMaxTtl
    ));
    assert!(matches!(
        with(JwksConfig { fetch_timeout_secs: 0, ..JwksConfig::default() }),
        ConfigError::ZeroFetchTimeout
    ));
    assert!(matches!(
        with(JwksConfig { max_response_bytes: 1023, ..JwksConfig::default() }),
        ConfigError::ResponseCapTooSmall
    ));
}
