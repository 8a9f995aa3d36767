use zeebe::client::{gateway_address, Client, ClientConfig};
use zeebe::oauth::{
    AuthInterceptor, CachedToken, Environment, OAuthConfig, RefreshStep, SharedTokenProvider, TokenCache, TokenProvider,
    DEFAULT_AUTH_SERVER_URL,
};
use zeebe::ZeebeError;

fn env() -> Environment {
    Environment {
        ca_certificate_path: None,
        address: None,
        host: None,
        port: None,
        client_id: None,
        client_secret: None,
        token_audience: None,
        authorization_server_url: None,
        auth_request_timeout: None,
    }
}

#[test]
fn default_config_points_at_local_gateway() {
    let c = ClientConfig::default();
    assert_eq!(c.endpoints, vec!["http://127.0.0.1:26500".to_string()]);
    assert!(c.tls.is_none());
    assert!(c.auth.is_none());
    let c = ClientConfig::with_endpoints(vec!["http://0.0.0.0:26500".to_string()]);
    assert_eq!(c.endpoints, vec!["http://0.0.0.0:26500".to_string()]);
}

#[test]
fn gateway_address_precedence() {
    let mut e = env();
    assert_eq!(gateway_address(&e), "http://127.0.0.1:26500");
    e.address = Some("http://gw:1".to_string());
    assert_eq!(gateway_address(&e), "http://gw:1");
    e.port = Some("2000".to_string());
    assert_eq!(gateway_address(&e), "http://127.0.0.1:2000");
    e.host = Some("http://zeebe".to_string());
    assert_eq!(gateway_address(&e), "http://zeebe:2000");
    e.port = None;
    assert_eq!(gateway_address(&e), "http://zeebe:26500");
}

#[test]
fn config_from_env_without_auth() {
    let mut e = env();
    e.host = Some("http://zeebe".to_string());
    let c = ClientConfig::from_env(&e, None).unwrap();
    assert_eq!(c.endpoints, vec!["http://zeebe:26500".to_string()]);
    assert!(c.tls.is_none());
    assert!(c.auth.is_none());
}

#[test]
fn oauth_needs_id_and_secret() {
    let mut e = env();
    assert!(!OAuthConfig::should_use_env_config(&e));
    e.client_secret = Some("s".to_string());
    assert!(OAuthConfig::should_use_env_config(&e));
    let err = OAuthConfig::from_env(&e).err().unwrap();
    assert!(matches!(err, ZeebeError::InvalidParameters(m) if m == "ZEEBE_CLIENT_ID not set"));
    let err = ClientConfig::from_env(&e, None).err().unwrap();
    assert!(matches!(err, ZeebeError::InvalidParameters(m) if m == "ZEEBE_CLIENT_ID not set"));
    e.client_secret = None;
    e.client_id = Some("id".to_string());
    let err = OAuthConfig::from_env(&e).err().unwrap();
    assert!(matches!(err, ZeebeError::InvalidParameters(m) if m == "ZEEBE_CLIENT_SECRET not set"));
}

#[test]
fn oauth_defaults_and_timeout_parsing() {
    let mut e = env();
    e.client_id = Some("id".to_string());
    e.client_secret = Some("secret".to_string());
    let c = OAuthConfig::from_env(&e).unwrap();
    assert_eq!(c.client_id, "id");
    assert_eq!(c.client_secret, "secret");
    assert_eq!(c.token_audience, None);
    assert_eq!(c.authorization_server_url, DEFAULT_AUTH_SERVER_URL);
    assert_eq!(c.timeout_ms, 10000);
    for (text, expected) in [("2500", 2500u64), ("+7", 7), ("abc", 10000), ("", 10000), ("-1", 10000), ("18446744073709551616", 10000), ("18446744073709551615", u64::MAX), ("+", 10000), ("007", 7), ("1 2", 10000)] {
        e.auth_request_timeout = Some(text.to_string());
        assert_eq!(OAuthConfig::from_env(&e).unwrap().timeout_ms, expected, "timeout {:?}", text);
    }
    e.token_audience = Some("zeebe-api".to_string());
    e.authorization_server_url = Some("https://auth/token".to_string());
    let c = OAuthConfig::from_env(&e).unwrap();
    assert_eq!(c.token_audience.as_deref(), Some("zeebe-api"));
    assert_eq!(c.authorization_server_url, "https://auth/token");
    let full = ClientConfig::from_env(&e, None).unwrap();
    assert!(full.auth.is_some());
}

#[test]
fn token_cache_read_after_store() {
    let mut cache = TokenCache::new();
    assert!(matches!(cache.access_token(), Err(ZeebeError::Auth(m)) if m == "Not authed yet"));
    assert_eq!(cache.authorization_header(), Err("No valid token available"));
    assert!(cache.cached_token_is_expired(0));
    cache.store("tok".to_string(), Some(60_000_000_000), 1_000_000_000);
    assert_eq!(cache.access_token().unwrap(), "tok");
    assert_eq!(cache.authorization_header().unwrap(), "Bearer tok");
    cache.store("next".to_string(), None, 5);
    assert_eq!(cache.access_token().unwrap(), "next");
}

#[test]
fn token_cache_expiry_uses_skew_buffer() {
    let mut cache = TokenCache::new();
    let now: u128 = 1_000_000_000_000;
    cache.store("tok".to_string(), Some(60_000_000_000), now);
    let expires_at = now + 60_000_000_000;
    assert!(!cache.cached_token_is_expired(now));
    assert!(!cache.cached_token_is_expired(expires_at - 15_000_000_000 - 1));
    assert!(cache.cached_token_is_expired(expires_at - 15_000_000_000));
    assert!(cache.cached_token_is_expired(expires_at));
    let short = TokenCache { token: Some(CachedToken { access_token: "x".to_string(), expires_at: now + 10 }) };
    assert!(short.cached_token_is_expired(now));
}

#[test]
fn interceptor_configuration() {
    assert!(!AuthInterceptor::default().is_configured());
    let mut e = env();
    e.client_id = Some("id".to_string());
    e.client_secret = Some("secret".to_string());
    let provider = TokenProvider::new(OAuthConfig::from_env(&e).unwrap());
    assert_eq!(provider.config.client_id, "id");
    assert!(provider.cache.token.is_none());
    assert!(matches!(provider.cache.access_token(), Err(ZeebeError::Auth(m)) if m == "Not authed yet"));
    let shared = SharedTokenProvider {
        state: std::sync::Mutex::new(provider),
        init_sender: tokio::sync::broadcast::channel(1).0,
    };
    let interceptor = AuthInterceptor::with_provider(std::sync::Arc::new(shared));
    assert!(interceptor.is_configured());
    assert!(interceptor.clone().is_configured());
}

#[test]
fn build_endpoints_reports_first_bad_uri() {
    let err = Client::build_endpoints(
        vec!["http://127.0.0.1:26500".to_string(), "not a uri".to_string(), "also bad".to_string()],
        None,
    )
    .err()
    .unwrap();
    match err {
        ZeebeError::InvalidGatewayUri { message, uri } => {
            assert_eq!(uri, "not a uri");
            assert_eq!(message, "invalid uri character");
        }
        other => panic!("unexpected error {:?}", other),
    }
    assert_eq!(Client::build_endpoints(vec!["http://a:1".to_string(), "http://b:2".to_string()], None).unwrap().len(), 2);
}

#[test]
fn build_endpoints_applies_tls_settings() {
    let tls = tonic::transport::ClientTlsConfig::new();
    let endpoints = Client::build_endpoints(
        vec!["https://zeebe.example:443".to_string(), "https://other.example:26500".to_string()],
        Some(tls.clone()),
    )
    .unwrap();
    assert_eq!(endpoints.len(), 2);
    assert_eq!(endpoints[0].uri().host(), Some("zeebe.example"));
    // An endpoint without a host cannot take TLS settings without a domain;
    // that failure comes first, before the later text that is no URI.
    match Client::build_endpoints(vec!["/no-host".to_string(), "not a uri".to_string()], Some(tls.clone())) {
        Err(ZeebeError::Transport(_)) => {}
        other => panic!("expected a transport error, got {:?}", other.map(|v| v.len())),
    }
    // Without TLS the same endpoint is accepted and the bad one reported.
    match Client::build_endpoints(vec!["/no-host".to_string(), "not a uri".to_string()], None) {
        Err(ZeebeError::InvalidGatewayUri { uri, .. }) => assert_eq!(uri, "not a uri"),
        other => panic!("expected an invalid gateway uri error, got {:?}", other.map(|v| v.len())),
    }
}

#[test]
fn client_handles_current_job() {
    let rt = tokio::runtime::Runtime::new().unwrap();
    let _guard = rt.enter();
    let channel = tonic::transport::Channel::balance_list(
        Client::build_endpoints(vec!["http://127.0.0.1:26500".to_string()], None).unwrap().into_iter(),
    );
    let c = Client::from_channel(channel, AuthInterceptor::default());
    assert_eq!(c.current_job_key, None);
    let c2 = c.clone().with_current_job_key(8);
    assert_eq!(c2.current_job_key, Some(8));
    assert_eq!(c2.clone().current_job_key, Some(8));
    assert_eq!(c2.complete_job().client.current_job_key, Some(8));
    assert!(c2.topology().0.current_job_key == Some(8));
}

#[test]
fn config_from_env_with_ca_certificate() {
    let mut e = env();
    e.ca_certificate_path = Some("/certs/ca.pem".to_string());
    e.address = Some("https://zeebe.example:443".to_string());
    let pem = "-----BEGIN CERTIFICATE-----\nMIIB\n-----END CERTIFICATE-----\n".to_string();
    let c = ClientConfig::from_env(&e, Some(pem)).unwrap();
    assert!(c.tls.is_some());
    assert_eq!(c.endpoints, vec!["https://zeebe.example:443".to_string()]);
}

#[test]
fn client_is_send_and_sync() {
    fn assert_send_sync<T: Send + Sync>() {}
    assert_send_sync::<Client>();
    assert_send_sync::<ClientConfig>();
}

#[test]
fn gateway_endpoint_keeps_the_parsers_text() {
    let uri = "bad uri".to_string();
    match zeebe::client::gateway_endpoint(&uri, Err("invalid uri character".to_string())) {
        Err(ZeebeError::InvalidGatewayUri { message, uri }) => {
            assert_eq!(message, "invalid uri character");
            assert_eq!(uri, "bad uri");
        }
        _ => panic!("expected an invalid gateway uri error"),
    }
}

#[test]
fn token_request_carries_audience_when_set() {
    let mut e = env();
    e.client_id = Some("id".to_string());
    e.client_secret = Some("secret".to_string());
    assert!(OAuthConfig::from_env(&e).unwrap().token_request_extra_params().is_empty());
    e.token_audience = Some("zeebe-api".to_string());
    assert_eq!(
        OAuthConfig::from_env(&e).unwrap().token_request_extra_params(),
        vec![("audience".to_string(), "zeebe-api".to_string())]
    );
}

#[test]
fn many_endpoints_with_a_bad_one_fail_before_balancing() {
    let mut endpoints = vec!["http://a:1".to_string(); 1100];
    endpoints[1050] = "bad uri".to_string();
    match Client::build_endpoints(endpoints, None) {
        Err(ZeebeError::InvalidGatewayUri { uri, .. }) => assert_eq!(uri, "bad uri"),
        _ => panic!("expected an invalid gateway uri error"),
    }
}

#[test]
fn refresher_requests_only_when_expired() {
    let mut e = env();
    e.client_id = Some("id".to_string());
    e.client_secret = Some("secret".to_string());
    e.token_audience = Some("aud".to_string());
    e.auth_request_timeout = Some("1234".to_string());
    let config = OAuthConfig::from_env(&e).unwrap();
    let mut cache = TokenCache::new();
    match cache.refresh_step(&config, 0) {
        RefreshStep::RequestToken { extra_params, timeout_ms } => {
            assert_eq!(timeout_ms, 1234);
            assert_eq!(extra_params, vec![("audience".to_string(), "aud".to_string())]);
        }
        RefreshStep::KeepCurrent => panic!("an empty cache must refresh"),
    }
    cache.store("t".to_string(), Some(60_000_000_000), 0);
    assert!(matches!(cache.refresh_step(&config, 0), RefreshStep::KeepCurrent));
    assert!(matches!(cache.refresh_step(&config, 45_000_000_000), RefreshStep::RequestToken { .. }));
}

#[test]
fn refresh_outcome_stores_only_granted_tokens() {
    let mut cache = TokenCache::new();
    assert!(!cache.apply_refresh(Err("timed out".to_string()), 10));
    assert!(cache.token.is_none());
    assert!(cache.apply_refresh(Ok(("tok".to_string(), Some(100))), 10));
    assert_eq!(cache.access_token().unwrap(), "tok");
    assert!(!cache.apply_refresh(Err("denied".to_string()), 20));
    assert_eq!(cache.authorization_header().unwrap(), "Bearer tok");
    assert_eq!(cache.token.as_ref().unwrap().expires_at, 110);
}

#[test]
fn server_urls_parse_the_configured_url() {
    let mut e = env();
    e.client_id = Some("id".to_string());
    e.client_secret = Some("secret".to_string());
    let c = OAuthConfig::from_env(&e).unwrap();
    let (auth, token) = c.server_urls().unwrap();
    assert_eq!(auth.as_str(), DEFAULT_AUTH_SERVER_URL);
    assert_eq!(token.as_str(), DEFAULT_AUTH_SERVER_URL);
    e.authorization_server_url = Some("not a url".to_string());
    assert!(OAuthConfig::from_env(&e).unwrap().server_urls().is_none());
}
