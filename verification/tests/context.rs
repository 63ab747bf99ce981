use deribit_mcp::config::{Config, LogFormat, OrderTransport, Transport};
use deribit_mcp::context::{
    endpoint_is_mainnet, fix_config_from, http_config_from, ws_url_for, AdapterContext, AuthState,
};
use deribit_mcp::error::AdapterError;

fn cfg(endpoint: &str, with_creds: bool) -> Config {
    Config {
        endpoint: endpoint.to_string(),
        client_id: if with_creds { Some("id".to_string()) } else { None },
        client_secret: if with_creds { Some("secret".to_string()) } else { None },
        allow_trading: false,
        max_order_usd: None,
        transport: Transport::Stdio,
        http_listen: "127.0.0.1:8723".to_string(),
        http_bearer_token: None,
        log_format: LogFormat::Text,
        order_transport: OrderTransport::Http,
    }
}

#[test]
fn ensure_fix_when_transport_is_http_returns_validation() {
    let ctx = AdapterContext::new(cfg("https://test.deribit.com", true)).expect("ctx");
    match ctx.fix_session_settings() {
        Ok(_) => panic!("expected Validation error, got Ok"),
        Err(AdapterError::Validation { field, .. }) => {
            assert_eq!(field, "order_transport");
        }
        Err(other) => panic!("unexpected: {other:?}"),
    }
}

#[test]
fn ensure_fix_without_credentials_returns_validation() {
    let mut config = cfg("https://test.deribit.com", false);
    config.order_transport = OrderTransport::Fix;
    config.allow_trading = true;
    let ctx = AdapterContext::new(config).expect("ctx");
    match ctx.fix_session_settings() {
        Ok(_) => panic!("expected Validation error, got Ok"),
        Err(AdapterError::Validation { field, .. }) => {
            assert_eq!(field, "credentials");
        }
        Err(other) => panic!("unexpected: {other:?}"),
    }
}

#[test]
fn context_builds_for_testnet_endpoint() {
    let ctx = AdapterContext::new(cfg("https://test.deribit.com", false)).expect("context");
    assert!(!ctx.has_credentials());
}

#[test]
fn context_builds_for_mainnet_endpoint() {
    let ctx = AdapterContext::new(cfg("https://www.deribit.com", true)).expect("context");
    assert!(ctx.has_credentials());
}

#[test]
fn context_rejects_invalid_endpoint() {
    let err = AdapterContext::new(cfg("not a url", false)).unwrap_err();
    assert!(matches!(
        err,
        AdapterError::Validation { ref field, .. } if field == "endpoint"
    ));
}

#[test]
fn has_credentials_requires_both_id_and_secret() {
    let mut c = cfg("https://test.deribit.com", false);
    c.client_id = Some("id".into());
    let ctx = AdapterContext::new(c).expect("context");
    assert!(!ctx.has_credentials());
}

#[test]
fn auth_state_is_anonymous_without_credentials() {
    let ctx = AdapterContext::new(cfg("https://test.deribit.com", false)).expect("ctx");
    assert_eq!(ctx.auth_state(), AuthState::Anonymous);
}

#[test]
fn auth_state_is_configured_with_credentials() {
    let ctx = AdapterContext::new(cfg("https://test.deribit.com", true)).expect("ctx");
    assert_eq!(ctx.auth_state(), AuthState::Configured);
}

#[test]
fn http_config_carries_credentials_into_upstream() {
    let resolved = cfg("https://test.deribit.com", true);
    let http_cfg = http_config_from(&resolved).expect("http cfg");
    let creds = http_cfg.credentials.as_ref().expect("credentials present");
    assert_eq!(creds.client_id.as_str(), "id");
    assert_eq!(creds.client_secret.as_str(), "secret");
}

#[test]
fn http_config_omits_credentials_without_both() {
    let mut resolved = cfg("https://test.deribit.com", false);
    resolved.client_id = Some("id".into());
    let http_cfg = http_config_from(&resolved).expect("http cfg");
    assert!(http_cfg.credentials.is_none());
}

#[test]
fn http_config_marks_testnet_by_host() {
    let test = http_config_from(&cfg("https://test.deribit.com", false)).unwrap();
    assert!(test.testnet);
    assert_eq!(test.base_url, "https://test.deribit.com");
    let main = http_config_from(&cfg("https://www.deribit.com", false)).unwrap();
    assert!(!main.testnet);
    let bare = http_config_from(&cfg("https://deribit.com/api", false)).unwrap();
    assert!(!bare.testnet);
}

#[test]
fn invalid_endpoint_message_carries_parser_error() {
    let err = http_config_from(&cfg("not a url", false)).unwrap_err();
    match err {
        AdapterError::Validation { field, message } => {
            assert_eq!(field, "endpoint");
            assert!(message.starts_with("invalid URL: "));
            assert!(message.len() > "invalid URL: ".len());
        }
        other => panic!("unexpected: {other:?}"),
    }
}

#[test]
fn mainnet_detection_uses_host_only() {
    assert!(endpoint_is_mainnet("https://www.deribit.com"));
    assert!(endpoint_is_mainnet("https://deribit.com/api/v2"));
    assert!(!endpoint_is_mainnet("https://test.deribit.com"));
    assert!(!endpoint_is_mainnet("https://www.deribit.com.example.org"));
    assert!(!endpoint_is_mainnet("not a url"));
    assert_eq!(ws_url_for(&cfg("https://www.deribit.com", false)), "wss://www.deribit.com/ws/api/v2");
    assert_eq!(ws_url_for(&cfg("https://test.deribit.com", false)), "wss://test.deribit.com/ws/api/v2");
}

#[test]
fn fix_settings_follow_network_and_credentials() {
    let mut c = cfg("https://www.deribit.com", true);
    c.order_transport = OrderTransport::Fix;
    c.allow_trading = true;
    let s = fix_config_from(&c).unwrap();
    assert_eq!(s.host, "fix.deribit.com");
    assert_eq!(s.port, 9881);
    assert!(!s.use_ssl);
    assert_eq!(s.client_id, "id");
    assert_eq!(s.client_secret, "secret");
    let ctx = AdapterContext::new(c).unwrap();
    assert_eq!(ctx.fix_session_settings().unwrap(), s);
    let t = fix_config_from(&cfg("https://test.deribit.com", true)).unwrap();
    assert_eq!(t.host, "fix-test.deribit.com");
}

#[test]
fn settings_follow_the_parsed_host() {
    let c = cfg("https://anything", true);
    let main = deribit_mcp::context::settings_for_host(&c, Ok(Some("www.deribit.com".to_string()))).unwrap();
    assert!(!main.testnet);
    assert_eq!(main.base_url, "https://anything");
    assert_eq!(main.credentials.unwrap().client_id, "id");
    let bare = deribit_mcp::context::settings_for_host(&c, Ok(Some("deribit.com".to_string()))).unwrap();
    assert!(!bare.testnet);
    let other = deribit_mcp::context::settings_for_host(&c, Ok(Some("test.deribit.com".to_string()))).unwrap();
    assert!(other.testnet);
    let hostless = deribit_mcp::context::settings_for_host(&c, Ok(None)).unwrap();
    assert!(hostless.testnet);
    let err = deribit_mcp::context::settings_for_host(&c, Err("relative URL without a base".to_string())).unwrap_err();
    assert_eq!(
        err,
        AdapterError::Validation {
            field: "endpoint".to_string(),
            message: "invalid URL: relative URL without a base".to_string()
        }
    );
    assert!(deribit_mcp::context::host_is_mainnet(&Some("www.deribit.com".to_string())));
    assert!(!deribit_mcp::context::host_is_mainnet(&None));
}
