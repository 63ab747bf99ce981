use deribit_mcp::config::{CliArgs, Config, ConfigError, EnvVars, LogFormat, OrderTransport, Transport};
use deribit_mcp::config::{endpoint_for_flags, parse_log_format, parse_order_transport, parse_transport};

fn no_cli() -> CliArgs {
    CliArgs {
        testnet: false,
        mainnet: false,
        client_id: None,
        allow_trading: false,
        max_order_usd: None,
        transport: None,
        listen: None,
        log_format: None,
        order_transport: None,
    }
}

fn no_env() -> EnvVars {
    EnvVars {
        network: None,
        endpoint: None,
        client_id: None,
        client_secret: None,
        allow_trading: None,
        max_order_usd: None,
        transport: None,
        http_listen: None,
        http_bearer_token: None,
        log_format: None,
        order_transport: None,
    }
}

#[test]
fn log_format_matches_transport() {
    // Text for stdio, JSON for http (default when not specified).
    let stdio_default = LogFormat::default_for(Transport::Stdio);
    let http_default = LogFormat::default_for(Transport::Http);
    assert_eq!(stdio_default, LogFormat::Text);
    assert_eq!(http_default, LogFormat::Json);
}

#[test]
fn resolve_defaults_without_flags_or_environment() {
    let c = Config::resolve(&no_cli(), &no_env()).unwrap();
    assert_eq!(c.endpoint, "https://test.deribit.com");
    assert_eq!(c.client_id, None);
    assert_eq!(c.client_secret, None);
    assert!(!c.allow_trading);
    assert_eq!(c.max_order_usd, None);
    assert_eq!(c.transport, Transport::Stdio);
    assert_eq!(c.http_listen, "127.0.0.1:8723");
    assert_eq!(c.http_bearer_token, None);
    assert_eq!(c.log_format, LogFormat::Text);
    assert_eq!(c.order_transport, OrderTransport::Http);
}

#[test]
fn resolve_prefers_cli_over_environment() {
    let mut cli = no_cli();
    cli.mainnet = true;
    cli.client_id = Some("cli-id".to_string());
    cli.max_order_usd = Some(5000);
    cli.transport = Some("http".to_string());
    cli.listen = Some("0.0.0.0:9000".to_string());
    let mut env = no_env();
    env.endpoint = Some("https://example.invalid".to_string());
    env.client_id = Some("env-id".to_string());
    env.client_secret = Some("env-secret".to_string());
    env.max_order_usd = Some("10".to_string());
    env.transport = Some("stdio".to_string());
    env.http_listen = Some("127.0.0.1:1".to_string());
    let c = Config::resolve(&cli, &env).unwrap();
    assert_eq!(c.endpoint, "https://www.deribit.com");
    assert_eq!(c.client_id.as_deref(), Some("cli-id"));
    assert_eq!(c.client_secret.as_deref(), Some("env-secret"));
    assert_eq!(c.max_order_usd, Some(5000));
    assert_eq!(c.transport, Transport::Http);
    assert_eq!(c.http_listen, "0.0.0.0:9000");
    // No explicit log format: JSON follows the HTTP transport.
    assert_eq!(c.log_format, LogFormat::Json);
}

#[test]
fn resolve_reads_environment_when_no_flag_is_given() {
    let mut env = no_env();
    env.endpoint = Some("https://www.deribit.com".to_string());
    env.allow_trading = Some("1".to_string());
    env.max_order_usd = Some("25000".to_string());
    env.log_format = Some("json".to_string());
    env.http_bearer_token = Some("tok".to_string());
    let c = Config::resolve(&no_cli(), &env).unwrap();
    assert_eq!(c.endpoint, "https://www.deribit.com");
    assert!(c.allow_trading);
    assert_eq!(c.max_order_usd, Some(25000));
    assert_eq!(c.transport, Transport::Stdio);
    assert_eq!(c.log_format, LogFormat::Json);
    assert_eq!(c.http_bearer_token.as_deref(), Some("tok"));
}

#[test]
fn resolve_ignores_unparsable_switches() {
    let mut env = no_env();
    env.allow_trading = Some("true".to_string());
    env.transport = Some("carrier-pigeon".to_string());
    let c = Config::resolve(&no_cli(), &env).unwrap();
    assert!(!c.allow_trading);
    assert_eq!(c.transport, Transport::Stdio);
}

#[test]
fn resolve_rejects_unparsable_order_cap() {
    let mut env = no_env();
    env.max_order_usd = Some("abc".to_string());
    assert_eq!(
        Config::resolve(&no_cli(), &env).unwrap_err(),
        ConfigError::InvalidNumber {
            variable: "DERIBIT_MAX_ORDER_USD".to_string(),
            value: "abc".to_string()
        }
    );
    env.max_order_usd = Some("12x".to_string());
    assert!(matches!(
        Config::resolve(&no_cli(), &env),
        Err(ConfigError::InvalidNumber { .. })
    ));
    // The flag wins, so the variable is not consulted.
    let mut cli = no_cli();
    cli.max_order_usd = Some(7);
    assert_eq!(Config::resolve(&cli, &env).unwrap().max_order_usd, Some(7));
    // The cap error comes before the FIX check.
    let mut cli = no_cli();
    cli.order_transport = Some("fix".to_string());
    assert!(matches!(
        Config::resolve(&cli, &env),
        Err(ConfigError::InvalidNumber { .. })
    ));
}

#[test]
fn resolve_testnet_flag_selects_testnet() {
    let mut cli = no_cli();
    cli.testnet = true;
    let mut env = no_env();
    env.endpoint = Some("https://www.deribit.com".to_string());
    let c = Config::resolve(&cli, &env).unwrap();
    assert_eq!(c.endpoint, "https://test.deribit.com");
}

#[test]
fn resolve_refuses_fix_without_trading() {
    let mut cli = no_cli();
    cli.order_transport = Some("fix".to_string());
    let r = Config::resolve(&cli, &no_env());
    assert_eq!(r.unwrap_err(), ConfigError::FixWithoutTrading);
    cli.allow_trading = true;
    let c = Config::resolve(&cli, &no_env()).unwrap();
    assert_eq!(c.order_transport, OrderTransport::Fix);
}

#[test]
fn name_parsers_accept_exact_names_only() {
    assert_eq!(parse_transport("stdio"), Some(Transport::Stdio));
    assert_eq!(parse_transport("http"), Some(Transport::Http));
    assert_eq!(parse_transport("HTTP"), None);
    assert_eq!(parse_log_format("text"), Some(LogFormat::Text));
    assert_eq!(parse_log_format("json"), Some(LogFormat::Json));
    assert_eq!(parse_log_format("yaml"), None);
    assert_eq!(parse_order_transport("fix"), Some(OrderTransport::Fix));
    assert_eq!(parse_order_transport("http"), Some(OrderTransport::Http));
    assert_eq!(parse_order_transport(""), None);
    assert_eq!(endpoint_for_flags(true, true).as_deref(), Some("https://www.deribit.com"));
    assert_eq!(endpoint_for_flags(false, true).as_deref(), Some("https://test.deribit.com"));
    assert_eq!(endpoint_for_flags(false, false), None);
}

#[test]
fn network_variable_selects_endpoint_after_flags() {
    let mut env = no_env();
    env.network = Some("mainnet".to_string());
    env.endpoint = Some("https://example.invalid".to_string());
    assert_eq!(Config::resolve(&no_cli(), &env).unwrap().endpoint, "https://www.deribit.com");
    env.network = Some("testnet".to_string());
    assert_eq!(Config::resolve(&no_cli(), &env).unwrap().endpoint, "https://test.deribit.com");
    // An unknown network name is ignored: the explicit endpoint applies.
    env.network = Some("devnet".to_string());
    assert_eq!(Config::resolve(&no_cli(), &env).unwrap().endpoint, "https://example.invalid");
    // The flags win over the variable.
    env.network = Some("mainnet".to_string());
    let mut cli = no_cli();
    cli.testnet = true;
    assert_eq!(Config::resolve(&cli, &env).unwrap().endpoint, "https://test.deribit.com");
}
