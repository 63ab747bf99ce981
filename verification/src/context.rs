//! Shared adapter context: the resolved configuration plus what every
//! handler derives from it (OAuth posture, upstream endpoint settings).
//!
//! The upstream HTTP, WebSocket and FIX clients are owned by the binary; it
//! builds them from the settings computed here.
use vstd::prelude::*;
use crate::config::{opt_view, Config, OrderTransport};
use crate::error::{is_validation, AdapterError};
use crate::text::{owned, push_str, str_equal};

verus! {

/// What `url::Url::parse` makes of a text: `Ok` with the URL's host (as
/// `Url::host_str` gives it) when the text parses, `Err` with the parse
/// error's message when it does not.
pub uninterp spec fn url_host(text: Seq<char>) -> Result<Option<Seq<char>>, Seq<char>>;

/// Calls `url::Url::parse(text)`. On success returns `Url::host_str` of the
/// parsed URL, on failure the `Display` text of the `url::ParseError`. The
/// contract only ties the outcome to `text` through [`url_host`]; which
/// texts parse, and what host they have, is not stated here.
#[verifier::external_body]
fn parse_url_host(text: &str) -> (r: Result<Option<String>, String>)
    ensures
        match r {
            Ok(h) => url_host(text@) == Ok::<Option<Seq<char>>, Seq<char>>(opt_view(h)),
            Err(m) => url_host(text@) == Err::<Option<Seq<char>>, Seq<char>>(m@),
        },
{
    match url::Url::parse(text) {
        Ok(url) => Ok(url.host_str().map(|h| h.to_string())),
        Err(err) => Err(err.to_string()),
    }
}

/// Deribit's production hosts.
pub open spec fn is_mainnet_host(host: Option<Seq<char>>) -> bool {
    host == Some("www.deribit.com"@) || host == Some("deribit.com"@)
}

/// The endpoint parses as a URL whose host is a production host.
pub open spec fn endpoint_is_mainnet_spec(endpoint: Seq<char>) -> bool {
    url_host(endpoint) matches Ok(h) && is_mainnet_host(h)
}

/// WebSocket URL of the testnet.
pub open spec fn testnet_ws_url() -> Seq<char> {
    "wss://test.deribit.com/ws/api/v2"@
}

/// WebSocket URL of production.
pub open spec fn mainnet_ws_url() -> Seq<char> {
    "wss://www.deribit.com/ws/api/v2"@
}

/// Whether a parsed URL's host is a production host.
pub fn host_is_mainnet(host: &Option<String>) -> (r: bool)
    ensures
        r == is_mainnet_host(opt_view(*host)),
{
    match host {
        Some(h) => str_equal(h.as_str(), "www.deribit.com") || str_equal(h.as_str(), "deribit.com"),
        None => false,
    }
}

/// Whether `endpoint` is a production URL.
pub fn endpoint_is_mainnet(endpoint: &str) -> (r: bool)
    ensures
        r == endpoint_is_mainnet_spec(endpoint@),
{
    match parse_url_host(endpoint) {
        Ok(host) => host_is_mainnet(&host),
        Err(_) => false,
    }
}

/// OAuth posture the adapter advertises.
#[derive(Debug, Clone, Copy, PartialEq, Eq, Structural)]
pub enum AuthState {
    /// No credentials configured: only public `Read` tools register.
    Anonymous,
    /// Credentials present; the first private call triggers OAuth upstream.
    Configured,
}

/// OAuth client credentials forwarded to the upstream HTTP client.
#[derive(Debug, Clone, PartialEq, Eq)]
pub struct ApiCredentials {
    /// Client id.
    pub client_id: String,
    /// Client secret.
    pub client_secret: String,
}

/// Settings of the upstream HTTP client.
#[derive(Debug, Clone, PartialEq, Eq)]
pub struct HttpSettings {
    /// Base URL (the configured endpoint; it parses as a URL).
    pub base_url: String,
    /// Whether this is the testnet (anything but the production hosts).
    pub testnet: bool,
    /// Credentials, present only when both id and secret are configured.
    pub credentials: Option<ApiCredentials>,
}

/// Settings of the upstream FIX session.
#[derive(Debug, Clone, PartialEq, Eq)]
pub struct FixSettings {
    /// FIX `Username`.
    pub client_id: String,
    /// Password material used to sign the logon.
    pub client_secret: String,
    /// FIX gateway host.
    pub host: String,
    /// FIX gateway port.
    pub port: u16,
    /// Whether to use TLS.
    pub use_ssl: bool,
}

/// Both OAuth halves are configured.
pub open spec fn config_has_credentials(c: Config) -> bool {
    c.client_id is Some && c.client_secret is Some
}

/// Credentials forwarded upstream: both halves, or nothing.
pub open spec fn forwarded_credentials(c: Config) -> Option<ApiCredentials> {
    match (c.client_id, c.client_secret) {
        (Some(id), Some(secret)) => Some(ApiCredentials { client_id: id, client_secret: secret }),
        _ => None,
    }
}

/// `r` is the HTTP settings for `c`, or the endpoint error.
pub open spec fn http_settings_for(c: Config, r: Result<HttpSettings, AdapterError>) -> bool {
    match url_host(c.endpoint@) {
        Err(msg) => r matches Err(e) && is_validation(e, "endpoint"@, "invalid URL: "@ + msg),
        Ok(host) => r matches Ok(s) && s.base_url == c.endpoint && s.testnet == !is_mainnet_host(
            host,
        ) && s.credentials == forwarded_credentials(c),
    }
}

/// The HTTP settings for `config`, given what parsing its endpoint gave:
/// the host of the parsed URL, or the parser's error message.
///
/// # Errors
///
/// A validation error on `endpoint`, quoting the parser's message, when the
/// endpoint did not parse.
pub fn settings_for_host(config: &Config, host: Result<Option<String>, String>) -> (r: Result<
    HttpSettings,
    AdapterError,
>)
    ensures
        match host {
            Err(msg) => r matches Err(e) && is_validation(e, "endpoint"@, "invalid URL: "@ + msg@),
            Ok(h) => r matches Ok(s) && s.base_url == config.endpoint && s.testnet
                == !is_mainnet_host(opt_view(h)) && s.credentials == forwarded_credentials(*config),
        },
{
    match host {
        Err(msg) => {
            let mut message = owned("invalid URL: ");
            push_str(&mut message, msg.as_str());
            Err(AdapterError::validation("endpoint", message))
        },
        Ok(host) => {
            let mainnet = host_is_mainnet(&host);
            let credentials = match (&config.client_id, &config.client_secret) {
                (Some(id), Some(secret)) => Some(
                    ApiCredentials { client_id: id.clone(), client_secret: secret.clone() },
                ),
                _ => None,
            };
            Ok(HttpSettings { base_url: config.endpoint.clone(), testnet: !mainnet, credentials })
        },
    }
}

/// Build the upstream HTTP settings from the resolved configuration.
///
/// # Errors
///
/// A validation error on `endpoint` when the endpoint is not a URL.
pub fn http_config_from(config: &Config) -> (r: Result<HttpSettings, AdapterError>)
    ensures
        http_settings_for(*config, r),
{
    settings_for_host(config, parse_url_host(config.endpoint.as_str()))
}

/// WebSocket URL for the configured network: production when the endpoint
/// is a production URL, testnet otherwise.
pub fn ws_url_for(config: &Config) -> (r: &'static str)
    ensures
        r@ == (if endpoint_is_mainnet_spec(config.endpoint@) {
            mainnet_ws_url()
        } else {
            testnet_ws_url()
        }),
{
    if endpoint_is_mainnet(config.endpoint.as_str()) {
        "wss://www.deribit.com/ws/api/v2"
    } else {
        "wss://test.deribit.com/ws/api/v2"
    }
}

/// `r` is the FIX settings for `c`, or the missing-credentials error.
pub open spec fn fix_settings_for(c: Config, r: Result<FixSettings, AdapterError>) -> bool {
    match (c.client_id, c.client_secret) {
        (Some(id), Some(secret)) => r matches Ok(s) && s.client_id == id && s.client_secret
            == secret && s.host@ == (if endpoint_is_mainnet_spec(c.endpoint@) {
            "fix.deribit.com"@
        } else {
            "fix-test.deribit.com"@
        }) && s.port == 9881 && !s.use_ssl,
        _ => r matches Err(e) && is_validation(
            e,
            "credentials"@,
            "FIX transport requires DERIBIT_CLIENT_ID + DERIBIT_CLIENT_SECRET"@,
        ),
    }
}

/// Build the upstream FIX settings: gateway by network, port 9881, plain
/// TCP, credentials as username and signing secret.
///
/// # Errors
///
/// A validation error on `credentials` unless both halves are configured.
pub fn fix_config_from(config: &Config) -> (r: Result<FixSettings, AdapterError>)
    ensures
        fix_settings_for(*config, r),
{
    match (&config.client_id, &config.client_secret) {
        (Some(id), Some(secret)) => {
            let mainnet = endpoint_is_mainnet(config.endpoint.as_str());
            let host = if mainnet {
                owned("fix.deribit.com")
            } else {
                owned("fix-test.deribit.com")
            };
            Ok(
                FixSettings {
                    client_id: id.clone(),
                    client_secret: secret.clone(),
                    host,
                    port: 9881,
                    use_ssl: false,
                },
            )
        },
        _ => Err(
            AdapterError::validation(
                "credentials",
                owned("FIX transport requires DERIBIT_CLIENT_ID + DERIBIT_CLIENT_SECRET"),
            ),
        ),
    }
}

/// Shared adapter context.
#[derive(Debug, Clone)]
pub struct AdapterContext {
    /// Resolved configuration, frozen for the lifetime of the process.
    pub config: Config,
    /// Settings of the upstream HTTP client.
    pub http: HttpSettings,
}

impl AdapterContext {
    /// Build the adapter context from a resolved [`Config`].
    ///
    /// # Errors
    ///
    /// A validation error on `endpoint` when the endpoint is not a URL.
    pub fn new(config: Config) -> (r: Result<AdapterContext, AdapterError>)
        ensures
            match r {
                Ok(ctx) => ctx.config == config && http_settings_for(
                    config,
                    Ok::<HttpSettings, AdapterError>(ctx.http),
                ),
                Err(e) => http_settings_for(config, Err::<HttpSettings, AdapterError>(e)),
            },
    {
        match http_config_from(&config) {
            Ok(http) => Ok(AdapterContext { config, http }),
            Err(e) => Err(e),
        }
    }

    /// Whether both an OAuth client id and secret are configured.
    pub fn has_credentials(&self) -> (r: bool)
        ensures
            r == config_has_credentials(self.config),
    {
        self.config.client_id.is_some() && self.config.client_secret.is_some()
    }

    /// OAuth posture: `Configured` exactly when credentials are present.
    pub fn auth_state(&self) -> (r: AuthState)
        ensures
            r == (if config_has_credentials(self.config) {
                AuthState::Configured
            } else {
                AuthState::Anonymous
            }),
    {
        if self.has_credentials() {
            AuthState::Configured
        } else {
            AuthState::Anonymous
        }
    }

    /// The settings for opening the FIX session: what `ensure_fix` checks
    /// before any network activity.
    ///
    /// # Errors
    ///
    /// - A validation error on `order_transport` when the configuration
    ///   selects the HTTP order transport.
    /// - A validation error on `credentials` when either half is missing.
    pub fn fix_session_settings(&self) -> (r: Result<FixSettings, AdapterError>)
        ensures
            self.config.order_transport == OrderTransport::Http ==> (r matches Err(e)
                && is_validation(
                e,
                "order_transport"@,
                "ensure_fix called but configured order_transport is `http`"@,
            )),
            self.config.order_transport == OrderTransport::Fix ==> fix_settings_for(
                self.config,
                r,
            ),
    {
        match self.config.order_transport {
            OrderTransport::Fix => fix_config_from(&self.config),
            OrderTransport::Http => Err(
                AdapterError::validation(
                    "order_transport",
                    owned("ensure_fix called but configured order_transport is `http`"),
                ),
            ),
        }
    }
}

} // verus!
