//! Configuration surface: how CLI flags, environment variables and built-in
//! defaults resolve into one [`Config`].
//!
//! Priority order (first wins): CLI flags, process environment (which the
//! binary fills from `.env` beforehand), built-in defaults. Reading the
//! command line, the environment and `.env` files is the binary's job; it
//! hands the raw values to [`Config::resolve`].
use vstd::prelude::*;
use crate::number::{parse_u64, parse_u64_spec};
use crate::text::{owned, str_equal};

verus! {

/// MCP transport selection.
#[derive(Debug, Clone, Copy, PartialEq, Eq, Structural)]
pub enum Transport {
    /// Standard input/output (default).
    Stdio,
    /// HTTP (Streamable HTTP).
    Http,
}

/// Log output format.
#[derive(Debug, Clone, Copy, PartialEq, Eq, Structural)]
pub enum LogFormat {
    /// Human-readable text (default for stdio).
    Text,
    /// JSON structured logs (default for http).
    Json,
}

/// Transport used for order entry.
#[derive(Debug, Clone, Copy, PartialEq, Eq, Structural)]
pub enum OrderTransport {
    /// JSON-RPC over HTTP (default).
    Http,
    /// FIX 4.4 session.
    Fix,
}

/// Resolved configuration.
#[derive(Debug, Clone)]
pub struct Config {
    /// Deribit API endpoint (testnet by default).
    pub endpoint: String,
    /// Client ID for the OAuth flow.
    pub client_id: Option<String>,
    /// Client secret for the OAuth flow (environment only).
    pub client_secret: Option<String>,
    /// Enable trading tools (off by default).
    pub allow_trading: bool,
    /// Max order notional in USD (unlimited by default).
    pub max_order_usd: Option<u64>,
    /// MCP transport.
    pub transport: Transport,
    /// HTTP listen address, `host:port` (only used by the HTTP transport).
    pub http_listen: String,
    /// HTTP bearer token (optional, environment only).
    pub http_bearer_token: Option<String>,
    /// Log format.
    pub log_format: LogFormat,
    /// Order-entry transport.
    pub order_transport: OrderTransport,
}

/// Command-line flags as parsed from the command line.
#[derive(Debug, Clone)]
pub struct CliArgs {
    /// `--testnet`.
    pub testnet: bool,
    /// `--mainnet`.
    pub mainnet: bool,
    /// `--client-id`.
    pub client_id: Option<String>,
    /// `--allow-trading`.
    pub allow_trading: bool,
    /// `--max-order-usd`.
    pub max_order_usd: Option<u64>,
    /// `--transport` (raw text).
    pub transport: Option<String>,
    /// `--listen`, a socket address.
    pub listen: Option<String>,
    /// `--log-format` (raw text).
    pub log_format: Option<String>,
    /// `--order-transport` (raw text).
    pub order_transport: Option<String>,
}

/// The environment variables the adapter reads.
#[derive(Debug, Clone)]
pub struct EnvVars {
    /// `DERIBIT_NETWORK`: `testnet` or `mainnet`.
    pub network: Option<String>,
    /// `DERIBIT_ENDPOINT`.
    pub endpoint: Option<String>,
    /// `DERIBIT_CLIENT_ID`.
    pub client_id: Option<String>,
    /// `DERIBIT_CLIENT_SECRET`.
    pub client_secret: Option<String>,
    /// `DERIBIT_ALLOW_TRADING`.
    pub allow_trading: Option<String>,
    /// `DERIBIT_MAX_ORDER_USD`.
    pub max_order_usd: Option<String>,
    /// `DERIBIT_MCP_TRANSPORT`.
    pub transport: Option<String>,
    /// `DERIBIT_HTTP_LISTEN`, present only when it holds a valid socket
    /// address.
    pub http_listen: Option<String>,
    /// `DERIBIT_HTTP_BEARER_TOKEN`.
    pub http_bearer_token: Option<String>,
    /// `DERIBIT_LOG_FORMAT`.
    pub log_format: Option<String>,
    /// `DERIBIT_ORDER_TRANSPORT`.
    pub order_transport: Option<String>,
}

/// Why a configuration is refused.
#[derive(Debug, Clone, PartialEq, Eq)]
pub enum ConfigError {
    /// An environment variable that must hold a number does not parse as
    /// one.
    InvalidNumber {
        /// The variable.
        variable: String,
        /// Its value.
        value: String,
    },
    /// `--order-transport=fix` without `--allow-trading`: the FIX session
    /// would never be used.
    FixWithoutTrading,
}

/// `DERIBIT_MAX_ORDER_USD` is consulted (no `--max-order-usd` flag) and does
/// not parse as a `u64`.
pub open spec fn max_order_usd_unparsable(cli: CliArgs, env: EnvVars) -> bool {
    cli.max_order_usd is None && (env.max_order_usd matches Some(v) && parse_u64_spec(v@) is None)
}

/// Default testnet endpoint.
pub open spec fn testnet_endpoint() -> Seq<char> {
    "https://test.deribit.com"@
}

/// Mainnet endpoint.
pub open spec fn mainnet_endpoint() -> Seq<char> {
    "https://www.deribit.com"@
}

/// Default HTTP listen address.
pub open spec fn default_listen() -> Seq<char> {
    "127.0.0.1:8723"@
}

/// View of an optional string.
pub open spec fn opt_view(o: Option<String>) -> Option<Seq<char>> {
    match o {
        Some(s) => Some(s@),
        None => None,
    }
}

/// `a.or(b)`.
pub open spec fn or_else<T>(a: Option<T>, b: Option<T>) -> Option<T> {
    if a is Some { a } else { b }
}

/// `o.unwrap_or(d)`.
pub open spec fn unwrap_or<T>(o: Option<T>, d: T) -> T {
    match o {
        Some(v) => v,
        None => d,
    }
}

/// Endpoint selected by the `--mainnet` / `--testnet` flags (mainnet wins).
pub open spec fn endpoint_from_flags(mainnet: bool, testnet: bool) -> Option<Seq<char>> {
    if mainnet {
        Some(mainnet_endpoint())
    } else if testnet {
        Some(testnet_endpoint())
    } else {
        None
    }
}

/// Endpoint named by `DERIBIT_NETWORK`: `testnet` or `mainnet`; anything
/// else names none.
pub open spec fn network_named(s: Seq<char>) -> Option<Seq<char>> {
    if s == "testnet"@ {
        Some(testnet_endpoint())
    } else if s == "mainnet"@ {
        Some(mainnet_endpoint())
    } else {
        None
    }
}

/// Resolved endpoint: the `--mainnet` / `--testnet` flags, else
/// `DERIBIT_NETWORK`, else `DERIBIT_ENDPOINT`, else the testnet.
pub open spec fn resolved_endpoint(cli: CliArgs, env: EnvVars) -> Seq<char> {
    unwrap_or(
        or_else(
            endpoint_from_flags(cli.mainnet, cli.testnet),
            or_else(parse_opt(env.network, |s| network_named(s)), opt_view(env.endpoint)),
        ),
        testnet_endpoint(),
    )
}

/// `stdio` / `http`; anything else is not a transport.
pub open spec fn transport_named(s: Seq<char>) -> Option<Transport> {
    if s == "stdio"@ {
        Some(Transport::Stdio)
    } else if s == "http"@ {
        Some(Transport::Http)
    } else {
        None
    }
}

/// `text` / `json`; anything else is not a log format.
pub open spec fn log_format_named(s: Seq<char>) -> Option<LogFormat> {
    if s == "text"@ {
        Some(LogFormat::Text)
    } else if s == "json"@ {
        Some(LogFormat::Json)
    } else {
        None
    }
}

/// `http` / `fix`; anything else is not an order transport.
pub open spec fn order_transport_named(s: Seq<char>) -> Option<OrderTransport> {
    if s == "http"@ {
        Some(OrderTransport::Http)
    } else if s == "fix"@ {
        Some(OrderTransport::Fix)
    } else {
        None
    }
}

/// Optional raw text parsed with `f`; absent text parses to nothing.
pub open spec fn parse_opt<T>(o: Option<String>, f: spec_fn(Seq<char>) -> Option<T>) -> Option<T> {
    match o {
        Some(s) => f(s@),
        None => None,
    }
}

/// Log format used when none is configured: text on stdio, JSON on HTTP.
pub open spec fn default_log_format(t: Transport) -> LogFormat {
    match t {
        Transport::Stdio => LogFormat::Text,
        Transport::Http => LogFormat::Json,
    }
}

/// Resolved transport.
pub open spec fn resolved_transport(cli: CliArgs, env: EnvVars) -> Transport {
    unwrap_or(
        or_else(
            parse_opt(cli.transport, |s| transport_named(s)),
            parse_opt(env.transport, |s| transport_named(s)),
        ),
        Transport::Stdio,
    )
}

/// Resolved order transport.
pub open spec fn resolved_order_transport(cli: CliArgs, env: EnvVars) -> OrderTransport {
    unwrap_or(
        or_else(
            parse_opt(cli.order_transport, |s| order_transport_named(s)),
            parse_opt(env.order_transport, |s| order_transport_named(s)),
        ),
        OrderTransport::Http,
    )
}

/// Resolved trading opt-in: the flag, or `DERIBIT_ALLOW_TRADING=1`.
pub open spec fn resolved_allow_trading(cli: CliArgs, env: EnvVars) -> bool {
    cli.allow_trading || opt_view(env.allow_trading) == Some("1"@)
}

/// The configuration that `cli` and `env` resolve to, field by field: the
/// CLI value when given (and valid), else the environment value when given
/// (and valid), else the built-in default.
pub open spec fn resolves_to(c: Config, cli: CliArgs, env: EnvVars) -> bool {
    &&& c.endpoint@ == resolved_endpoint(cli, env)
    &&& opt_view(c.client_id) == or_else(opt_view(cli.client_id), opt_view(env.client_id))
    &&& c.client_secret == env.client_secret
    &&& c.allow_trading == resolved_allow_trading(cli, env)
    &&& c.max_order_usd == or_else(
        cli.max_order_usd,
        parse_opt(env.max_order_usd, |s| parse_u64_spec(s)),
    )
    &&& c.transport == resolved_transport(cli, env)
    &&& c.http_listen@ == unwrap_or(
        or_else(opt_view(cli.listen), opt_view(env.http_listen)),
        default_listen(),
    )
    &&& c.http_bearer_token == env.http_bearer_token
    &&& c.log_format == unwrap_or(
        or_else(
            parse_opt(cli.log_format, |s| log_format_named(s)),
            parse_opt(env.log_format, |s| log_format_named(s)),
        ),
        default_log_format(c.transport),
    )
    &&& c.order_transport == resolved_order_transport(cli, env)
}

/// Priority of the configuration sources: a value given on the command line
/// wins over the environment, the environment wins over the built-in
/// default; with no log format configured, stdio logs text and HTTP logs
/// JSON.
pub proof fn lemma_cli_over_env_over_default(c: Config, cli: CliArgs, env: EnvVars)
    requires
        resolves_to(c, cli, env),
    ensures
        cli.mainnet ==> c.endpoint@ == mainnet_endpoint(),
        !cli.mainnet && cli.testnet ==> c.endpoint@ == testnet_endpoint(),
        !cli.mainnet && !cli.testnet ==> (parse_opt(env.network, |s| network_named(s)) matches Some(
            e,
        ) ==> c.endpoint@ == e),
        !cli.mainnet && !cli.testnet && parse_opt(env.network, |s| network_named(s)) is None ==> (
        env.endpoint matches Some(e) ==> c.endpoint@ == e@),
        !cli.mainnet && !cli.testnet && parse_opt(env.network, |s| network_named(s)) is None
            && env.endpoint is None ==> c.endpoint@ == testnet_endpoint(),
        cli.client_id matches Some(id) ==> opt_view(c.client_id) == Some(id@),
        cli.client_id is None ==> opt_view(c.client_id) == opt_view(env.client_id),
        cli.max_order_usd is Some ==> c.max_order_usd == cli.max_order_usd,
        cli.listen matches Some(l) ==> c.http_listen@ == l@,
        cli.listen is None && env.http_listen is None ==> c.http_listen@ == default_listen(),
        parse_opt(cli.transport, |s| transport_named(s)) matches Some(t) ==> c.transport == t,
        parse_opt(cli.transport, |s| transport_named(s)) is None && parse_opt(
            env.transport,
            |s| transport_named(s),
        ) is None ==> c.transport == Transport::Stdio,
        parse_opt(cli.log_format, |s| log_format_named(s)) is None && parse_opt(
            env.log_format,
            |s| log_format_named(s),
        ) is None ==> c.log_format == default_log_format(c.transport),
{
}

/// Where no valid `--transport` flag is given, a valid
/// `DERIBIT_MCP_TRANSPORT` decides the transport, and with no log format
/// configured the log format follows it (`http` logs JSON, `stdio` logs
/// text). Likewise `DERIBIT_LOG_FORMAT` decides the log format without a
/// valid `--log-format`, and `DERIBIT_ORDER_TRANSPORT` the order transport
/// without a valid `--order-transport`.
pub proof fn lemma_env_decides_without_flag(c: Config, cli: CliArgs, env: EnvVars)
    requires
        resolves_to(c, cli, env),
    ensures
        parse_opt(cli.transport, |s| transport_named(s)) is None ==> (parse_opt(
            env.transport,
            |s| transport_named(s),
        ) matches Some(t) ==> c.transport == t),
        cli.transport is None && opt_view(env.transport) == Some("http"@) ==> c.transport
            == Transport::Http,
        cli.transport is None && opt_view(env.transport) == Some("stdio"@) ==> c.transport
            == Transport::Stdio,
        cli.transport is None && cli.log_format is None && env.log_format is None && opt_view(
            env.transport,
        ) == Some("http"@) ==> c.log_format == LogFormat::Json,
        cli.transport is None && cli.log_format is None && env.log_format is None && opt_view(
            env.transport,
        ) == Some("stdio"@) ==> c.log_format == LogFormat::Text,
        cli.log_format is None && opt_view(env.log_format) == Some("json"@) ==> c.log_format
            == LogFormat::Json,
        cli.log_format is None && opt_view(env.log_format) == Some("text"@) ==> c.log_format
            == LogFormat::Text,
        parse_opt(cli.log_format, |s| log_format_named(s)) is None ==> (parse_opt(
            env.log_format,
            |s| log_format_named(s),
        ) matches Some(f) ==> c.log_format == f),
        parse_opt(cli.order_transport, |s| order_transport_named(s)) is None ==> (parse_opt(
            env.order_transport,
            |s| order_transport_named(s),
        ) matches Some(t) ==> c.order_transport == t),
        cli.order_transport is None && opt_view(env.order_transport) == Some("fix"@)
            ==> c.order_transport == OrderTransport::Fix,
        cli.order_transport is None && env.order_transport is None ==> c.order_transport
            == OrderTransport::Http,
{
    reveal_strlit("http");
    reveal_strlit("stdio");
    reveal_strlit("json");
    reveal_strlit("text");
    reveal_strlit("fix");
    assert("http"@ != "stdio"@) by {
        assert("http"@.len() != "stdio"@.len());
    }
    assert("json"@ != "text"@) by {
        assert("json"@[0] != "text"@[0]);
    }
    assert("fix"@ != "http"@) by {
        assert("fix"@.len() != "http"@.len());
    }
}

/// Which Deribit endpoint the configuration talks to: `--mainnet` (or,
/// without either flag, `DERIBIT_NETWORK=mainnet`) selects
/// `https://www.deribit.com`; `--testnet`, `DERIBIT_NETWORK=testnet`, or
/// nothing at all selects `https://test.deribit.com`; a custom
/// `DERIBIT_ENDPOINT` is used as given when neither flags nor
/// `DERIBIT_NETWORK` name one. Trading is enabled by `--allow-trading` or by
/// `DERIBIT_ALLOW_TRADING=1`, and by nothing else.
pub proof fn lemma_endpoint_and_trading_opt_in(c: Config, cli: CliArgs, env: EnvVars)
    requires
        resolves_to(c, cli, env),
    ensures
        cli.mainnet ==> c.endpoint@ == "https://www.deribit.com"@,
        !cli.mainnet && cli.testnet ==> c.endpoint@ == "https://test.deribit.com"@,
        !cli.mainnet && !cli.testnet && opt_view(env.network) == Some("mainnet"@) ==> c.endpoint@
            == "https://www.deribit.com"@,
        !cli.mainnet && !cli.testnet && opt_view(env.network) == Some("testnet"@) ==> c.endpoint@
            == "https://test.deribit.com"@,
        !cli.mainnet && !cli.testnet && env.network is None ==> (env.endpoint matches Some(e)
            ==> c.endpoint@ == e@),
        !cli.mainnet && !cli.testnet && env.network is None && env.endpoint is None
            ==> c.endpoint@ == "https://test.deribit.com"@,
        c.allow_trading <==> (cli.allow_trading || opt_view(env.allow_trading) == Some("1"@)),
{
    reveal_strlit("mainnet");
    reveal_strlit("testnet");
    assert("mainnet"@ != "testnet"@) by {
        assert("mainnet"@[0] != "testnet"@[0]);
    }
}

/// `--mainnet` / `--testnet` endpoint.
pub fn endpoint_for_flags(mainnet: bool, testnet: bool) -> (r: Option<String>)
    ensures
        opt_view(r) == endpoint_from_flags(mainnet, testnet),
{
    if mainnet {
        Some(owned("https://www.deribit.com"))
    } else if testnet {
        Some(owned("https://test.deribit.com"))
    } else {
        None
    }
}

/// Endpoint named by an optional `DERIBIT_NETWORK` value.
pub fn endpoint_for_network(network: &Option<String>) -> (r: Option<String>)
    ensures
        opt_view(r) == parse_opt(*network, |s| network_named(s)),
{
    match network {
        Some(n) => if str_equal(n.as_str(), "testnet") {
            Some(owned("https://test.deribit.com"))
        } else if str_equal(n.as_str(), "mainnet") {
            Some(owned("https://www.deribit.com"))
        } else {
            None
        },
        None => None,
    }
}

/// Parse a transport name.
pub fn parse_transport(s: &str) -> (r: Option<Transport>)
    ensures
        r == transport_named(s@),
{
    if str_equal(s, "stdio") {
        Some(Transport::Stdio)
    } else if str_equal(s, "http") {
        Some(Transport::Http)
    } else {
        None
    }
}

/// Parse a log format name.
pub fn parse_log_format(s: &str) -> (r: Option<LogFormat>)
    ensures
        r == log_format_named(s@),
{
    if str_equal(s, "text") {
        Some(LogFormat::Text)
    } else if str_equal(s, "json") {
        Some(LogFormat::Json)
    } else {
        None
    }
}

/// Parse an order transport name.
pub fn parse_order_transport(s: &str) -> (r: Option<OrderTransport>)
    ensures
        r == order_transport_named(s@),
{
    if str_equal(s, "http") {
        Some(OrderTransport::Http)
    } else if str_equal(s, "fix") {
        Some(OrderTransport::Fix)
    } else {
        None
    }
}

impl LogFormat {
    /// Text on stdio, JSON on HTTP.
    pub fn default_for(transport: Transport) -> (r: LogFormat)
        ensures
            r == default_log_format(transport),
    {
        match transport {
            Transport::Stdio => LogFormat::Text,
            Transport::Http => LogFormat::Json,
        }
    }
}

fn clone_opt(o: &Option<String>) -> (r: Option<String>)
    ensures
        r == *o,
{
    match o {
        Some(s) => Some(s.clone()),
        None => None,
    }
}

fn first_some(a: &Option<String>, b: &Option<String>) -> (r: Option<String>)
    ensures
        r == or_else(*a, *b),
{
    if a.is_some() {
        clone_opt(a)
    } else {
        clone_opt(b)
    }
}

fn opt_transport(o: &Option<String>) -> (r: Option<Transport>)
    ensures
        r == parse_opt(*o, |s| transport_named(s)),
{
    match o {
        Some(s) => parse_transport(s.as_str()),
        None => None,
    }
}

fn opt_log_format(o: &Option<String>) -> (r: Option<LogFormat>)
    ensures
        r == parse_opt(*o, |s| log_format_named(s)),
{
    match o {
        Some(s) => parse_log_format(s.as_str()),
        None => None,
    }
}

fn opt_order_transport(o: &Option<String>) -> (r: Option<OrderTransport>)
    ensures
        r == parse_opt(*o, |s| order_transport_named(s)),
{
    match o {
        Some(s) => parse_order_transport(s.as_str()),
        None => None,
    }
}

impl Config {
    /// Resolve the configuration from command-line flags and environment
    /// variables.
    ///
    /// # Errors
    ///
    /// - [`ConfigError::InvalidNumber`] naming `DERIBIT_MAX_ORDER_USD` when
    ///   that variable is consulted and is not a number.
    /// - [`ConfigError::FixWithoutTrading`] when the order transport resolves
    ///   to FIX but trading is not enabled.
    pub fn resolve(cli: &CliArgs, env: &EnvVars) -> (r: Result<Config, ConfigError>)
        ensures
            max_order_usd_unparsable(*cli, *env) ==> (r matches Err(
                ConfigError::InvalidNumber { variable, value },
            ) && variable@ == "DERIBIT_MAX_ORDER_USD"@ && opt_view(env.max_order_usd) == Some(
                value@,
            )),
            !max_order_usd_unparsable(*cli, *env) ==> (r is Err <==> (resolved_order_transport(
                *cli,
                *env,
            ) == OrderTransport::Fix && !resolved_allow_trading(*cli, *env))),
            !max_order_usd_unparsable(*cli, *env) ==> (r matches Err(e) ==> e
                == ConfigError::FixWithoutTrading),
            r matches Ok(c) ==> resolves_to(c, *cli, *env),
    {
        let endpoint = match endpoint_for_flags(cli.mainnet, cli.testnet) {
            Some(e) => e,
            None => match endpoint_for_network(&env.network) {
                Some(e) => e,
                None => match &env.endpoint {
                    Some(e) => e.clone(),
                    None => owned("https://test.deribit.com"),
                },
            },
        };
        let client_id = first_some(&cli.client_id, &env.client_id);
        let client_secret = clone_opt(&env.client_secret);
        let allow_trading = cli.allow_trading || match &env.allow_trading {
            Some(v) => str_equal(v.as_str(), "1"),
            None => false,
        };
        let max_order_usd = match cli.max_order_usd {
            Some(v) => Some(v),
            None => match &env.max_order_usd {
                Some(text) => match parse_u64(text.as_str()) {
                    Some(v) => Some(v),
                    None => {
                        return Err(
                            ConfigError::InvalidNumber {
                                variable: owned("DERIBIT_MAX_ORDER_USD"),
                                value: text.clone(),
                            },
                        );
                    },
                },
                None => None,
            },
        };
        let transport = match opt_transport(&cli.transport) {
            Some(t) => t,
            None => match opt_transport(&env.transport) {
                Some(t) => t,
                None => Transport::Stdio,
            },
        };
        let http_listen = match first_some(&cli.listen, &env.http_listen) {
            Some(l) => l,
            None => owned("127.0.0.1:8723"),
        };
        let http_bearer_token = clone_opt(&env.http_bearer_token);
        let log_format = match opt_log_format(&cli.log_format) {
            Some(f) => f,
            None => match opt_log_format(&env.log_format) {
                Some(f) => f,
                None => LogFormat::default_for(transport),
            },
        };
        let order_transport = match opt_order_transport(&cli.order_transport) {
            Some(t) => t,
            None => match opt_order_transport(&env.order_transport) {
                Some(t) => t,
                None => OrderTransport::Http,
            },
        };
        match order_transport {
            OrderTransport::Fix => {
                if !allow_trading {
                    return Err(ConfigError::FixWithoutTrading);
                }
            },
            OrderTransport::Http => {},
        }
        Ok(Config {
            endpoint,
            client_id,
            client_secret,
            allow_trading,
            max_order_usd,
            transport,
            http_listen,
            http_bearer_token,
            log_format,
            order_transport,
        })
    }
}

} // verus!
