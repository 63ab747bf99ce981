use deribit_mcp::config::{Config, LogFormat, OrderTransport, Transport};
use deribit_mcp::context::AdapterContext;
use deribit_mcp::error::AdapterError;
use deribit_mcp::tools::{check_class_enabled, make_entry, ToolClass, ToolKind, ToolRegistry};

fn cfg(with_creds: bool, allow_trading: bool) -> Config {
    Config {
        endpoint: "https://test.deribit.com".to_string(),
        client_id: if with_creds { Some("id".to_string()) } else { None },
        client_secret: if with_creds { Some("secret".to_string()) } else { None },
        allow_trading,
        max_order_usd: None,
        transport: Transport::Stdio,
        http_listen: "127.0.0.1:8723".to_string(),
        http_bearer_token: None,
        log_format: LogFormat::Text,
        order_transport: OrderTransport::Http,
    }
}

fn ctx(with_creds: bool, allow_trading: bool) -> AdapterContext {
    AdapterContext::new(cfg(with_creds, allow_trading)).expect("ctx")
}

fn test_entry(name: &str, class: ToolClass) -> deribit_mcp::tools::ToolEntry {
    make_entry(name, "test tool", ToolKind::GetSubaccounts, class)
}

#[test]
fn class_flags_match_documentation() {
    assert_eq!(ToolClass::Read.flag(), "(always enabled)");
    assert_eq!(ToolClass::Account.flag(), "DERIBIT_CLIENT_ID + DERIBIT_CLIENT_SECRET");
    assert_eq!(ToolClass::Trading.flag(), "--allow-trading");
}

#[test]
fn registry_starts_empty() {
    let r = ToolRegistry::new();
    assert!(r.is_empty());
    assert_eq!(r.len(), 0);
    assert!(r.list().is_empty());
}

#[test]
fn registry_lists_sorted_by_name() {
    let mut r = ToolRegistry::new();
    r.insert(test_entry("get_ticker", ToolClass::Read));
    r.insert(test_entry("get_book", ToolClass::Read));
    let listed = r.list();
    let names: Vec<&str> = listed.iter().map(|t| t.name.as_ref()).collect();
    assert_eq!(names, vec!["get_book", "get_ticker"]);
}

#[test]
fn insert_replaces_and_returns_previous_entry() {
    let mut r = ToolRegistry::new();
    assert!(r.insert(test_entry("x", ToolClass::Read)).is_none());
    let prev = r.insert(test_entry("x", ToolClass::Trading)).expect("previous");
    assert_eq!(prev.class, ToolClass::Read);
    assert_eq!(r.len(), 1);
    assert_eq!(r.get("x").unwrap().class, ToolClass::Trading);
}

#[test]
fn dispatch_unknown_tool_returns_validation() {
    let registry = ToolRegistry::new();
    let ctx = ctx(false, false);
    let err = registry.route(&ctx, "no_such_tool").unwrap_err();
    match err {
        AdapterError::Validation { field, message } => {
            assert_eq!(field, "name");
            assert_eq!(message, "unknown tool: `no_such_tool`");
        }
        other => panic!("unexpected: {other:?}"),
    }
}

#[test]
fn dispatch_read_class_succeeds_without_creds() {
    let mut registry = ToolRegistry::new();
    registry.insert(test_entry("ping", ToolClass::Read));
    let ctx = ctx(false, false);
    let entry = registry.route(&ctx, "ping").expect("ok");
    assert_eq!(entry.descriptor.name, "ping");
}

#[test]
fn dispatch_account_class_requires_credentials() {
    let mut registry = ToolRegistry::new();
    registry.insert(test_entry("get_account_summary", ToolClass::Account));
    let ctx = ctx(false, false);
    let err = registry.route(&ctx, "get_account_summary").unwrap_err();
    match err {
        AdapterError::NotEnabled { tool, flag } => {
            assert_eq!(tool, "get_account_summary");
            assert_eq!(flag, ToolClass::Account.flag());
        }
        other => panic!("unexpected: {other:?}"),
    }
}

#[test]
fn dispatch_account_class_succeeds_with_credentials() {
    let mut registry = ToolRegistry::new();
    registry.insert(test_entry("get_account_summary", ToolClass::Account));
    let ctx = ctx(true, false);
    registry.route(&ctx, "get_account_summary").expect("ok");
}

#[test]
fn dispatch_trading_class_requires_allow_trading_flag() {
    let mut registry = ToolRegistry::new();
    registry.insert(test_entry("place_order", ToolClass::Trading));
    let ctx = ctx(true, false);
    let err = registry.route(&ctx, "place_order").unwrap_err();
    match err {
        AdapterError::NotEnabled { tool, flag } => {
            assert_eq!(tool, "place_order");
            assert_eq!(flag, "--allow-trading");
        }
        other => panic!("unexpected: {other:?}"),
    }
}

#[test]
fn dispatch_trading_class_succeeds_with_creds_and_flag() {
    let mut registry = ToolRegistry::new();
    registry.insert(test_entry("place_order", ToolClass::Trading));
    let ctx = ctx(true, true);
    registry.route(&ctx, "place_order").expect("ok");
}

#[test]
fn trading_gate_names_every_missing_precondition() {
    let flag_for = |creds: bool, trading: bool| match check_class_enabled(
        ToolClass::Trading,
        &ctx(creds, trading),
        "place_order",
    ) {
        Ok(()) => None,
        Err(AdapterError::NotEnabled { flag, .. }) => Some(flag),
        Err(other) => panic!("unexpected: {other:?}"),
    };
    assert_eq!(
        flag_for(false, false).as_deref(),
        Some("DERIBIT_CLIENT_ID + DERIBIT_CLIENT_SECRET + --allow-trading")
    );
    assert_eq!(flag_for(false, true).as_deref(), Some("DERIBIT_CLIENT_ID + DERIBIT_CLIENT_SECRET"));
    assert_eq!(flag_for(true, false).as_deref(), Some("--allow-trading"));
    assert_eq!(flag_for(true, true), None);
    assert!(check_class_enabled(ToolClass::Read, &ctx(false, false), "x").is_ok());
}

#[test]
fn all_account_tools_register_under_account_class() {
    let mut registry = ToolRegistry::new();
    deribit_mcp::tools::account::register(&mut registry);
    for tool in registry.list() {
        let entry = registry.get(tool.name.as_ref()).expect("entry");
        assert_eq!(entry.class, ToolClass::Account, "{}", tool.name);
    }
}

#[test]
fn register_populates_three_tools() {
    let mut registry = ToolRegistry::new();
    deribit_mcp::tools::account::register(&mut registry);
    assert_eq!(registry.len(), 3);
    let names: Vec<String> = registry.list().into_iter().map(|t| t.name).collect();
    for expected in ["get_account_summary", "get_positions", "get_subaccounts"] {
        assert!(names.iter().any(|n| n == expected), "missing tool {expected}; got {names:?}");
    }
}

#[test]
fn build_without_creds_includes_only_read() {
    let registry = ToolRegistry::build(&ctx(false, false));
    assert_eq!(registry.len(), 14);
    for tool in registry.list() {
        let entry = registry.get(tool.name.as_ref()).expect("entry");
        assert_eq!(entry.class, ToolClass::Read, "{}", tool.name);
    }
}

#[test]
fn read_family_names_the_documented_tools() {
    let registry = ToolRegistry::build(&ctx(false, false));
    let names: Vec<String> = registry.list().into_iter().map(|t| t.name).collect();
    assert_eq!(
        names,
        vec![
            "get_book_summary_by_currency",
            "get_book_summary_by_instrument",
            "get_currencies",
            "get_funding_rate_history",
            "get_historical_volatility",
            "get_index_price",
            "get_instrument",
            "get_last_trades",
            "get_order_book",
            "get_server_time",
            "get_status",
            "get_ticker",
            "get_tradingview_chart_data",
            "list_instruments",
        ]
    );
    assert_eq!(registry.get("get_ticker").unwrap().descriptor.kind, ToolKind::GetTicker);
    assert!(registry.route(&ctx(false, false), "get_order_book").is_ok());
}

#[test]
fn build_registers_families_by_configuration() {
    let anon = ToolRegistry::build(&ctx(false, false));
    assert_eq!(anon.len(), 14);
    assert!(!anon.contains("get_account_summary"));
    let account = ToolRegistry::build(&ctx(true, false));
    assert_eq!(account.len(), 17);
    assert!(account.contains("get_positions"));
    assert!(!account.contains("place_order"));
    let trading_no_creds = ToolRegistry::build(&ctx(false, true));
    assert_eq!(trading_no_creds.len(), 14);
    assert!(!trading_no_creds.contains("place_order"));
    let full = ToolRegistry::build(&ctx(true, true));
    assert_eq!(full.len(), 22);
    assert_eq!(full.get("place_order").unwrap().class, ToolClass::Trading);
    assert_eq!(
        full.get("cancel_all_by_instrument").unwrap().descriptor.kind,
        ToolKind::CancelAllByInstrument
    );
    for tool in full.list() {
        assert!(full.route(&ctx(true, true), &tool.name).is_ok());
    }
}
