use deribit_mcp::config::{Config, LogFormat, OrderTransport, Transport};
use deribit_mcp::context::AdapterContext;
use deribit_mcp::error::AdapterError;
use deribit_mcp::prompts::daily_options_summary::{self, DailyOptionsSummaryInput};
use deribit_mcp::prompts::funding_snapshot::{self, FundingSnapshotInput};
use deribit_mcp::prompts::position_review::{self, PositionReviewInput};
use deribit_mcp::prompts::{PromptKind, PromptRegistry, PromptRole};

fn ctx() -> AdapterContext {
    let cfg = Config {
        endpoint: "https://test.deribit.com".to_string(),
        client_id: None,
        client_secret: None,
        allow_trading: false,
        max_order_usd: None,
        transport: Transport::Stdio,
        http_listen: "127.0.0.1:8723".to_string(),
        http_bearer_token: None,
        log_format: LogFormat::Text,
        order_transport: OrderTransport::Http,
    };
    AdapterContext::new(cfg).expect("ctx")
}

fn daily(currency: &str, horizon_days: u8) -> DailyOptionsSummaryInput {
    DailyOptionsSummaryInput { currency: currency.to_string(), horizon_days }
}

fn funding(currency: &str, lookback_hours: u32) -> FundingSnapshotInput {
    FundingSnapshotInput { currency: currency.to_string(), lookback_hours }
}

fn review(currency: &str, include_history: bool) -> PositionReviewInput {
    PositionReviewInput { currency: currency.to_string(), include_history }
}

fn field_of(err: &AdapterError) -> String {
    match err {
        AdapterError::Validation { field, .. } => field.clone(),
        other => panic!("unexpected: {other:?}"),
    }
}

#[test]
fn render_returns_two_messages_for_btc_7d() {
    let result = daily_options_summary::render(&daily("BTC", 7)).unwrap();
    assert_eq!(result.messages.len(), 2);
    assert!(matches!(result.messages[0].role, PromptRole::User));
    assert!(matches!(result.messages[1].role, PromptRole::Assistant));
    let text = &result.messages[0].text;
    assert!(text.contains("BTC options"));
    assert!(text.contains("7 day(s)"));
}

#[test]
fn render_normalises_currency_case() {
    let result = daily_options_summary::render(&daily("eth", 1)).unwrap();
    let text = &result.messages[0].text;
    assert!(text.contains("ETH options"));
}

#[test]
fn daily_options_summary_render_rejects_unknown_currency() {
    let err = daily_options_summary::render(&daily("XRP", 7)).unwrap_err();
    assert!(matches!(err, AdapterError::Validation { ref field, .. } if field == "currency"));
}

#[test]
fn render_rejects_zero_horizon() {
    let err = daily_options_summary::render(&daily("BTC", 0)).unwrap_err();
    assert!(matches!(err, AdapterError::Validation { ref field, .. } if field == "horizon_days"));
}

#[test]
fn render_rejects_horizon_over_cap() {
    let err = daily_options_summary::render(&daily("BTC", 99)).unwrap_err();
    assert!(matches!(err, AdapterError::Validation { ref field, .. } if field == "horizon_days"));
}

#[test]
fn daily_options_summary_descriptor_matches_documented_name_and_args() {
    let d = daily_options_summary::descriptor();
    assert_eq!(d.name, daily_options_summary::NAME);
    let args = d.arguments.expect("arguments");
    let names: Vec<_> = args.iter().map(|a| a.name.as_str()).collect();
    assert_eq!(names, vec!["currency", "horizon_days"]);
    assert!(args.iter().all(|a| a.required == Some(true)));
}

#[test]
fn daily_options_summary_texts_are_exact() {
    let r = daily_options_summary::render(&daily("  btc ", 31)).unwrap();
    assert_eq!(r.description, "Daily options summary for BTC (horizon: 31 day(s))");
    assert!(r.messages[0].text.starts_with(
        "Produce a structured summary of BTC options expiring within 31 day(s). Use ONLY the following Read tools, in this order:"
    ));
    assert_eq!(
        r.messages[1].text,
        "Acknowledged. I will summarise BTC options within 31 day(s) using only the listed Read tools, then return the four-section structured output."
    );
    let err = daily_options_summary::render(&daily("XRP", 7)).unwrap_err();
    assert_eq!(
        err,
        AdapterError::Validation {
            field: "currency".to_string(),
            message: "expected `BTC` or `ETH`, got `XRP`".to_string()
        }
    );
    let err = daily_options_summary::render(&daily("ETH", 32)).unwrap_err();
    assert_eq!(
        err,
        AdapterError::Validation {
            field: "horizon_days".to_string(),
            message: "expected 1..=31, got 32".to_string()
        }
    );
}

#[test]
fn render_returns_two_messages() {
    let r = funding_snapshot::render(&funding("BTC", 24)).unwrap();
    assert_eq!(r.messages.len(), 2);
    let text = &r.messages[0].text;
    assert!(text.contains("BTC-PERPETUAL"));
    assert!(text.contains("24 hour(s)"));
}

#[test]
fn funding_snapshot_render_rejects_unknown_currency() {
    let err = funding_snapshot::render(&funding("XRP", 24)).unwrap_err();
    assert!(matches!(err, AdapterError::Validation { ref field, .. } if field == "currency"));
}

#[test]
fn render_rejects_zero_lookback() {
    let err = funding_snapshot::render(&funding("BTC", 0)).unwrap_err();
    assert!(matches!(err, AdapterError::Validation { ref field, .. } if field == "lookback_hours"));
}

#[test]
fn render_rejects_lookback_over_cap() {
    let err = funding_snapshot::render(&funding("BTC", 721)).unwrap_err();
    assert!(matches!(err, AdapterError::Validation { ref field, .. } if field == "lookback_hours"));
}

#[test]
fn funding_snapshot_accepts_the_cap_itself() {
    let r = funding_snapshot::render(&funding("eth", 720)).unwrap();
    assert!(r.messages[0].text.contains("ETH-PERPETUAL"));
    assert!(r.messages[0].text.contains("720 hour(s)"));
    assert_eq!(funding_snapshot::validate_lookback(720).unwrap(), 720);
    assert_eq!(funding_snapshot::validate_lookback(1).unwrap(), 1);
}

#[test]
fn built_registry_lists_the_three_prompts() {
    let registry = PromptRegistry::build(&ctx());
    assert_eq!(registry.len(), 3);
    let names: Vec<String> = registry.list().into_iter().map(|d| d.name).collect();
    assert_eq!(names, vec!["daily_options_summary", "funding_snapshot", "position_review"]);
    assert!(registry.contains("daily_options_summary"));
    assert_eq!(registry.route("funding_snapshot").unwrap().kind, PromptKind::FundingSnapshot);
}

#[test]
fn new_registry_lists_nothing() {
    let registry = PromptRegistry::new();
    assert!(registry.is_empty());
    assert_eq!(registry.list().len(), 0);
}

#[test]
fn unknown_prompt_returns_validation() {
    let registry = PromptRegistry::build(&ctx());
    let err = registry.route("no_such_prompt").unwrap_err();
    match err {
        AdapterError::Validation { field, .. } => assert_eq!(field, "name"),
        other => panic!("unexpected: {other:?}"),
    }
}

#[test]
fn registered_prompts_list_sorted_and_route() {
    let mut registry = PromptRegistry::new();
    position_review::register(&mut registry);
    funding_snapshot::register(&mut registry);
    daily_options_summary::register(&mut registry);
    assert_eq!(registry.len(), 3);
    let names: Vec<String> = registry.list().into_iter().map(|d| d.name).collect();
    assert_eq!(names, vec!["daily_options_summary", "funding_snapshot", "position_review"]);
    assert!(registry.contains("funding_snapshot"));
    assert_eq!(registry.route("position_review").unwrap().kind, PromptKind::PositionReview);
    assert!(registry.get_entry("nope").is_none());
}

#[test]
fn render_with_credentials_lists_account_tools() {
    let r = position_review::render(true, &review("BTC", false)).unwrap();
    assert_eq!(r.messages.len(), 2);
    let text = &r.messages[0].text;
    for tool in ["get_account_summary", "get_positions", "get_open_orders_by_currency"] {
        assert!(text.contains(tool), "expected {tool} in body");
    }
    // include_history defaults false → no get_user_trades_by_currency.
    assert!(!text.contains("get_user_trades_by_currency"));
}

#[test]
fn render_with_history_includes_user_trades_step() {
    let r = position_review::render(true, &review("ETH", true)).unwrap();
    let text = &r.messages[0].text;
    assert!(text.contains("get_user_trades_by_currency"));
    assert!(text.contains("ETH"));
}

#[test]
fn render_without_credentials_emits_warning() {
    let r = position_review::render(false, &review("BTC", false)).unwrap();
    let text = &r.messages[0].text;
    assert!(text.starts_with("WARNING:"));
    assert!(text.contains("DERIBIT_CLIENT_ID"));
    assert!(!text.contains("Use ONLY the following Account tools"));
    assert!(!text.contains("Final output sections"));
}

#[test]
fn render_rejects_empty_currency() {
    let err = position_review::render(true, &review("   ", false)).unwrap_err();
    assert!(matches!(err, AdapterError::Validation { ref field, .. } if field == "currency"));
}

#[test]
fn position_review_descriptor_matches_documented_name_and_args() {
    let d = position_review::descriptor();
    assert_eq!(d.name, position_review::NAME);
    let args = d.arguments.expect("arguments");
    let names: Vec<_> = args.iter().map(|a| a.name.as_str()).collect();
    assert_eq!(names, vec!["currency", "include_history"]);
    assert_eq!(args[0].required, Some(true));
    assert_eq!(args[1].required, Some(false));
}

#[test]
fn position_review_uppercases_any_currency() {
    let r = position_review::render(true, &review(" usdc ", false)).unwrap();
    assert_eq!(r.description, "Position review for USDC");
    let w = position_review::render(false, &review("usdc", false)).unwrap();
    assert_eq!(w.description, "Position review for USDC — credentials missing");
    assert_eq!(field_of(&position_review::render(false, &review("", true)).unwrap_err()), "currency");
}

#[test]
fn unknown_prompt_message_names_the_prompt() {
    let registry = PromptRegistry::new();
    assert_eq!(
        registry.route("nope").unwrap_err(),
        AdapterError::Validation {
            field: "name".to_string(),
            message: "prompt `nope` is not registered".to_string()
        }
    );
}
