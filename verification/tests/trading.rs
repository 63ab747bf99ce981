use deribit_mcp::error::AdapterError;
use deribit_mcp::number::F64Bits;
use deribit_mcp::tools::trading::{
    build_edit_request, build_order_request, is_linear_instrument, is_option_instrument,
    notional_basis, option_underlying_base, prepare_edit_order, require_trimmed, validate_edit_order,
    validate_place_order, EditOrderInput, NotionalBasis, PlaceOrderInput, PlaceOrderType,
    PlaceTrigger, Side,
};

fn num(x: f64) -> F64Bits {
    F64Bits::from_bits(x.to_bits())
}

fn limit_input() -> PlaceOrderInput {
    PlaceOrderInput {
        instrument_name: "BTC-PERPETUAL".to_string(),
        side: Side::Buy,
        amount: num(10.0),
        order_type: PlaceOrderType::Limit,
        price: Some(num(50_000.0)),
        time_in_force: None,
        label: None,
        trigger_price: None,
        trigger: None,
        post_only: None,
        reject_post_only: None,
        reduce_only: None,
        mmp: None,
        valid_until: None,
    }
}

fn edit_input() -> EditOrderInput {
    EditOrderInput {
        order_id: "ORDER-1".to_string(),
        amount: Some(num(20.0)),
        price: Some(num(51_000.0)),
        post_only: None,
        reject_post_only: None,
        reduce_only: None,
        mmp: None,
        valid_until: None,
        trigger_price: None,
    }
}

fn field(err: &AdapterError) -> String {
    err.validation_field().expect("a validation-class error")
}

#[test]
fn limit_without_price_rejected() {
    let mut input = limit_input();
    input.price = None;
    let err = validate_place_order(&input).unwrap_err();
    assert_eq!(field(&err), "price");
}

#[test]
fn stop_limit_without_trigger_price_rejected() {
    let mut input = limit_input();
    input.order_type = PlaceOrderType::StopLimit;
    input.trigger = Some(PlaceTrigger::IndexPrice);
    let err = validate_place_order(&input).unwrap_err();
    assert_eq!(field(&err), "trigger_price");
}

#[test]
fn stop_limit_without_trigger_rejected() {
    let mut input = limit_input();
    input.order_type = PlaceOrderType::StopLimit;
    input.trigger_price = Some(num(45_000.0));
    let err = validate_place_order(&input).unwrap_err();
    assert_eq!(field(&err), "trigger");
}

#[test]
fn negative_amount_rejected() {
    let mut input = limit_input();
    input.amount = num(-1.0);
    let err = validate_place_order(&input).unwrap_err();
    assert_eq!(field(&err), "amount");
}

#[test]
fn nan_amount_rejected() {
    let mut input = limit_input();
    input.amount = num(f64::NAN);
    let err = validate_place_order(&input).unwrap_err();
    assert_eq!(field(&err), "amount");
}

#[test]
fn nan_price_rejected() {
    let mut input = limit_input();
    input.price = Some(num(f64::NAN));
    let err = validate_place_order(&input).unwrap_err();
    assert_eq!(field(&err), "price");
}

#[test]
fn market_without_price_accepted() {
    let mut input = limit_input();
    input.order_type = PlaceOrderType::Market;
    input.price = None;
    validate_place_order(&input).unwrap();
}

#[test]
fn full_stop_limit_accepted() {
    let mut input = limit_input();
    input.order_type = PlaceOrderType::StopLimit;
    input.trigger_price = Some(num(45_000.0));
    input.trigger = Some(PlaceTrigger::MarkPrice);
    validate_place_order(&input).unwrap();
}

#[test]
fn build_request_round_trips_buy_side() {
    let input = limit_input();
    let (side, req) = build_order_request(input).unwrap();
    assert_eq!(side, Side::Buy);
    assert_eq!(req.instrument_name, "BTC-PERPETUAL");
    assert_eq!(req.amount, Some(num(10.0)));
    assert_eq!(req.price, Some(num(50_000.0)));
}

#[test]
fn valid_until_overflow_rejected() {
    let mut input = limit_input();
    input.valid_until = Some(u64::MAX);
    let err = build_order_request(input).unwrap_err();
    assert_eq!(field(&err), "valid_until");
}

#[test]
fn edit_empty_order_id_rejected() {
    let mut input = edit_input();
    input.order_id = "  ".to_string();
    let err = validate_edit_order(&input).unwrap_err();
    assert_eq!(field(&err), "order_id");
}

#[test]
fn edit_negative_amount_rejected() {
    let mut input = edit_input();
    input.amount = Some(num(-1.0));
    let err = validate_edit_order(&input).unwrap_err();
    assert_eq!(field(&err), "amount");
}

#[test]
fn edit_nan_price_rejected() {
    let mut input = edit_input();
    input.price = Some(num(f64::NAN));
    let err = validate_edit_order(&input).unwrap_err();
    assert_eq!(field(&err), "price");
}

#[test]
fn edit_partial_input_accepted() {
    let mut input = edit_input();
    input.price = None;
    validate_edit_order(&input).unwrap();
    let req = build_edit_request(input).unwrap();
    assert_eq!(req.order_id.as_deref(), Some("ORDER-1"));
    assert_eq!(req.amount, Some(num(20.0)));
    assert_eq!(req.price, None);
}

#[test]
fn edit_no_fields_rejected() {
    let input = EditOrderInput {
        order_id: "ORDER-1".to_string(),
        amount: None,
        price: None,
        post_only: None,
        reject_post_only: None,
        reduce_only: None,
        mmp: None,
        valid_until: None,
        trigger_price: None,
    };
    let err = validate_edit_order(&input).unwrap_err();
    assert_eq!(field(&err), "arguments");
}

#[test]
fn edit_valid_until_overflow_rejected() {
    let mut input = edit_input();
    input.valid_until = Some(u64::MAX);
    let err = build_edit_request(input).unwrap_err();
    assert_eq!(field(&err), "valid_until");
}

#[test]
fn linear_instrument_classification() {
    assert!(is_linear_instrument("BTC_USDC-PERPETUAL"));
    assert!(is_linear_instrument("ETH_USDT-29SEP24"));
    assert!(!is_linear_instrument("BTC-PERPETUAL"));
    assert!(!is_linear_instrument("ETH-29SEP24"));
    assert!(!is_linear_instrument("BTC-29SEP24-50000-C"));
}

#[test]
fn option_instrument_classification() {
    assert!(is_option_instrument("BTC-29SEP24-50000-C"));
    assert!(is_option_instrument("ETH-30JUN23-1500-P"));
    assert!(!is_option_instrument("BTC-PERPETUAL"));
    assert!(!is_option_instrument("BTC-29SEP24"));
    assert!(!is_option_instrument("BTC-FOO-BAR-C"));
    assert_eq!(option_underlying_base("BTC-29SEP24-50000-C"), Some("BTC"));
    assert_eq!(option_underlying_base("ETH-30JUN23-1500-P"), Some("ETH"));
}

#[test]
fn option_strike_must_parse_as_a_float() {
    assert!(is_option_instrument("BTC-29SEP24-1.5e3-C"));
    assert!(is_option_instrument("SOL_USDC-29SEP24-0.25-P"));
    assert!(!is_option_instrument("BTC-29SEP24-50000-X"));
    assert!(!is_option_instrument("BTC-29SEP24-50000-C-EXTRA"));
    assert!(!is_option_instrument("BTC-29SEP24--C"));
    assert_eq!(option_underlying_base("BTC"), Some("BTC"));
    assert_eq!(option_underlying_base("-X"), Some(""));
}

#[test]
fn validation_order_reports_amount_first() {
    let mut input = limit_input();
    input.amount = num(0.0);
    input.price = None;
    input.order_type = PlaceOrderType::StopLimit;
    let err = validate_place_order(&input).unwrap_err();
    assert_eq!(err, AdapterError::InvalidNumber { field: "amount".to_string(), value: num(0.0) });
    let mut input = limit_input();
    input.order_type = PlaceOrderType::TakeMarket;
    input.price = None;
    let err = validate_place_order(&input).unwrap_err();
    assert_eq!(
        err,
        AdapterError::Validation {
            field: "trigger_price".to_string(),
            message: "required for stop / take order types".to_string()
        }
    );
    let mut input = limit_input();
    input.price = Some(num(f64::INFINITY));
    assert_eq!(field(&validate_place_order(&input).unwrap_err()), "price");
    let mut input = limit_input();
    input.trigger_price = Some(num(-0.0));
    assert_eq!(field(&validate_place_order(&input).unwrap_err()), "trigger_price");
}

#[test]
fn valid_until_at_the_signed_limit_is_kept() {
    let mut input = limit_input();
    input.valid_until = Some(i64::MAX as u64);
    let (_, req) = build_order_request(input).unwrap();
    assert_eq!(req.valid_until, Some(i64::MAX));
    let mut input = limit_input();
    input.valid_until = Some(i64::MAX as u64 + 1);
    assert_eq!(field(&build_order_request(input).unwrap_err()), "valid_until");
}

#[test]
fn build_request_routes_instrument_verbatim_and_sell_side() {
    let mut input = limit_input();
    input.instrument_name = "ETH-PERPETUAL".to_string();
    input.side = Side::Sell;
    input.label = Some("tag".to_string());
    let (side, req) = build_order_request(input).unwrap();
    assert_eq!(side, Side::Sell);
    assert_eq!(req.instrument_name, "ETH-PERPETUAL");
    assert_eq!(req.order_type, Some(PlaceOrderType::Limit));
    assert_eq!(req.label.as_deref(), Some("tag"));
    assert_eq!(req.order_id, None);
    assert_eq!(require_trimmed("order_id", " A ").unwrap(), "A");
    assert_eq!(field(&require_trimmed("instrument_name", "   ").unwrap_err()), "instrument_name");
}

#[test]
fn prepare_edit_validates_then_builds() {
    let mut padded = edit_input();
    padded.order_id = "  ORDER-1 ".to_string();
    let req = prepare_edit_order(padded).unwrap();
    assert_eq!(req.order_id.as_deref(), Some("ORDER-1"));
    assert_eq!(req.price, Some(num(51_000.0)));
    let mut bad = edit_input();
    bad.trigger_price = Some(num(f64::NAN));
    assert_eq!(field(&prepare_edit_order(bad).unwrap_err()), "trigger_price");
}

#[test]
fn notional_basis_by_instrument_family() {
    assert_eq!(notional_basis("BTC-PERPETUAL", Some(num(50_000.0))), NotionalBasis::Inverse);
    assert_eq!(
        notional_basis("BTC_USDC-PERPETUAL", Some(num(100_000.0))),
        NotionalBasis::Linear { price: Some(num(100_000.0)) }
    );
    assert_eq!(
        notional_basis("ETH_USDC-PERPETUAL", None),
        NotionalBasis::Linear { price: None }
    );
    assert_eq!(
        notional_basis("BTC-29SEP24-50000-C", None),
        NotionalBasis::Option { index_name: "btc_usd".to_string() }
    );
}

#[test]
fn usd_index_name_appends_suffix() {
    assert_eq!(deribit_mcp::tools::trading::usd_index_name("eth".to_string()), "eth_usd");
    assert_eq!(
        notional_basis("ETH-30JUN23-1500-P", Some(num(1.0))),
        NotionalBasis::Option { index_name: "eth_usd".to_string() }
    );
}
