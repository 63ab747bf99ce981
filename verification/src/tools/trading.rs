//! `Trading` tool family.
//!
//! All tools here have [`ToolClass::Trading`]; they register only when both
//! credentials and `--allow-trading` are configured. This module holds the
//! adapter-side checks that run before any network call, the mapping of the
//! tool inputs onto the upstream order request, and the classification the
//! `--max-order-usd` cap uses to compute an order's USD notional.
use vstd::prelude::*;
use super::{make_entry, registered, ToolClass, ToolEntry, ToolFacts, ToolKind, ToolRegistry};
use crate::error::{is_invalid_number, is_validation, AdapterError};
use crate::number::{
    first_index_of, is_float_literal, parses_as_float, positive_finite, F64Bits,
};
use crate::registry::Named;
use crate::text::{
    contains_seq, decimal, owned, push_decimal, push_str, split_char, split_on, str_contains,
    str_equal, trim, trim_str, views,
};

verus! {

/// Buy or sell.
#[derive(Debug, Clone, Copy, PartialEq, Eq, Structural)]
pub enum Side {
    /// Buy.
    Buy,
    /// Sell.
    Sell,
}

/// Order type accepted by `place_order`.
#[derive(Debug, Clone, Copy, PartialEq, Eq, Structural)]
pub enum PlaceOrderType {
    /// Limit order. Requires `price`.
    Limit,
    /// Market order.
    Market,
    /// Stop limit. Requires `price`, `trigger_price`, `trigger`.
    StopLimit,
    /// Stop market. Requires `trigger_price`, `trigger`.
    StopMarket,
    /// Take-profit limit. Requires `price`, `trigger_price`, `trigger`.
    TakeLimit,
    /// Take-profit market. Requires `trigger_price`, `trigger`.
    TakeMarket,
    /// Market order with limit-price protection.
    MarketLimit,
}

/// Time-in-force.
#[derive(Debug, Clone, Copy, PartialEq, Eq, Structural)]
pub enum PlaceTimeInForce {
    /// Resting until cancelled (upstream default).
    GoodTilCancelled,
    /// Expires at the end of the trading day.
    GoodTilDay,
    /// Fully fill immediately or cancel.
    FillOrKill,
    /// Fill what is possible immediately, cancel the rest.
    ImmediateOrCancel,
}

/// Trigger reference price for stop / take variants.
#[derive(Debug, Clone, Copy, PartialEq, Eq, Structural)]
pub enum PlaceTrigger {
    /// Index price.
    IndexPrice,
    /// Mark price.
    MarkPrice,
    /// Last traded price.
    LastPrice,
}

/// `place_order` input.
#[derive(Debug, Clone, PartialEq, Eq)]
pub struct PlaceOrderInput {
    /// Instrument identifier, routed to Deribit verbatim.
    pub instrument_name: String,
    /// `buy` or `sell`: decides which upstream endpoint runs.
    pub side: Side,
    /// Order amount; must be finite and `> 0`.
    pub amount: F64Bits,
    /// Order type.
    pub order_type: PlaceOrderType,
    /// Limit price; finite and `> 0` when given.
    pub price: Option<F64Bits>,
    /// Time-in-force override.
    pub time_in_force: Option<PlaceTimeInForce>,
    /// User label echoed back on the order.
    pub label: Option<String>,
    /// Trigger price; finite and `> 0` when given.
    pub trigger_price: Option<F64Bits>,
    /// Trigger reference.
    pub trigger: Option<PlaceTrigger>,
    /// Post-only flag.
    pub post_only: Option<bool>,
    /// Reject (rather than amend) when post-only would be relaxed.
    pub reject_post_only: Option<bool>,
    /// Reduce-only flag.
    pub reduce_only: Option<bool>,
    /// Market-Maker Protection flag.
    pub mmp: Option<bool>,
    /// Server-side TTL, Unix milliseconds.
    pub valid_until: Option<u64>,
}

/// `edit_order` input. Every field but `order_id` is optional; `None` keeps
/// the upstream value.
#[derive(Debug, Clone, PartialEq, Eq)]
pub struct EditOrderInput {
    /// Order id returned from `place_order`.
    pub order_id: String,
    /// New amount; finite and `> 0` when given.
    pub amount: Option<F64Bits>,
    /// New limit price; finite and `> 0` when given.
    pub price: Option<F64Bits>,
    /// Toggle post-only.
    pub post_only: Option<bool>,
    /// Toggle reject-post-only.
    pub reject_post_only: Option<bool>,
    /// Toggle reduce-only.
    pub reduce_only: Option<bool>,
    /// Toggle Market-Maker Protection.
    pub mmp: Option<bool>,
    /// New server-side TTL, Unix milliseconds.
    pub valid_until: Option<u64>,
    /// New trigger price; finite and `> 0` when given.
    pub trigger_price: Option<F64Bits>,
}

/// `cancel_order` input.
#[derive(Debug, Clone, PartialEq, Eq)]
pub struct CancelOrderInput {
    /// Order id returned from `place_order`.
    pub order_id: String,
}

/// `cancel_all_by_currency` input.
#[derive(Debug, Clone, PartialEq, Eq)]
pub struct CancelAllByCurrencyInput {
    /// Currency whose open orders are all cancelled.
    pub currency: String,
}

/// `cancel_all_by_instrument` input.
#[derive(Debug, Clone, PartialEq, Eq)]
pub struct CancelAllByInstrumentInput {
    /// Instrument whose open orders are all cancelled.
    pub instrument_name: String,
}

/// The upstream order request the adapter sends. The upstream request has
/// further fields (`contracts`, `display_amount`, `trigger_offset`,
/// `advanced`, `linked_order_type`, `trigger_fill_condition`,
/// `otoco_config`); the adapter never sets them.
#[derive(Debug, Clone, PartialEq, Eq)]
pub struct OrderRequest {
    /// Order to edit (edits only).
    pub order_id: Option<String>,
    /// Instrument (empty for edits, which the upstream ignores).
    pub instrument_name: String,
    /// Amount.
    pub amount: Option<F64Bits>,
    /// Order type.
    pub order_type: Option<PlaceOrderType>,
    /// Label.
    pub label: Option<String>,
    /// Limit price.
    pub price: Option<F64Bits>,
    /// Time-in-force.
    pub time_in_force: Option<PlaceTimeInForce>,
    /// Post-only flag.
    pub post_only: Option<bool>,
    /// Reject-post-only flag.
    pub reject_post_only: Option<bool>,
    /// Reduce-only flag.
    pub reduce_only: Option<bool>,
    /// Trigger price.
    pub trigger_price: Option<F64Bits>,
    /// Trigger reference.
    pub trigger: Option<PlaceTrigger>,
    /// Market-Maker Protection flag.
    pub mmp: Option<bool>,
    /// Server-side TTL, Unix milliseconds.
    pub valid_until: Option<i64>,
}

// ----- validation ---------------------------------------------------------

/// Order types that require `price`.
pub open spec fn needs_price(t: PlaceOrderType) -> bool {
    t == PlaceOrderType::Limit || t == PlaceOrderType::StopLimit || t == PlaceOrderType::TakeLimit
}

/// Order types that require `trigger_price` and `trigger`.
pub open spec fn needs_trigger(t: PlaceOrderType) -> bool {
    t == PlaceOrderType::StopLimit || t == PlaceOrderType::StopMarket || t
        == PlaceOrderType::TakeLimit || t == PlaceOrderType::TakeMarket
}

/// An optional number that, when present, is not finite and positive.
pub open spec fn bad_number(x: Option<F64Bits>) -> bool {
    x matches Some(v) && !positive_finite(v)
}

/// Message for a missing `price`.
pub open spec fn price_required_message() -> Seq<char> {
    "required for limit / stop_limit / take_limit orders"@
}

/// Message for a missing trigger.
pub open spec fn trigger_required_message() -> Seq<char> {
    "required for stop / take order types"@
}

/// The outcome `validate_place_order` owes for `input`: the first failing
/// check, in this order, or success.
pub open spec fn place_order_checked(input: PlaceOrderInput, r: Result<(), AdapterError>) -> bool {
    if !positive_finite(input.amount) {
        r matches Err(e) && is_invalid_number(e, "amount"@, input.amount)
    } else if bad_number(input.price) {
        r matches Err(e) && is_invalid_number(e, "price"@, input.price->0)
    } else if bad_number(input.trigger_price) {
        r matches Err(e) && is_invalid_number(e, "trigger_price"@, input.trigger_price->0)
    } else if needs_price(input.order_type) && input.price is None {
        r matches Err(e) && is_validation(e, "price"@, price_required_message())
    } else if needs_trigger(input.order_type) && input.trigger_price is None {
        r matches Err(e) && is_validation(e, "trigger_price"@, trigger_required_message())
    } else if needs_trigger(input.order_type) && input.trigger is None {
        r matches Err(e) && is_validation(e, "trigger"@, trigger_required_message())
    } else {
        r is Ok
    }
}

fn check_optional(field: &str, x: Option<F64Bits>) -> (r: Result<(), AdapterError>)
    ensures
        bad_number(x) ==> (r matches Err(e) && is_invalid_number(e, field@, x->0)),
        !bad_number(x) ==> r is Ok,
{
    match x {
        Some(v) => {
            if !v.is_positive_finite() {
                return Err(AdapterError::InvalidNumber { field: owned(field), value: v });
            }
            Ok(())
        },
        None => Ok(()),
    }
}

/// Adapter-side validation of `place_order` ahead of any network call:
/// `amount` finite and `> 0`; `price` / `trigger_price` finite and `> 0`
/// when given; `price` present for limit-style orders; `trigger_price` and
/// `trigger` present for stop / take orders.
///
/// # Errors
///
/// The first failing check, as [`place_order_checked`] orders them.
pub fn validate_place_order(input: &PlaceOrderInput) -> (r: Result<(), AdapterError>)
    ensures
        place_order_checked(*input, r),
{
    if !input.amount.is_positive_finite() {
        return Err(AdapterError::InvalidNumber { field: owned("amount"), value: input.amount });
    }
    match check_optional("price", input.price) {
        Err(e) => {
            return Err(e);
        },
        Ok(()) => {},
    }
    match check_optional("trigger_price", input.trigger_price) {
        Err(e) => {
            return Err(e);
        },
        Ok(()) => {},
    }
    let needs_price = match input.order_type {
        PlaceOrderType::Limit | PlaceOrderType::StopLimit | PlaceOrderType::TakeLimit => true,
        _ => false,
    };
    if needs_price && input.price.is_none() {
        return Err(
            AdapterError::validation(
                "price",
                owned("required for limit / stop_limit / take_limit orders"),
            ),
        );
    }
    let needs_trigger = match input.order_type {
        PlaceOrderType::StopLimit
        | PlaceOrderType::StopMarket
        | PlaceOrderType::TakeLimit
        | PlaceOrderType::TakeMarket => true,
        _ => false,
    };
    if needs_trigger {
        if input.trigger_price.is_none() {
            return Err(
                AdapterError::validation(
                    "trigger_price",
                    owned("required for stop / take order types"),
                ),
            );
        }
        if input.trigger.is_none() {
            return Err(
                AdapterError::validation("trigger", owned("required for stop / take order types")),
            );
        }
    }
    Ok(())
}

/// The price rule of `place_order`: once the amount and the optional
/// numbers are valid, a limit-style order (`limit`, `stop_limit`,
/// `take_limit`) without a price is refused on `price`; a market-style
/// order (`market`, `market_limit`, `stop_market`, `take_market`) never
/// fails for want of a price; and an order that carries a price, a trigger
/// price and a trigger is accepted, whatever its type.
pub proof fn lemma_limit_orders_need_price(input: PlaceOrderInput, r: Result<(), AdapterError>)
    requires
        place_order_checked(input, r),
    ensures
        positive_finite(input.amount) && !bad_number(input.trigger_price) && input.price is None
            && (input.order_type == PlaceOrderType::Limit || input.order_type
            == PlaceOrderType::StopLimit || input.order_type == PlaceOrderType::TakeLimit) ==> (
        r matches Err(e) && is_validation(
            e,
            "price"@,
            "required for limit / stop_limit / take_limit orders"@,
        )),
        input.order_type == PlaceOrderType::Market || input.order_type
            == PlaceOrderType::MarketLimit || input.order_type == PlaceOrderType::StopMarket
            || input.order_type == PlaceOrderType::TakeMarket ==> !(r matches Err(e)
            && e matches AdapterError::Validation { field, .. } && field@ == "price"@),
        positive_finite(input.amount) && !bad_number(input.price) && !bad_number(
            input.trigger_price,
        ) && input.price is Some && input.trigger_price is Some && input.trigger is Some ==> r is Ok,
        positive_finite(input.amount) && !bad_number(input.price) && !bad_number(
            input.trigger_price,
        ) && (input.order_type == PlaceOrderType::Market || input.order_type
            == PlaceOrderType::MarketLimit) ==> r is Ok,
{
    reveal_strlit("price");
    reveal_strlit("trigger_price");
    reveal_strlit("trigger");
    assert("trigger_price"@.len() != "price"@.len());
    assert("trigger"@.len() != "price"@.len());
}

/// Message of the `valid_until` range error.
pub open spec fn valid_until_message(v: u64) -> Seq<char> {
    "must fit in i64, got "@ + decimal(v as nat)
}

/// `valid_until` converted to the upstream's signed field, or the range
/// error.
pub open spec fn valid_until_converted(v: Option<u64>, r: Result<Option<i64>, AdapterError>) -> bool {
    match v {
        None => r == Ok::<Option<i64>, AdapterError>(None),
        Some(x) => if x <= i64::MAX {
            r == Ok::<Option<i64>, AdapterError>(Some(x as i64))
        } else {
            r matches Err(e) && is_validation(e, "valid_until"@, valid_until_message(x))
        },
    }
}

fn convert_valid_until(v: Option<u64>) -> (r: Result<Option<i64>, AdapterError>)
    ensures
        valid_until_converted(v, r),
{
    match v {
        None => Ok(None),
        Some(x) => {
            if x <= 0x7FFF_FFFF_FFFF_FFFFu64 {
                Ok(Some(x as i64))
            } else {
                let mut message = owned("must fit in i64, got ");
                push_decimal(&mut message, x);
                Err(AdapterError::validation("valid_until", message))
            }
        },
    }
}

/// The request built for a new order.
pub open spec fn is_new_order_request(input: PlaceOrderInput, q: OrderRequest) -> bool {
    &&& q.order_id is None
    &&& q.instrument_name == input.instrument_name
    &&& q.amount == Some(input.amount)
    &&& q.order_type == Some(input.order_type)
    &&& q.label == input.label
    &&& q.price == input.price
    &&& q.time_in_force == input.time_in_force
    &&& q.post_only == input.post_only
    &&& q.reject_post_only == input.reject_post_only
    &&& q.reduce_only == input.reduce_only
    &&& q.trigger_price == input.trigger_price
    &&& q.trigger == input.trigger
    &&& q.mmp == input.mmp
    &&& q.valid_until == (match input.valid_until {
        Some(x) => Some(x as i64),
        None => None,
    })
}

/// The outcome `build_order_request` owes for `input`: the `valid_until`
/// range error, or the side and the new-order request.
pub open spec fn order_request_built(input: PlaceOrderInput, r: Result<(Side, OrderRequest), AdapterError>) -> bool {
    match input.valid_until {
        Some(x) if x > i64::MAX => r matches Err(e) && is_validation(
            e,
            "valid_until"@,
            valid_until_message(x),
        ),
        _ => r matches Ok((side, q)) && side == input.side && is_new_order_request(input, q),
    }
}

/// Build the upstream order request plus the side that decides which
/// endpoint (`buy` / `sell`) runs. Every input field maps one to one.
///
/// # Errors
///
/// A validation error on `valid_until` when it exceeds `i64::MAX`.
pub fn build_order_request(input: PlaceOrderInput) -> (r: Result<(Side, OrderRequest), AdapterError>)
    ensures
        order_request_built(input, r),
{
    let valid_until = match convert_valid_until(input.valid_until) {
        Ok(v) => v,
        Err(e) => {
            return Err(e);
        },
    };
    let req = OrderRequest {
        order_id: None,
        instrument_name: input.instrument_name,
        amount: Some(input.amount),
        order_type: Some(input.order_type),
        label: input.label,
        price: input.price,
        time_in_force: input.time_in_force,
        post_only: input.post_only,
        reject_post_only: input.reject_post_only,
        reduce_only: input.reduce_only,
        trigger_price: input.trigger_price,
        trigger: input.trigger,
        mmp: input.mmp,
        valid_until,
    };
    Ok((input.side, req))
}

/// At least one editable field is present.
pub open spec fn any_edit(input: EditOrderInput) -> bool {
    input.amount is Some || input.price is Some || input.post_only is Some
        || input.reject_post_only is Some || input.reduce_only is Some || input.mmp is Some
        || input.valid_until is Some || input.trigger_price is Some
}

/// Message for an edit that changes nothing.
pub open spec fn no_edit_message() -> Seq<char> {
    "at least one editable field must be present (amount, price, post_only, reject_post_only, reduce_only, mmp, valid_until, trigger_price)"@
}

/// The outcome `validate_edit_order` owes for `input`.
pub open spec fn edit_order_checked(input: EditOrderInput, r: Result<(), AdapterError>) -> bool {
    if trim(input.order_id@).len() == 0 {
        r matches Err(e) && is_validation(e, "order_id"@, "must be non-empty"@)
    } else if !any_edit(input) {
        r matches Err(e) && is_validation(e, "arguments"@, no_edit_message())
    } else if bad_number(input.amount) {
        r matches Err(e) && is_invalid_number(e, "amount"@, input.amount->0)
    } else if bad_number(input.price) {
        r matches Err(e) && is_invalid_number(e, "price"@, input.price->0)
    } else if bad_number(input.trigger_price) {
        r matches Err(e) && is_invalid_number(e, "trigger_price"@, input.trigger_price->0)
    } else {
        r is Ok
    }
}

/// Adapter-side validation of `edit_order`: non-blank `order_id`, at least
/// one field to change, and finite positive numbers where given.
///
/// # Errors
///
/// The first failing check, as [`edit_order_checked`] orders them.
pub fn validate_edit_order(input: &EditOrderInput) -> (r: Result<(), AdapterError>)
    ensures
        edit_order_checked(*input, r),
{
    if trim_str(input.order_id.as_str()).unicode_len() == 0 {
        return Err(AdapterError::validation("order_id", owned("must be non-empty")));
    }
    let any_edit = input.amount.is_some() || input.price.is_some() || input.post_only.is_some()
        || input.reject_post_only.is_some() || input.reduce_only.is_some() || input.mmp.is_some()
        || input.valid_until.is_some() || input.trigger_price.is_some();
    if !any_edit {
        return Err(
            AdapterError::validation(
                "arguments",
                owned(
                    "at least one editable field must be present (amount, price, post_only, reject_post_only, reduce_only, mmp, valid_until, trigger_price)",
                ),
            ),
        );
    }
    match check_optional("amount", input.amount) {
        Err(e) => {
            return Err(e);
        },
        Ok(()) => {},
    }
    match check_optional("price", input.price) {
        Err(e) => {
            return Err(e);
        },
        Ok(()) => {},
    }
    check_optional("trigger_price", input.trigger_price)
}

/// The request built for an edit.
pub open spec fn is_edit_request(input: EditOrderInput, q: OrderRequest) -> bool {
    &&& q.order_id == Some(input.order_id)
    &&& q.instrument_name@ == Seq::<char>::empty()
    &&& q.amount == input.amount
    &&& q.order_type is None
    &&& q.label is None
    &&& q.price == input.price
    &&& q.time_in_force is None
    &&& q.post_only == input.post_only
    &&& q.reject_post_only == input.reject_post_only
    &&& q.reduce_only == input.reduce_only
    &&& q.trigger_price == input.trigger_price
    &&& q.trigger is None
    &&& q.mmp == input.mmp
    &&& q.valid_until == (match input.valid_until {
        Some(x) => Some(x as i64),
        None => None,
    })
}

/// The outcome `build_edit_request` owes for `input`: the `valid_until`
/// range error, or the edit request.
pub open spec fn edit_request_built(input: EditOrderInput, r: Result<OrderRequest, AdapterError>) -> bool {
    match input.valid_until {
        Some(x) if x > i64::MAX => r matches Err(e) && is_validation(
            e,
            "valid_until"@,
            valid_until_message(x),
        ),
        _ => r matches Ok(q) && is_edit_request(input, q),
    }
}

/// Build the upstream edit request. The instrument is left empty: the
/// upstream edit endpoint does not read it.
///
/// # Errors
///
/// A validation error on `valid_until` when it exceeds `i64::MAX`.
pub fn build_edit_request(input: EditOrderInput) -> (r: Result<OrderRequest, AdapterError>)
    ensures
        edit_request_built(input, r),
{
    let valid_until = match convert_valid_until(input.valid_until) {
        Ok(v) => v,
        Err(e) => {
            return Err(e);
        },
    };
    Ok(
        OrderRequest {
            order_id: Some(input.order_id),
            instrument_name: String::new(),
            amount: input.amount,
            order_type: None,
            label: None,
            price: input.price,
            time_in_force: None,
            post_only: input.post_only,
            reject_post_only: input.reject_post_only,
            reduce_only: input.reduce_only,
            trigger_price: input.trigger_price,
            trigger: None,
            mmp: input.mmp,
            valid_until,
        },
    )
}

/// Success or failure of `r`, ignoring the success value.
pub open spec fn outcome<T>(r: Result<T, AdapterError>) -> Result<(), AdapterError> {
    match r {
        Ok(_) => Ok(()),
        Err(e) => Err(e),
    }
}

/// The outcome `prepare_edit_order` owes for `input`: the first validation
/// error, else the `valid_until` range error, else the edit request for the
/// trimmed order id.
pub open spec fn edit_order_prepared(input: EditOrderInput, r: Result<OrderRequest, AdapterError>) -> bool {
    &&& !edit_order_checked(input, Ok(())) ==> edit_order_checked(input, outcome(r))
    &&& edit_order_checked(input, Ok(())) ==> match input.valid_until {
        Some(x) if x > i64::MAX => r matches Err(e) && is_validation(
            e,
            "valid_until"@,
            valid_until_message(x),
        ),
        _ => r matches Ok(q) && q.order_id matches Some(id) && id@ == trim(input.order_id@)
            && is_edit_request(EditOrderInput { order_id: id, ..input }, q),
    }
}

/// Everything `edit_order` does before the network call: validate, trim the
/// order id (surrounding white space would surface upstream as an opaque
/// order-not-found), build the request.
///
/// # Errors
///
/// The validation errors of [`validate_edit_order`], then the `valid_until`
/// range error of [`build_edit_request`].
pub fn prepare_edit_order(input: EditOrderInput) -> (r: Result<OrderRequest, AdapterError>)
    ensures
        edit_order_prepared(input, r),
{
    match validate_edit_order(&input) {
        Err(e) => Err(e),
        Ok(()) => {
            let trimmed = owned(trim_str(input.order_id.as_str()));
            let edited = EditOrderInput { order_id: trimmed, ..input };
            build_edit_request(edited)
        },
    }
}

/// What a new-order request carries: the input's instrument, amount, type,
/// label, price, time-in-force, flags, trigger and trigger price unchanged,
/// `valid_until` as the same number, no order id, and the side of the input;
/// only a `valid_until` beyond `i64::MAX` is refused.
pub proof fn lemma_order_request_carries_input(
    input: PlaceOrderInput,
    r: Result<(Side, OrderRequest), AdapterError>,
)
    requires
        order_request_built(input, r),
    ensures
        r is Ok <==> !(input.valid_until matches Some(x) && x > i64::MAX),
        r matches Ok((side, q)) ==> side == input.side && q.order_id is None
            && q.instrument_name == input.instrument_name && q.amount == Some(input.amount)
            && q.order_type == Some(input.order_type) && q.label == input.label && q.price
            == input.price && q.time_in_force == input.time_in_force && q.post_only
            == input.post_only && q.reject_post_only == input.reject_post_only && q.reduce_only
            == input.reduce_only && q.trigger_price == input.trigger_price && q.trigger
            == input.trigger && q.mmp == input.mmp,
        r matches Ok((side, q)) ==> (input.valid_until matches Some(x) ==> q.valid_until matches Some(
            y,
        ) && y == x),
        r matches Ok((side, q)) ==> (input.valid_until is None ==> q.valid_until is None),
{
}

/// What an edit request carries: the order id, and each editable field of
/// the input (amount, price, trigger price, post-only, reject-post-only,
/// reduce-only, MMP) unchanged, `valid_until` as the same number, and
/// nothing the edit does not change (no instrument, type, label,
/// time-in-force or trigger); only a `valid_until` beyond `i64::MAX` is
/// refused.
pub proof fn lemma_edit_request_carries_input(input: EditOrderInput, r: Result<OrderRequest, AdapterError>)
    requires
        edit_request_built(input, r),
    ensures
        r is Ok <==> !(input.valid_until matches Some(x) && x > i64::MAX),
        r matches Ok(q) ==> q.order_id == Some(input.order_id) && q.amount == input.amount
            && q.price == input.price && q.trigger_price == input.trigger_price && q.post_only
            == input.post_only && q.reject_post_only == input.reject_post_only && q.reduce_only
            == input.reduce_only && q.mmp == input.mmp,
        r matches Ok(q) ==> q.instrument_name@.len() == 0 && q.order_type is None && q.label is None
            && q.time_in_force is None && q.trigger is None,
        r matches Ok(q) ==> (input.valid_until matches Some(x) ==> q.valid_until matches Some(y)
            && y == x),
        r matches Ok(q) ==> (input.valid_until is None ==> q.valid_until is None),
{
}

/// What `prepare_edit_order` sends: for a valid edit (non-blank id, at least
/// one field to change, valid numbers, `valid_until` within `i64::MAX`) the
/// request for the trimmed order id carrying each editable field of the
/// input unchanged; anything else is refused.
pub proof fn lemma_prepared_edit_carries_input(input: EditOrderInput, r: Result<OrderRequest, AdapterError>)
    requires
        edit_order_prepared(input, r),
    ensures
        r is Ok <==> (trim(input.order_id@).len() > 0 && any_edit(input) && !bad_number(
            input.amount,
        ) && !bad_number(input.price) && !bad_number(input.trigger_price) && !(
        input.valid_until matches Some(x) && x > i64::MAX)),
        r matches Ok(q) ==> q.order_id matches Some(id) && id@ == trim(input.order_id@),
        r matches Ok(q) ==> q.amount == input.amount && q.price == input.price && q.trigger_price
            == input.trigger_price && q.post_only == input.post_only && q.reject_post_only
            == input.reject_post_only && q.reduce_only == input.reduce_only && q.mmp == input.mmp,
        r matches Ok(q) ==> (input.valid_until matches Some(x) ==> q.valid_until matches Some(y)
            && y == x),
{
}

/// A required identifier after trimming, or the blank-field error.
pub open spec fn trimmed_required(field: Seq<char>, value: Seq<char>, r: Result<String, AdapterError>) -> bool {
    if trim(value).len() == 0 {
        r matches Err(e) && is_validation(e, field, "must be non-empty"@)
    } else {
        r matches Ok(s) && s@ == trim(value)
    }
}

/// Trim a required identifier (`order_id`, `currency`, `instrument_name`)
/// of the cancel tools.
///
/// # Errors
///
/// A validation error on `field` when nothing but white space is left.
pub fn require_trimmed(field: &str, value: &str) -> (r: Result<String, AdapterError>)
    ensures
        trimmed_required(field@, value@, r),
{
    let t = trim_str(value);
    if t.unicode_len() == 0 {
        Err(AdapterError::validation(field, owned("must be non-empty")))
    } else {
        Ok(owned(t))
    }
}

// ----- instrument classification -----------------------------------------

/// Linear (stablecoin-settled) instrument: the name contains `_USDC` or
/// `_USDT`.
pub open spec fn linear_instrument(name: Seq<char>) -> bool {
    contains_seq(name, "_USDC"@) || contains_seq(name, "_USDT"@)
}

/// Option instrument: the last `-`-separated segment is `C` or `P` and the
/// segment before it parses as a floating-point strike.
pub open spec fn option_instrument(name: Seq<char>) -> bool {
    let segs = split_char(name, '-');
    &&& segs.len() >= 2
    &&& (segs.last() == "C"@ || segs.last() == "P"@)
    &&& is_float_literal(segs[segs.len() - 2])
}

/// The underlying of an option: the text before the first `-`.
pub open spec fn underlying_base(name: Seq<char>) -> Seq<char> {
    name.take(first_index_of(name, '-', '-'))
}

/// `true` when the instrument is linear (USDC / USDT settlement).
pub fn is_linear_instrument(name: &str) -> (r: bool)
    ensures
        r == linear_instrument(name@),
{
    str_contains(name, "_USDC") || str_contains(name, "_USDT")
}

proof fn lemma_split_len(s: Seq<char>, d: char)
    ensures
        split_char(s, d).len() >= 1,
    decreases s.len(),
{
    if s.len() > 0 {
        lemma_split_len(s.drop_last(), d);
    }
}

/// `true` when the instrument is an option, per Deribit's
/// `<BASE>-<EXPIRY>-<STRIKE>-<C|P>` naming.
pub fn is_option_instrument(name: &str) -> (r: bool)
    ensures
        r == option_instrument(name@),
{
    let segs = split_on(name, '-');
    let n = segs.len();
    proof {
        lemma_split_len(name@, '-');
        assert(views(segs@).len() == n);
    }
    if n < 2 {
        return false;
    }
    let last = &segs[n - 1];
    assert(views(segs@)[n - 1] == last@);
    if !(str_equal(last.as_str(), "C") || str_equal(last.as_str(), "P")) {
        return false;
    }
    let strike = &segs[n - 2];
    assert(views(segs@)[n - 2] == strike@);
    parses_as_float(strike.as_str())
}

/// Underlying base symbol for an option instrument
/// (`BTC-29SEP24-50000-C` gives `BTC`): the text before the first `-`, the
/// whole name when there is none. Always `Some`.
pub fn option_underlying_base(name: &str) -> (r: Option<&str>)
    ensures
        r matches Some(b) && b@ == underlying_base(name@),
{
    let v = crate::text::chars_of(name);
    let n = v.len();
    let mut i: usize = 0;
    while i < n && v[i] != '-'
        invariant
            v@ == name@,
            n == v@.len(),
            i <= n,
            forall|k: int| 0 <= k < i ==> v@[k] != '-',
        decreases n - i,
    {
        i = i + 1;
    }
    proof {
        crate::number::lemma_first_index_of(name@, '-', '-', i as int);
    }
    Some(name.substring_char(0, i))
}

/// `str::to_lowercase`: the Unicode lower-case mapping of a text.
pub uninterp spec fn unicode_lowercase(s: Seq<char>) -> Seq<char>;

/// Calls `str::to_lowercase`. Its result is stated only as
/// [`unicode_lowercase`] of the argument; the Unicode mapping itself is not
/// spelled out.
#[verifier::external_body]
fn to_lowercase(s: &str) -> (r: String)
    ensures
        r@ == unicode_lowercase(s@),
{
    s.to_lowercase()
}

/// The USD index of an underlying, given its lower-cased symbol:
/// `<symbol>_usd`.
pub fn usd_index_name(lowered: String) -> (r: String)
    ensures
        r@ == lowered@ + "_usd"@,
{
    let mut index_name = lowered;
    push_str(&mut index_name, "_usd");
    index_name
}

/// How the `--max-order-usd` cap computes an order's USD notional.
#[derive(Debug, Clone, PartialEq, Eq)]
pub enum NotionalBasis {
    /// Option: `amount × index_price`, the index being `index_name`
    /// (`<base>_usd`, lower case) from `/public/get_index_price`.
    Option {
        /// Upstream index name.
        index_name: String,
    },
    /// Inverse (everything else): `amount` is already the USD notional.
    Inverse,
    /// Linear: `amount × price`, the price being the caller's, or the
    /// upstream mark price from `/public/ticker` when none was given.
    Linear {
        /// The caller's price, if any.
        price: Option<F64Bits>,
    },
}

/// The notional basis of an order: option first, then inverse unless the
/// instrument is linear.
pub open spec fn notional_basis_of(name: Seq<char>, price: Option<F64Bits>, b: NotionalBasis) -> bool {
    if option_instrument(name) {
        b matches NotionalBasis::Option { index_name } && index_name@ == unicode_lowercase(
            underlying_base(name),
        ) + "_usd"@
    } else if !linear_instrument(name) {
        b == NotionalBasis::Inverse
    } else {
        b == NotionalBasis::Linear { price }
    }
}

/// Classify an order for the notional cap. The classification is
/// conservative: when in doubt the inverse branch is taken.
pub fn notional_basis(instrument_name: &str, price: Option<F64Bits>) -> (r: NotionalBasis)
    ensures
        notional_basis_of(instrument_name@, price, r),
{
    if is_option_instrument(instrument_name) {
        let base = match option_underlying_base(instrument_name) {
            Some(b) => b,
            None => "BTC",
        };
        return NotionalBasis::Option { index_name: usd_index_name(to_lowercase(base)) };
    }
    if !is_linear_instrument(instrument_name) {
        return NotionalBasis::Inverse;
    }
    NotionalBasis::Linear { price }
}

// ----- registration -------------------------------------------------------

/// The trading tools, by name.
pub open spec fn trading_tool(n: Seq<char>) -> Option<ToolFacts> {
    if n == "cancel_all_by_instrument"@ {
        Some(
            (
                "cancel_all_by_instrument"@,
                "Mass-cancel every open order on an instrument. Returns {\"cancelled\": <count>}. Irreversible — use with care."@,
                ToolKind::CancelAllByInstrument,
                ToolClass::Trading,
            ),
        )
    } else if n == "cancel_all_by_currency"@ {
        Some(
            (
                "cancel_all_by_currency"@,
                "Mass-cancel every open order for a currency. Returns {\"cancelled\": <count>}. Irreversible — use with care."@,
                ToolKind::CancelAllByCurrency,
                ToolClass::Trading,
            ),
        )
    } else if n == "cancel_order"@ {
        Some(
            (
                "cancel_order"@,
                "Cancel one open order by its id."@,
                ToolKind::CancelOrder,
                ToolClass::Trading,
            ),
        )
    } else if n == "edit_order"@ {
        Some(
            (
                "edit_order"@,
                "Modify amount / price / trigger_price / valid_until / flags (post_only, reject_post_only, reduce_only, mmp) of an open order."@,
                ToolKind::EditOrder,
                ToolClass::Trading,
            ),
        )
    } else if n == "place_order"@ {
        Some(
            (
                "place_order"@,
                "Place a buy or sell order. This sends a real order to the configured Deribit endpoint."@,
                ToolKind::PlaceOrder,
                ToolClass::Trading,
            ),
        )
    } else {
        None
    }
}

/// Every trading tool has the `Trading` class.
pub proof fn lemma_trading_tools_are_trading(n: Seq<char>)
    ensures
        trading_tool(n) matches Some(f) ==> f.3 == ToolClass::Trading,
{
}

/// No trading tool shares its name with an account or a public tool.
pub proof fn lemma_trading_names_not_earlier()
    ensures
        forall|n: Seq<char>| #[trigger] trading_tool(n) is Some ==> super::account::account_tool(n)
            is None && super::public::public_tool(n) is None,
{
    super::lemma_tool_name_signatures();
}

/// Register every `Trading` tool with the registry.
pub fn register(registry: &mut ToolRegistry)
    ensures
        forall|n: Seq<char>| #[trigger]
            registered(*final(registry), n) == if trading_tool(n) is Some {
                trading_tool(n)
            } else {
                registered(*old(registry), n)
            },
        (forall|n: Seq<char>| trading_tool(n) is Some ==> #[trigger] registered(*old(registry), n) is None)
            ==> final(registry).entries().len() == old(registry).entries().len() + 5,
{
    proof {
        super::lemma_tool_name_signatures();
    }
    let a = make_entry(
        "place_order",
        "Place a buy or sell order. This sends a real order to the configured Deribit endpoint.",
        ToolKind::PlaceOrder,
        ToolClass::Trading,
    );
    let b = make_entry(
        "edit_order",
        "Modify amount / price / trigger_price / valid_until / flags (post_only, reject_post_only, reduce_only, mmp) of an open order.",
        ToolKind::EditOrder,
        ToolClass::Trading,
    );
    let c = make_entry(
        "cancel_order",
        "Cancel one open order by its id.",
        ToolKind::CancelOrder,
        ToolClass::Trading,
    );
    let d = make_entry(
        "cancel_all_by_currency",
        "Mass-cancel every open order for a currency. Returns {\"cancelled\": <count>}. Irreversible — use with care.",
        ToolKind::CancelAllByCurrency,
        ToolClass::Trading,
    );
    let e = make_entry(
        "cancel_all_by_instrument",
        "Mass-cancel every open order on an instrument. Returns {\"cancelled\": <count>}. Irreversible — use with care.",
        ToolKind::CancelAllByInstrument,
        ToolClass::Trading,
    );
    registry.insert(a);
    registry.insert(b);
    registry.insert(c);
    registry.insert(d);
    registry.insert(e);
    proof {
        if (forall|n: Seq<char>| trading_tool(n) is Some ==> #[trigger] registered(*old(registry), n) is None) {
            assert(registered(*old(registry), "place_order"@) is None);
            assert(registered(*old(registry), "edit_order"@) is None);
            assert(registered(*old(registry), "cancel_order"@) is None);
            assert(registered(*old(registry), "cancel_all_by_currency"@) is None);
            assert(registered(*old(registry), "cancel_all_by_instrument"@) is None);
        }
    }
}

} // verus!
