//! `position_review` prompt.
//!
//! Drives the client through an end-of-day account / position review using
//! the `Account` tools. The prompt is always registerable; whether the
//! client can fulfil it depends on credentials. With credentials the prompt
//! names the `Account` tools to run; without them it returns a
//! `WARNING:`-prefixed note so the client stops instead of calling tools
//! that are not on `tools/list`.
use vstd::prelude::*;
use super::{argument, is_descriptor, is_prompt_result, two_messages, PromptDescriptor, PromptEntry, PromptKind, PromptRegistry, PromptResult};
use crate::error::{is_validation, AdapterError};
use crate::registry::{lookup, Named};
use crate::text::{ascii_uppercase, owned, push_str, to_ascii_uppercase, trim, trim_str};

verus! {

/// Prompt name as it appears on `prompts/list`.
pub const NAME: &'static str = "position_review";

/// `position_review` arguments.
#[derive(Debug, Clone, PartialEq, Eq)]
pub struct PositionReviewInput {
    /// Currency to scope the review to (`BTC`, `ETH`, `USDC`, ...).
    pub currency: String,
    /// Append a recent-trades section (argument default `false`).
    pub include_history: bool,
}

/// The optional fourth tool step.
pub open spec fn history_step(c: Seq<char>, wanted: bool) -> Seq<char> {
    if wanted {
        "4. `get_user_trades_by_currency { currency: \""@
        + c
        + "\", count: 50 }` — pull the last 50 user trades for context.\n"@
    } else {
        Seq::<char>::empty()
    }
}

/// The optional recent-trades output section.
pub open spec fn history_section(wanted: bool) -> Seq<char> {
    if wanted {
        "- **Recent trades**: top 5 by notional from the last 50 trades, with instrument, side, price, amount, fee.\n"@
    } else {
        Seq::<char>::empty()
    }
}

/// The user message when credentials are configured.
pub open spec fn user_text(c: Seq<char>, hs: Seq<char>, hc: Seq<char>) -> Seq<char> {
    "Produce an end-of-day "@
        + c
        + " position review. Use ONLY the following Account tools, in this order:\n\n1. `get_account_summary { currency: \""@
        + c
        + "\", extended: true }` — pull equity, margin balance, initial / maintenance margin, P&L.\n2. `get_positions { currency: \""@
        + c
        + "\" }` — every open position for the currency.\n3. `get_open_orders_by_currency { currency: \""@
        + c
        + "\" }` — every resting order for the currency.\n"@
        + hs
        + "\nFinal output sections (in this order):\n- **Headline**: equity, P&L (24h + session), margin utilisation %.\n- **Positions**: instrument, side, size, mark price, unrealised P&L, liquidation price (when present).\n- **Open orders**: instrument, side, type, price, amount, age in minutes.\n- **Flags**: any position with margin utilisation > 70%, any reduce-only order on a position the wrong way, any order older than 24h.\n"@
        + hc
        + "- **Caveats**: timestamps for every figure, any tool that returned a partial / errored response."@
}

/// The assistant acknowledgement when credentials are configured.
pub open spec fn assistant_text(c: Seq<char>) -> Seq<char> {
    "Acknowledged. I will run a "@
        + c
        + " position review using only the listed Account tools and return the structured sections."@
}

/// The description when credentials are configured.
pub open spec fn description_text(c: Seq<char>) -> Seq<char> {
    "Position review for "@
        + c
}

/// The user message when no credentials are configured.
pub open spec fn warning_text(c: Seq<char>) -> Seq<char> {
    "WARNING: this MCP server has no credentials configured. The Account tools (`get_account_summary`, `get_positions`, `get_open_orders_by_currency`, `get_user_trades_by_currency`) are NOT registered in `tools/list`, so a "@
        + c
        + " position review cannot be produced.\n\nTo enable this prompt, set `DERIBIT_CLIENT_ID` and `DERIBIT_CLIENT_SECRET` in the server's environment and restart the binary.\n\nReply with a brief explanation of the warning and stop."@
}

/// The assistant acknowledgement when no credentials are configured.
pub open spec fn warning_ack_text(c: Seq<char>) -> Seq<char> {
    "Understood. The MCP server is anonymous; I cannot produce a "@
        + c
        + " position review until credentials are configured. I will not attempt any Account tool call."@
}

/// The description when no credentials are configured.
pub open spec fn warning_description_text(c: Seq<char>) -> Seq<char> {
    "Position review for "@
        + c
        + " — credentials missing"@
}

/// Trim and upper-case the currency.
///
/// # Errors
///
/// A validation error on `currency` when nothing but white space is given.
pub fn normalize_currency(s: &str) -> (r: Result<String, AdapterError>)
    ensures
        ascii_uppercase(trim(s@)).len() == 0 ==> (r matches Err(e) && is_validation(e, "currency"@, "must be non-empty"@)),
        ascii_uppercase(trim(s@)).len() != 0 ==> (r matches Ok(x) && x@ == ascii_uppercase(trim(s@))),
{
    let upper = to_ascii_uppercase(trim_str(s));
    if upper.as_str().unicode_len() == 0 {
        return Err(AdapterError::validation("currency", owned("must be non-empty")));
    }
    Ok(upper)
}

/// The no-credentials response.
pub fn missing_credentials_response(currency: &str) -> (r: PromptResult)
    ensures
        is_prompt_result(r, warning_description_text(currency@), warning_text(currency@), warning_ack_text(currency@)),
{
    let c = currency;
    let mut user = owned("WARNING: this MCP server has no credentials configured. The Account tools (`get_account_summary`, `get_positions`, `get_open_orders_by_currency`, `get_user_trades_by_currency`) are NOT registered in `tools/list`, so a ");
    push_str(&mut user, c);
    push_str(&mut user, " position review cannot be produced.\n\nTo enable this prompt, set `DERIBIT_CLIENT_ID` and `DERIBIT_CLIENT_SECRET` in the server's environment and restart the binary.\n\nReply with a brief explanation of the warning and stop.");
    let mut ack = owned("Understood. The MCP server is anonymous; I cannot produce a ");
    push_str(&mut ack, c);
    push_str(&mut ack, " position review until credentials are configured. I will not attempt any Account tool call.");
    let mut desc = owned("Position review for ");
    push_str(&mut desc, c);
    push_str(&mut desc, " — credentials missing");
    two_messages(desc, user, ack)
}

/// The prompt's outcome: the currency error, the warning when there are no
/// credentials, or the review instructions.
pub open spec fn rendered(has_credentials: bool, input: PositionReviewInput, r: Result<PromptResult, AdapterError>) -> bool {
    let c = ascii_uppercase(trim(input.currency@));
    if c.len() == 0 {
        r matches Err(e) && is_validation(e, "currency"@, "must be non-empty"@)
    } else if !has_credentials {
        r matches Ok(p) && is_prompt_result(p, warning_description_text(c), warning_text(c), warning_ack_text(c))
    } else {
        r matches Ok(p) && is_prompt_result(
            p,
            description_text(c),
            user_text(c, history_step(c, input.include_history), history_section(input.include_history)),
            assistant_text(c),
        )
    }
}

/// Render the prompt.
///
/// # Errors
///
/// A validation error on `currency` when it is blank.
pub fn render(has_credentials: bool, input: &PositionReviewInput) -> (r: Result<PromptResult, AdapterError>)
    ensures
        rendered(has_credentials, *input, r),
{
    let currency = match normalize_currency(input.currency.as_str()) {
        Ok(c) => c,
        Err(e) => {
            return Err(e);
        },
    };
    if !has_credentials {
        return Ok(missing_credentials_response(currency.as_str()));
    }
    let c = currency.as_str();
    let step = if input.include_history {
        let mut s = owned("4. `get_user_trades_by_currency { currency: \"");
        push_str(&mut s, c);
        push_str(&mut s, "\", count: 50 }` — pull the last 50 user trades for context.\n");
        s
    } else {
        String::new()
    };
    let section = if input.include_history {
        owned("- **Recent trades**: top 5 by notional from the last 50 trades, with instrument, side, price, amount, fee.\n")
    } else {
        String::new()
    };
    let hs = step.as_str();
    let hc = section.as_str();
    let mut user = owned("Produce an end-of-day ");
    push_str(&mut user, c);
    push_str(&mut user, " position review. Use ONLY the following Account tools, in this order:\n\n1. `get_account_summary { currency: \"");
    push_str(&mut user, c);
    push_str(&mut user, "\", extended: true }` — pull equity, margin balance, initial / maintenance margin, P&L.\n2. `get_positions { currency: \"");
    push_str(&mut user, c);
    push_str(&mut user, "\" }` — every open position for the currency.\n3. `get_open_orders_by_currency { currency: \"");
    push_str(&mut user, c);
    push_str(&mut user, "\" }` — every resting order for the currency.\n");
    push_str(&mut user, hs);
    push_str(&mut user, "\nFinal output sections (in this order):\n- **Headline**: equity, P&L (24h + session), margin utilisation %.\n- **Positions**: instrument, side, size, mark price, unrealised P&L, liquidation price (when present).\n- **Open orders**: instrument, side, type, price, amount, age in minutes.\n- **Flags**: any position with margin utilisation > 70%, any reduce-only order on a position the wrong way, any order older than 24h.\n");
    push_str(&mut user, hc);
    push_str(&mut user, "- **Caveats**: timestamps for every figure, any tool that returned a partial / errored response.");
    let mut ack = owned("Acknowledged. I will run a ");
    push_str(&mut ack, c);
    push_str(&mut ack, " position review using only the listed Account tools and return the structured sections.");
    let mut desc = owned("Position review for ");
    push_str(&mut desc, c);
    Ok(two_messages(desc, user, ack))
}

/// The descriptor shown on `prompts/list`.
pub open spec fn is_position_descriptor(d: PromptDescriptor) -> bool {
    is_descriptor(
        d,
        "position_review"@,
        "Drive the LLM through an account / position review using the v0.2 `Account` tools (get_account_summary, get_positions, get_open_orders_by_currency, get_user_trades_by_currency). When credentials are not configured, returns a structured warning instead."@,
        ("currency"@, "Currency to scope the review to (`BTC`, `ETH`, `USDC`, …)."@, true),
        ("include_history"@, "When `true`, append a recent-trades section. Defaults to `false`."@, false),
    )
}

/// Descriptor: name, description, the required `currency` and the optional
/// `include_history`.
pub fn descriptor() -> (r: PromptDescriptor)
    ensures
        is_position_descriptor(r),
{
    let mut arguments: Vec<super::PromptArgument> = Vec::new();
    arguments.push(argument("currency", "Currency to scope the review to (`BTC`, `ETH`, `USDC`, …).", true));
    arguments.push(argument("include_history", "When `true`, append a recent-trades section. Defaults to `false`.", false));
    PromptDescriptor {
        name: owned("position_review"),
        description: Some(owned("Drive the LLM through an account / position review using the v0.2 `Account` tools (get_account_summary, get_positions, get_open_orders_by_currency, get_user_trades_by_currency). When credentials are not configured, returns a structured warning instead.")),
        arguments: Some(arguments),
    }
}

/// Registry entry.
pub fn entry() -> (r: PromptEntry)
    ensures
        is_position_descriptor(r.descriptor),
        r.kind == PromptKind::PositionReview,
{
    PromptEntry { descriptor: descriptor(), kind: PromptKind::PositionReview }
}

/// Register the prompt.
pub fn register(registry: &mut PromptRegistry)
    ensures
        forall|n: Seq<char>|
            n != "position_review"@ ==> #[trigger] lookup(final(registry).entries(), n)
                == lookup(old(registry).entries(), n),
        final(registry).entries().len() == old(registry).entries().len() + if lookup(
            old(registry).entries(),
            "position_review"@,
        ) is Some {
            0int
        } else {
            1int
        },
        lookup(final(registry).entries(), "position_review"@) matches Some(e) && is_position_descriptor(e.descriptor) && e.kind == PromptKind::PositionReview,
{
    registry.insert(entry());
}

} // verus!
