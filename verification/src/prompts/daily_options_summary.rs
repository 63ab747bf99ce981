//! `daily_options_summary` prompt.
//!
//! Walks the client through "summarise BTC / ETH options expiring in the
//! next N days". The prompt does not call any tool itself: it returns a user
//! message that names the public Read tools (`list_instruments`,
//! `get_book_summary_by_currency`, `get_historical_volatility`) and
//! constrains how their output is woven into the summary, plus an assistant
//! acknowledgement that pins the agreed shape.
use vstd::prelude::*;
use super::{argument, is_descriptor, is_prompt_result, two_messages, PromptDescriptor, PromptEntry, PromptKind, PromptRegistry, PromptResult};
use crate::error::{is_validation, AdapterError};
use crate::registry::{lookup, Named};
use crate::text::{ascii_uppercase, contains_seq, decimal, lemma_contains_middle, decimal_string, owned, push_str, str_equal, to_ascii_uppercase, trim, trim_str};

verus! {

/// Prompt name as it appears on `prompts/list`.
pub const NAME: &'static str = "daily_options_summary";

/// `daily_options_summary` arguments.
#[derive(Debug, Clone, PartialEq, Eq)]
pub struct DailyOptionsSummaryInput {
    /// Currency to summarise: `BTC` or `ETH` (any case, surrounding white
    /// space ignored); other strings are rejected.
    pub currency: String,
    /// How far ahead, in days, the summary reaches: `1..=31`.
    pub horizon_days: u8,
}

/// The user message.
pub open spec fn user_text(n: Seq<char>, h: Seq<char>) -> Seq<char> {
    "Produce a structured summary of "@
        + n
        + " options expiring within "@
        + h
        + " day(s). Use ONLY the following Read tools, in this order:\n\n1. `list_instruments { currency: \""@
        + n
        + "\", kind: \"option\" }` — filter the results client-side to instruments whose `expiration_timestamp` falls within the next "@
        + h
        + " day(s).\n2. `get_book_summary_by_currency { currency: \""@
        + n
        + "\", kind: \"option\" }` — pull mid prices, open interest, and 24h volume for the filtered set.\n3. `get_historical_volatility { currency: \""@
        + n
        + "\" }` — anchor IV vs. RV in the headline.\n\nFinal output sections (in this order):\n- Headline: ATM straddle implied vs. realised volatility.\n- Top three calls and top three puts by open interest, with strike, expiration, mid price, and 24h volume.\n- Skew commentary: any expiry where the 25-delta risk reversal looks dislocated.\n- Caveats: timestamps for every figure, instruments excluded for missing data."@
}

/// The assistant acknowledgement.
pub open spec fn assistant_text(n: Seq<char>, h: Seq<char>) -> Seq<char> {
    "Acknowledged. I will summarise "@
        + n
        + " options within "@
        + h
        + " day(s) using only the listed Read tools, then return the four-section structured output."@
}

/// The description of the rendered prompt.
pub open spec fn description_text(n: Seq<char>, h: Seq<char>) -> Seq<char> {
    "Daily options summary for "@
        + n
        + " (horizon: "@
        + h
        + " day(s))"@
}

/// The normalised currency: `BTC` or `ETH` after trimming and upper-casing.
pub open spec fn normalized_currency(s: Seq<char>) -> Option<Seq<char>> {
    let upper = ascii_uppercase(trim(s));
    if upper == "BTC"@ || upper == "ETH"@ {
        Some(upper)
    } else {
        None
    }
}

/// The unknown-currency message.
pub open spec fn currency_message(s: Seq<char>) -> Seq<char> {
    "expected `BTC` or `ETH`, got `"@ + s + "`"@
}

/// Trim and upper-case the currency, accepting only `BTC` and `ETH`.
///
/// # Errors
///
/// A validation error on `currency` for anything else.
pub fn normalize_currency(s: &str) -> (r: Result<String, AdapterError>)
    ensures
        match normalized_currency(s@) {
            Some(u) => r matches Ok(x) && x@ == u,
            None => r matches Err(e) && is_validation(e, "currency"@, currency_message(s@)),
        },
{
    let upper = to_ascii_uppercase(trim_str(s));
    if str_equal(upper.as_str(), "BTC") || str_equal(upper.as_str(), "ETH") {
        Ok(upper)
    } else {
        let mut message = owned("expected `BTC` or `ETH`, got `");
        push_str(&mut message, s);
        push_str(&mut message, "`");
        Err(AdapterError::validation("currency", message))
    }
}

/// The out-of-range horizon message.
pub open spec fn horizon_message(h: u8) -> Seq<char> {
    "expected 1..=31, got "@ + decimal(h as nat)
}

/// Accept horizons in `1..=31`.
///
/// # Errors
///
/// A validation error on `horizon_days` otherwise.
pub fn validate_horizon(horizon_days: u8) -> (r: Result<u8, AdapterError>)
    ensures
        1 <= horizon_days <= 31 ==> r == Ok::<u8, AdapterError>(horizon_days),
        !(1 <= horizon_days <= 31) ==> (r matches Err(e) && is_validation(
            e,
            "horizon_days"@,
            horizon_message(horizon_days),
        )),
{
    if 1 <= horizon_days && horizon_days <= 31 {
        Ok(horizon_days)
    } else {
        let mut message = owned("expected 1..=31, got ");
        let d = decimal_string(horizon_days as u64);
        push_str(&mut message, d.as_str());
        Err(AdapterError::validation("horizon_days", message))
    }
}

/// The prompt's outcome for `input`: the currency error, the horizon
/// error, or the rendered messages.
pub open spec fn rendered(input: DailyOptionsSummaryInput, r: Result<PromptResult, AdapterError>) -> bool {
    match normalized_currency(input.currency@) {
        None => r matches Err(e) && is_validation(e, "currency"@, currency_message(input.currency@)),
        Some(n) => if !(1 <= input.horizon_days <= 31) {
            r matches Err(e) && is_validation(e, "horizon_days"@, horizon_message(input.horizon_days))
        } else {
            let h = decimal(input.horizon_days as nat);
            r matches Ok(p) && is_prompt_result(p, description_text(n, h), user_text(n, h), assistant_text(n, h))
        },
    }
}

/// The horizon named in the user message.
proof fn lemma_user_text_horizon(n: Seq<char>, h: Seq<char>)
    ensures
        contains_seq(user_text(n, h), " options expiring within "@ + h + " day(s)"@),
{
    let q2 = " day(s). Use ONLY the following Read tools, in this order:\n\n1. `list_instruments { currency: \""@;
    let s2 = " day(s)"@;
    reveal_strlit(" day(s)");
    reveal_strlit(" day(s). Use ONLY the following Read tools, in this order:\n\n1. `list_instruments { currency: \"");
    assert(q2 =~= s2 + q2.subrange(s2.len() as int, q2.len() as int));
    let pre = "Produce a structured summary of "@ + n;
    let rest = q2.subrange(s2.len() as int, q2.len() as int)
        + n
        + "\", kind: \"option\" }` — filter the results client-side to instruments whose `expiration_timestamp` falls within the next "@
        + h
        + " day(s).\n2. `get_book_summary_by_currency { currency: \""@
        + n
        + "\", kind: \"option\" }` — pull mid prices, open interest, and 24h volume for the filtered set.\n3. `get_historical_volatility { currency: \""@
        + n
        + "\" }` — anchor IV vs. RV in the headline.\n\nFinal output sections (in this order):\n- Headline: ATM straddle implied vs. realised volatility.\n- Top three calls and top three puts by open interest, with strike, expiration, mid price, and 24h volume.\n- Skew commentary: any expiry where the 25-delta risk reversal looks dislocated.\n- Caveats: timestamps for every figure, instruments excluded for missing data."@;
    assert(user_text(n, h) =~= pre + (" options expiring within "@ + h + s2) + rest);
    lemma_contains_middle(pre, " options expiring within "@ + h + s2, rest);
}

/// The prompt renders exactly for `BTC` / `ETH` (any case, surrounding
/// white space ignored) and a horizon of 1 to 31 days, and its user message
/// asks for the options expiring within that many days.
pub proof fn lemma_daily_horizon_is_requested(
    input: DailyOptionsSummaryInput,
    r: Result<PromptResult, AdapterError>,
)
    requires
        rendered(input, r),
    ensures
        r is Ok <==> (normalized_currency(input.currency@) is Some && 1 <= input.horizon_days
            <= 31),
        r matches Ok(p) ==> p.messages@.len() == 2 && contains_seq(
            p.messages@[0].text@,
            " options expiring within "@ + decimal(input.horizon_days as nat) + " day(s)"@,
        ),
{
    if let Some(n) = normalized_currency(input.currency@) {
        lemma_user_text_horizon(n, decimal(input.horizon_days as nat));
    }
}

/// Render the prompt.
///
/// # Errors
///
/// A validation error on `currency` or `horizon_days`.
pub fn render(input: &DailyOptionsSummaryInput) -> (r: Result<PromptResult, AdapterError>)
    ensures
        rendered(*input, r),
{
    let normalized = match normalize_currency(input.currency.as_str()) {
        Ok(c) => c,
        Err(e) => {
            return Err(e);
        },
    };
    let horizon = match validate_horizon(input.horizon_days) {
        Ok(h) => h,
        Err(e) => {
            return Err(e);
        },
    };
    let digits = decimal_string(horizon as u64);
    let n = normalized.as_str();
    let h = digits.as_str();
    let mut user = owned("Produce a structured summary of ");
    push_str(&mut user, n);
    push_str(&mut user, " options expiring within ");
    push_str(&mut user, h);
    push_str(&mut user, " day(s). Use ONLY the following Read tools, in this order:\n\n1. `list_instruments { currency: \"");
    push_str(&mut user, n);
    push_str(&mut user, "\", kind: \"option\" }` — filter the results client-side to instruments whose `expiration_timestamp` falls within the next ");
    push_str(&mut user, h);
    push_str(&mut user, " day(s).\n2. `get_book_summary_by_currency { currency: \"");
    push_str(&mut user, n);
    push_str(&mut user, "\", kind: \"option\" }` — pull mid prices, open interest, and 24h volume for the filtered set.\n3. `get_historical_volatility { currency: \"");
    push_str(&mut user, n);
    push_str(&mut user, "\" }` — anchor IV vs. RV in the headline.\n\nFinal output sections (in this order):\n- Headline: ATM straddle implied vs. realised volatility.\n- Top three calls and top three puts by open interest, with strike, expiration, mid price, and 24h volume.\n- Skew commentary: any expiry where the 25-delta risk reversal looks dislocated.\n- Caveats: timestamps for every figure, instruments excluded for missing data.");
    let mut ack = owned("Acknowledged. I will summarise ");
    push_str(&mut ack, n);
    push_str(&mut ack, " options within ");
    push_str(&mut ack, h);
    push_str(&mut ack, " day(s) using only the listed Read tools, then return the four-section structured output.");
    let mut desc = owned("Daily options summary for ");
    push_str(&mut desc, n);
    push_str(&mut desc, " (horizon: ");
    push_str(&mut desc, h);
    push_str(&mut desc, " day(s))");
    Ok(two_messages(desc, user, ack))
}

/// The descriptor shown on `prompts/list`.
pub open spec fn is_daily_descriptor(d: PromptDescriptor) -> bool {
    is_descriptor(
        d,
        "daily_options_summary"@,
        "Summarise BTC / ETH options expiring within the requested horizon using the public Read tools (`list_instruments`, `get_book_summary_by_currency`, `get_historical_volatility`)."@,
        ("currency"@, "`BTC` or `ETH`. The base currency to summarise."@, true),
        ("horizon_days"@, "How many days ahead the summary should reach. Integer in the range 1..=31; values outside the range are rejected."@, true),
    )
}

/// Descriptor: name, description and the two required arguments.
pub fn descriptor() -> (r: PromptDescriptor)
    ensures
        is_daily_descriptor(r),
{
    let mut arguments: Vec<super::PromptArgument> = Vec::new();
    arguments.push(argument("currency", "`BTC` or `ETH`. The base currency to summarise.", true));
    arguments.push(argument("horizon_days", "How many days ahead the summary should reach. Integer in the range 1..=31; values outside the range are rejected.", true));
    PromptDescriptor {
        name: owned("daily_options_summary"),
        description: Some(owned("Summarise BTC / ETH options expiring within the requested horizon using the public Read tools (`list_instruments`, `get_book_summary_by_currency`, `get_historical_volatility`).")),
        arguments: Some(arguments),
    }
}

/// Registry entry.
pub fn entry() -> (r: PromptEntry)
    ensures
        is_daily_descriptor(r.descriptor),
        r.kind == PromptKind::DailyOptionsSummary,
{
    PromptEntry { descriptor: descriptor(), kind: PromptKind::DailyOptionsSummary }
}

/// Register the prompt.
pub fn register(registry: &mut PromptRegistry)
    ensures
        forall|n: Seq<char>|
            n != "daily_options_summary"@ ==> #[trigger] lookup(final(registry).entries(), n)
                == lookup(old(registry).entries(), n),
        final(registry).entries().len() == old(registry).entries().len() + if lookup(
            old(registry).entries(),
            "daily_options_summary"@,
        ) is Some {
            0int
        } else {
            1int
        },
        lookup(final(registry).entries(), "daily_options_summary"@) matches Some(e) && is_daily_descriptor(e.descriptor) && e.kind == PromptKind::DailyOptionsSummary,
{
    registry.insert(entry());
}

} // verus!
