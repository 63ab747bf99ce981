//! `funding_snapshot` prompt.
//!
//! Assembles a current + historical funding-rate snapshot for a currency's
//! perpetual. Names the public Read tools `list_instruments` (filtered to
//! the perpetual) and `get_funding_rate_history` over a caller-specified
//! lookback window, and pins the tabular output shape.
use vstd::prelude::*;
use super::{argument, is_descriptor, is_prompt_result, two_messages, PromptDescriptor, PromptEntry, PromptKind, PromptRegistry, PromptResult};
use crate::error::{is_validation, AdapterError};
use crate::registry::{lookup, Named};
use crate::text::{ascii_uppercase, contains_seq, decimal, lemma_contains_middle, decimal_string, owned, push_str, str_equal, to_ascii_uppercase, trim, trim_str};

verus! {

/// Prompt name as it appears on `prompts/list`.
pub const NAME: &'static str = "funding_snapshot";

/// Maximum lookback in hours (30 days). Wider windows should be split into
/// separate runs so the prompt stays bounded and the upstream history
/// request stays under Deribit's documented limit.
pub const MAX_LOOKBACK_HOURS: u32 = 720;

/// `funding_snapshot` arguments.
#[derive(Debug, Clone, PartialEq, Eq)]
pub struct FundingSnapshotInput {
    /// Currency to snapshot: `BTC` or `ETH` (any case, surrounding white
    /// space ignored).
    pub currency: String,
    /// How far back, in hours, the history reaches: `1..=720`.
    pub lookback_hours: u32,
}

/// The user message.
pub open spec fn user_text(n: Seq<char>, l: Seq<char>, i: Seq<char>) -> Seq<char> {
    "Produce a "@
        + n
        + " perpetual funding snapshot covering the last "@
        + l
        + " hour(s). Use ONLY the following Read tools:\n\n1. `list_instruments { currency: \""@
        + n
        + "\", kind: \"future\", expired: false }` — confirm `"@
        + i
        + "` is the active perpetual.\n2. `get_funding_rate_history { instrument_name: \""@
        + i
        + "\", start_timestamp: now_ms - "@
        + l
        + " * 3_600_000, end_timestamp: now_ms }` — pull the per-8h funding samples.\n\nFinal output (in this order):\n- **Latest** funding rate, 8h-annualised, with its timestamp.\n- **Mean / median / p10 / p90** funding over the lookback window.\n- **Sign breakdown**: how many samples positive vs. negative.\n- **Notable outliers**: any sample > 2σ from the window mean, with timestamp and value.\n- **Caveats**: clock skew between `now_ms` and the upstream timestamps; any gap in the returned series."@
}

/// The assistant acknowledgement.
pub open spec fn assistant_text(n: Seq<char>, l: Seq<char>) -> Seq<char> {
    "Acknowledged. I will assemble a "@
        + n
        + " funding snapshot over the last "@
        + l
        + " hour(s) using only the listed Read tools."@
}

/// The description of the rendered prompt.
pub open spec fn description_text(n: Seq<char>, l: Seq<char>) -> Seq<char> {
    "Funding snapshot for "@
        + n
        + " (lookback: "@
        + l
        + " hour(s))"@
}

/// The perpetual of a currency.
pub open spec fn perpetual_of(n: Seq<char>) -> Seq<char> {
    n + "-PERPETUAL"@
}

/// The normalised currency: `BTC` or `ETH` after trimming and upper-casing.
pub open spec fn normalized_currency(s: Seq<char>) -> Option<Seq<char>> {
    let upper = ascii_uppercase(trim(s));
    if upper == "BTC"@ || upper == "ETH"@ {
        Some(upper)
    } else {
        None
    }
}

/// The unknown-currency message.
pub open spec fn currency_message(s: Seq<char>) -> Seq<char> {
    "expected `BTC` or `ETH`, got `"@ + s + "`"@
}

/// Trim and upper-case the currency, accepting only `BTC` and `ETH`.
///
/// # Errors
///
/// A validation error on `currency` for anything else.
pub fn normalize_currency(s: &str) -> (r: Result<String, AdapterError>)
    ensures
        match normalized_currency(s@) {
            Some(u) => r matches Ok(x) && x@ == u,
            None => r matches Err(e) && is_validation(e, "currency"@, currency_message(s@)),
        },
{
    let upper = to_ascii_uppercase(trim_str(s));
    if str_equal(upper.as_str(), "BTC") || str_equal(upper.as_str(), "ETH") {
        Ok(upper)
    } else {
        let mut message = owned("expected `BTC` or `ETH`, got `");
        push_str(&mut message, s);
        push_str(&mut message, "`");
        Err(AdapterError::validation("currency", message))
    }
}

/// The out-of-range lookback message.
pub open spec fn lookback_message(hours: u32) -> Seq<char> {
    "expected 1..=720, got "@ + decimal(hours as nat)
}

/// Accept lookbacks in `1..=720` hours.
///
/// # Errors
///
/// A validation error on `lookback_hours` otherwise.
pub fn validate_lookback(hours: u32) -> (r: Result<u32, AdapterError>)
    ensures
        1 <= hours <= MAX_LOOKBACK_HOURS ==> r == Ok::<u32, AdapterError>(hours),
        !(1 <= hours <= MAX_LOOKBACK_HOURS) ==> (r matches Err(e) && is_validation(
            e,
            "lookback_hours"@,
            lookback_message(hours),
        )),
{
    if 1 <= hours && hours <= MAX_LOOKBACK_HOURS {
        Ok(hours)
    } else {
        let mut message = owned("expected 1..=720, got ");
        let d = decimal_string(hours as u64);
        push_str(&mut message, d.as_str());
        Err(AdapterError::validation("lookback_hours", message))
    }
}

/// The prompt's outcome for `input`: the currency error, the lookback
/// error, or the rendered messages.
pub open spec fn rendered(input: FundingSnapshotInput, r: Result<PromptResult, AdapterError>) -> bool {
    match normalized_currency(input.currency@) {
        None => r matches Err(e) && is_validation(e, "currency"@, currency_message(input.currency@)),
        Some(n) => if !(1 <= input.lookback_hours <= MAX_LOOKBACK_HOURS) {
            r matches Err(e) && is_validation(e, "lookback_hours"@, lookback_message(input.lookback_hours))
        } else {
            let l = decimal(input.lookback_hours as nat);
            r matches Ok(p) && is_prompt_result(
                p,
                description_text(n, l),
                user_text(n, l, perpetual_of(n)),
                assistant_text(n, l),
            )
        },
    }
}

/// The history window named in the user message.
proof fn lemma_user_text_window(n: Seq<char>, l: Seq<char>, i: Seq<char>)
    ensures
        contains_seq(
            user_text(n, l, i),
            "start_timestamp: now_ms - "@ + l + " * 3_600_000, end_timestamp: now_ms"@,
        ),
{
    let q2 = "\", start_timestamp: now_ms - "@;
    let q3 = " * 3_600_000, end_timestamp: now_ms }` — pull the per-8h funding samples.\n\nFinal output (in this order):\n- **Latest** funding rate, 8h-annualised, with its timestamp.\n- **Mean / median / p10 / p90** funding over the lookback window.\n- **Sign breakdown**: how many samples positive vs. negative.\n- **Notable outliers**: any sample > 2σ from the window mean, with timestamp and value.\n- **Caveats**: clock skew between `now_ms` and the upstream timestamps; any gap in the returned series."@;
    let s1 = "start_timestamp: now_ms - "@;
    let s2 = " * 3_600_000, end_timestamp: now_ms"@;
    reveal_strlit("\", start_timestamp: now_ms - ");
    reveal_strlit("start_timestamp: now_ms - ");
    reveal_strlit(" * 3_600_000, end_timestamp: now_ms");
    reveal_strlit(" * 3_600_000, end_timestamp: now_ms }` — pull the per-8h funding samples.\n\nFinal output (in this order):\n- **Latest** funding rate, 8h-annualised, with its timestamp.\n- **Mean / median / p10 / p90** funding over the lookback window.\n- **Sign breakdown**: how many samples positive vs. negative.\n- **Notable outliers**: any sample > 2σ from the window mean, with timestamp and value.\n- **Caveats**: clock skew between `now_ms` and the upstream timestamps; any gap in the returned series.");
    assert(q2 =~= q2.subrange(0, 3) + s1);
    assert(q3 =~= s2 + q3.subrange(s2.len() as int, q3.len() as int));
    let a0 = "Produce a "@
        + n
        + " perpetual funding snapshot covering the last "@
        + l
        + " hour(s). Use ONLY the following Read tools:\n\n1. `list_instruments { currency: \""@
        + n
        + "\", kind: \"future\", expired: false }` — confirm `"@
        + i
        + "` is the active perpetual.\n2. `get_funding_rate_history { instrument_name: \""@
        + i;
    let pre = a0 + q2.subrange(0, 3);
    let rest = q3.subrange(s2.len() as int, q3.len() as int);
    assert(user_text(n, l, i) == a0 + q2 + l + q3);
    assert(user_text(n, l, i) =~= pre + (s1 + l + s2) + rest);
    lemma_contains_middle(pre, s1 + l + s2, rest);
}

/// Render the prompt.
///
/// # Errors
///
/// A validation error on `currency` or `lookback_hours`.
pub fn render(input: &FundingSnapshotInput) -> (r: Result<PromptResult, AdapterError>)
    ensures
        rendered(*input, r),
{
    let normalized = match normalize_currency(input.currency.as_str()) {
        Ok(c) => c,
        Err(e) => {
            return Err(e);
        },
    };
    let lookback = match validate_lookback(input.lookback_hours) {
        Ok(h) => h,
        Err(e) => {
            return Err(e);
        },
    };
    let digits = decimal_string(lookback as u64);
    let mut instrument = normalized.clone();
    push_str(&mut instrument, "-PERPETUAL");
    let n = normalized.as_str();
    let l = digits.as_str();
    let i = instrument.as_str();
    let mut user = owned("Produce a ");
    push_str(&mut user, n);
    push_str(&mut user, " perpetual funding snapshot covering the last ");
    push_str(&mut user, l);
    push_str(&mut user, " hour(s). Use ONLY the following Read tools:\n\n1. `list_instruments { currency: \"");
    push_str(&mut user, n);
    push_str(&mut user, "\", kind: \"future\", expired: false }` — confirm `");
    push_str(&mut user, i);
    push_str(&mut user, "` is the active perpetual.\n2. `get_funding_rate_history { instrument_name: \"");
    push_str(&mut user, i);
    push_str(&mut user, "\", start_timestamp: now_ms - ");
    push_str(&mut user, l);
    push_str(&mut user, " * 3_600_000, end_timestamp: now_ms }` — pull the per-8h funding samples.\n\nFinal output (in this order):\n- **Latest** funding rate, 8h-annualised, with its timestamp.\n- **Mean / median / p10 / p90** funding over the lookback window.\n- **Sign breakdown**: how many samples positive vs. negative.\n- **Notable outliers**: any sample > 2σ from the window mean, with timestamp and value.\n- **Caveats**: clock skew between `now_ms` and the upstream timestamps; any gap in the returned series.");
    let mut ack = owned("Acknowledged. I will assemble a ");
    push_str(&mut ack, n);
    push_str(&mut ack, " funding snapshot over the last ");
    push_str(&mut ack, l);
    push_str(&mut ack, " hour(s) using only the listed Read tools.");
    let mut desc = owned("Funding snapshot for ");
    push_str(&mut desc, n);
    push_str(&mut desc, " (lookback: ");
    push_str(&mut desc, l);
    push_str(&mut desc, " hour(s))");
    Ok(two_messages(desc, user, ack))
}

/// The prompt renders exactly for `BTC` / `ETH` (any case, surrounding
/// white space ignored) and a lookback of 1 to 720 hours, and the history
/// window its user message asks for spans exactly the lookback:
/// `start_timestamp` is `now_ms` minus the lookback in hours times
/// 3 600 000 ms (one hour), up to `end_timestamp: now_ms`.
pub proof fn lemma_funding_window_is_lookback(
    input: FundingSnapshotInput,
    r: Result<PromptResult, AdapterError>,
)
    requires
        rendered(input, r),
    ensures
        r is Ok <==> (normalized_currency(input.currency@) is Some && 1 <= input.lookback_hours
            <= 720),
        r matches Ok(p) ==> p.messages@.len() == 2 && contains_seq(
            p.messages@[0].text@,
            "start_timestamp: now_ms - "@ + decimal(input.lookback_hours as nat)
                + " * 3_600_000, end_timestamp: now_ms"@,
        ),
{
    if let Some(n) = normalized_currency(input.currency@) {
        let l = decimal(input.lookback_hours as nat);
        lemma_user_text_window(n, l, perpetual_of(n));
    }
}

/// The descriptor shown on `prompts/list`.
pub open spec fn is_funding_descriptor(d: PromptDescriptor) -> bool {
    is_descriptor(
        d,
        "funding_snapshot"@,
        "Compose a current + historical funding-rate snapshot for the configured currency. Names `list_instruments` + `get_funding_rate_history` and pins the tabular output shape."@,
        ("currency"@, "`BTC` or `ETH`. Currency whose perpetual funding will be snapshotted."@, true),
        ("lookback_hours"@, "How many hours of funding history to include. Integer in the range 1..=720 (30 days); values outside the range are rejected."@, true),
    )
}

/// Descriptor: name, description and the two required arguments.
pub fn descriptor() -> (r: PromptDescriptor)
    ensures
        is_funding_descriptor(r),
{
    let mut arguments: Vec<super::PromptArgument> = Vec::new();
    arguments.push(argument("currency", "`BTC` or `ETH`. Currency whose perpetual funding will be snapshotted.", true));
    arguments.push(argument("lookback_hours", "How many hours of funding history to include. Integer in the range 1..=720 (30 days); values outside the range are rejected.", true));
    PromptDescriptor {
        name: owned("funding_snapshot"),
        description: Some(owned("Compose a current + historical funding-rate snapshot for the configured currency. Names `list_instruments` + `get_funding_rate_history` and pins the tabular output shape.")),
        arguments: Some(arguments),
    }
}

/// Registry entry.
pub fn entry() -> (r: PromptEntry)
    ensures
        is_funding_descriptor(r.descriptor),
        r.kind == PromptKind::FundingSnapshot,
{
    PromptEntry { descriptor: descriptor(), kind: PromptKind::FundingSnapshot }
}

/// Register the prompt.
pub fn register(registry: &mut PromptRegistry)
    ensures
        forall|n: Seq<char>|
            n != "funding_snapshot"@ ==> #[trigger] lookup(final(registry).entries(), n)
                == lookup(old(registry).entries(), n),
        final(registry).entries().len() == old(registry).entries().len() + if lookup(
            old(registry).entries(),
            "funding_snapshot"@,
        ) is Some {
            0int
        } else {
            1int
        },
        lookup(final(registry).entries(), "funding_snapshot"@) matches Some(e) && is_funding_descriptor(e.descriptor) && e.kind == PromptKind::FundingSnapshot,
{
    registry.insert(entry());
}

} // verus!
