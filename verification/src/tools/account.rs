//! Authenticated `Account` tool family: tools that require credentials.
//!
//! - `get_account_summary`: balance / equity / margin for a currency.
//! - `get_positions`: open positions, optionally filtered.
//! - `get_subaccounts`: subaccount list with optional portfolio.
use vstd::prelude::*;
use super::{make_entry, opt_facts, registered, public, ToolClass, ToolEntry, ToolFacts, ToolKind, ToolRegistry};
use crate::registry::{lookup, Named};

verus! {

/// `get_account_summary` input.
#[derive(Debug, Clone, PartialEq, Eq)]
pub struct GetAccountSummaryInput {
    /// Currency to summarise (`BTC`, `ETH`, `USDC`, ...).
    pub currency: String,
    /// Include the per-currency `summaries[]`; upstream default `false`.
    pub extended: Option<bool>,
}

/// `get_positions` input.
#[derive(Debug, Clone, PartialEq, Eq)]
pub struct GetPositionsInput {
    /// Optional currency filter.
    pub currency: Option<String>,
    /// Optional instrument-kind filter (`future`, `option`, `spot`, ...).
    pub kind: Option<String>,
    /// Optional subaccount id.
    pub subaccount_id: Option<i32>,
}

/// `get_subaccounts` input.
#[derive(Debug, Clone, PartialEq, Eq)]
pub struct GetSubaccountsInput {
    /// Include each subaccount's portfolio; upstream default `false`.
    pub with_portfolio: Option<bool>,
}

/// The account tools, by name.
pub open spec fn account_tool(n: Seq<char>) -> Option<ToolFacts> {
    if n == "get_subaccounts"@ {
        Some(
            (
                "get_subaccounts"@,
                "List subaccounts, optionally including portfolio per subaccount."@,
                ToolKind::GetSubaccounts,
                ToolClass::Account,
            ),
        )
    } else if n == "get_positions"@ {
        Some(
            (
                "get_positions"@,
                "Open positions, optionally filtered by currency / kind / subaccount."@,
                ToolKind::GetPositions,
                ToolClass::Account,
            ),
        )
    } else if n == "get_account_summary"@ {
        Some(
            (
                "get_account_summary"@,
                "Account balance / equity / margin for a single currency."@,
                ToolKind::GetAccountSummary,
                ToolClass::Account,
            ),
        )
    } else {
        None
    }
}

/// Every account tool has the `Account` class.
pub proof fn lemma_account_tools_are_account(n: Seq<char>)
    ensures
        account_tool(n) matches Some(f) ==> f.3 == ToolClass::Account,
{
}

/// No account tool shares its name with a public tool.
pub proof fn lemma_account_names_not_public()
    ensures
        forall|n: Seq<char>| #[trigger] account_tool(n) is Some ==> public::public_tool(n) is None,
{
    super::lemma_tool_name_signatures();
}

fn get_account_summary_tool() -> (r: ToolEntry)
    ensures
        super::facts_of(r) == ("get_account_summary"@, "Account balance / equity / margin for a single currency."@, ToolKind::GetAccountSummary, ToolClass::Account),
{
    make_entry(
        "get_account_summary",
        "Account balance / equity / margin for a single currency.",
        ToolKind::GetAccountSummary,
        ToolClass::Account,
    )
}

fn get_positions_tool() -> (r: ToolEntry)
    ensures
        super::facts_of(r) == ("get_positions"@, "Open positions, optionally filtered by currency / kind / subaccount."@, ToolKind::GetPositions, ToolClass::Account),
{
    make_entry(
        "get_positions",
        "Open positions, optionally filtered by currency / kind / subaccount.",
        ToolKind::GetPositions,
        ToolClass::Account,
    )
}

fn get_subaccounts_tool() -> (r: ToolEntry)
    ensures
        super::facts_of(r) == ("get_subaccounts"@, "List subaccounts, optionally including portfolio per subaccount."@, ToolKind::GetSubaccounts, ToolClass::Account),
{
    make_entry(
        "get_subaccounts",
        "List subaccounts, optionally including portfolio per subaccount.",
        ToolKind::GetSubaccounts,
        ToolClass::Account,
    )
}

/// Register every `Account` tool with the registry.
pub fn register(registry: &mut ToolRegistry)
    ensures
        forall|n: Seq<char>| #[trigger]
            registered(*final(registry), n) == if account_tool(n) is Some {
                account_tool(n)
            } else {
                registered(*old(registry), n)
            },
        (forall|n: Seq<char>| account_tool(n) is Some ==> #[trigger] registered(*old(registry), n) is None)
            ==> final(registry).entries().len() == old(registry).entries().len() + 3,
{
    proof {
        super::lemma_tool_name_signatures();
    }
    let a = get_account_summary_tool();
    let b = get_positions_tool();
    let c = get_subaccounts_tool();
    registry.insert(a);
    registry.insert(b);
    registry.insert(c);
    proof {
        if (forall|n: Seq<char>| account_tool(n) is Some ==> #[trigger] registered(*old(registry), n) is None) {
            assert(registered(*old(registry), "get_account_summary"@) is None);
            assert(registered(*old(registry), "get_positions"@) is None);
            assert(registered(*old(registry), "get_subaccounts"@) is None);
        }
    }
}

} // verus!
