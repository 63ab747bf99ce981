//! Tool registry, effect-class gating, and dispatch decisions.
//!
//! Tools are partitioned by effect class:
//!
//! - [`public`]: `Read` tools with no auth requirement.
//! - [`account`]: `Account` tools that require credentials.
//! - [`trading`]: `Trading` tools that require credentials **and**
//!   `--allow-trading`.
//!
//! The registry is built once at startup from the configured class set and
//! frozen afterwards. A tool absent from the registry is uninvokable; routing
//! a call re-checks the class before the binary runs the handler.
use vstd::prelude::*;
use crate::context::{config_has_credentials, AdapterContext};
use crate::error::{is_not_enabled, is_validation, AdapterError};
use crate::registry::{lookup, sorted_by_name, Named, NameIndex};
use crate::text::{owned, push_str};

pub mod account;
pub mod public;
pub mod trading;

verus! {

/// Effect class of an MCP tool.
#[derive(Debug, Clone, Copy, PartialEq, Eq, Structural, Hash)]
pub enum ToolClass {
    /// Read-only public market data. No auth required.
    Read,
    /// Authenticated account-scoped reads.
    Account,
    /// Trading-class actions. Requires `--allow-trading` and credentials.
    Trading,
}

/// The configuration switch that enables each class.
pub open spec fn class_flag(class: ToolClass) -> Seq<char> {
    match class {
        ToolClass::Read => "(always enabled)"@,
        ToolClass::Account => "DERIBIT_CLIENT_ID + DERIBIT_CLIENT_SECRET"@,
        ToolClass::Trading => "--allow-trading"@,
    }
}

impl ToolClass {
    /// CLI flag / environment that enables this class. Used in not-enabled
    /// errors so the client knows what is missing.
    pub fn flag(self) -> (r: &'static str)
        ensures
            r@ == class_flag(self),
    {
        match self {
            ToolClass::Read => "(always enabled)",
            ToolClass::Account => "DERIBIT_CLIENT_ID + DERIBIT_CLIENT_SECRET",
            ToolClass::Trading => "--allow-trading",
        }
    }
}

/// Which handler (and which input schema) a tool has.
#[derive(Debug, Clone, Copy, PartialEq, Eq, Structural, Hash)]
pub enum ToolKind {
    /// `get_ticker`.
    GetTicker,
    /// `get_instrument`.
    GetInstrument,
    /// `list_instruments`.
    ListInstruments,
    /// `get_order_book`.
    GetOrderBook,
    /// `get_index_price`.
    GetIndexPrice,
    /// `get_book_summary_by_currency`.
    GetBookSummaryByCurrency,
    /// `get_book_summary_by_instrument`.
    GetBookSummaryByInstrument,
    /// `get_currencies`.
    GetCurrencies,
    /// `get_server_time`.
    GetServerTime,
    /// `get_status`.
    GetStatus,
    /// `get_last_trades`.
    GetLastTrades,
    /// `get_tradingview_chart_data`.
    GetTradingviewChartData,
    /// `get_funding_rate_history`.
    GetFundingRateHistory,
    /// `get_historical_volatility`.
    GetHistoricalVolatility,
    /// `get_account_summary`.
    GetAccountSummary,
    /// `get_positions`.
    GetPositions,
    /// `get_subaccounts`.
    GetSubaccounts,
    /// `place_order`.
    PlaceOrder,
    /// `edit_order`.
    EditOrder,
    /// `cancel_order`.
    CancelOrder,
    /// `cancel_all_by_currency`.
    CancelAllByCurrency,
    /// `cancel_all_by_instrument`.
    CancelAllByInstrument,
}

/// The tool name whose handler and input schema a kind is.
pub open spec fn kind_tool_name(k: ToolKind) -> Seq<char> {
    match k {
        ToolKind::GetTicker => "get_ticker"@,
        ToolKind::GetInstrument => "get_instrument"@,
        ToolKind::ListInstruments => "list_instruments"@,
        ToolKind::GetOrderBook => "get_order_book"@,
        ToolKind::GetIndexPrice => "get_index_price"@,
        ToolKind::GetBookSummaryByCurrency => "get_book_summary_by_currency"@,
        ToolKind::GetBookSummaryByInstrument => "get_book_summary_by_instrument"@,
        ToolKind::GetCurrencies => "get_currencies"@,
        ToolKind::GetServerTime => "get_server_time"@,
        ToolKind::GetStatus => "get_status"@,
        ToolKind::GetLastTrades => "get_last_trades"@,
        ToolKind::GetTradingviewChartData => "get_tradingview_chart_data"@,
        ToolKind::GetFundingRateHistory => "get_funding_rate_history"@,
        ToolKind::GetHistoricalVolatility => "get_historical_volatility"@,
        ToolKind::GetAccountSummary => "get_account_summary"@,
        ToolKind::GetPositions => "get_positions"@,
        ToolKind::GetSubaccounts => "get_subaccounts"@,
        ToolKind::PlaceOrder => "place_order"@,
        ToolKind::EditOrder => "edit_order"@,
        ToolKind::CancelOrder => "cancel_order"@,
        ToolKind::CancelAllByCurrency => "cancel_all_by_currency"@,
        ToolKind::CancelAllByInstrument => "cancel_all_by_instrument"@,
    }
}

/// What `tools/list` shows of a tool.
#[derive(Debug, Clone, PartialEq, Eq)]
pub struct ToolDescriptor {
    /// Tool name.
    pub name: String,
    /// Description shown to the client.
    pub description: String,
    /// Handler and input schema.
    pub kind: ToolKind,
}

/// One registered tool: its descriptor and effect class.
#[derive(Debug, Clone, PartialEq, Eq)]
pub struct ToolEntry {
    /// Descriptor returned by `tools/list`.
    pub descriptor: ToolDescriptor,
    /// Effect class, re-checked when a call is routed.
    pub class: ToolClass,
}

/// Name, description, kind and class of a tool.
pub type ToolFacts = (Seq<char>, Seq<char>, ToolKind, ToolClass);

/// The facts of an entry.
pub open spec fn facts_of(e: ToolEntry) -> ToolFacts {
    (e.descriptor.name@, e.descriptor.description@, e.descriptor.kind, e.class)
}

/// The facts of an optional entry.
pub open spec fn opt_facts(e: Option<ToolEntry>) -> Option<ToolFacts> {
    match e {
        Some(x) => Some(facts_of(x)),
        None => None,
    }
}

impl Named for ToolEntry {
    open spec fn name_of(&self) -> Seq<char> {
        self.descriptor.name@
    }

    fn name(&self) -> (r: &str) {
        self.descriptor.name.as_str()
    }
}

/// Build an entry.
pub fn make_entry(name: &str, description: &str, kind: ToolKind, class: ToolClass) -> (r:
    ToolEntry)
    ensures
        facts_of(r) == (name@, description@, kind, class),
{
    ToolEntry {
        descriptor: ToolDescriptor { name: owned(name), description: owned(description), kind },
        class,
    }
}

impl ToolEntry {
    /// Descriptor returned by `tools/list`.
    pub fn descriptor(&self) -> (r: &ToolDescriptor)
        ensures
            *r == self.descriptor,
    {
        &self.descriptor
    }

    /// Effect class of this tool.
    pub fn class(&self) -> (r: ToolClass)
        ensures
            r == self.class,
    {
        self.class
    }
}

/// The flag still missing for `class` under the given configuration;
/// `None` when the class is enabled.
pub open spec fn missing_flag(class: ToolClass, creds: bool, trading: bool) -> Option<Seq<char>> {
    match class {
        ToolClass::Read => None,
        ToolClass::Account => if creds {
            None
        } else {
            Some(class_flag(ToolClass::Account))
        },
        ToolClass::Trading => if creds && trading {
            None
        } else if !creds && !trading {
            Some("DERIBIT_CLIENT_ID + DERIBIT_CLIENT_SECRET + --allow-trading"@)
        } else if !creds {
            Some(class_flag(ToolClass::Account))
        } else {
            Some("--allow-trading"@)
        },
    }
}

/// Whether the class is enabled under the given configuration.
pub open spec fn class_enabled(class: ToolClass, creds: bool, trading: bool) -> bool {
    missing_flag(class, creds, trading) is None
}

/// Which configuration enables which class, and what a refusal names:
/// `Read` tools are always enabled; `Account` tools exactly with
/// credentials; `Trading` tools exactly with credentials and
/// `--allow-trading`. A refusal names what is missing: the credential
/// variables, the trading flag, or both.
pub proof fn lemma_class_gating(creds: bool, trading: bool)
    ensures
        class_enabled(ToolClass::Read, creds, trading),
        class_enabled(ToolClass::Account, creds, trading) <==> creds,
        class_enabled(ToolClass::Trading, creds, trading) <==> creds && trading,
        !creds ==> missing_flag(ToolClass::Account, creds, trading) == Some(
            "DERIBIT_CLIENT_ID + DERIBIT_CLIENT_SECRET"@,
        ),
        !creds && !trading ==> missing_flag(ToolClass::Trading, creds, trading) == Some(
            "DERIBIT_CLIENT_ID + DERIBIT_CLIENT_SECRET + --allow-trading"@,
        ),
        !creds && trading ==> missing_flag(ToolClass::Trading, creds, trading) == Some(
            "DERIBIT_CLIENT_ID + DERIBIT_CLIENT_SECRET"@,
        ),
        creds && !trading ==> missing_flag(ToolClass::Trading, creds, trading) == Some(
            "--allow-trading"@,
        ),
{
}

/// Defence-in-depth gate: even if a tool of a higher-effect class lands in
/// the registry, dispatch refuses it without the matching configuration.
/// The error names what is actually missing: credentials, the trading flag,
/// or both.
pub fn check_class_enabled(class: ToolClass, ctx: &AdapterContext, name: &str) -> (r: Result<
    (),
    AdapterError,
>)
    ensures
        match missing_flag(
            class,
            config_has_credentials(ctx.config),
            ctx.config.allow_trading,
        ) {
            None => r is Ok,
            Some(flag) => r matches Err(e) && is_not_enabled(e, name@, flag),
        },
{
    match class {
        ToolClass::Read => Ok(()),
        ToolClass::Account => {
            if ctx.has_credentials() {
                Ok(())
            } else {
                Err(AdapterError::not_enabled(name, ToolClass::Account.flag()))
            }
        },
        ToolClass::Trading => {
            let creds = ctx.has_credentials();
            let trading = ctx.config.allow_trading;
            if creds && trading {
                return Ok(());
            }
            let flag = if !creds && !trading {
                "DERIBIT_CLIENT_ID + DERIBIT_CLIENT_SECRET + --allow-trading"
            } else if !creds {
                ToolClass::Account.flag()
            } else {
                "--allow-trading"
            };
            Err(AdapterError::not_enabled(name, flag))
        },
    }
}

/// Registry of the tools the server exposes.
pub struct ToolRegistry {
    entries: NameIndex<ToolEntry>,
}

/// The facts of the tool registered under `n`.
pub open spec fn registered(r: ToolRegistry, n: Seq<char>) -> Option<ToolFacts> {
    opt_facts(lookup(r.entries(), n))
}

/// A short signature of a tool name: its length and its sixth character
/// (a blank when it is shorter). The built-in tool names have pairwise
/// different signatures, so they are pairwise different.
pub open spec fn name_signature(n: Seq<char>) -> (nat, char) {
    (n.len(), if n.len() > 5 { n[5] } else { ' ' })
}

/// The signatures of the built-in tool names.
pub(crate) proof fn lemma_tool_name_signatures()
    ensures
        name_signature("get_ticker"@) == (10nat, 'i'),
        name_signature("get_instrument"@) == (14nat, 'n'),
        name_signature("list_instruments"@) == (16nat, 'i'),
        name_signature("get_order_book"@) == (14nat, 'r'),
        name_signature("get_index_price"@) == (15nat, 'n'),
        name_signature("get_book_summary_by_currency"@) == (28nat, 'o'),
        name_signature("get_book_summary_by_instrument"@) == (30nat, 'o'),
        name_signature("get_currencies"@) == (14nat, 'u'),
        name_signature("get_server_time"@) == (15nat, 'e'),
        name_signature("get_status"@) == (10nat, 't'),
        name_signature("get_last_trades"@) == (15nat, 'a'),
        name_signature("get_tradingview_chart_data"@) == (26nat, 'r'),
        name_signature("get_funding_rate_history"@) == (24nat, 'u'),
        name_signature("get_historical_volatility"@) == (25nat, 'i'),
        name_signature("get_account_summary"@) == (19nat, 'c'),
        name_signature("get_positions"@) == (13nat, 'o'),
        name_signature("get_subaccounts"@) == (15nat, 'u'),
        name_signature("place_order"@) == (11nat, '_'),
        name_signature("edit_order"@) == (10nat, 'o'),
        name_signature("cancel_order"@) == (12nat, 'l'),
        name_signature("cancel_all_by_currency"@) == (22nat, 'l'),
        name_signature("cancel_all_by_instrument"@) == (24nat, 'l'),
{
    reveal_strlit("get_ticker");
    reveal_strlit("get_instrument");
    reveal_strlit("list_instruments");
    reveal_strlit("get_order_book");
    reveal_strlit("get_index_price");
    reveal_strlit("get_book_summary_by_currency");
    reveal_strlit("get_book_summary_by_instrument");
    reveal_strlit("get_currencies");
    reveal_strlit("get_server_time");
    reveal_strlit("get_status");
    reveal_strlit("get_last_trades");
    reveal_strlit("get_tradingview_chart_data");
    reveal_strlit("get_funding_rate_history");
    reveal_strlit("get_historical_volatility");
    reveal_strlit("get_account_summary");
    reveal_strlit("get_positions");
    reveal_strlit("get_subaccounts");
    reveal_strlit("place_order");
    reveal_strlit("edit_order");
    reveal_strlit("cancel_order");
    reveal_strlit("cancel_all_by_currency");
    reveal_strlit("cancel_all_by_instrument");
}

/// The tools a freshly built registry holds: the public family always, the
/// account family when credentials are configured, the trading family when
/// both credentials and the trading flag are, and nothing else.
pub open spec fn built_tool(creds: bool, trading: bool, n: Seq<char>) -> Option<ToolFacts> {
    if creds && trading && trading::trading_tool(n) is Some {
        trading::trading_tool(n)
    } else if creds && account::account_tool(n) is Some {
        account::account_tool(n)
    } else {
        public::public_tool(n)
    }
}

/// How many tools a freshly built registry holds: fourteen public ones,
/// three more with credentials, five more with credentials and the trading
/// flag.
pub open spec fn built_count(creds: bool, trading: bool) -> nat {
    14 + (if creds { 3nat } else { 0nat }) + (if creds && trading { 5nat } else { 0nat })
}

/// The message of the unknown-tool error.
pub open spec fn unknown_tool_message(n: Seq<char>) -> Seq<char> {
    "unknown tool: `"@ + n + "`"@
}

impl ToolRegistry {
    /// The registered entries, in ascending name order.
    pub closed spec fn entries(self) -> Seq<ToolEntry> {
        self.entries.entries()
    }

    /// An empty registry.
    pub fn new() -> (r: ToolRegistry)
        ensures
            r.entries() == Seq::<ToolEntry>::empty(),
    {
        ToolRegistry { entries: NameIndex::new() }
    }

    /// Insert a tool; returns the entry previously registered under the
    /// same name.
    pub fn insert(&mut self, entry: ToolEntry) -> (r: Option<ToolEntry>)
        ensures
            r == lookup(old(self).entries(), entry.name_of()),
            forall|n: Seq<char>| #[trigger]
                lookup(final(self).entries(), n) == if n == entry.name_of() {
                    Some(entry)
                } else {
                    lookup(old(self).entries(), n)
                },
            final(self).entries().len() == old(self).entries().len() + if r is Some {
                0int
            } else {
                1int
            },
            sorted_by_name(final(self).entries()),
    {
        self.entries.insert(entry)
    }

    /// Build the registry for a given context: `Read` tools always,
    /// `Account` tools only with credentials, `Trading` tools only with
    /// credentials and `--allow-trading`.
    pub fn build(ctx: &AdapterContext) -> (r: ToolRegistry)
        ensures
            forall|n: Seq<char>| #[trigger]
                registered(r, n) == built_tool(
                    config_has_credentials(ctx.config),
                    ctx.config.allow_trading,
                    n,
                ),
            r.entries().len() == built_count(
                config_has_credentials(ctx.config),
                ctx.config.allow_trading,
            ),
    {
        proof {
            account::lemma_account_names_not_public();
            trading::lemma_trading_names_not_earlier();
        }
        let mut registry = ToolRegistry::new();
        public::register(&mut registry);
        let creds = ctx.has_credentials();
        if creds {
            account::register(&mut registry);
        }
        if creds && ctx.config.allow_trading {
            trading::register(&mut registry);
        }
        registry
    }

    /// The descriptors of all tools, sorted by name (the `tools/list`
    /// answer).
    pub fn list(&self) -> (r: Vec<ToolDescriptor>)
        ensures
            r@.len() == self.entries().len(),
            forall|i: int| 0 <= i < r@.len() ==> #[trigger] r@[i] == self.entries()[i].descriptor,
            forall|i: int, j: int|
                0 <= i < j < r@.len() ==> crate::text::seq_less(r@[i].name@, r@[j].name@),
    {
        let n = self.entries.len();
        let mut out: Vec<ToolDescriptor> = Vec::new();
        let mut i: usize = 0;
        while i < n
            invariant
                n == self.entries.entries().len(),
                sorted_by_name(self.entries.entries()),
                i <= n,
                out@.len() == i,
                forall|k: int| 0 <= k < i ==> #[trigger] out@[k] == self.entries.entries()[k].descriptor,
            decreases n - i,
        {
            let e = self.entries.at(i);
            let d = ToolDescriptor {
                name: e.descriptor.name.clone(),
                description: e.descriptor.description.clone(),
                kind: e.descriptor.kind,
            };
            out.push(d);
            i = i + 1;
        }
        proof {
            assert forall|i: int, j: int| 0 <= i < j < out@.len() implies crate::text::seq_less(
                out@[i].name@,
                out@[j].name@,
            ) by {
                let s = self.entries.entries();
                assert(out@[i] == s[i].descriptor);
                assert(out@[j] == s[j].descriptor);
                assert(s[i].name_of() == s[i].descriptor.name@);
                assert(s[j].name_of() == s[j].descriptor.name@);
                assert(crate::text::seq_less(s[i].name_of(), s[j].name_of()));
            }
        }
        out
    }

    /// Number of registered tools.
    pub fn len(&self) -> (r: usize)
        ensures
            r == self.entries().len(),
    {
        self.entries.len()
    }

    /// Whether no tool is registered.
    pub fn is_empty(&self) -> (r: bool)
        ensures
            r == (self.entries().len() == 0),
    {
        self.entries.len() == 0
    }

    /// The tool registered under `name`.
    pub fn get(&self, name: &str) -> (r: Option<&ToolEntry>)
        ensures
            match r {
                Some(e) => lookup(self.entries(), name@) == Some(*e),
                None => lookup(self.entries(), name@) is None,
            },
    {
        self.entries.get(name)
    }

    /// Whether a tool of that name is registered.
    pub fn contains(&self, name: &str) -> (r: bool)
        ensures
            r == lookup(self.entries(), name@) is Some,
    {
        self.entries.get(name).is_some()
    }

    /// Route a `tools/call`: the entry whose handler the binary must run.
    ///
    /// # Errors
    ///
    /// - A validation error on `name` when no tool by that name is
    ///   registered.
    /// - A not-enabled error when the tool's class is not enabled by the
    ///   configuration.
    pub fn route(&self, ctx: &AdapterContext, name: &str) -> (r: Result<&ToolEntry, AdapterError>)
        ensures
            match lookup(self.entries(), name@) {
                None => r matches Err(e) && is_validation(e, "name"@, unknown_tool_message(name@)),
                Some(entry) => match missing_flag(
                    entry.class,
                    config_has_credentials(ctx.config),
                    ctx.config.allow_trading,
                ) {
                    None => r == Ok::<&ToolEntry, AdapterError>(&entry),
                    Some(flag) => r matches Err(e) && is_not_enabled(e, name@, flag),
                },
            },
    {
        match self.entries.get(name) {
            None => {
                let mut message = owned("unknown tool: `");
                push_str(&mut message, name);
                push_str(&mut message, "`");
                Err(AdapterError::validation("name", message))
            },
            Some(entry) => {
                match check_class_enabled(entry.class, ctx, entry.descriptor.name.as_str()) {
                    Ok(()) => Ok(entry),
                    Err(e) => Err(e),
                }
            },
        }
    }
}

/// Every tool of a freshly built registry has its class enabled by the
/// configuration it was built for: a tool absent from the configuration's
/// classes is absent from the registry.
pub proof fn lemma_build_only_enabled_classes(creds: bool, trading: bool, n: Seq<char>)
    ensures
        built_tool(creds, trading, n) matches Some(f) ==> class_enabled(f.3, creds, trading),
{
    trading::lemma_trading_tools_are_trading(n);
    account::lemma_account_tools_are_account(n);
    public::lemma_public_tools_are_read(n);
}

/// Without credentials a built registry holds exactly the public tools,
/// every one of them of class `Read`.
pub proof fn lemma_anonymous_registry_is_read_only(trading: bool, n: Seq<char>)
    ensures
        built_tool(false, trading, n) == public::public_tool(n),
        built_tool(false, trading, n) matches Some(f) ==> f.3 == ToolClass::Read,
        built_count(false, trading) == 14,
{
    public::lemma_public_tools_are_read(n);
}

/// Every tool of a freshly built registry is registered under its own name
/// and dispatched to the handler of that name: the kind of the entry for
/// `n` is the kind of `n` (`get_order_book` to the order-book handler,
/// `get_ticker` to the ticker handler, and so on), so no two registered
/// names share a handler.
pub proof fn lemma_built_tool_kind_matches_name(creds: bool, trading: bool, n: Seq<char>, m: Seq<char>)
    ensures
        built_tool(creds, trading, n) matches Some(f) ==> f.0 == n && kind_tool_name(f.2) == n,
        built_tool(creds, trading, n) matches Some(f) ==> (built_tool(creds, trading, m) matches Some(
            g,
        ) ==> (f.2 == g.2 ==> n == m)),
        n == "get_order_book"@ ==> (built_tool(creds, trading, n) matches Some(f) && f.2
            == ToolKind::GetOrderBook),
        n == "get_ticker"@ ==> (built_tool(creds, trading, n) matches Some(f) && f.2
            == ToolKind::GetTicker),
{
    lemma_tool_name_signatures();
}

/// In a registry built for a configuration, the entry found (and routed to)
/// under a name is the tool of that name with that name's handler.
pub proof fn lemma_registry_entry_kind_matches_name(
    r: ToolRegistry,
    creds: bool,
    trading: bool,
    n: Seq<char>,
)
    requires
        forall|m: Seq<char>| #[trigger] registered(r, m) == built_tool(creds, trading, m),
    ensures
        lookup(r.entries(), n) matches Some(e) ==> e.descriptor.name@ == n && kind_tool_name(
            e.descriptor.kind,
        ) == n,
{
    assert(registered(r, n) == built_tool(creds, trading, n));
    lemma_built_tool_kind_matches_name(creds, trading, n, n);
}

} // verus!
