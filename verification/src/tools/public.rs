//! Public `Read` tool family: market data with no auth requirement.
//!
//! Per instrument: `get_ticker`, `get_instrument`, `list_instruments`,
//! `get_order_book`, `get_index_price`. Summaries and meta:
//! `get_book_summary_by_currency`, `get_book_summary_by_instrument`,
//! `get_currencies`, `get_server_time`, `get_status`, `get_last_trades`,
//! `get_tradingview_chart_data`, `get_funding_rate_history`,
//! `get_historical_volatility`.
use vstd::prelude::*;
use super::{make_entry, registered, ToolClass, ToolFacts, ToolKind, ToolRegistry};

verus! {

/// The public tools, by name.
pub open spec fn public_tool(n: Seq<char>) -> Option<ToolFacts> {
    if n == "get_ticker"@ {
        Some(("get_ticker"@, "Latest ticker of an instrument (best bid / ask, mark, index, last price, 24h stats)."@, ToolKind::GetTicker, ToolClass::Read))
    } else if n == "get_instrument"@ {
        Some(("get_instrument"@, "Static metadata of one instrument (kind, expiry, contract size, tick size, ...)."@, ToolKind::GetInstrument, ToolClass::Read))
    } else if n == "list_instruments"@ {
        Some(("list_instruments"@, "Instruments of a currency, optionally filtered by kind and by expiry status."@, ToolKind::ListInstruments, ToolClass::Read))
    } else if n == "get_order_book"@ {
        Some(("get_order_book"@, "Order-book snapshot of an instrument, optionally limited to a depth."@, ToolKind::GetOrderBook, ToolClass::Read))
    } else if n == "get_index_price"@ {
        Some(("get_index_price"@, "Current value of a price index (e.g. `btc_usd`)."@, ToolKind::GetIndexPrice, ToolClass::Read))
    } else if n == "get_book_summary_by_currency"@ {
        Some(("get_book_summary_by_currency"@, "Best bid / ask and 24h statistics of every instrument of a currency, optionally filtered by kind."@, ToolKind::GetBookSummaryByCurrency, ToolClass::Read))
    } else if n == "get_book_summary_by_instrument"@ {
        Some(("get_book_summary_by_instrument"@, "Best bid / ask and 24h statistics of one instrument."@, ToolKind::GetBookSummaryByInstrument, ToolClass::Read))
    } else if n == "get_currencies"@ {
        Some(("get_currencies"@, "Supported-currencies catalogue."@, ToolKind::GetCurrencies, ToolClass::Read))
    } else if n == "get_server_time"@ {
        Some(("get_server_time"@, "Deribit server time, Unix milliseconds."@, ToolKind::GetServerTime, ToolClass::Read))
    } else if n == "get_status"@ {
        Some(("get_status"@, "Platform-wide status, including locked currencies."@, ToolKind::GetStatus, ToolClass::Read))
    } else if n == "get_last_trades"@ {
        Some(("get_last_trades"@, "Recent trades of an instrument."@, ToolKind::GetLastTrades, ToolClass::Read))
    } else if n == "get_tradingview_chart_data"@ {
        Some(("get_tradingview_chart_data"@, "OHLCV bars of an instrument between two timestamps at a resolution."@, ToolKind::GetTradingviewChartData, ToolClass::Read))
    } else if n == "get_funding_rate_history"@ {
        Some(("get_funding_rate_history"@, "Funding-rate time series of a perpetual between two timestamps."@, ToolKind::GetFundingRateHistory, ToolClass::Read))
    } else if n == "get_historical_volatility"@ {
        Some(("get_historical_volatility"@, "Realised volatility of a currency as `[timestamp_ms, value]` pairs."@, ToolKind::GetHistoricalVolatility, ToolClass::Read))
    } else {
        None
    }
}

/// Every public tool has the `Read` class.
pub proof fn lemma_public_tools_are_read(n: Seq<char>)
    ensures
        public_tool(n) matches Some(f) ==> f.3 == ToolClass::Read,
{
}

/// Register every `Read` tool with the registry: the registry then holds
/// the fourteen public tools under their names, and anything else as before;
/// fourteen entries are added when none of those names was registered.
pub fn register(registry: &mut ToolRegistry)
    ensures
        forall|n: Seq<char>| #[trigger]
            registered(*final(registry), n) == if public_tool(n) is Some {
                public_tool(n)
            } else {
                registered(*old(registry), n)
            },
        (forall|n: Seq<char>| public_tool(n) is Some ==> #[trigger] registered(*old(registry), n) is None)
            ==> final(registry).entries().len() == old(registry).entries().len() + 14,
{
    proof {
        super::lemma_tool_name_signatures();
    }
    let r0 = registry.insert(make_entry(
        "get_historical_volatility",
        "Realised volatility of a currency as `[timestamp_ms, value]` pairs.",
        ToolKind::GetHistoricalVolatility,
        ToolClass::Read,
    ));
    let r1 = registry.insert(make_entry(
        "get_funding_rate_history",
        "Funding-rate time series of a perpetual between two timestamps.",
        ToolKind::GetFundingRateHistory,
        ToolClass::Read,
    ));
    let r2 = registry.insert(make_entry(
        "get_tradingview_chart_data",
        "OHLCV bars of an instrument between two timestamps at a resolution.",
        ToolKind::GetTradingviewChartData,
        ToolClass::Read,
    ));
    let r3 = registry.insert(make_entry(
        "get_last_trades",
        "Recent trades of an instrument.",
        ToolKind::GetLastTrades,
        ToolClass::Read,
    ));
    let r4 = registry.insert(make_entry(
        "get_status",
        "Platform-wide status, including locked currencies.",
        ToolKind::GetStatus,
        ToolClass::Read,
    ));
    let r5 = registry.insert(make_entry(
        "get_server_time",
        "Deribit server time, Unix milliseconds.",
        ToolKind::GetServerTime,
        ToolClass::Read,
    ));
    let r6 = registry.insert(make_entry(
        "get_currencies",
        "Supported-currencies catalogue.",
        ToolKind::GetCurrencies,
        ToolClass::Read,
    ));
    let r7 = registry.insert(make_entry(
        "get_book_summary_by_instrument",
        "Best bid / ask and 24h statistics of one instrument.",
        ToolKind::GetBookSummaryByInstrument,
        ToolClass::Read,
    ));
    let r8 = registry.insert(make_entry(
        "get_book_summary_by_currency",
        "Best bid / ask and 24h statistics of every instrument of a currency, optionally filtered by kind.",
        ToolKind::GetBookSummaryByCurrency,
        ToolClass::Read,
    ));
    let r9 = registry.insert(make_entry(
        "get_index_price",
        "Current value of a price index (e.g. `btc_usd`).",
        ToolKind::GetIndexPrice,
        ToolClass::Read,
    ));
    let r10 = registry.insert(make_entry(
        "get_order_book",
        "Order-book snapshot of an instrument, optionally limited to a depth.",
        ToolKind::GetOrderBook,
        ToolClass::Read,
    ));
    let r11 = registry.insert(make_entry(
        "list_instruments",
        "Instruments of a currency, optionally filtered by kind and by expiry status.",
        ToolKind::ListInstruments,
        ToolClass::Read,
    ));
    let r12 = registry.insert(make_entry(
        "get_instrument",
        "Static metadata of one instrument (kind, expiry, contract size, tick size, ...).",
        ToolKind::GetInstrument,
        ToolClass::Read,
    ));
    let r13 = registry.insert(make_entry(
        "get_ticker",
        "Latest ticker of an instrument (best bid / ask, mark, index, last price, 24h stats).",
        ToolKind::GetTicker,
        ToolClass::Read,
    ));
    proof {
        if (forall|n: Seq<char>| public_tool(n) is Some ==> #[trigger] registered(*old(registry), n) is None) {
            assert(registered(*old(registry), "get_historical_volatility"@) is None);
            assert(registered(*old(registry), "get_funding_rate_history"@) is None);
            assert(registered(*old(registry), "get_tradingview_chart_data"@) is None);
            assert(registered(*old(registry), "get_last_trades"@) is None);
            assert(registered(*old(registry), "get_status"@) is None);
            assert(registered(*old(registry), "get_server_time"@) is None);
            assert(registered(*old(registry), "get_currencies"@) is None);
            assert(registered(*old(registry), "get_book_summary_by_instrument"@) is None);
            assert(registered(*old(registry), "get_book_summary_by_currency"@) is None);
            assert(registered(*old(registry), "get_index_price"@) is None);
            assert(registered(*old(registry), "get_order_book"@) is None);
            assert(registered(*old(registry), "list_instruments"@) is None);
            assert(registered(*old(registry), "get_instrument"@) is None);
            assert(registered(*old(registry), "get_ticker"@) is None);
        }
    }
}

} // verus!
