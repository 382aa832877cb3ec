//! Request and response bodies of the Questrade REST API that carry no
//! fractional numbers.

use vstd::prelude::*;

verus! {

// ---------- Server time ----------

/// Response wrapper for `GET /v1/time`.
#[derive(Debug, Clone)]
pub struct ServerTimeResponse {
    /// Current server timestamp as an ISO 8601 string.
    pub time: String,
}

// ---------- Symbol search ----------

/// Response wrapper for `GET /v1/symbols/search`.
#[derive(Debug, Clone)]
pub struct SymbolSearchResponse {
    /// Matching symbol results.
    pub symbols: Vec<SymbolResult>,
}

/// A single result from a symbol search.
#[derive(Debug, Clone)]
pub struct SymbolResult {
    /// Ticker symbol (e.g. `"AAPL"`).
    pub symbol: String,
    /// Questrade internal symbol ID.
    pub symbol_id: u64,
    /// Human-readable security name (e.g. `"Apple Inc."`).
    pub description: String,
    /// Security type: `"Stock"`, `"Option"`, `"ETF"`, etc.
    pub security_type: String,
    /// Primary listing exchange (e.g. `"NASDAQ"`).
    pub listing_exchange: String,
}

// ---------- Option quotes ----------

/// Request body for `POST /v1/markets/quotes/options`.
#[derive(Debug, Clone)]
pub struct OptionQuoteRequest {
    /// Option symbol IDs to fetch quotes for (max 100 per request).
    pub option_ids: Vec<u64>,
}

// ---------- Strategy quotes ----------

/// A single leg in a multi-leg option strategy variant.
#[derive(Debug, Clone)]
pub struct StrategyLeg {
    /// Option symbol ID for this leg.
    pub symbol_id: u64,
    /// Order side: `"Buy"` or `"Sell"`.
    pub action: String,
    /// Ratio of this leg in the strategy (e.g. 1 for a standard spread).
    pub ratio: u32,
}

/// A strategy variant to quote, containing one or more legs.
#[derive(Debug, Clone)]
pub struct StrategyVariantRequest {
    /// Caller-assigned ID, echoed in the response for matching.
    pub variant_id: u32,
    /// Strategy type (e.g. `"Custom"`).
    pub strategy: String,
    /// Legs comprising this strategy variant.
    pub legs: Vec<StrategyLeg>,
}

/// Request body for `POST /v1/markets/quotes/strategies`.
#[derive(Debug, Clone)]
pub struct StrategyQuoteRequest {
    /// Strategy variants to fetch combined quotes for.
    pub variants: Vec<StrategyVariantRequest>,
}

// ---------- Accounts ----------

/// Response wrapper for `GET /v1/accounts`.
#[derive(Debug, Clone)]
pub struct AccountsResponse {
    /// Brokerage accounts associated with the authenticated user.
    pub accounts: Vec<Account>,
}

/// A Questrade brokerage account.
#[derive(Debug, Clone)]
pub struct Account {
    /// Account type: `"TFSA"`, `"RRSP"`, `"Margin"`, etc.
    pub account_type: String,
    /// Account number string (used as `account_id` in subsequent API calls).
    pub number: String,
    /// Account status: `"Active"`, `"Closed"`, etc.
    pub status: String,
    /// Whether this is the user's primary account.
    pub is_primary: bool,
}

// ---------- Markets ----------

/// Response wrapper for `GET /v1/markets`.
#[derive(Debug, Clone)]
pub struct MarketsResponse {
    /// Metadata for each market / exchange.
    pub markets: Vec<MarketInfo>,
}

/// Metadata for a single market / exchange returned by `GET /v1/markets`.
#[derive(Debug, Clone)]
pub struct MarketInfo {
    /// Market or exchange name (e.g. `"NYSE"`, `"TSX"`).
    pub name: String,
    /// Trading currency (e.g. `"USD"`, `"CAD"`).
    pub currency: Option<String>,
    /// Regular session open time (ISO 8601).
    pub start_time: Option<String>,
    /// Regular session close time (ISO 8601).
    pub end_time: Option<String>,
    /// Extended (pre-market) session open time (ISO 8601).
    pub extended_start_time: Option<String>,
    /// Extended (after-hours) session close time (ISO 8601).
    pub extended_end_time: Option<String>,
    /// Current open/closed status snapshot; `None` if not available.
    pub snapshot: Option<MarketSnapshot>,
}

/// Real-time open/closed status for a market.
#[derive(Debug, Clone, Copy)]
pub struct MarketSnapshot {
    /// Whether the market is currently open for regular trading.
    pub is_open: bool,
    /// Quote delay in minutes (`0` = real-time).
    pub delay: u32,
}

// ---------- Orders ----------

/// Filter for order state when querying `GET /v1/accounts/:id/orders`.
#[derive(Debug, Clone, Copy, PartialEq, Eq, Structural)]
pub enum OrderStateFilter {
    /// Return all orders regardless of state.
    All,
    /// Return only open (working) orders.
    Open,
    /// Return only closed (filled, canceled, expired) orders.
    Closed,
}

impl OrderStateFilter {
    /// The filter's name as the API expects it: its variant name.
    pub open spec fn name_spec(self) -> Seq<char> {
        match self {
            OrderStateFilter::All => "All"@,
            OrderStateFilter::Open => "Open"@,
            OrderStateFilter::Closed => "Closed"@,
        }
    }

    /// The filter's name as the API expects it (`"All"`, `"Open"`, `"Closed"`).
    pub fn as_str(&self) -> (s: &'static str)
        ensures
            s@ == self.name_spec(),
    {
        match self {
            OrderStateFilter::All => "All",
            OrderStateFilter::Open => "Open",
            OrderStateFilter::Closed => "Closed",
        }
    }
}

} // verus!
