//! Proactive rate-limit tracking for the Questrade API.
//!
//! Reads `X-RateLimit-Remaining` and `X-RateLimit-Reset` response headers and
//! tells the caller how long to hold back requests of a category whose budget
//! is exhausted, until the window resets.
//!
//! Questrade enforces two independent rate-limit buckets:
//!
//! | Category    | Per-second | Per-hour |
//! |-------------|-----------|----------|
//! | Account     | 30        | 30,000   |
//! | Market data | 20        | 15,000   |

use vstd::prelude::*;
use std::time::Duration;
use reqwest::header::HeaderMap;
use crate::clock::{duration_nanos, duration_new, unix_now_secs};
use crate::headers::{header_number, header_unsigned};
use crate::text::{has_prefix, lemma_parse_unsigned_bounds, starts_with};

verus! {

/// Which Questrade rate-limit bucket a request falls into.
#[derive(Debug, Clone, Copy, PartialEq, Eq, Hash, Structural)]
pub enum RateLimitCategory {
    /// `/time`, `/accounts/…`, `/symbols/…` — 30 req/s, 30 000 req/hr.
    Account,
    /// `/markets/…` (and any other path) — 20 req/s, 15 000 req/hr.
    MarketData,
}

impl RateLimitCategory {
    /// The category's name as it appears in log lines.
    pub fn as_str(&self) -> (s: &'static str)
        ensures
            s@ == (match self {
                RateLimitCategory::Account => "account"@,
                RateLimitCategory::MarketData => "market_data"@,
            }),
    {
        match self {
            RateLimitCategory::Account => "account",
            RateLimitCategory::MarketData => "market_data",
        }
    }
}

/// Per-category rate-limit state from response headers.
#[derive(Debug, Clone, Copy, PartialEq, Eq, Structural)]
pub struct CategoryState {
    /// Number of requests remaining in the current window (`X-RateLimit-Remaining`).
    pub remaining: Option<u32>,
    /// Unix epoch seconds when the current window resets (`X-RateLimit-Reset`).
    pub reset_epoch: Option<u64>,
}

/// The safety margin added to every proactive wait, in nanoseconds (100 ms).
pub const WAIT_BUFFER_NANOS: u32 = 100_000_000;

/// Name of the header that carries the remaining request budget.
pub open spec fn remaining_header() -> Seq<char> {
    "X-RateLimit-Remaining"@
}

/// Name of the header that carries the epoch second at which the window resets.
pub open spec fn reset_header() -> Seq<char> {
    "X-RateLimit-Reset"@
}

impl CategoryState {
    /// How long, in nanoseconds, requests must wait at `now` (epoch seconds):
    /// only when the budget is exactly exhausted and the recorded reset lies
    /// ahead, until the reset plus the safety margin.
    pub open spec fn wait_nanos(self, now: int) -> Option<int> {
        if self.remaining == Some(0u32) && self.reset_epoch is Some && self.reset_epoch->0 > now {
            Some((self.reset_epoch->0 - now) * 1_000_000_000 + WAIT_BUFFER_NANOS)
        } else {
            None
        }
    }

    /// The state after a response whose headers gave `remaining` and `reset`:
    /// each value that was read replaces the old one, each missing one keeps it.
    pub open spec fn merged(self, remaining: Option<u32>, reset: Option<u64>) -> CategoryState {
        CategoryState {
            remaining: if remaining is Some {
                remaining
            } else {
                self.remaining
            },
            reset_epoch: if reset is Some {
                reset
            } else {
                self.reset_epoch
            },
        }
    }
}

/// Tracker for Questrade API rate limits, one state per category.
#[derive(Debug, Clone, Copy)]
pub struct RateLimiter {
    account: CategoryState,
    market_data: CategoryState,
}

/// The category of an API path: `/time…`, `/accounts…` and `/symbols…`
/// count against the account budget (the headers Questrade sends for
/// `/symbols` report the account bucket), everything else, such as
/// `/markets…`, against market data.
pub open spec fn classify_path(path: Seq<char>) -> RateLimitCategory {
    if has_prefix(path, "/time"@) || has_prefix(path, "/accounts"@) || has_prefix(path, "/symbols"@) {
        RateLimitCategory::Account
    } else {
        RateLimitCategory::MarketData
    }
}

/// The remaining budget that `headers` report.
pub open spec fn reported_remaining(headers: HeaderMap) -> Option<u32> {
    match header_number(headers, remaining_header(), u32::MAX as int) {
        Some(n) => Some(n as u32),
        None => None,
    }
}

/// The reset epoch that `headers` report.
pub open spec fn reported_reset(headers: HeaderMap) -> Option<u64> {
    match header_number(headers, reset_header(), u64::MAX as int) {
        Some(n) => Some(n as u64),
        None => None,
    }
}

impl RateLimiter {
    /// The state kept for `category`.
    pub closed spec fn state(self, category: RateLimitCategory) -> CategoryState {
        match category {
            RateLimitCategory::Account => self.account,
            RateLimitCategory::MarketData => self.market_data,
        }
    }

    /// This tracker with the state of `category` replaced by `s`.
    pub closed spec fn with_state(self, category: RateLimitCategory, s: CategoryState) -> RateLimiter {
        match category {
            RateLimitCategory::Account => RateLimiter { account: s, ..self },
            RateLimitCategory::MarketData => RateLimiter { market_data: s, ..self },
        }
    }

    /// This tracker after a response of `category` reported `remaining` and `reset`.
    pub open spec fn updated(
        self,
        category: RateLimitCategory,
        remaining: Option<u32>,
        reset: Option<u64>,
    ) -> RateLimiter {
        self.with_state(category, self.state(category).merged(remaining, reset))
    }

    /// A tracker that has seen no headers yet.
    pub fn new() -> (rl: Self)
        ensures
            rl.state(RateLimitCategory::Account) == (CategoryState { remaining: None, reset_epoch: None }),
            rl.state(RateLimitCategory::MarketData) == (CategoryState { remaining: None, reset_epoch: None }),
    {
        RateLimiter {
            account: CategoryState { remaining: None, reset_epoch: None },
            market_data: CategoryState { remaining: None, reset_epoch: None },
        }
    }

    /// Classify an API path into a rate-limit category.
    pub fn classify(path: &str) -> (c: RateLimitCategory)
        ensures
            c == classify_path(path@),
    {
        if starts_with(path, "/time") || starts_with(path, "/accounts") || starts_with(path, "/symbols") {
            RateLimitCategory::Account
        } else {
            RateLimitCategory::MarketData
        }
    }

    /// The state kept for `category`.
    pub fn state_for(&self, category: RateLimitCategory) -> (s: &CategoryState)
        ensures
            *s == self.state(category),
    {
        match category {
            RateLimitCategory::Account => &self.account,
            RateLimitCategory::MarketData => &self.market_data,
        }
    }

    /// If the category's remaining count is 0 and its reset lies after
    /// `now_epoch`, how long to wait: until the reset, plus 100 ms so as not
    /// to race the window boundary. `None` if requests are still available,
    /// the reset time has already passed, or no state has been recorded yet.
    pub fn wait_duration_at(&self, category: RateLimitCategory, now_epoch: u64) -> (res: Option<Duration>)
        ensures
            res is Some <==> self.state(category).wait_nanos(now_epoch as int) is Some,
            res matches Some(d) ==> Some(duration_nanos(d)) == self.state(category).wait_nanos(now_epoch as int),
    {
        let state = self.state_for(category);
        if state.remaining != Some(0u32) {
            return None;
        }
        match state.reset_epoch {
            None => None,
            Some(reset_epoch) => {
                if reset_epoch > now_epoch {
                    Some(duration_new(reset_epoch - now_epoch, WAIT_BUFFER_NANOS))
                } else {
                    None
                }
            },
        }
    }

    /// If the given category's remaining count is 0, how long to wait until
    /// the window resets, by the system clock. `None` if requests are still
    /// available, the reset time has already passed, no state has been
    /// recorded yet, or the clock reads a time before the Unix epoch.
    pub fn wait_duration(&self, category: RateLimitCategory) -> (res: Option<Duration>)
        ensures
            self.state(category).remaining != Some(0u32) ==> res is None,
            self.state(category).reset_epoch is None ==> res is None,
            res matches Some(d) ==> exists|now: u64|
                #![trigger self.state(category).wait_nanos(now as int)]
                Some(duration_nanos(d)) == self.state(category).wait_nanos(now as int),
    {
        match unix_now_secs() {
            Some(now) => self.wait_duration_at(category, now),
            None => None,
        }
    }

    /// Update the tracked state for `category` from the remaining budget and
    /// reset epoch that a response reported. A value that is missing keeps the
    /// one recorded before; the other category is left alone.
    pub fn record(&mut self, category: RateLimitCategory, remaining: Option<u32>, reset_epoch: Option<u64>)
        ensures
            *final(self) == old(self).updated(category, remaining, reset_epoch),
    {
        let old_state = *self.state_for(category);
        let new_state = CategoryState {
            remaining: match remaining {
                Some(r) => Some(r),
                None => old_state.remaining,
            },
            reset_epoch: match reset_epoch {
                Some(e) => Some(e),
                None => old_state.reset_epoch,
            },
        };
        match category {
            RateLimitCategory::Account => self.account = new_state,
            RateLimitCategory::MarketData => self.market_data = new_state,
        }
    }

    /// Update the tracked state for `category` from HTTP response headers.
    ///
    /// Silently ignores missing or unparseable headers — the caller can still
    /// fall back to exponential backoff if a 429 arrives without headers.
    pub fn update_from_headers(&mut self, category: RateLimitCategory, headers: &HeaderMap)
        ensures
            *final(self) == old(self).updated(
                category,
                reported_remaining(*headers),
                reported_reset(*headers),
            ),
    {
        proof {
            reveal_strlit("X-RateLimit-Remaining");
            reveal_strlit("X-RateLimit-Reset");
        }
        let remaining = match header_unsigned(headers, "X-RateLimit-Remaining", 0xFFFF_FFFFu64) {
            Some(n) => Some(n as u32),
            None => None,
        };
        let reset_epoch = header_unsigned(headers, "X-RateLimit-Reset", 0xFFFF_FFFF_FFFF_FFFFu64);
        self.record(category, remaining, reset_epoch);
    }
}

/// The two buckets are independent: what a response of one category
/// reports leaves the state, and so the wait, of the other unchanged.
pub proof fn lemma_categories_independent(
    rl: RateLimiter,
    category: RateLimitCategory,
    other: RateLimitCategory,
    remaining: Option<u32>,
    reset: Option<u64>,
)
    requires
        category != other,
    ensures
        rl.updated(category, remaining, reset).state(other) == rl.state(other),
{
}

/// A response that reports neither header leaves the tracker as it was.
pub proof fn lemma_missing_headers_change_nothing(rl: RateLimiter, category: RateLimitCategory)
    ensures
        rl.updated(category, None, None) == rl,
{
}

/// What a response reports is what the tracker then holds for its category.
pub proof fn lemma_update_then_read(
    rl: RateLimiter,
    category: RateLimitCategory,
    remaining: Option<u32>,
    reset: Option<u64>,
)
    ensures
        remaining is Some ==> rl.updated(category, remaining, reset).state(category).remaining
            == remaining,
        reset is Some ==> rl.updated(category, remaining, reset).state(category).reset_epoch
            == reset,
        remaining is None ==> rl.updated(category, remaining, reset).state(category).remaining
            == rl.state(category).remaining,
        reset is None ==> rl.updated(category, remaining, reset).state(category).reset_epoch
            == rl.state(category).reset_epoch,
{
}

/// Once a response reports an exhausted budget and a reset at `reset`,
/// requests of its category wait until then (plus the margin) at every
/// earlier second, and not at all from `reset` on.
pub proof fn lemma_exhausted_blocks_until_reset(
    rl: RateLimiter,
    category: RateLimitCategory,
    reset: u64,
    now: int,
)
    ensures
        now < reset ==> rl.updated(category, Some(0u32), Some(reset)).state(category).wait_nanos(
            now,
        ) == Some((reset - now) * 1_000_000_000 + WAIT_BUFFER_NANOS),
        now >= reset ==> rl.updated(category, Some(0u32), Some(reset)).state(category).wait_nanos(
            now,
        ) is None,
{
}

/// A budget with requests left never makes a request wait.
pub proof fn lemma_budget_left_never_waits(s: CategoryState, now: int)
    requires
        s.remaining matches Some(r) && r > 0,
    ensures
        s.wait_nanos(now) is None,
{
}

/// What the headers report is what is read: the remaining budget is the
/// number in `X-RateLimit-Remaining` (zero included) when it holds an
/// unsigned 32-bit number, and the reset epoch the number in
/// `X-RateLimit-Reset` when it holds an unsigned 64-bit one; otherwise
/// nothing is read.
pub proof fn lemma_reported_values(headers: HeaderMap, n: u32, m: u64)
    ensures
        reported_remaining(headers) == Some(n) <==> header_number(headers, "X-RateLimit-Remaining"@, 0xFFFF_FFFF)
                == Some(n as int),
        reported_remaining(headers) is None <==> header_number(headers, "X-RateLimit-Remaining"@, 0xFFFF_FFFF) is None,
        reported_reset(headers) == Some(m) <==> header_number(headers, "X-RateLimit-Reset"@, 0xFFFF_FFFF_FFFF_FFFF)
                == Some(m as int),
        reported_reset(headers) is None <==> header_number(headers, "X-RateLimit-Reset"@, 0xFFFF_FFFF_FFFF_FFFF) is None,
{
    reveal_strlit("X-RateLimit-Remaining");
    reveal_strlit("X-RateLimit-Reset");
    match crate::headers::header_text(headers, remaining_header()) {
        Some(t) => lemma_parse_unsigned_bounds(t, u32::MAX as int),
        None => {},
    }
    match crate::headers::header_text(headers, reset_header()) {
        Some(t) => lemma_parse_unsigned_bounds(t, u64::MAX as int),
        None => {},
    }
}

/// After a response's headers are taken in, its category holds the number
/// that `X-RateLimit-Remaining` reported (zero included) and the epoch that
/// `X-RateLimit-Reset` reported; a header that is missing or not a number
/// keeps what was held before.
pub proof fn lemma_headers_recorded(rl: RateLimiter, category: RateLimitCategory, headers: HeaderMap)
    ensures
        ({
            let s = rl.updated(category, reported_remaining(headers), reported_reset(headers)).state(category);
            &&& header_number(headers, "X-RateLimit-Remaining"@, 0xFFFF_FFFF) matches Some(n) ==> s.remaining
                == Some(n as u32)
            &&& header_number(headers, "X-RateLimit-Remaining"@, 0xFFFF_FFFF) is None ==> s.remaining
                == rl.state(category).remaining
            &&& header_number(headers, "X-RateLimit-Reset"@, 0xFFFF_FFFF_FFFF_FFFF) matches Some(n) ==> s.reset_epoch
                == Some(n as u64)
            &&& header_number(headers, "X-RateLimit-Reset"@, 0xFFFF_FFFF_FFFF_FFFF) is None ==> s.reset_epoch
                == rl.state(category).reset_epoch
        }),
{
    lemma_reported_values(headers, 0, 0);
}

/// Paths under `/time`, `/accounts` and `/symbols` are charged to the account
/// bucket, every other path to market data.
pub proof fn lemma_classify_by_prefix(path: Seq<char>)
    ensures
        has_prefix(path, "/time"@) ==> classify_path(path) == RateLimitCategory::Account,
        has_prefix(path, "/accounts"@) ==> classify_path(path) == RateLimitCategory::Account,
        has_prefix(path, "/symbols"@) ==> classify_path(path) == RateLimitCategory::Account,
        !has_prefix(path, "/time"@) && !has_prefix(path, "/accounts"@) && !has_prefix(path, "/symbols"@)
            ==> classify_path(path) == RateLimitCategory::MarketData,
{
}

/// A category waits at `now` exactly when its budget is exhausted and its
/// reset lies ahead, and then until the reset plus 100 ms.
pub proof fn lemma_wait_until_reset(s: CategoryState, now: int)
    ensures
        s.remaining == Some(0u32) && s.reset_epoch is Some && s.reset_epoch->0 > now ==> s.wait_nanos(now)
            == Some((s.reset_epoch->0 - now) * 1_000_000_000 + 100_000_000),
        s.remaining != Some(0u32) ==> s.wait_nanos(now) is None,
        s.reset_epoch is Some && s.reset_epoch->0 <= now ==> s.wait_nanos(now) is None,
        s.reset_epoch is None ==> s.wait_nanos(now) is None,
{
}

} // verus!
