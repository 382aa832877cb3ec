use std::time::{SystemTime, UNIX_EPOCH};

use questrade_client::rate_limit::{RateLimitCategory, RateLimiter};
use reqwest::header::HeaderMap;

fn now_secs() -> u64 {
    SystemTime::now().duration_since(UNIX_EPOCH).unwrap().as_secs()
}

fn headers(remaining: Option<&str>, reset: Option<&str>) -> HeaderMap {
    let mut h = HeaderMap::new();
    if let Some(r) = remaining {
        h.insert("X-RateLimit-Remaining", r.parse().unwrap());
    }
    if let Some(e) = reset {
        h.insert("X-RateLimit-Reset", e.parse().unwrap());
    }
    h
}

fn set_state(rl: &mut RateLimiter, c: RateLimitCategory, remaining: Option<u32>, reset: Option<u64>) {
    rl.record(c, remaining, reset);
}

#[test]
fn classify_account_endpoints() {
    assert_eq!(RateLimiter::classify("/time"), RateLimitCategory::Account);
    assert_eq!(
        RateLimiter::classify("/accounts/123/positions"),
        RateLimitCategory::Account,
    );
    assert_eq!(
        RateLimiter::classify("/accounts/123/balances"),
        RateLimitCategory::Account,
    );
    assert_eq!(
        RateLimiter::classify("/accounts/123/orders"),
        RateLimitCategory::Account,
    );
    assert_eq!(
        RateLimiter::classify("/accounts/123/executions"),
        RateLimitCategory::Account,
    );
    assert_eq!(
        RateLimiter::classify("/accounts/123/activities"),
        RateLimitCategory::Account,
    );
}

#[test]
fn classify_market_data_endpoints() {
    // `/symbols` paths are charged to the account bucket; only `/markets`
    // paths (and anything else) count as market data.
    assert_eq!(
        RateLimiter::classify("/symbols/search?prefix=AAPL"),
        RateLimitCategory::Account,
    );
    assert_eq!(
        RateLimiter::classify("/symbols/12345"),
        RateLimitCategory::Account,
    );
    assert_eq!(
        RateLimiter::classify("/symbols/12345/options"),
        RateLimitCategory::Account,
    );
    assert_eq!(
        RateLimiter::classify("/symbols?ids=1,2"),
        RateLimitCategory::Account,
    );
    assert_eq!(
        RateLimiter::classify("/markets/quotes/12345"),
        RateLimitCategory::MarketData,
    );
    assert_eq!(
        RateLimiter::classify("/markets/quotes/options"),
        RateLimitCategory::MarketData,
    );
    assert_eq!(
        RateLimiter::classify("/markets/candles/12345"),
        RateLimitCategory::MarketData,
    );
    assert_eq!(
        RateLimiter::classify("/markets"),
        RateLimitCategory::MarketData,
    );
}

#[test]
fn classify_is_prefix_based_and_case_sensitive() {
    assert_eq!(RateLimiter::classify("/timeline"), RateLimitCategory::Account);
    assert_eq!(RateLimiter::classify("/Time"), RateLimitCategory::MarketData);
    assert_eq!(RateLimiter::classify(""), RateLimitCategory::MarketData);
    assert_eq!(RateLimiter::classify("time"), RateLimitCategory::MarketData);
}

#[test]
fn wait_duration_none_when_no_state() {
    let rl = RateLimiter::new();
    assert!(rl.wait_duration(RateLimitCategory::Account).is_none());
    assert!(rl.wait_duration(RateLimitCategory::MarketData).is_none());
}

#[test]
fn wait_duration_none_when_remaining_positive() {
    let mut rl = RateLimiter::new();
    set_state(&mut rl, RateLimitCategory::Account, Some(10), Some(u64::MAX));
    assert!(rl.wait_duration(RateLimitCategory::Account).is_none());
}

#[test]
fn wait_duration_some_when_exhausted_and_reset_in_future() {
    let mut rl = RateLimiter::new();
    let future = now_secs() + 5;
    set_state(&mut rl, RateLimitCategory::Account, Some(0), Some(future));
    let wait = rl.wait_duration(RateLimitCategory::Account).unwrap();
    // Should be ~5 s + 100 ms buffer
    assert!(wait.as_secs() >= 4 && wait.as_secs() <= 6);
}

#[test]
fn wait_duration_none_when_exhausted_but_reset_in_past() {
    let mut rl = RateLimiter::new();
    let past = now_secs() - 10;
    set_state(&mut rl, RateLimitCategory::Account, Some(0), Some(past));
    assert!(rl.wait_duration(RateLimitCategory::Account).is_none());
}

#[test]
fn wait_duration_none_when_exhausted_but_no_reset_epoch() {
    let mut rl = RateLimiter::new();
    set_state(&mut rl, RateLimitCategory::MarketData, Some(0), None);
    assert!(rl.wait_duration(RateLimitCategory::MarketData).is_none());
}

#[test]
fn wait_duration_at_is_exact() {
    let mut rl = RateLimiter::new();
    set_state(&mut rl, RateLimitCategory::Account, Some(0), Some(1_700_000_005));
    let wait = rl
        .wait_duration_at(RateLimitCategory::Account, 1_700_000_000)
        .unwrap();
    assert_eq!(wait.as_millis(), 5_100);
    assert!(rl
        .wait_duration_at(RateLimitCategory::Account, 1_700_000_005)
        .is_none());
    assert!(rl
        .wait_duration_at(RateLimitCategory::Account, 1_700_000_006)
        .is_none());
}

#[test]
fn update_from_headers_parses_both_headers() {
    let mut rl = RateLimiter::new();
    let h = headers(Some("42"), Some("1700000000"));

    rl.update_from_headers(RateLimitCategory::Account, &h);

    let state = rl.state_for(RateLimitCategory::Account);
    assert_eq!(state.remaining, Some(42));
    assert_eq!(state.reset_epoch, Some(1_700_000_000));
}

#[test]
fn update_from_headers_ignores_missing_headers() {
    let mut rl = RateLimiter::new();
    let h = HeaderMap::new();

    rl.update_from_headers(RateLimitCategory::Account, &h);

    let state = rl.state_for(RateLimitCategory::Account);
    assert!(state.remaining.is_none());
    assert!(state.reset_epoch.is_none());
}

#[test]
fn update_from_headers_ignores_malformed_values() {
    let mut rl = RateLimiter::new();
    let h = headers(Some("not-a-number"), Some("also-bad"));

    rl.update_from_headers(RateLimitCategory::Account, &h);

    let state = rl.state_for(RateLimitCategory::Account);
    assert!(state.remaining.is_none());
    assert!(state.reset_epoch.is_none());
}

#[test]
fn update_from_headers_keeps_value_of_missing_header() {
    let mut rl = RateLimiter::new();
    rl.update_from_headers(RateLimitCategory::MarketData, &headers(Some("7"), Some("99")));
    rl.update_from_headers(RateLimitCategory::MarketData, &headers(Some("6"), None));
    let state = rl.state_for(RateLimitCategory::MarketData);
    assert_eq!(state.remaining, Some(6));
    assert_eq!(state.reset_epoch, Some(99));
}

#[test]
fn update_from_headers_trims_and_accepts_plus_sign() {
    let mut rl = RateLimiter::new();
    rl.update_from_headers(RateLimitCategory::Account, &headers(Some(" +12\t"), Some(" 5 ")));
    let state = rl.state_for(RateLimitCategory::Account);
    assert_eq!(state.remaining, Some(12));
    assert_eq!(state.reset_epoch, Some(5));
}

#[test]
fn update_from_headers_rejects_out_of_range_remaining() {
    let mut rl = RateLimiter::new();
    rl.update_from_headers(
        RateLimitCategory::Account,
        &headers(Some("4294967296"), Some("18446744073709551615")),
    );
    let state = rl.state_for(RateLimitCategory::Account);
    assert_eq!(state.remaining, None);
    assert_eq!(state.reset_epoch, Some(u64::MAX));
    rl.update_from_headers(
        RateLimitCategory::Account,
        &headers(Some("4294967295"), Some("18446744073709551616")),
    );
    let state = rl.state_for(RateLimitCategory::Account);
    assert_eq!(state.remaining, Some(u32::MAX));
    assert_eq!(state.reset_epoch, Some(u64::MAX));
}

#[test]
fn update_from_headers_header_names_ignore_case() {
    let mut rl = RateLimiter::new();
    let mut h = HeaderMap::new();
    h.insert("x-ratelimit-remaining", "3".parse().unwrap());
    rl.update_from_headers(RateLimitCategory::Account, &h);
    assert_eq!(rl.state_for(RateLimitCategory::Account).remaining, Some(3));
}

#[test]
fn categories_are_independent() {
    let mut rl = RateLimiter::new();
    let future = now_secs() + 10;

    // Exhaust account category
    set_state(&mut rl, RateLimitCategory::Account, Some(0), Some(future));

    // Account should block, market data should not
    assert!(rl.wait_duration(RateLimitCategory::Account).is_some());
    assert!(rl.wait_duration(RateLimitCategory::MarketData).is_none());
}

#[test]
fn category_names() {
    assert_eq!(RateLimitCategory::Account.as_str(), "account");
    assert_eq!(RateLimitCategory::MarketData.as_str(), "market_data");
}
