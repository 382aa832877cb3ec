use std::time::Duration;

use questrade_client::api_types::{OrderStateFilter, ServerTimeResponse, SymbolResult, SymbolSearchResponse};
use questrade_client::datetime::{format_query_datetime, parse_date, parse_datetime, timestamp_of};
use questrade_client::endpoints;
use questrade_client::error::QuestradeError;
use questrade_client::retry::{backoff_base_ms, retry_after_delay, MAX_RETRIES, RETRY_BASE_DELAY_MS};
use questrade_client::timestamp::Timestamp;
use questrade_client::windows::activity_windows;
use reqwest::header::HeaderMap;
use time::format_description::well_known::Iso8601;
use time::OffsetDateTime;

const NANOS_PER_DAY: i128 = 86_400_000_000_000;

fn dt(s: &str) -> Timestamp {
    timestamp_of(&OffsetDateTime::parse(s, &Iso8601::DEFAULT).unwrap())
}

fn days(n: i128) -> i128 {
    n * NANOS_PER_DAY
}

fn plus(t: Timestamp, nanos: i128) -> Timestamp {
    Timestamp::from_unix_nanos(t.unix_nanos + nanos)
}

#[test]
fn parse_server_time_returns_correct_fields() {
    let resp = ServerTimeResponse {
        time: "2026-02-21T14:32:00.000000-05:00".to_string(),
    };
    let dt = parse_datetime(&resp.time).unwrap();
    assert_eq!(dt.year(), 2026);
    assert_eq!(dt.month(), time::Month::February);
    assert_eq!(dt.day(), 21);
    assert_eq!(dt.hour(), 14);
    assert_eq!(dt.minute(), 32);
    assert_eq!(dt.second(), 0);
    assert_eq!(dt.offset().whole_hours(), -5);
}

#[test]
fn parse_datetime_failure_names_the_input() {
    match parse_datetime("not a date") {
        Err(QuestradeError::DateTime { context, .. }) => {
            assert_eq!(context, "Failed to parse datetime: not a date")
        }
        other => panic!("unexpected: {:?}", other),
    }
}

#[test]
fn parse_datetime_keeps_offset_and_local_fields() {
    let dt = parse_datetime("2014-10-24T20:06:40.131000-04:00").unwrap();
    assert_eq!(dt.offset().whole_seconds(), -4 * 3600);
    assert_eq!((dt.hour(), dt.minute(), dt.second()), (20, 6, 40));
    assert_eq!(dt.unix_timestamp_nanos(), 1_414_195_600_131_000_000);
}

#[test]
fn format_query_datetime_edges() {
    assert_eq!(format_query_datetime(Timestamp::from_unix_nanos(-1)).unwrap(), "1969-12-31T23:59:59Z");
    assert_eq!(
        format_query_datetime(Timestamp::from_unix_nanos(951_782_400_000_000_000)).unwrap(),
        "2000-02-29T00:00:00Z"
    );
    assert_eq!(
        format_query_datetime(Timestamp::from_unix_nanos(253_402_300_799_999_999_999)).unwrap(),
        "9999-12-31T23:59:59Z"
    );
    assert_eq!(
        format_query_datetime(Timestamp::from_unix_nanos(-377_705_116_800_000_000_000)).unwrap(),
        "-9999-01-01T00:00:00Z"
    );
    assert!(format_query_datetime(Timestamp::from_unix_nanos(-377_705_116_800_000_000_001)).is_err());
}

#[test]
fn parse_date_keeps_local_calendar_date() {
    let d = parse_date("2026-03-21T00:00:00.000000-05:00").unwrap();
    assert_eq!(d.year(), 2026);
    assert_eq!(d.month(), time::Month::March);
    assert_eq!(d.day(), 21);
}

#[test]
fn format_query_datetime_uses_utc_second_precision() {
    let t = dt("2026-02-24T03:58:12.123456789-05:00");
    let s = format_query_datetime(t).unwrap();
    assert_eq!(s, "2026-02-24T08:58:12Z");
    assert!(!s.contains('.'));
}

#[test]
fn format_query_datetime_out_of_range_is_an_error() {
    let t = Timestamp::from_unix_nanos(i128::MAX);
    assert!(matches!(
        format_query_datetime(t),
        Err(QuestradeError::DateTime { .. })
    ));
}

#[test]
fn backoff_delay_doubles_each_attempt() {
    for attempt in 1..MAX_RETRIES {
        let prev_base = RETRY_BASE_DELAY_MS << (attempt - 1);
        let curr_base = RETRY_BASE_DELAY_MS << attempt;
        assert_eq!(
            curr_base,
            prev_base * 2,
            "base delay should double from attempt {} to {}",
            attempt - 1,
            attempt
        );
        assert_eq!(backoff_base_ms(attempt), backoff_base_ms(attempt - 1) * 2);
    }
}

#[test]
fn backoff_base_values() {
    assert_eq!(backoff_base_ms(0), 1000);
    assert_eq!(backoff_base_ms(1), 2000);
    assert_eq!(backoff_base_ms(2), 4000);
}

#[test]
fn max_retries_constant() {
    assert_eq!(MAX_RETRIES, 3, "expected 3 retries");
}

#[test]
fn activity_windows_empty_range_returns_empty() {
    let start = dt("2026-01-01T00:00:00Z");
    assert!(activity_windows(start, start).is_empty());
    // end before start also empty
    assert!(activity_windows(start, plus(start, -days(1))).is_empty());
}

#[test]
fn activity_windows_single_window_when_range_within_31_days() {
    let start = dt("2026-01-01T00:00:00Z");
    let end = plus(start, days(30));
    let windows = activity_windows(start, end);
    assert_eq!(windows.len(), 1);
    assert_eq!(windows[0], (start, end));
}

#[test]
fn activity_windows_exactly_30_days_is_single_window() {
    let start = dt("2026-01-01T00:00:00Z");
    let end = plus(start, days(30));
    let windows = activity_windows(start, end);
    assert_eq!(windows.len(), 1);
    assert_eq!(windows[0], (start, end));
}

#[test]
fn activity_windows_31_days_splits_into_two() {
    let start = dt("2026-01-01T00:00:00Z");
    let end = plus(start, days(31));
    let windows = activity_windows(start, end);
    assert_eq!(windows.len(), 2);
    assert_eq!(windows[0], (start, plus(start, days(30))));
    assert_eq!(windows[1], (plus(start, days(30)), end));
}

#[test]
fn activity_windows_365_days_all_within_limit_and_contiguous() {
    let start = dt("2026-01-01T00:00:00Z");
    let end = plus(start, days(365));
    let windows = activity_windows(start, end);
    // 365 / 30 = 12 full + 5 remaining = 13
    assert_eq!(windows.len(), 13);
    assert_eq!(windows[0].0, start);
    assert_eq!(windows.last().unwrap().1, end);
    for (ws, we) in &windows {
        let whole_days = (we.unix_nanos - ws.unix_nanos) / NANOS_PER_DAY;
        assert!(whole_days <= 30, "window exceeds 30 days: {} days", whole_days);
    }
    // Contiguous: each window starts where the previous ended
    for i in 1..windows.len() {
        assert_eq!(
            windows[i].0,
            windows[i - 1].1,
            "gap between window {i} and {}",
            i - 1
        );
    }
}

#[test]
fn activity_windows_offsets_do_not_matter() {
    let a = dt("2026-01-01T00:00:00-05:00");
    let b = dt("2026-01-01T05:00:00Z");
    assert_eq!(a, b);
    let w = activity_windows(a, plus(a, days(61)));
    assert_eq!(w.len(), 3);
    assert_eq!(w[2], (plus(a, days(60)), plus(a, days(61))));
}

fn retry_after(value: Option<&str>) -> HeaderMap {
    let mut h = HeaderMap::new();
    if let Some(v) = value {
        h.insert("Retry-After", v.parse().unwrap());
    }
    h
}

#[test]
fn retry_after_header_is_respected() {
    let delay = retry_after_delay(&retry_after(Some("5")));
    assert_eq!(delay, Some(Duration::from_secs(5)));
}

#[test]
fn retry_after_header_capped_at_60s() {
    let delay = retry_after_delay(&retry_after(Some("300")));
    assert_eq!(delay, Some(Duration::from_secs(60)));
}

#[test]
fn retry_after_missing_falls_back_to_backoff() {
    assert_eq!(retry_after_delay(&retry_after(None)), None);
    assert_eq!(retry_after_delay(&retry_after(Some("soon"))), None);
    // the fallback for the first attempt is the 1000 ms base, jittered by ±20%
    assert_eq!(backoff_base_ms(0), 1000);
}

fn sym(symbol: &str, id: u64) -> SymbolResult {
    SymbolResult {
        symbol: symbol.to_string(),
        symbol_id: id,
        description: String::new(),
        security_type: "Stock".to_string(),
        listing_exchange: "NASDAQ".to_string(),
    }
}

#[test]
fn resolve_symbol_finds_first_exact_match_ignoring_case() {
    let resp = SymbolSearchResponse {
        symbols: vec![sym("AAPL.TO", 1), sym("aapl", 8049), sym("AAPL", 9)],
    };
    assert_eq!(endpoints::resolve_symbol_id(&resp, "AAPL").unwrap(), 8049);
    assert_eq!(endpoints::resolve_symbol_id(&resp, "aApL").unwrap(), 8049);
    match endpoints::resolve_symbol_id(&resp, "msft") {
        Err(QuestradeError::SymbolNotFound(t)) => assert_eq!(t, "msft"),
        other => panic!("unexpected: {:?}", other),
    }
}

#[test]
fn search_path_uses_upper_case_key() {
    let key = endpoints::symbol_search_key("aapl");
    assert_eq!(key, "AAPL");
    assert_eq!(endpoints::symbol_search_path(&key), "/symbols/search?prefix=AAPL");
}

#[test]
fn request_paths() {
    assert_eq!(endpoints::api_url("https://api01.iq.questrade.com/", "/time"), "https://api01.iq.questrade.com/v1/time");
    assert_eq!(endpoints::quote_path(8049), "/markets/quotes/8049");
    assert_eq!(endpoints::symbol_path(0), "/symbols/0");
    assert_eq!(endpoints::option_chain_path(8049), "/symbols/8049/options");
    assert_eq!(endpoints::positions_path("12345678"), "/accounts/12345678/positions");
    assert_eq!(endpoints::balances_path("12345678"), "/accounts/12345678/balances");
    assert_eq!(
        endpoints::candles_path(8049, "2026-01-01T00:00:00Z", "2026-01-02T00:00:00Z", "OneDay"),
        "/markets/candles/8049?startTime=2026-01-01T00:00:00Z&endTime=2026-01-02T00:00:00Z&interval=OneDay"
    );
    assert_eq!(
        endpoints::activities_path("1", "a", "b"),
        "/accounts/1/activities?startTime=a&endTime=b"
    );
    assert_eq!(
        endpoints::executions_path("1", "a", "b"),
        "/accounts/1/executions?startTime=a&endTime=b"
    );
    assert_eq!(
        endpoints::orders_path("1", "a", "b", OrderStateFilter::Closed),
        "/accounts/1/orders?startTime=a&endTime=b&stateFilter=Closed"
    );
}

#[test]
fn batch_paths_join_ids_and_skip_empty() {
    assert_eq!(endpoints::quotes_batch_path(&[]), None);
    assert_eq!(endpoints::symbols_batch_path(&[]), None);
    assert_eq!(
        endpoints::quotes_batch_path(&[123, 456]).unwrap(),
        "/markets/quotes?ids=123,456"
    );
    assert_eq!(
        endpoints::symbols_batch_path(&[18446744073709551615, 0, 7]).unwrap(),
        "/symbols?ids=18446744073709551615,0,7"
    );
}

#[test]
fn option_quote_requests_batch_by_100() {
    let ids: Vec<u64> = (1..=250).collect();
    let reqs = endpoints::option_quote_requests(&ids);
    assert_eq!(reqs.len(), 3);
    assert_eq!(reqs[0].option_ids, (1..=100).collect::<Vec<u64>>());
    assert_eq!(reqs[1].option_ids, (101..=200).collect::<Vec<u64>>());
    assert_eq!(reqs[2].option_ids, (201..=250).collect::<Vec<u64>>());
    assert!(endpoints::option_quote_requests(&[]).is_empty());
    assert_eq!(endpoints::option_quote_requests(&[12345]).len(), 1);
}

#[test]
fn first_or_empty_messages() {
    match endpoints::first_or_empty::<u32>(vec![], endpoints::no_quote_message()) {
        Err(QuestradeError::EmptyResponse(m)) => assert_eq!(m, "No quote returned"),
        other => panic!("unexpected: {:?}", other),
    }
    assert_eq!(
        endpoints::no_symbol_message(8049),
        "No symbol returned for id 8049"
    );
    assert_eq!(
        endpoints::first_or_empty(vec![3, 4], String::new()).unwrap(),
        3
    );
}

#[test]
fn order_state_filter_names() {
    assert_eq!(OrderStateFilter::All.as_str(), "All");
    assert_eq!(OrderStateFilter::Open.as_str(), "Open");
    assert_eq!(OrderStateFilter::Closed.as_str(), "Closed");
}
