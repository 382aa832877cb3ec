use questrade_client::auth::{login_url, token_endpoint, CachedToken, TokenResponse, TokenState};
use questrade_client::datetime::chronological_order;
use questrade_client::order::stable_order;
use questrade_client::retry::{status_is_success, RequestPolicy, ResponseAction, MAX_RETRIES};
use questrade_client::text::{decimal_string, parse_trimmed_unsigned, starts_with};
use questrade_client::timestamp::Timestamp;

const SEC: i128 = 1_000_000_000;

#[test]
fn two_429s_then_success() {
    let mut p = RequestPolicy::new();
    assert_eq!(
        p.on_response(429, false),
        ResponseAction::RetryRateLimited { backoff: Some(0) }
    );
    assert_eq!(
        p.on_response(429, false),
        ResponseAction::RetryRateLimited { backoff: Some(1) }
    );
    assert_eq!(p.on_response(200, false), ResponseAction::Accept);
}

#[test]
fn gives_up_after_max_retries_of_429() {
    let mut p = RequestPolicy::new();
    let mut sends = 0;
    let last = loop {
        sends += 1;
        match p.on_response(429, false) {
            ResponseAction::RetryRateLimited { .. } => continue,
            other => break other,
        }
    };
    assert_eq!(sends, MAX_RETRIES + 1);
    assert_eq!(last, ResponseAction::GiveUpRateLimited { retries: 3 });
}

#[test]
fn header_wait_replaces_backoff() {
    let mut p = RequestPolicy::new();
    assert_eq!(
        p.on_response(429, true),
        ResponseAction::RetryRateLimited { backoff: None }
    );
}

#[test]
fn unauthorized_refreshes_once() {
    let mut p = RequestPolicy::new();
    assert_eq!(p.on_response(401, false), ResponseAction::RefreshAndRetry);
    assert_eq!(p.on_response(401, false), ResponseAction::FailStatus);
}

#[test]
fn refresh_restarts_429_count() {
    let mut p = RequestPolicy::new();
    for _ in 0..3 {
        assert!(matches!(p.on_response(429, false), ResponseAction::RetryRateLimited { .. }));
    }
    assert_eq!(p.on_response(401, false), ResponseAction::RefreshAndRetry);
    assert_eq!(
        p.on_response(429, false),
        ResponseAction::RetryRateLimited { backoff: Some(0) }
    );
}

#[test]
fn at_most_eight_sends() {
    let mut p = RequestPolicy::new();
    let script = [429, 429, 429, 401, 429, 429, 429, 429];
    let mut last = ResponseAction::Accept;
    for (i, s) in script.iter().enumerate() {
        last = p.on_response(*s, false);
        if i < 7 {
            assert!(matches!(
                last,
                ResponseAction::RetryRateLimited { .. } | ResponseAction::RefreshAndRetry
            ));
        }
    }
    assert_eq!(last, ResponseAction::GiveUpRateLimited { retries: 3 });
}

#[test]
fn other_statuses() {
    assert_eq!(RequestPolicy::new().on_response(500, false), ResponseAction::FailStatus);
    assert_eq!(RequestPolicy::new().on_response(404, true), ResponseAction::FailStatus);
    assert_eq!(RequestPolicy::new().on_response(204, false), ResponseAction::Accept);
    assert!(status_is_success(299));
    assert!(!status_is_success(300));
    assert!(!status_is_success(199));
}

fn token_response(access: &str, refresh: &str, expires_in: u64) -> TokenResponse {
    TokenResponse {
        access_token: access.to_string(),
        token_type: "Bearer".to_string(),
        expires_in,
        refresh_token: refresh.to_string(),
        api_server: "https://api01.iq.questrade.com/".to_string(),
    }
}

#[test]
fn login_urls() {
    assert_eq!(login_url(true), "https://practicelogin.questrade.com");
    assert_eq!(login_url(false), "https://login.questrade.com");
    assert_eq!(
        token_endpoint("https://login.questrade.com"),
        "https://login.questrade.com/oauth2/token"
    );
}

#[test]
fn cached_token_skips_initial_refresh() {
    let now = Timestamp::from_unix_nanos(1_000 * SEC);
    let cached = CachedToken {
        access_token: "cached_acc".to_string(),
        api_server: "https://api05.iq.questrade.com/".to_string(),
        expires_at: Timestamp::from_unix_nanos(now.unix_nanos + 25 * 60 * SEC),
    };
    let st = TokenState::initial("unused_refresh".to_string(), Some(cached), now);
    assert!(!st.needs_refresh());
    let (token, server) = st.current(now).unwrap();
    assert_eq!(token, "cached_acc");
    assert_eq!(server, "https://api05.iq.questrade.com/");
}

#[test]
fn expired_cached_token_triggers_refresh() {
    let now = Timestamp::from_unix_nanos(1_000 * SEC);
    let expired = CachedToken {
        access_token: "stale".to_string(),
        api_server: "https://old.example.com/".to_string(),
        expires_at: Timestamp::from_unix_nanos(now.unix_nanos - SEC),
    };
    let mut st = TokenState::initial("rt".to_string(), Some(expired), now);
    assert!(st.needs_refresh());
    assert!(st.current(now).is_none());
    let (token, _) = st.apply_refresh(&token_response("acc_123", "fresh", 1800), now);
    assert_eq!(token, "acc_123");
    assert_eq!(st.refresh_token, "fresh");
    assert_eq!(st.current(now).unwrap().0, "acc_123");
    assert_eq!(st.expires_at.unix_nanos, now.unix_nanos + 1770 * SEC);
}

#[test]
fn force_refresh_bypasses_valid_cached_token() {
    let now = Timestamp::from_unix_nanos(1_000 * SEC);
    let cached = CachedToken {
        access_token: "old_acc".to_string(),
        api_server: "https://api01.iq.questrade.com/".to_string(),
        expires_at: Timestamp::from_unix_nanos(now.unix_nanos + 25 * 60 * SEC),
    };
    let mut st = TokenState::initial("rt".to_string(), Some(cached), now);
    assert_eq!(st.current(now).unwrap().0, "old_acc");
    st.invalidate();
    assert!(st.current(now).is_none());
    assert!(st.reusable(now).is_none());
    assert!(st.needs_refresh());
    assert_eq!(st.refresh_token, "rt");
}

#[test]
fn refresh_result_reused_until_expiry() {
    let now = Timestamp::from_unix_nanos(5 * SEC);
    let mut st = TokenState::initial("rt".to_string(), None, now);
    st.apply_refresh(&token_response("a", "r2", 60), now);
    let just_before = Timestamp::from_unix_nanos(now.unix_nanos + 30 * SEC - 1);
    let at_expiry = Timestamp::from_unix_nanos(now.unix_nanos + 30 * SEC);
    assert_eq!(st.reusable(just_before).unwrap().0, "a");
    assert!(st.reusable(at_expiry).is_none());
    assert!(st.current(at_expiry).is_none());
}

#[test]
fn short_lifetime_expires_in_the_past() {
    let now = Timestamp::from_unix_nanos(100 * SEC);
    let mut st = TokenState::initial("rt".to_string(), None, now);
    st.apply_refresh(&token_response("a", "r2", 10), now);
    assert_eq!(st.expires_at.unix_nanos, 80 * SEC);
    assert!(st.current(now).is_none());
}

#[test]
fn stable_order_sorts_by_key_keeping_ties() {
    let keys = vec![Some(5), Some(1), Some(5), None, Some(-3), Some(1), None];
    let texts: Vec<String> = vec![String::new(); keys.len()];
    assert_eq!(stable_order(&keys, &texts), vec![4, 1, 5, 0, 2, 3, 6]);
    assert!(stable_order(&Vec::new(), &Vec::new()).is_empty());
}

#[test]
fn stable_order_breaks_key_ties_by_text() {
    let keys = vec![Some(2), Some(2), None, Some(1), None, Some(2)];
    let texts: Vec<String> = ["b", "a", "z", "q", "y", "a"].iter().map(|s| s.to_string()).collect();
    assert_eq!(stable_order(&keys, &texts), vec![3, 1, 5, 0, 4, 2]);
}

#[test]
fn chronological_order_breaks_instant_ties_by_text() {
    let stamps: Vec<String> = [
        "2024-11-03T05:30:00.000000+00:00",
        "2024-11-03T01:30:00.000000-04:00",
        "2024-11-03T05:30:00.000000+00:00",
    ]
    .iter()
    .map(|s| s.to_string())
    .collect();
    assert_eq!(chronological_order(&stamps), vec![1, 0, 2]);
}

#[test]
fn chronological_order_follows_instants_not_text() {
    let stamps: Vec<String> = [
        // 2024-11-03T01:30-04:00 is 05:30Z; 01:10-05:00 is 06:10Z (after the DST change)
        "2024-11-03T01:30:00.000000-04:00",
        "2024-11-03T01:10:00.000000-05:00",
        "2024-11-03T05:30:00.000000+00:00",
        "not a date",
        "2024-01-01T00:00:00.000000-05:00",
    ]
    .iter()
    .map(|s| s.to_string())
    .collect();
    assert_eq!(chronological_order(&stamps), vec![4, 0, 2, 1, 3]);
}

#[test]
fn unsigned_parsing() {
    assert_eq!(parse_trimmed_unsigned("42", u32::MAX as u64), Some(42));
    assert_eq!(parse_trimmed_unsigned(" \t+0007\n", u32::MAX as u64), Some(7));
    assert_eq!(parse_trimmed_unsigned("\u{3000}9\u{A0}", 100), Some(9));
    assert_eq!(parse_trimmed_unsigned("+", 100), None);
    assert_eq!(parse_trimmed_unsigned("", 100), None);
    assert_eq!(parse_trimmed_unsigned("-1", 100), None);
    assert_eq!(parse_trimmed_unsigned("1 2", 100), None);
    assert_eq!(parse_trimmed_unsigned("101", 100), None);
    assert_eq!(parse_trimmed_unsigned("100", 100), Some(100));
    assert_eq!(
        parse_trimmed_unsigned("18446744073709551615", u64::MAX),
        Some(u64::MAX)
    );
    assert_eq!(parse_trimmed_unsigned("99999999999999999999999", u64::MAX), None);
}

#[test]
fn decimal_and_prefix() {
    assert_eq!(decimal_string(0), "0");
    assert_eq!(decimal_string(10), "10");
    assert_eq!(decimal_string(u64::MAX), "18446744073709551615");
    assert!(starts_with("/accounts/1", "/accounts"));
    assert!(starts_with("abc", ""));
    assert!(!starts_with("/acc", "/accounts"));
}
