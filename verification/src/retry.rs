//! What to do after each HTTP response of an API request: retry on 429 with
//! backoff, refresh the token once on 401, or finish.

use vstd::prelude::*;
use std::time::Duration;
use reqwest::header::HeaderMap;
use crate::clock::{duration_nanos, duration_new};
use crate::headers::{header_number, header_unsigned};

verus! {

/// Maximum number of retries on 429 rate-limit responses.
pub const MAX_RETRIES: u32 = 3;

/// Base delay in milliseconds for exponential backoff (doubles each attempt).
pub const RETRY_BASE_DELAY_MS: u64 = 1000;

/// Longest wait that a `Retry-After` header is honoured for, in seconds.
pub const RETRY_AFTER_CAP_SECS: u64 = 60;

/// HTTP 401 Unauthorized.
pub const STATUS_UNAUTHORIZED: u16 = 401;

/// HTTP 429 Too Many Requests.
pub const STATUS_TOO_MANY_REQUESTS: u16 = 429;

/// A 2xx status, as `StatusCode::is_success` decides it.
pub open spec fn is_success(status: int) -> bool {
    200 <= status <= 299
}

/// Whether `status` is a 2xx success.
pub fn status_is_success(status: u16) -> (res: bool)
    ensures
        res == is_success(status as int),
{
    200 <= status && status <= 299
}

/// The base of the exponential backoff before retry number `attempt + 1`:
/// `RETRY_BASE_DELAY_MS << attempt` (1000, 2000, 4000 ms, ...).
pub fn backoff_base_ms(attempt: u32) -> (ms: u64)
    requires
        attempt < 64,
    ensures
        ms == RETRY_BASE_DELAY_MS << attempt,
{
    RETRY_BASE_DELAY_MS << attempt
}

/// The backoff base doubles from one attempt to the next, for as long as
/// it fits in 64 bits.
pub proof fn lemma_backoff_base_doubles(attempt: u32)
    requires
        attempt < 53,
    ensures
        (RETRY_BASE_DELAY_MS << ((attempt + 1) as u32)) == 2 * (RETRY_BASE_DELAY_MS << attempt),
{
    let a1 = (attempt + 1) as u32;
    assert((1000u64 << a1) == 2 * (1000u64 << attempt)) by (bit_vector)
        requires
            attempt < 53,
            a1 == attempt + 1,
    ;
}

/// The wait that a `Retry-After` value of `secs` seconds asks for: that many
/// seconds, capped at 60.
pub open spec fn retry_after_nanos(secs: int) -> int {
    (if secs < RETRY_AFTER_CAP_SECS {
        secs
    } else {
        RETRY_AFTER_CAP_SECS as int
    }) * 1_000_000_000
}

/// The wait that a 429 response's `Retry-After` header asks for, when it holds
/// a whole number of seconds; capped at 60 s to avoid indefinite waits.
/// `None` where the header is missing or not such a number, in which case the
/// caller falls back to exponential backoff.
pub fn retry_after_delay(headers: &HeaderMap) -> (res: Option<Duration>)
    ensures
        res is Some <==> header_number(*headers, "Retry-After"@, u64::MAX as int) is Some,
        res matches Some(d) ==> duration_nanos(d) == retry_after_nanos(
            header_number(*headers, "Retry-After"@, u64::MAX as int)->0,
        ),
{
    proof {
        reveal_strlit("Retry-After");
    }
    match header_unsigned(headers, "Retry-After", 0xFFFF_FFFF_FFFF_FFFFu64) {
        Some(secs) => {
            let capped = if secs < RETRY_AFTER_CAP_SECS {
                secs
            } else {
                RETRY_AFTER_CAP_SECS
            };
            Some(duration_new(capped, 0))
        },
        None => None,
    }
}

/// What the request loop does next after a response.
#[derive(Debug, Clone, Copy, PartialEq, Eq, Structural)]
pub enum ResponseAction {
    /// 429 with retries left: send again. `backoff` holds the attempt number
    /// to back off for (by `Retry-After` or exponential backoff) when the
    /// rate-limit headers gave no wait; `None` where the proactive wait
    /// before the next send already covers the delay.
    RetryRateLimited { backoff: Option<u32> },
    /// 429 with no retries left: fail with `RateLimited { retries }`.
    GiveUpRateLimited { retries: u32 },
    /// First 401: force a token refresh, then send again with the new token.
    RefreshAndRetry,
    /// Any other non-success status: fail with the status and body.
    FailStatus,
    /// Success: read the body.
    Accept,
}

impl ResponseAction {
    /// The action ends the request.
    pub open spec fn is_final(self) -> bool {
        match self {
            ResponseAction::RetryRateLimited { .. } => false,
            ResponseAction::RefreshAndRetry => false,
            _ => true,
        }
    }
}

/// Retry bookkeeping of one API request.
#[derive(Debug, Clone, Copy, PartialEq, Eq, Structural)]
pub struct RequestPolicy {
    /// A 401 has already been answered by a forced token refresh.
    pub auth_retried: bool,
    /// 429 retries made with the current token.
    pub attempt: u32,
}

impl RequestPolicy {
    /// The bookkeeping is within its bounds.
    pub open spec fn valid(self) -> bool {
        self.attempt <= MAX_RETRIES
    }

    /// The state and action that follow a response with `status`, where
    /// `header_wait` tells whether the rate-limit headers now call for a wait
    /// before the next send.
    pub open spec fn step(self, status: int, header_wait: bool) -> (RequestPolicy, ResponseAction) {
        if status == STATUS_TOO_MANY_REQUESTS {
            if self.attempt < MAX_RETRIES {
                (
                    RequestPolicy { attempt: (self.attempt + 1) as u32, ..self },
                    ResponseAction::RetryRateLimited {
                        backoff: if header_wait {
                            None
                        } else {
                            Some(self.attempt)
                        },
                    },
                )
            } else {
                (self, ResponseAction::GiveUpRateLimited { retries: MAX_RETRIES })
            }
        } else if status == STATUS_UNAUTHORIZED && !self.auth_retried {
            (RequestPolicy { auth_retried: true, attempt: 0 }, ResponseAction::RefreshAndRetry)
        } else if !is_success(status) {
            (self, ResponseAction::FailStatus)
        } else {
            (self, ResponseAction::Accept)
        }
    }

    /// The number of sends that the request may still make, this one included.
    pub open spec fn send_budget(self) -> int {
        (if self.auth_retried {
            0
        } else {
            MAX_RETRIES + 1
        }) + (MAX_RETRIES - self.attempt) + 1
    }

    /// Bookkeeping at the start of a request.
    pub fn new() -> (p: Self)
        ensures
            p == (RequestPolicy { auth_retried: false, attempt: 0 }),
    {
        RequestPolicy { auth_retried: false, attempt: 0 }
    }

    /// Decide what follows a response with `status`. On 429 a retry is made
    /// while fewer than `MAX_RETRIES` have been made with the current token;
    /// the backoff sleep is left out when `header_wait` shows that the
    /// rate-limit headers already set a wait. On the first 401 the token is
    /// refreshed and the 429 count starts again; a second 401 fails like any
    /// other error status.
    pub fn on_response(&mut self, status: u16, header_wait: bool) -> (action: ResponseAction)
        requires
            old(self).valid(),
        ensures
            (*final(self), action) == old(self).step(status as int, header_wait),
            final(self).valid(),
    {
        if status == STATUS_TOO_MANY_REQUESTS {
            if self.attempt < MAX_RETRIES {
                let backoff = if header_wait {
                    None
                } else {
                    Some(self.attempt)
                };
                self.attempt = self.attempt + 1;
                ResponseAction::RetryRateLimited { backoff }
            } else {
                ResponseAction::GiveUpRateLimited { retries: MAX_RETRIES }
            }
        } else if status == STATUS_UNAUTHORIZED && !self.auth_retried {
            self.auth_retried = true;
            self.attempt = 0;
            ResponseAction::RefreshAndRetry
        } else if !status_is_success(status) {
            ResponseAction::FailStatus
        } else {
            ResponseAction::Accept
        }
    }
}

/// The request is still going after each of `responses`, taken in turn from
/// bookkeeping `p`; each response is a status and whether the headers set a
/// wait.
pub open spec fn keeps_going(p: RequestPolicy, responses: Seq<(int, bool)>) -> bool
    decreases responses.len(),
{
    if responses.len() == 0 {
        true
    } else {
        let (q, a) = p.step(responses[0].0, responses[0].1);
        !a.is_final() && keeps_going(q, responses.drop_first())
    }
}

/// Every step that does not end the request uses up at least one send of the
/// budget, and a valid state always has one left.
pub proof fn lemma_step_spends_budget(p: RequestPolicy, status: int, header_wait: bool)
    requires
        p.valid(),
    ensures
        p.send_budget() >= 1,
        p.step(status, header_wait).0.valid(),
        !p.step(status, header_wait).1.is_final() ==> p.step(status, header_wait).0.send_budget()
            < p.send_budget(),
{
}

/// However the server answers, a request sends at most `send_budget` times:
/// no run of responses that all keep it going is that long.
pub proof fn lemma_sends_bounded(p: RequestPolicy, responses: Seq<(int, bool)>)
    requires
        p.valid(),
        keeps_going(p, responses),
    ensures
        responses.len() < p.send_budget(),
    decreases responses.len(),
{
    if responses.len() > 0 {
        lemma_step_spends_budget(p, responses[0].0, responses[0].1);
        let q = p.step(responses[0].0, responses[0].1).0;
        lemma_sends_bounded(q, responses.drop_first());
    }
}

/// A request from the start makes at most `2 * (MAX_RETRIES + 1)` sends:
/// `MAX_RETRIES` retries on 429 with each of at most two tokens.
pub proof fn lemma_request_send_bound(responses: Seq<(int, bool)>)
    requires
        keeps_going(RequestPolicy { auth_retried: false, attempt: 0 }, responses),
    ensures
        responses.len() < 2 * (MAX_RETRIES + 1),
{
    lemma_sends_bounded(RequestPolicy { auth_retried: false, attempt: 0 }, responses);
}

/// A 401 is answered by a token refresh at most once: once it has been,
/// another 401 ends the request with its status.
pub proof fn lemma_unauthorized_refreshes_once(p: RequestPolicy, header_wait: bool)
    requires
        p.auth_retried,
    ensures
        p.step(STATUS_UNAUTHORIZED as int, header_wait).1 == ResponseAction::FailStatus,
        p.step(STATUS_UNAUTHORIZED as int, header_wait).0.auth_retried,
{
}

/// After `MAX_RETRIES` retries with one token the next 429 gives up, and
/// reports `MAX_RETRIES` retries.
pub proof fn lemma_rate_limit_gives_up(p: RequestPolicy, header_wait: bool)
    requires
        p.attempt == MAX_RETRIES,
    ensures
        p.step(STATUS_TOO_MANY_REQUESTS as int, header_wait).1 == (ResponseAction::GiveUpRateLimited {
            retries: MAX_RETRIES,
        }),
{
}

/// A response whose status is neither 429 nor 401 ends the request and leaves
/// the bookkeeping as it was: a 2xx is accepted, any other status fails with
/// that status.
pub proof fn lemma_other_status_ends_request(p: RequestPolicy, status: int, header_wait: bool)
    requires
        status != 429,
        status != 401,
    ensures
        p.step(status, header_wait).0 == p,
        200 <= status <= 299 ==> p.step(status, header_wait).1 == ResponseAction::Accept,
        !(200 <= status <= 299) ==> p.step(status, header_wait).1 == ResponseAction::FailStatus,
{
}

/// Only a 429 is retried or given up on as rate-limited, and only a first
/// 401 with the current request asks for a token refresh.
pub proof fn lemma_retry_actions_by_status(p: RequestPolicy, status: int, header_wait: bool)
    ensures
        p.step(status, header_wait).1 is RetryRateLimited ==> status == 429,
        p.step(status, header_wait).1 is GiveUpRateLimited ==> status == 429,
        p.step(status, header_wait).1 is RefreshAndRetry ==> status == 401 && !p.auth_retried,
{
}

/// A 429 with fewer than three retries made is sent again and counts one
/// more retry; it backs off by attempt number unless the rate-limit headers
/// already set a wait. With three retries made it gives up, reporting three.
pub proof fn lemma_rate_limited_response(p: RequestPolicy, header_wait: bool)
    requires
        p.valid(),
    ensures
        p.attempt < 3 ==> p.step(429, header_wait) == (
            RequestPolicy { auth_retried: p.auth_retried, attempt: (p.attempt + 1) as u32 },
            ResponseAction::RetryRateLimited {
                backoff: if header_wait {
                    None
                } else {
                    Some(p.attempt)
                },
            },
        ),
        p.attempt >= 3 ==> p.step(429, header_wait) == (p, ResponseAction::GiveUpRateLimited { retries: 3 }),
{
}

/// The first 401 forces a token refresh and starts the 429 count again; a
/// 401 after that fails with its status.
pub proof fn lemma_unauthorized_response(p: RequestPolicy, header_wait: bool)
    ensures
        !p.auth_retried ==> p.step(401, header_wait) == (
            RequestPolicy { auth_retried: true, attempt: 0 },
            ResponseAction::RefreshAndRetry,
        ),
        p.auth_retried ==> p.step(401, header_wait) == (p, ResponseAction::FailStatus),
{
}

} // verus!
