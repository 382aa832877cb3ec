//! OAuth token state for the Questrade API: which token to use, when to
//! refresh, and what a refresh leaves behind.

use vstd::prelude::*;
use vstd::string::StringExecFns;
use crate::timestamp::{in_datetime_range, Timestamp, NANOS_PER_SEC};

verus! {

/// Token response from the Questrade OAuth endpoint.
#[derive(Debug, Clone)]
pub struct TokenResponse {
    /// Short-lived Bearer access token used to authenticate API requests.
    pub access_token: String,
    /// Token type; always `"Bearer"`.
    pub token_type: String,
    /// Token lifetime in seconds (typically 1800).
    pub expires_in: u64,
    /// Single-use refresh token. **Must be persisted** after every refresh —
    /// using an old token will result in an authentication failure.
    pub refresh_token: String,
    /// Base URL for API requests (e.g. `"https://api01.iq.questrade.com/"`).
    /// May change between refreshes; always use the most recently received value.
    pub api_server: String,
}

/// Pre-existing token state that can be used to skip the initial token
/// refresh when a valid cached token is available.
#[derive(Debug, Clone)]
pub struct CachedToken {
    /// Bearer access token from a previous session.
    pub access_token: String,
    /// API server URL that was returned alongside this access token.
    pub api_server: String,
    /// When this access token expires.
    pub expires_at: Timestamp,
}

/// The token a manager holds.
#[derive(Debug, Clone)]
pub struct TokenState {
    /// Current access token; empty when none is held.
    pub access_token: String,
    /// API server that goes with the access token.
    pub api_server: String,
    /// The refresh token to present at the next refresh.
    pub refresh_token: String,
    /// When the access token stops being used.
    pub expires_at: Timestamp,
}

/// Seconds before the stated expiry at which an access token is given up.
pub const EXPIRY_MARGIN_SECS: i64 = 30;

/// The OAuth server of the live or the practice environment.
pub open spec fn login_url_for(practice: bool) -> Seq<char> {
    if practice {
        "https://practicelogin.questrade.com"@
    } else {
        "https://login.questrade.com"@
    }
}

/// The OAuth server of the live (`practice == false`) or practice environment.
pub fn login_url(practice: bool) -> (url: String)
    ensures
        url@ == login_url_for(practice),
{
    if practice {
        "https://practicelogin.questrade.com".to_owned()
    } else {
        "https://login.questrade.com".to_owned()
    }
}

/// The token endpoint under `login_url`.
pub fn token_endpoint(login_url: &str) -> (url: String)
    ensures
        url@ == login_url@ + "/oauth2/token"@,
{
    let mut url = login_url.to_owned();
    url.append("/oauth2/token");
    url
}

/// The instant at which a token that lives `expires_in` seconds from `now`
/// is given up: 30 s early, with the lifetime read as a signed 64-bit count.
pub open spec fn expiry_after(now: Timestamp, expires_in: u64) -> int {
    now.unix_nanos + ((expires_in as i64) - EXPIRY_MARGIN_SECS) * NANOS_PER_SEC
}

/// A cached token is given and has not expired at `now`.
pub open spec fn cached_usable(cached: Option<CachedToken>, now: Timestamp) -> bool {
    cached matches Some(ct) && now.unix_nanos < ct.expires_at.unix_nanos
}

impl TokenState {
    /// The state is holding an access token that is still good at `now`.
    pub open spec fn fresh_at(self, now: Timestamp) -> bool {
        now.unix_nanos < self.expires_at.unix_nanos
    }

    /// The starting state of a manager given `refresh_token` and perhaps a
    /// token cached from an earlier session, at `now`.
    pub fn initial(refresh_token: String, cached: Option<CachedToken>, now: Timestamp) -> (st: TokenState)
        ensures
            st.refresh_token == refresh_token,
            cached_usable(cached, now) ==> st.access_token@ == cached->0.access_token@
                && st.api_server@ == cached->0.api_server@ && st.expires_at == cached->0.expires_at,
            !cached_usable(cached, now) ==> st.access_token@.len() == 0 && st.api_server@.len() == 0
                && st.expires_at.unix_nanos == 0,
    {
        match cached {
            Some(ct) => {
                if now.is_before(&ct.expires_at) {
                    return TokenState {
                        access_token: ct.access_token,
                        api_server: ct.api_server,
                        refresh_token,
                        expires_at: ct.expires_at,
                    };
                }
            },
            None => {},
        }
        TokenState {
            access_token: String::new(),
            api_server: String::new(),
            refresh_token,
            expires_at: Timestamp::unix_epoch(),
        }
    }

    /// A refresh is due before first use: no access token is held.
    pub fn needs_refresh(&self) -> (res: bool)
        ensures
            res == (self.access_token@.len() == 0),
    {
        self.access_token.as_str().is_empty()
    }

    /// The access token and API server, where the token is still good at
    /// `now`; `None` where a refresh is due.
    pub fn current(&self, now: Timestamp) -> (res: Option<(String, String)>)
        ensures
            res is Some <==> self.fresh_at(now),
            res matches Some(p) ==> p.0@ == self.access_token@ && p.1@ == self.api_server@,
    {
        if now.is_before(&self.expires_at) {
            Some((self.access_token.clone(), self.api_server.clone()))
        } else {
            None
        }
    }

    /// The token to hand out without asking the server, once the right to
    /// refresh is held: only a non-empty token that is still good at `now`.
    pub fn reusable(&self, now: Timestamp) -> (res: Option<(String, String)>)
        ensures
            res is Some <==> (self.fresh_at(now) && self.access_token@.len() > 0),
            res matches Some(p) ==> p.0@ == self.access_token@ && p.1@ == self.api_server@,
    {
        if now.is_before(&self.expires_at) && !self.access_token.as_str().is_empty() {
            Some((self.access_token.clone(), self.api_server.clone()))
        } else {
            None
        }
    }

    /// Drop the access token, as after a 401 Unauthorized: it is cleared and
    /// marked expired since the epoch, so the next use refreshes.
    pub fn invalidate(&mut self)
        ensures
            final(self).access_token@.len() == 0,
            final(self).expires_at.unix_nanos == 0,
            final(self).api_server == old(self).api_server,
            final(self).refresh_token == old(self).refresh_token,
    {
        self.expires_at = Timestamp::unix_epoch();
        self.access_token = String::new();
    }

    /// Take in the answer of a successful refresh at `now`: the new access
    /// token, API server and (single-use, so rotated) refresh token replace
    /// the old ones, and the token expires 30 s before the server says.
    /// Returns the new access token and API server.
    pub fn apply_refresh(&mut self, resp: &TokenResponse, now: Timestamp) -> (res: (String, String))
        requires
            in_datetime_range(now.unix_nanos as int),
            (resp.expires_in as i64) >= i64::MIN + EXPIRY_MARGIN_SECS,
            in_datetime_range(expiry_after(now, resp.expires_in)),
        ensures
            final(self).access_token@ == resp.access_token@,
            final(self).api_server@ == resp.api_server@,
            final(self).refresh_token@ == resp.refresh_token@,
            final(self).expires_at.unix_nanos == expiry_after(now, resp.expires_in),
            res.0@ == resp.access_token@,
            res.1@ == resp.api_server@,
    {
        let lifetime: i64 = (resp.expires_in as i64) - EXPIRY_MARGIN_SECS;
        let expires_at = Timestamp::from_unix_nanos(now.unix_nanos + (lifetime as i128) * NANOS_PER_SEC);
        self.access_token = resp.access_token.clone();
        self.api_server = resp.api_server.clone();
        self.refresh_token = resp.refresh_token.clone();
        self.expires_at = expires_at;
        (self.access_token.clone(), self.api_server.clone())
    }
}

/// Read after write: once a refresh at `now` has been taken in, the new
/// access token and server are what the state hands out at every instant
/// before the new expiry; with a lifetime over the 30 s margin that
/// includes the instant of the refresh itself.
pub proof fn lemma_refresh_then_current(st: TokenState, resp: TokenResponse, now: Timestamp, later: Timestamp)
    requires
        st.expires_at.unix_nanos == expiry_after(now, resp.expires_in),
    ensures
        later.unix_nanos < expiry_after(now, resp.expires_in) ==> st.fresh_at(later),
        EXPIRY_MARGIN_SECS < resp.expires_in <= i64::MAX ==> st.fresh_at(now),
{
}

/// A token given up after a 401 is never handed out again without a
/// refresh, whatever the time: it is empty, so it is not reusable, and it is
/// expired at every instant from the epoch on.
pub proof fn lemma_invalidated_forces_refresh(st: TokenState, now: Timestamp)
    requires
        st.access_token@.len() == 0,
        st.expires_at.unix_nanos == 0,
    ensures
        !(st.fresh_at(now) && st.access_token@.len() > 0),
        now.unix_nanos >= 0 ==> !st.fresh_at(now),
{
}

} // verus!
