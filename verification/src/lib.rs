//! Client-side logic for the Questrade REST API: request policy, rate-limit
//! tracking, token lifecycle, request paths and date windows.

pub mod api_types;
pub mod auth;
pub mod clock;
pub mod datetime;
pub mod endpoints;
pub mod error;
pub mod headers;
pub mod order;
pub mod rate_limit;
pub mod retry;
pub mod text;
pub mod timestamp;
pub mod windows;

pub use auth::{CachedToken, TokenResponse};
pub use error::{QuestradeError, Result};

use vstd::prelude::*;

verus! {
} // verus!
