//! Rate limiting tracing vocabulary.

use crate::spans::{span_record_str, span_record_u32, span_record_u64};
use vstd::prelude::*;

verus! {

/// Rate limit check result.
#[derive(Debug, Clone, Copy, PartialEq, Eq, Structural)]
pub enum RateLimitResult {
    /// Request allowed.
    Allowed,
    /// Request denied (rate limit exceeded).
    Denied,
    /// Rate limit check skipped.
    Skipped,
}

/// The recorded name of each check result.
pub open spec fn spec_rate_limit_result_name(r: RateLimitResult) -> Seq<char> {
    match r {
        RateLimitResult::Allowed => "allowed"@,
        RateLimitResult::Denied => "denied"@,
        RateLimitResult::Skipped => "skipped"@,
    }
}

impl RateLimitResult {
    /// The string representation of the result.
    pub fn as_str(&self) -> (r: &'static str)
        ensures
            r@ == spec_rate_limit_result_name(*self),
    {
        match self {
            RateLimitResult::Allowed => "allowed",
            RateLimitResult::Denied => "denied",
            RateLimitResult::Skipped => "skipped",
        }
    }
}

/// Record the outcome of a rate limit check on its span.
pub fn record_check_result(
    span: &tracing::Span,
    result: RateLimitResult,
    requests: u32,
    limit: u32,
    window_secs: u64,
    remaining: u32,
) {
    span_record_str(span, "result", result.as_str());
    span_record_u32(span, "requests", requests);
    span_record_u32(span, "limit", limit);
    span_record_u64(span, "window_secs", window_secs);
    span_record_u32(span, "remaining", remaining);
}

/// Record a rate limit configuration on its span.
pub fn record_config(span: &tracing::Span, limit: u32, window_secs: u64) {
    span_record_u32(span, "limit", limit);
    span_record_u64(span, "window_secs", window_secs);
}

} // verus!
