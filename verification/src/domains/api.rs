//! API request tracing vocabulary: HTTP methods and request span field
//! recording.

use crate::spans::{span_record_str, span_record_u16, span_record_u64};
use vstd::prelude::*;

verus! {

/// HTTP methods.
#[derive(Debug, Clone, Copy, PartialEq, Eq, Structural)]
pub enum HttpMethod {
    /// GET request.
    Get,
    /// POST request.
    Post,
    /// PUT request.
    Put,
    /// PATCH request.
    Patch,
    /// DELETE request.
    Delete,
    /// HEAD request.
    Head,
    /// OPTIONS request.
    Options,
}

/// The wire name of each HTTP method.
pub open spec fn spec_method_name(m: HttpMethod) -> Seq<char> {
    match m {
        HttpMethod::Get => "GET"@,
        HttpMethod::Post => "POST"@,
        HttpMethod::Put => "PUT"@,
        HttpMethod::Patch => "PATCH"@,
        HttpMethod::Delete => "DELETE"@,
        HttpMethod::Head => "HEAD"@,
        HttpMethod::Options => "OPTIONS"@,
    }
}

impl HttpMethod {
    /// The string representation of the HTTP method.
    pub fn as_str(&self) -> (r: &'static str)
        ensures
            r@ == spec_method_name(*self),
    {
        match self {
            HttpMethod::Get => "GET",
            HttpMethod::Post => "POST",
            HttpMethod::Put => "PUT",
            HttpMethod::Patch => "PATCH",
            HttpMethod::Delete => "DELETE",
            HttpMethod::Head => "HEAD",
            HttpMethod::Options => "OPTIONS",
        }
    }
}

/// Record API request completion on its span.
pub fn record_request_completion(span: &tracing::Span, status_code: u16, duration_ms: u64) {
    span_record_u16(span, "status_code", status_code);
    span_record_u64(span, "duration_ms", duration_ms);
}

/// Record the request ID on a request span.
pub fn record_request_id(span: &tracing::Span, request_id: &str) {
    span_record_str(span, "request_id", request_id);
}

} // verus!
