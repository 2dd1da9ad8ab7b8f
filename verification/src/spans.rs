//! Shared access to `tracing` spans: the span type and field recording.
//!
//! Span values are opaque here; recording a field is an effect on the
//! tracing collector, about which nothing can be stated.

use vstd::prelude::*;

verus! {

/// Declares `tracing::Span` so span values can flow through the field
/// recording helpers; the value itself is opaque here.
#[verifier::external_type_specification]
#[verifier::external_body]
pub struct ExSpan(tracing::Span);

/// Relies on `tracing::Span::record` with a string value: records the
/// field on the span, an effect on the tracing collector.
#[verifier::external_body]
pub(crate) fn span_record_str(span: &tracing::Span, field: &'static str, value: &str) {
    span.record(field, value);
}

/// Relies on `tracing::Span::record` with a `u64` value.
#[verifier::external_body]
pub(crate) fn span_record_u64(span: &tracing::Span, field: &'static str, value: u64) {
    span.record(field, value);
}

/// Relies on `tracing::Span::record` with a `u32` value.
#[verifier::external_body]
pub(crate) fn span_record_u32(span: &tracing::Span, field: &'static str, value: u32) {
    span.record(field, value);
}

/// Relies on `tracing::Span::record` with a `u16` value.
#[verifier::external_body]
pub(crate) fn span_record_u16(span: &tracing::Span, field: &'static str, value: u16) {
    span.record(field, value);
}

/// Relies on `tracing::Span::record` with a `bool` value.
#[verifier::external_body]
pub(crate) fn span_record_bool(span: &tracing::Span, field: &'static str, value: bool) {
    span.record(field, value);
}

} // verus!
