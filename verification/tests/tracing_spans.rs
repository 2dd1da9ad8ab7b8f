//! Span-creation tests.
//!
//! Span construction lives outside the verified library because the
//! `tracing` span macros cannot appear inside it, so these tests build
//! the same spans through `tracing`'s callsite API: the same span names,
//! fields and inputs the span helpers use.

use tracing::callsite::{DefaultCallsite, Identifier};
use tracing::field::FieldSet;
use tracing::metadata::{Kind, Level, Metadata};
use tracing::Span;

static DB_CALLSITE: DefaultCallsite = DefaultCallsite::new(&DB_META);
static DB_META: Metadata<'static> = Metadata::new(
    "db_operation",
    "gmn_core::domains::database",
    Level::INFO,
    None,
    None,
    None,
    FieldSet::new(&["operation", "table"], Identifier(&DB_CALLSITE)),
    Kind::SPAN,
);

static API_CALLSITE: DefaultCallsite = DefaultCallsite::new(&API_META);
static API_META: Metadata<'static> = Metadata::new(
    "api_request",
    "gmn_core::domains::api",
    Level::INFO,
    None,
    None,
    None,
    FieldSet::new(&["method", "path"], Identifier(&API_CALLSITE)),
    Kind::SPAN,
);

/// A span for a database operation with its common fields.
fn db_operation_span(operation: &str, table: &str) -> Span {
    let fields = DB_META.fields();
    let operation_field = fields.field("operation").expect("declared field");
    let table_field = fields.field("table").expect("declared field");
    let values = [
        (&operation_field, Some(&operation as &dyn tracing::Value)),
        (&table_field, Some(&table as &dyn tracing::Value)),
    ];
    let value_set = fields.value_set(&values);
    Span::new(&DB_META, &value_set)
}

/// A span for an API request with its common fields.
fn api_request_span(method: &str, path: &str) -> Span {
    let fields = API_META.fields();
    let method_field = fields.field("method").expect("declared field");
    let path_field = fields.field("path").expect("declared field");
    let values = [
        (&method_field, Some(&method as &dyn tracing::Value)),
        (&path_field, Some(&path as &dyn tracing::Value)),
    ];
    let value_set = fields.value_set(&values);
    Span::new(&API_META, &value_set)
}

#[test]
fn test_span_creation() {
    let span = db_operation_span("SELECT", "users");
    assert_eq!(span.metadata().unwrap().name(), "db_operation");
}

#[test]
fn test_api_span_creation() {
    let span = api_request_span("GET", "/api/users");
    assert_eq!(span.metadata().unwrap().name(), "api_request");
}
