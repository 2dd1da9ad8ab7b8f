//! Database operation tracing vocabulary.

use crate::spans::{span_record_u32, span_record_u64};
use vstd::prelude::*;

verus! {

/// Database operation types.
#[derive(Debug, Clone, Copy, PartialEq, Eq, Structural)]
pub enum DbOperation {
    /// SELECT query.
    Select,
    /// INSERT query.
    Insert,
    /// UPDATE query.
    Update,
    /// DELETE query.
    Delete,
    /// Transaction begin.
    BeginTransaction,
    /// Transaction commit.
    CommitTransaction,
    /// Transaction rollback.
    RollbackTransaction,
    /// Connection pool operation.
    PoolOperation,
}

/// The recorded name of each database operation.
pub open spec fn spec_db_op_name(op: DbOperation) -> Seq<char> {
    match op {
        DbOperation::Select => "SELECT"@,
        DbOperation::Insert => "INSERT"@,
        DbOperation::Update => "UPDATE"@,
        DbOperation::Delete => "DELETE"@,
        DbOperation::BeginTransaction => "BEGIN"@,
        DbOperation::CommitTransaction => "COMMIT"@,
        DbOperation::RollbackTransaction => "ROLLBACK"@,
        DbOperation::PoolOperation => "POOL"@,
    }
}

impl DbOperation {
    /// The string representation of the operation.
    pub fn as_str(&self) -> (r: &'static str)
        ensures
            r@ == spec_db_op_name(*self),
    {
        match self {
            DbOperation::Select => "SELECT",
            DbOperation::Insert => "INSERT",
            DbOperation::Update => "UPDATE",
            DbOperation::Delete => "DELETE",
            DbOperation::BeginTransaction => "BEGIN",
            DbOperation::CommitTransaction => "COMMIT",
            DbOperation::RollbackTransaction => "ROLLBACK",
            DbOperation::PoolOperation => "POOL",
        }
    }
}

/// Record query execution metrics on a query span.
pub fn record_query_metrics(span: &tracing::Span, rows_affected: u64, duration_ms: u64) {
    span_record_u64(span, "rows_affected", rows_affected);
    span_record_u64(span, "duration_ms", duration_ms);
}

/// Record connection pool metrics on a pool span.
pub fn record_pool_metrics(span: &tracing::Span, active: u32, idle: u32) {
    span_record_u32(span, "active_connections", active);
    span_record_u32(span, "idle_connections", idle);
}

} // verus!
