//! Domain-specific tracing vocabularies: API requests, authentication,
//! database operations and rate limiting.

pub mod api;
pub mod auth;
pub mod database;
pub mod rate_limit;
