//! The library's error hierarchy: one top-level error wrapping
//! domain-specific error families, each with a stable code, an optional
//! resolution hint, optional context, and a display message.

use crate::text::{spec_u64_string, u64_to_string};
use vstd::prelude::*;

verus! {

/// Declares `std::io::Error` so error variants can carry the underlying
/// operating-system failure; the value itself is opaque here.
#[verifier::external_type_specification]
#[verifier::external_body]
pub struct ExIoError(std::io::Error);

/// Declares `tracing::subscriber::SetGlobalDefaultError` so the tracing
/// error can carry the subscriber failure; the value itself is opaque
/// here.
#[verifier::external_type_specification]
#[verifier::external_body]
pub struct ExSetGlobalDefaultError(tracing::subscriber::SetGlobalDefaultError);

/// Configuration-related errors.
pub enum ConfigError {
    /// Invalid log level specified.
    InvalidLogLevel { level: String },
    /// Invalid log format specified.
    InvalidLogFormat { format: String },
    /// Invalid output path.
    InvalidOutputPath { path: String, source: std::io::Error },
    /// Environment variable parsing error.
    EnvVarParse { var: String, value: String },
}

/// Tracing initialization errors.
pub enum TracingError {
    /// The subscriber was already initialized.
    AlreadyInitialized,
    /// The log file could not be created.
    FileCreationFailed { path: String, source: std::io::Error },
    /// The global subscriber could not be installed.
    SetGlobalFailed { source: tracing::subscriber::SetGlobalDefaultError },
}

/// Database-related errors.
pub enum DatabaseError {
    /// Connection failed.
    ConnectionFailed(String),
    /// Query failed.
    QueryFailed(String),
    /// Transaction failed.
    TransactionFailed(String),
}

/// Authentication and authorization errors.
pub enum AuthError {
    /// Invalid credentials.
    InvalidCredentials,
    /// Token expired.
    TokenExpired,
    /// Insufficient permissions.
    InsufficientPermissions,
}

/// Rate limiting error.
pub struct RateLimitError {
    /// Number of requests made.
    pub requests: u32,
    /// Maximum allowed requests.
    pub limit: u32,
    /// Time window in seconds.
    pub window_secs: u64,
}

/// API and network errors.
pub enum ApiError {
    /// Network request failed.
    NetworkError(String),
    /// Invalid response.
    InvalidResponse(String),
    /// Server error with an HTTP status.
    ServerError { status: u16, message: String },
}

/// The library's top-level error.
pub enum GmnError {
    /// Configuration-related errors.
    Config(ConfigError),
    /// Tracing initialization errors.
    Tracing(TracingError),
    /// Database-related errors.
    Database(DatabaseError),
    /// Authentication errors.
    Auth(AuthError),
    /// Rate limiting errors.
    RateLimit(RateLimitError),
    /// API and network errors.
    Api(ApiError),
    /// Generic internal error.
    Internal(String),
}

/// Result of library operations.
pub type GmnResult<T> = Result<T, GmnError>;

impl ConfigError {
    /// Stable code of this error.
    pub open spec fn spec_code(&self) -> Seq<char> {
        match self {
            ConfigError::InvalidLogLevel { .. } => "GMN-CFG-001"@,
            ConfigError::InvalidLogFormat { .. } => "GMN-CFG-002"@,
            ConfigError::InvalidOutputPath { .. } => "GMN-CFG-003"@,
            ConfigError::EnvVarParse { .. } => "GMN-CFG-004"@,
        }
    }

    /// The error code shown in the rendered box.
    pub fn code(&self) -> (r: &'static str)
        ensures
            r@ == self.spec_code(),
    {
        match self {
            ConfigError::InvalidLogLevel { .. } => "GMN-CFG-001",
            ConfigError::InvalidLogFormat { .. } => "GMN-CFG-002",
            ConfigError::InvalidOutputPath { .. } => "GMN-CFG-003",
            ConfigError::EnvVarParse { .. } => "GMN-CFG-004",
        }
    }

    /// The fixed hint text of each variant.
    pub open spec fn spec_hint(&self) -> Seq<char> {
        match self {
            ConfigError::InvalidLogLevel { .. } => "Valid log levels: trace, debug, info, warn, error. You can also use directive syntax like 'gmn_core=debug,hyper=info'"@,
            ConfigError::InvalidLogFormat { .. } => "Valid formats: pretty, compact, json"@,
            ConfigError::InvalidOutputPath { .. } => "Ensure the directory exists and you have write permissions"@,
            ConfigError::EnvVarParse { .. } => "Check the environment variable value matches the expected format"@,
        }
    }

    /// A resolution hint: every configuration error has one, with the
    /// variant's fixed text.
    pub fn hint(&self) -> (r: Option<&'static str>)
        ensures
            r matches Some(h) && h@ == self.spec_hint(),
    {
        match self {
            ConfigError::InvalidLogLevel { .. } => Some(
                "Valid log levels: trace, debug, info, warn, error. You can also use directive syntax like 'gmn_core=debug,hyper=info'",
            ),
            ConfigError::InvalidLogFormat { .. } => Some("Valid formats: pretty, compact, json"),
            ConfigError::InvalidOutputPath { .. } => Some(
                "Ensure the directory exists and you have write permissions",
            ),
            ConfigError::EnvVarParse { .. } => Some(
                "Check the environment variable value matches the expected format",
            ),
        }
    }

    /// Context text of each variant, where one exists.
    pub open spec fn spec_context(&self) -> Option<Seq<char>> {
        match self {
            ConfigError::InvalidOutputPath { path, .. } => Some(
                "Attempted to use path: "@ + path@,
            ),
            ConfigError::EnvVarParse { var, value } => Some(
                "Variable: "@ + var@ + ", Value: "@ + value@,
            ),
            _ => None,
        }
    }

    /// Extra context, present exactly for the path and environment
    /// variants, with their exact text.
    pub fn context(&self) -> (r: Option<String>)
        ensures
            match self.spec_context() {
                Some(t) => r matches Some(s) && s@ == t,
                None => r is None,
            },
    {
        match self {
            ConfigError::InvalidOutputPath { path, .. } => {
                let mut s = String::new();
                s.append("Attempted to use path: ");
                s.append(path.as_str());
                Some(s)
            },
            ConfigError::EnvVarParse { var, value } => {
                let mut s = String::new();
                s.append("Variable: ");
                s.append(var.as_str());
                s.append(", Value: ");
                s.append(value.as_str());
                Some(s)
            },
            _ => None,
        }
    }

    /// Display text of this error.
    pub open spec fn spec_message(&self) -> Seq<char> {
        match self {
            ConfigError::InvalidLogLevel { level } => "Invalid log level: "@ + level@,
            ConfigError::InvalidLogFormat { format } => "Invalid log format: "@ + format@,
            ConfigError::InvalidOutputPath { path, .. } => "Invalid output path: "@ + path@,
            ConfigError::EnvVarParse { var, value } => "Failed to parse environment variable "@
                + var@ + ": "@ + value@,
        }
    }

    /// The display text shown for this error.
    pub fn message(&self) -> (r: String)
        ensures
            r@ == self.spec_message(),
    {
        let mut s = String::new();
        match self {
            ConfigError::InvalidLogLevel { level } => {
                s.append("Invalid log level: ");
                s.append(level.as_str());
            },
            ConfigError::InvalidLogFormat { format } => {
                s.append("Invalid log format: ");
                s.append(format.as_str());
            },
            ConfigError::InvalidOutputPath { path, .. } => {
                s.append("Invalid output path: ");
                s.append(path.as_str());
            },
            ConfigError::EnvVarParse { var, value } => {
                s.append("Failed to parse environment variable ");
                s.append(var.as_str());
                s.append(": ");
                s.append(value.as_str());
            },
        }
        s
    }
}

impl TracingError {
    /// Stable code of this error.
    pub open spec fn spec_code(&self) -> Seq<char> {
        match self {
            TracingError::AlreadyInitialized => "GMN-TRC-001"@,
            TracingError::FileCreationFailed { .. } => "GMN-TRC-002"@,
            TracingError::SetGlobalFailed { .. } => "GMN-TRC-003"@,
        }
    }

    /// The error code shown in the rendered box.
    pub fn code(&self) -> (r: &'static str)
        ensures
            r@ == self.spec_code(),
    {
        match self {
            TracingError::AlreadyInitialized => "GMN-TRC-001",
            TracingError::FileCreationFailed { .. } => "GMN-TRC-002",
            TracingError::SetGlobalFailed { .. } => "GMN-TRC-003",
        }
    }

    /// The fixed hint text of each variant.
    pub open spec fn spec_hint(&self) -> Seq<char> {
        match self {
            TracingError::AlreadyInitialized => "Tracing can only be initialized once. Call init_tracing() early in your application startup."@,
            TracingError::FileCreationFailed { .. } => "Ensure the log directory exists and you have write permissions"@,
            TracingError::SetGlobalFailed { .. } => "This usually indicates tracing was already initialized elsewhere"@,
        }
    }

    /// A resolution hint: every tracing error has one, with the
    /// variant's fixed text.
    pub fn hint(&self) -> (r: Option<&'static str>)
        ensures
            r matches Some(h) && h@ == self.spec_hint(),
    {
        match self {
            TracingError::AlreadyInitialized => Some(
                "Tracing can only be initialized once. Call init_tracing() early in your application startup.",
            ),
            TracingError::FileCreationFailed { .. } => Some(
                "Ensure the log directory exists and you have write permissions",
            ),
            TracingError::SetGlobalFailed { .. } => Some(
                "This usually indicates tracing was already initialized elsewhere",
            ),
        }
    }

    /// Context text of each variant, where one exists.
    pub open spec fn spec_context(&self) -> Option<Seq<char>> {
        match self {
            TracingError::FileCreationFailed { path, .. } => Some("Log file path: "@ + path@),
            _ => None,
        }
    }

    /// Extra context, present exactly for the file-creation variant,
    /// with its exact text.
    pub fn context(&self) -> (r: Option<String>)
        ensures
            match self.spec_context() {
                Some(t) => r matches Some(s) && s@ == t,
                None => r is None,
            },
    {
        match self {
            TracingError::FileCreationFailed { path, .. } => {
                let mut s = String::new();
                s.append("Log file path: ");
                s.append(path.as_str());
                Some(s)
            },
            _ => None,
        }
    }

    /// Display text of this error.
    pub open spec fn spec_message(&self) -> Seq<char> {
        match self {
            TracingError::AlreadyInitialized => "Tracing subscriber already initialized"@,
            TracingError::FileCreationFailed { path, .. } => "Failed to create log file: "@ + path@,
            TracingError::SetGlobalFailed { .. } => "Failed to set global tracing subscriber"@,
        }
    }

    /// The display text shown for this error.
    pub fn message(&self) -> (r: String)
        ensures
            r@ == self.spec_message(),
    {
        let mut s = String::new();
        match self {
            TracingError::AlreadyInitialized => {
                s.append("Tracing subscriber already initialized");
            },
            TracingError::FileCreationFailed { path, .. } => {
                s.append("Failed to create log file: ");
                s.append(path.as_str());
            },
            TracingError::SetGlobalFailed { .. } => {
                s.append("Failed to set global tracing subscriber");
            },
        }
        s
    }
}

impl DatabaseError {
    /// Stable code of this error.
    pub open spec fn spec_code(&self) -> Seq<char> {
        match self {
            DatabaseError::ConnectionFailed(_) => "GMN-DB-001"@,
            DatabaseError::QueryFailed(_) => "GMN-DB-002"@,
            DatabaseError::TransactionFailed(_) => "GMN-DB-003"@,
        }
    }

    /// The error code shown in the rendered box.
    pub fn code(&self) -> (r: &'static str)
        ensures
            r@ == self.spec_code(),
    {
        match self {
            DatabaseError::ConnectionFailed(_) => "GMN-DB-001",
            DatabaseError::QueryFailed(_) => "GMN-DB-002",
            DatabaseError::TransactionFailed(_) => "GMN-DB-003",
        }
    }

    /// The fixed hint text of each variant.
    pub open spec fn spec_hint(&self) -> Seq<char> {
        match self {
            DatabaseError::ConnectionFailed(_) => "Check database connection string and network connectivity"@,
            DatabaseError::QueryFailed(_) => "Verify query syntax and database schema"@,
            DatabaseError::TransactionFailed(_) => "Check for conflicts or constraint violations"@,
        }
    }

    /// A resolution hint: every database error has one, with the
    /// variant's fixed text.
    pub fn hint(&self) -> (r: Option<&'static str>)
        ensures
            r matches Some(h) && h@ == self.spec_hint(),
    {
        match self {
            DatabaseError::ConnectionFailed(_) => Some(
                "Check database connection string and network connectivity",
            ),
            DatabaseError::QueryFailed(_) => Some("Verify query syntax and database schema"),
            DatabaseError::TransactionFailed(_) => Some(
                "Check for conflicts or constraint violations",
            ),
        }
    }

    /// Database errors carry no extra context.
    pub fn context(&self) -> (r: Option<String>)
        ensures
            r is None,
    {
        None
    }

    /// Display text of this error.
    pub open spec fn spec_message(&self) -> Seq<char> {
        match self {
            DatabaseError::ConnectionFailed(msg) => "Database connection failed: "@ + msg@,
            DatabaseError::QueryFailed(msg) => "Database query failed: "@ + msg@,
            DatabaseError::TransactionFailed(msg) => "Database transaction failed: "@ + msg@,
        }
    }

    /// The display text shown for this error.
    pub fn message(&self) -> (r: String)
        ensures
            r@ == self.spec_message(),
    {
        let mut s = String::new();
        match self {
            DatabaseError::ConnectionFailed(msg) => {
                s.append("Database connection failed: ");
                s.append(msg.as_str());
            },
            DatabaseError::QueryFailed(msg) => {
                s.append("Database query failed: ");
                s.append(msg.as_str());
            },
            DatabaseError::TransactionFailed(msg) => {
                s.append("Database transaction failed: ");
                s.append(msg.as_str());
            },
        }
        s
    }
}

impl AuthError {
    /// Stable code of this error.
    pub open spec fn spec_code(&self) -> Seq<char> {
        match self {
            AuthError::InvalidCredentials => "GMN-AUTH-001"@,
            AuthError::TokenExpired => "GMN-AUTH-002"@,
            AuthError::InsufficientPermissions => "GMN-AUTH-003"@,
        }
    }

    /// The error code shown in the rendered box.
    pub fn code(&self) -> (r: &'static str)
        ensures
            r@ == self.spec_code(),
    {
        match self {
            AuthError::InvalidCredentials => "GMN-AUTH-001",
            AuthError::TokenExpired => "GMN-AUTH-002",
            AuthError::InsufficientPermissions => "GMN-AUTH-003",
        }
    }

    /// The fixed hint text of each variant.
    pub open spec fn spec_hint(&self) -> Seq<char> {
        match self {
            AuthError::InvalidCredentials => "Verify your API key or credentials"@,
            AuthError::TokenExpired => "Refresh your authentication token"@,
            AuthError::InsufficientPermissions => "Contact administrator for required permissions"@,
        }
    }

    /// A resolution hint: every authentication error has one, with the
    /// variant's fixed text.
    pub fn hint(&self) -> (r: Option<&'static str>)
        ensures
            r matches Some(h) && h@ == self.spec_hint(),
    {
        match self {
            AuthError::InvalidCredentials => Some("Verify your API key or credentials"),
            AuthError::TokenExpired => Some("Refresh your authentication token"),
            AuthError::InsufficientPermissions => Some(
                "Contact administrator for required permissions",
            ),
        }
    }

    /// Authentication errors carry no extra context.
    pub fn context(&self) -> (r: Option<String>)
        ensures
            r is None,
    {
        None
    }

    /// Display text of this error.
    pub open spec fn spec_message(&self) -> Seq<char> {
        match self {
            AuthError::InvalidCredentials => "Invalid credentials"@,
            AuthError::TokenExpired => "Authentication token expired"@,
            AuthError::InsufficientPermissions => "Insufficient permissions"@,
        }
    }

    /// The display text shown for this error.
    pub fn message(&self) -> (r: String)
        ensures
            r@ == self.spec_message(),
    {
        match self {
            AuthError::InvalidCredentials => String::from_str("Invalid credentials"),
            AuthError::TokenExpired => String::from_str("Authentication token expired"),
            AuthError::InsufficientPermissions => String::from_str("Insufficient permissions"),
        }
    }
}

impl RateLimitError {
    /// The error code shown in the rendered box.
    pub fn code(&self) -> (r: &'static str)
        ensures
            r@ == "GMN-RATE-001"@,
    {
        "GMN-RATE-001"
    }

    /// The fixed hint text.
    pub open spec fn spec_hint(&self) -> Seq<char> {
        "Wait before making additional requests or upgrade your plan for higher limits"@
    }

    /// A resolution hint: always present for rate limiting, with its
    /// fixed text.
    pub fn hint(&self) -> (r: Option<&'static str>)
        ensures
            r matches Some(h) && h@ == self.spec_hint(),
    {
        Some("Wait before making additional requests or upgrade your plan for higher limits")
    }

    /// The context text: the request count against the limit and window.
    pub open spec fn spec_context_text(&self) -> Seq<char> {
        "Requests: "@ + spec_u64_string(self.requests as nat) + "/"@ + spec_u64_string(
            self.limit as nat,
        ) + " in "@ + spec_u64_string(self.window_secs as nat) + " seconds"@
    }

    /// Context: the request count against the limit and window.
    pub fn context(&self) -> (r: Option<String>)
        ensures
            r matches Some(s) && s@ == self.spec_context_text(),
    {
        let mut s = String::new();
        s.append("Requests: ");
        let requests = u64_to_string(self.requests as u64);
        s.append(requests.as_str());
        s.append("/");
        let limit = u64_to_string(self.limit as u64);
        s.append(limit.as_str());
        s.append(" in ");
        let window = u64_to_string(self.window_secs);
        s.append(window.as_str());
        s.append(" seconds");
        Some(s)
    }

    /// Display text of this error.
    pub open spec fn spec_message(&self) -> Seq<char> {
        "Rate limit exceeded: "@ + spec_u64_string(self.requests as nat) + " requests in "@
            + spec_u64_string(self.window_secs as nat) + " seconds (limit: "@ + spec_u64_string(
            self.limit as nat,
        ) + ")"@
    }

    /// The display text shown for this error.
    pub fn message(&self) -> (r: String)
        ensures
            r@ == self.spec_message(),
    {
        let mut s = String::new();
        s.append("Rate limit exceeded: ");
        let requests = u64_to_string(self.requests as u64);
        s.append(requests.as_str());
        s.append(" requests in ");
        let window = u64_to_string(self.window_secs);
        s.append(window.as_str());
        s.append(" seconds (limit: ");
        let limit = u64_to_string(self.limit as u64);
        s.append(limit.as_str());
        s.append(")");
        s
    }
}

impl ApiError {
    /// Stable code of this error.
    pub open spec fn spec_code(&self) -> Seq<char> {
        match self {
            ApiError::NetworkError(_) => "GMN-API-001"@,
            ApiError::InvalidResponse(_) => "GMN-API-002"@,
            ApiError::ServerError { .. } => "GMN-API-003"@,
        }
    }

    /// The error code shown in the rendered box.
    pub fn code(&self) -> (r: &'static str)
        ensures
            r@ == self.spec_code(),
    {
        match self {
            ApiError::NetworkError(_) => "GMN-API-001",
            ApiError::InvalidResponse(_) => "GMN-API-002",
            ApiError::ServerError { .. } => "GMN-API-003",
        }
    }

    /// The fixed hint text of each variant; server errors pick theirs by
    /// whether the status signals a server-side fault.
    pub open spec fn spec_hint(&self) -> Seq<char> {
        match self {
            ApiError::NetworkError(_) => "Check network connectivity and firewall settings"@,
            ApiError::InvalidResponse(_) => "The API response format may have changed"@,
            ApiError::ServerError { status, .. } => if *status >= 500 {
                "Server is experiencing issues, try again later"@
            } else {
                "Check request parameters and authentication"@
            },
        }
    }

    /// A resolution hint: every API error has one, chosen for server
    /// errors by whether the status signals a server-side fault.
    pub fn hint(&self) -> (r: Option<&'static str>)
        ensures
            r matches Some(h) && h@ == self.spec_hint(),
    {
        match self {
            ApiError::NetworkError(_) => Some("Check network connectivity and firewall settings"),
            ApiError::InvalidResponse(_) => Some("The API response format may have changed"),
            ApiError::ServerError { status, .. } => {
                if *status >= 500 {
                    Some("Server is experiencing issues, try again later")
                } else {
                    Some("Check request parameters and authentication")
                }
            },
        }
    }

    /// Context text of each variant, where one exists.
    pub open spec fn spec_context(&self) -> Option<Seq<char>> {
        match self {
            ApiError::ServerError { status, .. } => Some(
                "HTTP status: "@ + spec_u64_string(*status as nat),
            ),
            _ => None,
        }
    }

    /// Context: the HTTP status, present exactly for server errors, with
    /// its exact text.
    pub fn context(&self) -> (r: Option<String>)
        ensures
            match self.spec_context() {
                Some(t) => r matches Some(s) && s@ == t,
                None => r is None,
            },
    {
        match self {
            ApiError::ServerError { status, .. } => {
                let mut s = String::new();
                s.append("HTTP status: ");
                let status_text = u64_to_string(*status as u64);
                s.append(status_text.as_str());
                Some(s)
            },
            _ => None,
        }
    }

    /// Display text of this error.
    pub open spec fn spec_message(&self) -> Seq<char> {
        match self {
            ApiError::NetworkError(msg) => "Network error: "@ + msg@,
            ApiError::InvalidResponse(msg) => "Invalid response: "@ + msg@,
            ApiError::ServerError { status, message } => "Server error ("@ + spec_u64_string(
                *status as nat,
            ) + "): "@ + message@,
        }
    }

    /// The display text shown for this error.
    pub fn message(&self) -> (r: String)
        ensures
            r@ == self.spec_message(),
    {
        let mut s = String::new();
        match self {
            ApiError::NetworkError(msg) => {
                s.append("Network error: ");
                s.append(msg.as_str());
            },
            ApiError::InvalidResponse(msg) => {
                s.append("Invalid response: ");
                s.append(msg.as_str());
            },
            ApiError::ServerError { status, message } => {
                s.append("Server error (");
                let status_text = u64_to_string(*status as u64);
                s.append(status_text.as_str());
                s.append("): ");
                s.append(message.as_str());
            },
        }
        s
    }
}

impl GmnError {
    /// Stable code of this error, delegated to the wrapped family.
    pub open spec fn spec_code(&self) -> Seq<char> {
        match self {
            GmnError::Config(e) => e.spec_code(),
            GmnError::Tracing(e) => e.spec_code(),
            GmnError::Database(e) => e.spec_code(),
            GmnError::Auth(e) => e.spec_code(),
            GmnError::RateLimit(_) => "GMN-RATE-001"@,
            GmnError::Api(e) => e.spec_code(),
            GmnError::Internal(_) => "GMN-000"@,
        }
    }

    /// The error code shown in the rendered box.
    pub fn code(&self) -> (r: &'static str)
        ensures
            r@ == self.spec_code(),
    {
        match self {
            GmnError::Config(e) => e.code(),
            GmnError::Tracing(e) => e.code(),
            GmnError::Database(e) => e.code(),
            GmnError::Auth(e) => e.code(),
            GmnError::RateLimit(e) => e.code(),
            GmnError::Api(e) => e.code(),
            GmnError::Internal(_) => "GMN-000",
        }
    }

    /// The hint text this error carries: the wrapped family's fixed
    /// text, absent only for internal errors.
    pub open spec fn spec_hint(&self) -> Option<Seq<char>> {
        match self {
            GmnError::Config(e) => Some(e.spec_hint()),
            GmnError::Tracing(e) => Some(e.spec_hint()),
            GmnError::Database(e) => Some(e.spec_hint()),
            GmnError::Auth(e) => Some(e.spec_hint()),
            GmnError::RateLimit(e) => Some(e.spec_hint()),
            GmnError::Api(e) => Some(e.spec_hint()),
            GmnError::Internal(_) => None,
        }
    }

    /// A resolution hint: the wrapped family's fixed text, absent only
    /// for internal errors.
    pub fn hint(&self) -> (r: Option<&str>)
        ensures
            match self.spec_hint() {
                Some(t) => r matches Some(h) && h@ == t,
                None => r is None,
            },
    {
        match self {
            GmnError::Config(e) => e.hint(),
            GmnError::Tracing(e) => e.hint(),
            GmnError::Database(e) => e.hint(),
            GmnError::Auth(e) => e.hint(),
            GmnError::RateLimit(e) => e.hint(),
            GmnError::Api(e) => e.hint(),
            GmnError::Internal(_) => None,
        }
    }

    /// The context text this error carries: the wrapped family's, where
    /// one exists.
    pub open spec fn spec_context(&self) -> Option<Seq<char>> {
        match self {
            GmnError::Config(e) => e.spec_context(),
            GmnError::Tracing(e) => e.spec_context(),
            GmnError::Database(_) => None,
            GmnError::Auth(_) => None,
            GmnError::RateLimit(e) => Some(e.spec_context_text()),
            GmnError::Api(e) => e.spec_context(),
            GmnError::Internal(_) => None,
        }
    }

    /// Extra context: the wrapped family's text, present exactly where
    /// the family carries one.
    pub fn context(&self) -> (r: Option<String>)
        ensures
            match self.spec_context() {
                Some(t) => r matches Some(s) && s@ == t,
                None => r is None,
            },
    {
        match self {
            GmnError::Config(e) => e.context(),
            GmnError::Tracing(e) => e.context(),
            GmnError::Database(e) => e.context(),
            GmnError::Auth(e) => e.context(),
            GmnError::RateLimit(e) => e.context(),
            GmnError::Api(e) => e.context(),
            GmnError::Internal(_) => None,
        }
    }

    /// Display text: the family prefix, then the wrapped error's text.
    pub open spec fn spec_message(&self) -> Seq<char> {
        match self {
            GmnError::Config(e) => "Configuration error: "@ + e.spec_message(),
            GmnError::Tracing(e) => "Tracing error: "@ + e.spec_message(),
            GmnError::Database(e) => "Database error: "@ + e.spec_message(),
            GmnError::Auth(e) => "Authentication error: "@ + e.spec_message(),
            GmnError::RateLimit(e) => "Rate limit exceeded: "@ + e.spec_message(),
            GmnError::Api(e) => "API error: "@ + e.spec_message(),
            GmnError::Internal(msg) => "Internal error: "@ + msg@,
        }
    }

    /// The display text shown for this error.
    pub fn message(&self) -> (r: String)
        ensures
            r@ == self.spec_message(),
    {
        let mut s = String::new();
        match self {
            GmnError::Config(e) => {
                s.append("Configuration error: ");
                let m = e.message();
                s.append(m.as_str());
            },
            GmnError::Tracing(e) => {
                s.append("Tracing error: ");
                let m = e.message();
                s.append(m.as_str());
            },
            GmnError::Database(e) => {
                s.append("Database error: ");
                let m = e.message();
                s.append(m.as_str());
            },
            GmnError::Auth(e) => {
                s.append("Authentication error: ");
                let m = e.message();
                s.append(m.as_str());
            },
            GmnError::RateLimit(e) => {
                s.append("Rate limit exceeded: ");
                let m = e.message();
                s.append(m.as_str());
            },
            GmnError::Api(e) => {
                s.append("API error: ");
                let m = e.message();
                s.append(m.as_str());
            },
            GmnError::Internal(msg) => {
                s.append("Internal error: ");
                s.append(msg.as_str());
            },
        }
        s
    }

    /// The human-readable title of this error's family.
    pub fn title(&self) -> (r: &'static str)
        ensures
            match self {
                GmnError::Config(_) => r@ == "Configuration Error"@,
                GmnError::Tracing(_) => r@ == "Tracing Error"@,
                GmnError::Database(_) => r@ == "Database Error"@,
                GmnError::Auth(_) => r@ == "Authentication Error"@,
                GmnError::RateLimit(_) => r@ == "Rate Limit Exceeded"@,
                GmnError::Api(_) => r@ == "API Error"@,
                GmnError::Internal(_) => r@ == "Internal Error"@,
            },
    {
        match self {
            GmnError::Config(_) => "Configuration Error",
            GmnError::Tracing(_) => "Tracing Error",
            GmnError::Database(_) => "Database Error",
            GmnError::Auth(_) => "Authentication Error",
            GmnError::RateLimit(_) => "Rate Limit Exceeded",
            GmnError::Api(_) => "API Error",
            GmnError::Internal(_) => "Internal Error",
        }
    }
}

impl From<ConfigError> for GmnError {
    /// Wrap a configuration error.
    fn from(e: ConfigError) -> (r: GmnError) {
        GmnError::Config(e)
    }
}

impl vstd::std_specs::convert::FromSpecImpl<ConfigError> for GmnError {
    open spec fn obeys_from_spec() -> bool {
        true
    }

    open spec fn from_spec(e: ConfigError) -> GmnError {
        GmnError::Config(e)
    }
}

impl From<TracingError> for GmnError {
    /// Wrap a tracing error.
    fn from(e: TracingError) -> (r: GmnError) {
        GmnError::Tracing(e)
    }
}

impl vstd::std_specs::convert::FromSpecImpl<TracingError> for GmnError {
    open spec fn obeys_from_spec() -> bool {
        true
    }

    open spec fn from_spec(e: TracingError) -> GmnError {
        GmnError::Tracing(e)
    }
}

impl From<DatabaseError> for GmnError {
    /// Wrap a database error.
    fn from(e: DatabaseError) -> (r: GmnError) {
        GmnError::Database(e)
    }
}

impl vstd::std_specs::convert::FromSpecImpl<DatabaseError> for GmnError {
    open spec fn obeys_from_spec() -> bool {
        true
    }

    open spec fn from_spec(e: DatabaseError) -> GmnError {
        GmnError::Database(e)
    }
}

impl From<AuthError> for GmnError {
    /// Wrap an authentication error.
    fn from(e: AuthError) -> (r: GmnError) {
        GmnError::Auth(e)
    }
}

impl vstd::std_specs::convert::FromSpecImpl<AuthError> for GmnError {
    open spec fn obeys_from_spec() -> bool {
        true
    }

    open spec fn from_spec(e: AuthError) -> GmnError {
        GmnError::Auth(e)
    }
}

impl From<RateLimitError> for GmnError {
    /// Wrap a rate limiting error.
    fn from(e: RateLimitError) -> (r: GmnError) {
        GmnError::RateLimit(e)
    }
}

impl vstd::std_specs::convert::FromSpecImpl<RateLimitError> for GmnError {
    open spec fn obeys_from_spec() -> bool {
        true
    }

    open spec fn from_spec(e: RateLimitError) -> GmnError {
        GmnError::RateLimit(e)
    }
}

impl From<ApiError> for GmnError {
    /// Wrap an API error.
    fn from(e: ApiError) -> (r: GmnError) {
        GmnError::Api(e)
    }
}

impl vstd::std_specs::convert::FromSpecImpl<ApiError> for GmnError {
    open spec fn obeys_from_spec() -> bool {
        true
    }

    open spec fn from_spec(e: ApiError) -> GmnError {
        GmnError::Api(e)
    }
}

} // verus!
