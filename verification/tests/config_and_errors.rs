//! Configuration parsing and error-family tests.

use gmn_core::config::{LogFormat, LogOutput, TracingConfig};
use gmn_core::errors::{
    ApiError, AuthError, ConfigError, DatabaseError, GmnError, RateLimitError, TracingError,
};

#[test]
fn test_log_format_from_str_case_insensitive() {
    assert_eq!(LogFormat::from_str("pretty"), Some(LogFormat::Pretty));
    assert_eq!(LogFormat::from_str("PRETTY"), Some(LogFormat::Pretty));
    assert_eq!(LogFormat::from_str("Compact"), Some(LogFormat::Compact));
    assert_eq!(LogFormat::from_str("jSoN"), Some(LogFormat::Json));
    assert_eq!(LogFormat::from_str("verbose"), None);
    assert_eq!(LogFormat::from_str(""), None);
}

#[test]
fn test_config_defaults() {
    let c = TracingConfig::new();
    assert_eq!(c.log_level, "info");
    assert_eq!(c.format, LogFormat::Pretty);
    assert!(matches!(c.output, LogOutput::Stderr));
    assert!(c.with_timestamps);
    assert!(!c.with_thread_ids);
    assert!(!c.with_thread_names);
    assert!(c.with_file_line);
    assert!(c.with_span_list);
    assert!(c.with_ansi);
}

#[test]
fn test_config_presets() {
    let dev = TracingConfig::development();
    assert_eq!(dev.log_level, "debug");
    assert_eq!(dev.format, LogFormat::Pretty);
    assert!(dev.with_ansi);

    let prod = TracingConfig::production();
    assert_eq!(prod.log_level, "info");
    assert_eq!(prod.format, LogFormat::Json);
    assert!(prod.with_thread_ids);
    assert!(!prod.with_ansi);
    match prod.output {
        LogOutput::Both { console, file } => {
            assert!(matches!(*console, LogOutput::Stderr));
            assert_eq!(file, "logs/gmn.log");
        },
        _ => panic!("production logs to console and file"),
    }

    let test = TracingConfig::testing();
    assert_eq!(test.log_level, "warn");
    assert_eq!(test.format, LogFormat::Compact);
    assert!(!test.with_timestamps);
}

#[test]
fn test_config_builders() {
    let c = TracingConfig::new()
        .with_log_level(String::from("trace"))
        .with_format(LogFormat::Compact)
        .with_output(LogOutput::Stdout)
        .with_timestamps(false)
        .with_thread_ids(true)
        .with_thread_names(true)
        .with_file_line(false)
        .with_span_list(false)
        .with_ansi(false);
    assert_eq!(c.log_level, "trace");
    assert_eq!(c.format, LogFormat::Compact);
    assert!(matches!(c.output, LogOutput::Stdout));
    assert!(!c.with_timestamps);
    assert!(c.with_thread_ids);
    assert!(c.with_thread_names);
    assert!(!c.with_file_line);
    assert!(!c.with_span_list);
    assert!(!c.with_ansi);
}

#[test]
fn test_config_from_env_values() {
    let c = TracingConfig::from_env_values(
        Some(String::from("debug")),
        Some(String::from("JSON")),
        Some(String::from("STDOUT")),
        Some(String::from("TRUE")),
        Some(String::from("no")),
        None,
        Some(String::from("false")),
        None,
        Some(String::from("True")),
    );
    assert_eq!(c.log_level, "debug");
    assert_eq!(c.format, LogFormat::Json);
    assert!(matches!(c.output, LogOutput::Stdout));
    assert!(c.with_timestamps);
    assert!(!c.with_thread_ids);
    assert!(!c.with_thread_names);
    assert!(!c.with_file_line);
    assert!(c.with_span_list);
    assert!(c.with_ansi);
}

#[test]
fn test_config_from_env_values_file_output() {
    let c = TracingConfig::from_env_values(
        None,
        Some(String::from("brief")),
        Some(String::from("/var/log/App.log")),
        None,
        None,
        None,
        None,
        None,
        None,
    );
    // Unset level keeps the default; an unknown format keeps the default.
    assert_eq!(c.log_level, "info");
    assert_eq!(c.format, LogFormat::Pretty);
    // A path-like output selects a file at the lowercased path.
    match c.output {
        LogOutput::File(p) => assert_eq!(p, "/var/log/app.log"),
        _ => panic!("expected file output"),
    }
}

#[test]
fn test_config_error_codes_and_hints() {
    let e = ConfigError::InvalidLogLevel { level: String::from("loud") };
    assert_eq!(e.code(), "GMN-CFG-001");
    assert!(e.hint().expect("always hinted").contains("Valid log levels"));
    assert!(e.context().is_none());
    assert_eq!(e.message(), "Invalid log level: loud");

    let e = ConfigError::EnvVarParse {
        var: String::from("GMN_LOG_ANSI"),
        value: String::from("maybe"),
    };
    assert_eq!(e.code(), "GMN-CFG-004");
    assert_eq!(e.context().expect("has context"), "Variable: GMN_LOG_ANSI, Value: maybe");
    assert_eq!(e.message(), "Failed to parse environment variable GMN_LOG_ANSI: maybe");
}

#[test]
fn test_tracing_error_codes() {
    let e = TracingError::AlreadyInitialized;
    assert_eq!(e.code(), "GMN-TRC-001");
    assert_eq!(e.message(), "Tracing subscriber already initialized");
    assert!(e.context().is_none());
    assert!(e.hint().is_some());
}

#[test]
fn test_database_and_auth_errors() {
    let e = DatabaseError::QueryFailed(String::from("syntax"));
    assert_eq!(e.code(), "GMN-DB-002");
    assert_eq!(e.message(), "Database query failed: syntax");
    assert!(e.context().is_none());

    let e = AuthError::TokenExpired;
    assert_eq!(e.code(), "GMN-AUTH-002");
    assert_eq!(e.message(), "Authentication token expired");
    assert_eq!(e.hint().expect("always hinted"), "Refresh your authentication token");
}

#[test]
fn test_rate_limit_error_formatting() {
    let e = RateLimitError { requests: 5, limit: 3, window_secs: 60 };
    assert_eq!(e.code(), "GMN-RATE-001");
    assert_eq!(e.message(), "Rate limit exceeded: 5 requests in 60 seconds (limit: 3)");
    assert_eq!(e.context().expect("has context"), "Requests: 5/3 in 60 seconds");
}

#[test]
fn test_api_error_status_hints() {
    let server = ApiError::ServerError { status: 503, message: String::from("down") };
    assert_eq!(server.code(), "GMN-API-003");
    assert_eq!(server.hint().expect("hinted"), "Server is experiencing issues, try again later");
    assert_eq!(server.context().expect("has context"), "HTTP status: 503");
    assert_eq!(server.message(), "Server error (503): down");

    let client = ApiError::ServerError { status: 404, message: String::from("missing") };
    assert_eq!(client.hint().expect("hinted"), "Check request parameters and authentication");

    let net = ApiError::NetworkError(String::from("refused"));
    assert_eq!(net.code(), "GMN-API-001");
    assert_eq!(net.message(), "Network error: refused");
    assert!(net.context().is_none());
}

#[test]
fn test_gmn_error_delegation() {
    let e = GmnError::from(ConfigError::InvalidLogFormat { format: String::from("weird") });
    assert!(matches!(e, GmnError::Config(_)));
    assert_eq!(e.code(), "GMN-CFG-002");
    assert_eq!(e.title(), "Configuration Error");
    assert_eq!(e.message(), "Configuration error: Invalid log format: weird");
    assert!(e.hint().is_some());
    assert!(e.context().is_none());

    let e = GmnError::from(RateLimitError { requests: 9, limit: 4, window_secs: 10 });
    assert_eq!(e.code(), "GMN-RATE-001");
    assert_eq!(e.title(), "Rate Limit Exceeded");
    assert_eq!(e.context().expect("has context"), "Requests: 9/4 in 10 seconds");

    let e = GmnError::Internal(String::from("boom"));
    assert_eq!(e.code(), "GMN-000");
    assert_eq!(e.title(), "Internal Error");
    assert_eq!(e.message(), "Internal error: boom");
    assert!(e.hint().is_none());
}

#[test]
fn test_invalid_output_path_error() {
    let e = ConfigError::InvalidOutputPath {
        path: String::from("/no/such/dir/log.txt"),
        source: std::io::Error::new(std::io::ErrorKind::NotFound, "missing"),
    };
    assert_eq!(e.code(), "GMN-CFG-003");
    assert_eq!(e.context().expect("has context"), "Attempted to use path: /no/such/dir/log.txt");
    assert_eq!(e.message(), "Invalid output path: /no/such/dir/log.txt");
    assert!(e.hint().expect("always hinted").contains("write permissions"));
}

#[test]
fn test_file_creation_failed_error() {
    let e = TracingError::FileCreationFailed {
        path: String::from("logs/out.log"),
        source: std::io::Error::new(std::io::ErrorKind::PermissionDenied, "denied"),
    };
    assert_eq!(e.code(), "GMN-TRC-002");
    assert_eq!(e.context().expect("has context"), "Log file path: logs/out.log");
    assert_eq!(e.message(), "Failed to create log file: logs/out.log");
}

#[test]
fn test_gmn_error_hint_and_context_texts() {
    let e = GmnError::from(AuthError::TokenExpired);
    assert_eq!(e.hint(), Some("Refresh your authentication token"));

    let e = GmnError::from(ConfigError::EnvVarParse {
        var: String::from("GMN_LOG_LEVEL"),
        value: String::from("loudest"),
    });
    assert_eq!(e.context().expect("has context"), "Variable: GMN_LOG_LEVEL, Value: loudest");

    let e = GmnError::from(ApiError::ServerError { status: 502, message: String::from("bad") });
    assert_eq!(e.hint(), Some("Server is experiencing issues, try again later"));

    let e = GmnError::from(ApiError::ServerError { status: 400, message: String::from("bad") });
    assert_eq!(e.hint(), Some("Check request parameters and authentication"));
}
