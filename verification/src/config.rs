//! Configuration for tracing and logging behavior: log level, output
//! format, output target, and field toggles, with presets and a builder.

use crate::style::{lower_of, to_lower};
use crate::text::str_eq;
use vstd::prelude::*;

verus! {

/// Output format for tracing logs.
#[derive(Debug, Clone, Copy, PartialEq, Eq, Structural)]
pub enum LogFormat {
    /// Pretty-printed format with colors (best for development).
    Pretty,
    /// Compact format (minimal output).
    Compact,
    /// JSON format (best for production/structured logging).
    Json,
}

impl Default for LogFormat {
    /// The default format is the pretty one.
    fn default() -> (r: Self)
        ensures
            r == LogFormat::Pretty,
    {
        LogFormat::Pretty
    }
}

/// The format a lowercased name selects: exactly `pretty`, `compact` or
/// `json`.
pub open spec fn spec_log_format_from(t: Seq<char>) -> Option<LogFormat> {
    if t == "pretty"@ {
        Some(LogFormat::Pretty)
    } else if t == "compact"@ {
        Some(LogFormat::Compact)
    } else if t == "json"@ {
        Some(LogFormat::Json)
    } else {
        None
    }
}

impl LogFormat {
    /// Parse a format name that has already been lowercased.
    pub fn from_lowered(s: &str) -> (r: Option<Self>)
        ensures
            r == spec_log_format_from(s@),
    {
        if str_eq(s, "pretty") {
            Some(LogFormat::Pretty)
        } else if str_eq(s, "compact") {
            Some(LogFormat::Compact)
        } else if str_eq(s, "json") {
            Some(LogFormat::Json)
        } else {
            None
        }
    }

    /// Parse a log format from a string, case-insensitively.
    pub fn from_str(s: &str) -> (r: Option<Self>)
        ensures
            r == spec_log_format_from(lower_of(s@)),
    {
        let lowered = to_lower(s);
        Self::from_lowered(lowered.as_str())
    }
}

/// Output target for tracing logs.
#[derive(Debug)]
pub enum LogOutput {
    /// Write to stdout.
    Stdout,
    /// Write to stderr.
    Stderr,
    /// Write to a file at the given path.
    File(String),
    /// Write to both console and file.
    Both {
        /// Console output (stdout or stderr).
        console: Box<LogOutput>,
        /// File path for persistent logs.
        file: String,
    },
}

impl Default for LogOutput {
    /// The default target is standard error.
    fn default() -> (r: Self)
        ensures
            r == LogOutput::Stderr,
    {
        LogOutput::Stderr
    }
}

/// Configuration for tracing and logging.
#[derive(Debug)]
pub struct TracingConfig {
    /// Log level filter (e.g. `debug`, or directive syntax such as
    /// `gmn_core=debug,hyper=info`).
    pub log_level: String,
    /// Output format.
    pub format: LogFormat,
    /// Output target.
    pub output: LogOutput,
    /// Whether to include timestamps.
    pub with_timestamps: bool,
    /// Whether to include thread IDs.
    pub with_thread_ids: bool,
    /// Whether to include thread names.
    pub with_thread_names: bool,
    /// Whether to include file and line information.
    pub with_file_line: bool,
    /// Whether to include span information.
    pub with_span_list: bool,
    /// Whether to use ANSI colors (only applies to the pretty format).
    pub with_ansi: bool,
}

/// The default configuration: `info` level, pretty format on standard
/// error, timestamps, file/line and span list on, thread fields off.
pub open spec fn is_default_config(c: TracingConfig) -> bool {
    &&& c.log_level@ == "info"@
    &&& c.format == LogFormat::Pretty
    &&& c.output == LogOutput::Stderr
    &&& c.with_timestamps == true
    &&& c.with_thread_ids == false
    &&& c.with_thread_names == false
    &&& c.with_file_line == true
    &&& c.with_span_list == true
    &&& c.with_ansi == true
}

impl Default for TracingConfig {
    /// The default configuration.
    fn default() -> (r: Self)
        ensures
            is_default_config(r),
    {
        TracingConfig {
            log_level: String::from_str("info"),
            format: LogFormat::Pretty,
            output: LogOutput::Stderr,
            with_timestamps: true,
            with_thread_ids: false,
            with_thread_names: false,
            with_file_line: true,
            with_span_list: true,
            with_ansi: true,
        }
    }
}

/// Whether a toggle value reads as true, case-insensitively.
fn is_true_value(s: &str) -> (r: bool)
    ensures
        r == (lower_of(s@) == "true"@),
{
    let lowered = to_lower(s);
    str_eq(lowered.as_str(), "true")
}

impl TracingConfig {
    /// Create a new configuration with default values.
    pub fn new() -> (r: Self)
        ensures
            is_default_config(r),
    {
        Self::default()
    }

    /// Build a configuration from environment values the caller read:
    /// each argument carries one variable's value, `None` where the
    /// variable is unset.  An unrecognized format name keeps the default
    /// format; output names other than `stdout` and `stderr` select a
    /// file at the lowercased path; toggles read `true`
    /// case-insensitively and anything else as false.
    pub fn from_env_values(
        level: Option<String>,
        format: Option<String>,
        output: Option<String>,
        timestamps: Option<String>,
        thread_ids: Option<String>,
        thread_names: Option<String>,
        file_line: Option<String>,
        span_list: Option<String>,
        ansi: Option<String>,
    ) -> (r: Self)
        ensures
            r.log_level@ == (match level {
                Some(l) => l@,
                None => "info"@,
            }),
            r.format == (match format {
                Some(f) => match spec_log_format_from(lower_of(f@)) {
                    Some(x) => x,
                    None => LogFormat::Pretty,
                },
                None => LogFormat::Pretty,
            }),
            (match output {
                Some(o) => {
                    if lower_of(o@) == "stdout"@ {
                        r.output == LogOutput::Stdout
                    } else if lower_of(o@) == "stderr"@ {
                        r.output == LogOutput::Stderr
                    } else {
                        r.output matches LogOutput::File(p) && p@ == lower_of(o@)
                    }
                },
                None => r.output == LogOutput::Stderr,
            }),
            r.with_timestamps == (match timestamps {
                Some(v) => lower_of(v@) == "true"@,
                None => true,
            }),
            r.with_thread_ids == (match thread_ids {
                Some(v) => lower_of(v@) == "true"@,
                None => false,
            }),
            r.with_thread_names == (match thread_names {
                Some(v) => lower_of(v@) == "true"@,
                None => false,
            }),
            r.with_file_line == (match file_line {
                Some(v) => lower_of(v@) == "true"@,
                None => true,
            }),
            r.with_span_list == (match span_list {
                Some(v) => lower_of(v@) == "true"@,
                None => true,
            }),
            r.with_ansi == (match ansi {
                Some(v) => lower_of(v@) == "true"@,
                None => true,
            }),
    {
        let mut config = Self::default();

        if let Some(l) = level {
            config.log_level = l;
        }

        if let Some(f) = format {
            if let Some(fmt) = LogFormat::from_str(f.as_str()) {
                config.format = fmt;
            }
        }

        if let Some(o) = output {
            let lowered = to_lower(o.as_str());
            config.output = if str_eq(lowered.as_str(), "stdout") {
                LogOutput::Stdout
            } else if str_eq(lowered.as_str(), "stderr") {
                LogOutput::Stderr
            } else {
                LogOutput::File(lowered)
            };
        }

        if let Some(v) = timestamps {
            config.with_timestamps = is_true_value(v.as_str());
        }

        if let Some(v) = thread_ids {
            config.with_thread_ids = is_true_value(v.as_str());
        }

        if let Some(v) = thread_names {
            config.with_thread_names = is_true_value(v.as_str());
        }

        if let Some(v) = file_line {
            config.with_file_line = is_true_value(v.as_str());
        }

        if let Some(v) = span_list {
            config.with_span_list = is_true_value(v.as_str());
        }

        if let Some(v) = ansi {
            config.with_ansi = is_true_value(v.as_str());
        }

        config
    }

    /// Create a preset configuration for development: everything the
    /// pretty format offers, at `debug` level, on standard error.
    pub fn development() -> (r: Self)
        ensures
            r.log_level@ == "debug"@,
            r.format == LogFormat::Pretty,
            r.output == LogOutput::Stderr,
            r.with_timestamps == true,
            r.with_thread_ids == false,
            r.with_thread_names == false,
            r.with_file_line == true,
            r.with_span_list == true,
            r.with_ansi == true,
    {
        TracingConfig {
            log_level: String::from_str("debug"),
            format: LogFormat::Pretty,
            output: LogOutput::Stderr,
            with_timestamps: true,
            with_thread_ids: false,
            with_thread_names: false,
            with_file_line: true,
            with_span_list: true,
            with_ansi: true,
        }
    }

    /// Create a preset configuration for production: JSON at `info`
    /// level on standard error and a log file, with thread fields on and
    /// colors off.
    pub fn production() -> (r: Self)
        ensures
            r.log_level@ == "info"@,
            r.format == LogFormat::Json,
            r.output matches LogOutput::Both { console, file } && *console == LogOutput::Stderr
                && file@ == "logs/gmn.log"@,
            r.with_timestamps == true,
            r.with_thread_ids == true,
            r.with_thread_names == true,
            r.with_file_line == false,
            r.with_span_list == false,
            r.with_ansi == false,
    {
        TracingConfig {
            log_level: String::from_str("info"),
            format: LogFormat::Json,
            output: LogOutput::Both {
                console: Box::new(LogOutput::Stderr),
                file: String::from_str("logs/gmn.log"),
            },
            with_timestamps: true,
            with_thread_ids: true,
            with_thread_names: true,
            with_file_line: false,
            with_span_list: false,
            with_ansi: false,
        }
    }

    /// Create a preset configuration for testing: compact and quiet, at
    /// `warn` level, with every extra field off.
    pub fn testing() -> (r: Self)
        ensures
            r.log_level@ == "warn"@,
            r.format == LogFormat::Compact,
            r.output == LogOutput::Stderr,
            r.with_timestamps == false,
            r.with_thread_ids == false,
            r.with_thread_names == false,
            r.with_file_line == false,
            r.with_span_list == false,
            r.with_ansi == false,
    {
        TracingConfig {
            log_level: String::from_str("warn"),
            format: LogFormat::Compact,
            output: LogOutput::Stderr,
            with_timestamps: false,
            with_thread_ids: false,
            with_thread_names: false,
            with_file_line: false,
            with_span_list: false,
            with_ansi: false,
        }
    }

    /// Builder method to set the log level.
    pub fn with_log_level(self, level: String) -> (r: Self)
        ensures
            r == (TracingConfig { log_level: level, ..self }),
    {
        TracingConfig { log_level: level, ..self }
    }

    /// Builder method to set the format.
    pub fn with_format(self, format: LogFormat) -> (r: Self)
        ensures
            r == (TracingConfig { format, ..self }),
    {
        TracingConfig { format, ..self }
    }

    /// Builder method to set the output target.
    pub fn with_output(self, output: LogOutput) -> (r: Self)
        ensures
            r == (TracingConfig { output, ..self }),
    {
        TracingConfig { output, ..self }
    }

    /// Builder method to enable or disable timestamps.
    pub fn with_timestamps(self, enabled: bool) -> (r: Self)
        ensures
            r == (TracingConfig { with_timestamps: enabled, ..self }),
    {
        TracingConfig { with_timestamps: enabled, ..self }
    }

    /// Builder method to enable or disable thread IDs.
    pub fn with_thread_ids(self, enabled: bool) -> (r: Self)
        ensures
            r == (TracingConfig { with_thread_ids: enabled, ..self }),
    {
        TracingConfig { with_thread_ids: enabled, ..self }
    }

    /// Builder method to enable or disable thread names.
    pub fn with_thread_names(self, enabled: bool) -> (r: Self)
        ensures
            r == (TracingConfig { with_thread_names: enabled, ..self }),
    {
        TracingConfig { with_thread_names: enabled, ..self }
    }

    /// Builder method to enable or disable file and line information.
    pub fn with_file_line(self, enabled: bool) -> (r: Self)
        ensures
            r == (TracingConfig { with_file_line: enabled, ..self }),
    {
        TracingConfig { with_file_line: enabled, ..self }
    }

    /// Builder method to enable or disable the span list.
    pub fn with_span_list(self, enabled: bool) -> (r: Self)
        ensures
            r == (TracingConfig { with_span_list: enabled, ..self }),
    {
        TracingConfig { with_span_list: enabled, ..self }
    }

    /// Builder method to enable or disable ANSI colors.
    pub fn with_ansi(self, enabled: bool) -> (r: Self)
        ensures
            r == (TracingConfig { with_ansi: enabled, ..self }),
    {
        TracingConfig { with_ansi: enabled, ..self }
    }
}

} // verus!
