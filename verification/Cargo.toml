[package]
name = "gmn_core"
version = "0.1.0"
edition = "2021"
publish = false

[dependencies]
chrono = "*"
colored = "*"
serde = { version = "*", features = ["derive"] }
serde_json = "*"
terminal_size = "*"
textwrap = "*"
tracing = "*"
tracing-appender = "*"
tracing-subscriber = { version = "*", features = ["env-filter", "json"] }
unicode-width = "*"
