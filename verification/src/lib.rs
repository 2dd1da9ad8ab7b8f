//! Terminal message-box rendering and structured error/tracing support.

pub mod codes;
pub mod config;
pub mod domains;
pub mod errors;
pub mod frame;
pub mod layout;
pub mod providers;
pub mod registry;
pub mod render;
pub mod schemas;
pub mod spans;
pub mod style;
pub mod term;
pub mod text;
pub mod tracing_state;
pub mod width;
pub mod wrap;
