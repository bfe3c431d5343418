//! A registry of outbound TCP connections with line-delimited text framing,
//! per-connection received history and notification events.

pub mod address;
mod clock;
pub mod commands;
pub mod framing;
pub mod reader;
pub mod registry;
pub mod stats;
pub mod types;
