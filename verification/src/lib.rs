//! A synthetic log-traffic tool: an absorber that listens for log events
//! over several wire protocols, frames and validates them, and aggregates
//! throughput counters, together with the emitter-side pieces that generate
//! and serialize events.

pub mod certs;
pub mod cli;
pub mod config_types;
pub mod conn;
pub mod console;
pub mod emit;
pub mod framing;
pub mod generators;
pub mod httpd;
pub mod listen_address;
pub mod ndjson;
pub mod settings;
pub mod stats;
pub mod syslog3164;
pub mod validate;
