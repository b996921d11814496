//! Decoder and polling client for the SEPD real-time telemetry wire
//! protocol.
//!
//! The crate decodes framed telemetry packets from raw bytes: it validates
//! packet headers, frames sub-packets against their declared lengths, and
//! runs a recursive self-describing variant decoder, never panicking on
//! malformed or truncated input. A growable stream buffer resynchronizes
//! one byte at a time after corruption, and a small state machine governs
//! the connect/poll/disconnect life cycle of a client. Every decoder's
//! contract states its exact result in terms of the wire model in
//! [`wire`], for every input.

pub mod se_types;
pub mod wire;
pub mod output_data;
pub mod parser;
pub mod packet;
pub mod stream;
pub mod client;
