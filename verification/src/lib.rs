//! Codec for the newline-delimited JSON wire protocol of a small
//! ground-vehicle control board.
//!
//! The crate models commands and telemetry as plain Rust values, encodes a
//! command into one JSON line, and decodes one received line into a telemetry
//! value.  The codec's own logic never evaluates floating point: outbound
//! numbers are `serde_json::Number` values built by the caller, and inbound
//! numbers are handed out as IEEE-754 double bit patterns (`u64`), which the
//! surrounding application reads with `f64::from_bits` at its edge.

pub mod codec;
pub mod messages;
pub mod wire;
