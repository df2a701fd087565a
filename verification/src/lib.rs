//! A single upstream JSON-RPC endpoint: request building, wire-level hex
//! quantity decoding, and per-endpoint health and latency bookkeeping.
//!
//! The endpoint dispatches JSON-RPC calls over HTTP POST (the network edge
//! itself lives outside this crate), decodes hex-encoded numeric results from
//! the raw response text, and maintains a rolling latency profile together
//! with a consecutive-failure threshold that gates whether the endpoint is
//! considered usable by a router that picks among many such endpoints.

pub mod decode;
pub mod endpoint;
pub mod error;
pub mod health;
pub mod json;

pub use decode::decode_block_number;
pub use decode::format_hex;
pub use decode::hex_to_decimal;
pub use endpoint::Rpc;
pub use error::RpcError;
pub use health::Status;
pub use json::extract_number;
