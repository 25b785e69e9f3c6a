//! Core of a UDP datagram relay for an HTTP/3 forward proxy: the canonical
//! failure taxonomy with its total mapping to HTTP status codes (RFC 9209),
//! and the pure decision logic behind the per-destination relay handle.
//!
//! Socket I/O itself (binding, connecting, sending and receiving datagrams)
//! is left to the thin unverified shell around this crate; everything that
//! decides or computes — status classification, port parsing, destination
//! selection, connect-outcome classification — lives here, verified.

pub mod errors;
pub mod relay;
pub mod text;
