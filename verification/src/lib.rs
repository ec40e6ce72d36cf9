//! A single-process, non-blocking TCP line-echo core.
//!
//! The crate holds the verified heart of a readiness-driven echo server:
//! the per-connection state machine that accumulates bytes until a newline
//! arrives and then flushes the whole buffer back, and the server bookkeeping
//! that owns the connection table and hands out unique tokens. All socket
//! work (accepting, reading, writing, arming readiness notifications) is left
//! to a thin unverified shell that feeds plain values in and carries plain
//! values out.

pub mod connection;
pub mod server;
