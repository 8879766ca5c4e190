//! A serial-to-TCP bridge: bytes read from a single UART device are broadcast,
//! verbatim and in order, to every currently connected TCP client.
//!
//! This crate holds the verified core: the `Chunk` unit of transfer, the
//! last-value broadcast channel, the per-connection handler state machine,
//! the serial reader's open/read/retry decisions, and the supervisor's
//! retry policy. The asynchronous I/O shell around it lives outside.

pub mod app;
pub mod bridge;
pub mod channel;
pub mod chunk;
pub mod config;
pub mod handler;
pub mod reader;
pub mod supervisor;
