//! Core support for establishing a single authenticated, possibly
//! TLS-wrapped WebSocket connection to a streaming endpoint.
//!
//! The [`websocket`] module holds the result-bridging type used by the
//! framing layer, the connection error type, the verified step that
//! decides the outcome of one connection attempt, and the fixed values
//! the mock-server test harness relies on.

pub mod websocket;
