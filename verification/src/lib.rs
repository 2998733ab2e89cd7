//! Core engine of a host monitoring agent: the connection, buffering, and
//! command-dispatch logic that keeps telemetry flowing to a control plane
//! over an unreliable channel.
//!
//! The library holds the verified decision logic: the bounded drop-oldest
//! frame buffer, the rolling error window, health classification, the
//! reconnect/backoff state machine, the command allow-list and execution
//! planning, and the wire-frame formatting. I/O (HTTP probes, the socket,
//! subprocesses, timers) lives outside and feeds plain values in.

pub mod buffer;
pub mod commands;
pub mod config;
pub mod health;
pub mod inbound;
pub mod observe;
pub mod status;
pub mod text;
pub mod transport;
pub mod window;
