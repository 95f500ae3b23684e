//! Verified core of the Flash Desktop daemon: configuration and token
//! bookkeeping, the tool registry and tool planning, the daemon protocol
//! and the reconnect state machine.

pub mod auth;
pub mod config;
pub mod host;
pub mod mcp;
pub mod text;
pub mod tools;
pub mod ui;
pub mod ws;
