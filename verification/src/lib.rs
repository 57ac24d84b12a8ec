//! Core of a metric-forwarding plugin: reports addressed by hierarchical
//! paths are routed to long-lived telemetry endpoints.  An endpoint is
//! created lazily on first sight of its path and reused afterwards; a small
//! fixed set of endpoints serves the host's own log messages.

pub mod backend;
pub mod endpoint;
pub mod errors;
pub mod levels;
pub mod path;
pub mod plugin;
pub mod registry;
pub mod sink;
