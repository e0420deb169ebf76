//! The local half of an HTTP proxy chain: resolving proxy request targets,
//! the per-connection dispatch decisions, the backend connector and client
//! table, and the tunnel relay bookkeeping.
pub mod connector;
pub mod dispatch;
pub mod relay;
pub mod render;
pub mod target;
pub mod text;
