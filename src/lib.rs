//! A tool-calling protocol server reduced to verified, request-scoped logic:
//! a tool registry, a session state machine, a stateless transport step and
//! a buffered body bridge.
pub mod bridge;
pub mod registry;
pub mod session;
pub mod tool;
pub mod transport;
