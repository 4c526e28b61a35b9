//! Session-backed file index cache.
//!
//! The library keeps a TTL-guarded snapshot of a remotely hosted file list,
//! exposes a deterministic fingerprint of each snapshot so callers can detect
//! staleness cheaply, and models the lazy login / reconnect protocol for the
//! remote session as an explicit state machine.  All remote I/O is performed
//! by the surrounding application, which feeds its outcomes back into the
//! verified decision logic found here.

pub mod client;
pub mod config;
pub mod errors;
pub mod file;
pub mod fingerprint;
pub mod serve;
pub mod stream;
pub mod utils;
