//! A client core for a remote code-evaluation service: a registry of editable
//! source modules, a concurrency-safe connection configuration, and a
//! four-operation protocol client (send, undefine, load a block range,
//! execute a module over a block range).

pub mod client;
pub mod config;
pub mod registry;
pub mod transport;
pub mod wire;
