//! A verified core for a desktop front-end that supervises a JSON-RPC
//! subprocess: wire-format codec, call correlation, lifecycle state machine,
//! input validation, path safety checks, and session search logic.

pub mod bridge;
pub mod codec;
pub mod codex_import;
pub mod errors;
pub mod images;
pub mod ipc;
pub mod models;
pub mod paths;
pub mod projects;
pub mod registry;
pub mod server_api;
pub mod sessions;
pub mod spawn;
pub mod strutil;
pub mod validate;
