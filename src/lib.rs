//! The node side of a container storage plugin: the decisions behind staging,
//! publishing and their reverse, and the checks of replies from the storage
//! engine's JSON-RPC interface.

pub mod jsonrpc;
pub mod mount;
pub mod node;
