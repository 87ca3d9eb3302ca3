//! An HTTP-to-broker forwarding core: a validated endpoint table mapping
//! HTTP paths to broker topics and partitions, a per-request routing and
//! forwarding state machine, response construction, and startup settings
//! resolution. All I/O (the HTTP listener, the broker client, file and
//! environment access) lives outside this crate; this library holds the
//! logic and its proofs.

pub mod text;
pub mod table;
pub mod body;
pub mod handler;
pub mod settings;
pub mod broker;
