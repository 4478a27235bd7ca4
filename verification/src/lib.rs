//! A single-node, memory-resident key-value plugin service core.
//!
//! The library holds the verified logic of the service: the store, the
//! key-value request handling, the health registry, the handshake line,
//! and the bootstrap ordering. Transport (the RPC server and runtime)
//! lives outside the library.

pub mod bootstrap;
pub mod handshake;
pub mod health;
pub mod kv;
pub mod server;
pub mod store;
