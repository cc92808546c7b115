//! Typed content addressing and the DHT-operation integration pipeline.
//!
//! Every piece of data in the distributed ledger is identified by a typed
//! cryptographic hash: a 36-byte digest tagged with a hash kind whose 3-byte
//! prefix is embedded in the serialized form, so the kind is recoverable from
//! the bytes alone. Operations move through three staged stores (authored,
//! queued, integrated) under snapshot isolation, and the integrated set can be
//! queried by time window and hash-space locality.

pub mod buffer;
pub mod dht_arc;
pub mod dht_op;
pub mod dht_op_integration;
pub mod env;
pub mod error;
pub mod hash_type;
pub mod holo_hash;
pub mod timestamp;
pub mod validate;
