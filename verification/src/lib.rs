//! Integration layer between a sharded storage service and a replicated
//! consensus engine: group identifiers, peer derivation, node address
//! resolution and the outcome handling around engine calls.

pub mod engine;
pub mod entity;
pub mod error;
pub mod group_id;
pub mod resolver;
pub mod server;
