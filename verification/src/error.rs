//! The errors that this layer returns to the storage service.

use vstd::prelude::*;

verus! {

/// The engine operation during which an error arose.
#[derive(Clone, Copy, Debug, PartialEq, Eq, Structural)]
pub enum Operation {
    /// Creating the consensus group of a partition.
    CreateRaft,
    /// Opening a log reader at the given index.
    BeginReadLog { start_index: u64 },
}

/// An error of the integration layer, with the identifiers needed to log it.
#[derive(Clone, Debug, PartialEq, Eq)]
pub enum RaftError {
    /// The partition does not name exactly one replica on this node.
    Configuration { collection_id: u32, partition_id: u32, node_id: u64, local_replicas: usize },
    /// The address of a node could not be looked up.
    Resolution { node_id: u64 },
    /// The engine failed to create a group or to open a log reader; `message`
    /// is the engine's own description.
    Engine { operation: Operation, group_id: u64, message: String },
    /// The engine rejected a proposal before accepting it.
    Protocol { group_id: u64, message: String },
}

} // verus!
