//! Partitions, their replicas, and the peers that a consensus group is made
//! of.

use vstd::prelude::*;

verus! {

/// The role of a replica within its partition.
#[derive(Clone, Copy, Debug, PartialEq, Eq, Structural)]
pub enum ReplicaType {
    NORMAL,
    LEARNER,
}

/// One member of a partition's replication set.
#[derive(Clone, Copy, Debug, PartialEq, Eq, Structural)]
pub struct Replica {
    /// The cluster node that hosts the replica.
    pub node: u32,
    /// The replica's peer identifier within the consensus group.
    pub peer: u64,
    pub replica_type: ReplicaType,
}

/// A snapshot of one partition of a collection.
#[derive(Clone, Debug, PartialEq, Eq)]
pub struct Partition {
    pub id: u32,
    pub collection_id: u32,
    pub replicas: Vec<Replica>,
}

/// The role of a peer within its consensus group.
#[derive(Clone, Copy, Debug, PartialEq, Eq, Structural)]
pub enum PeerType {
    NORMAL,
    LEARNER,
}

/// A group member as the consensus engine knows it.
#[derive(Clone, Copy, Debug, PartialEq, Eq, Structural)]
pub struct Peer {
    pub type_: PeerType,
    pub node_id: u64,
    pub id: u64,
}

/// The peer type that stands for a replica type.
pub open spec fn peer_type_of(replica_type: ReplicaType) -> PeerType {
    match replica_type {
        ReplicaType::NORMAL => PeerType::NORMAL,
        ReplicaType::LEARNER => PeerType::LEARNER,
    }
}

/// The peer that stands for a replica: same peer identifier, same node, and
/// the matching type.
pub open spec fn peer_of(replica: Replica) -> Peer {
    Peer {
        type_: peer_type_of(replica.replica_type),
        node_id: replica.node as u64,
        id: replica.peer,
    }
}

impl Replica {
    /// The engine-facing peer of this replica.
    pub fn to_peer(&self) -> (peer: Peer)
        ensures
            peer == peer_of(*self),
    {
        let type_ = match self.replica_type {
            ReplicaType::LEARNER => PeerType::LEARNER,
            ReplicaType::NORMAL => PeerType::NORMAL,
        };
        Peer { type_, node_id: self.node as u64, id: self.peer }
    }
}

} // verus!
