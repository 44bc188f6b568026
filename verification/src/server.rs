//! The process-wide server: what it asks of the consensus engine to start,
//! and what it asks for each partition's group.
//!
//! The engine itself is driven by the caller. The functions here decide what
//! is asked of it and what becomes of its answers.

use crate::entity::{Partition, Peer, Replica, peer_of};
use crate::error::{Operation, RaftError};
use crate::group_id::{group_id, merge_u32};
use std::sync::Arc;
use vstd::prelude::*;

verus! {

/// The static configuration of the consensus engine.
#[derive(Clone, Copy, Debug, PartialEq, Eq, Structural)]
pub struct RaftConf {
    pub tick_interval: usize,
    pub election_tick: usize,
    /// Whether peers are reached in-process instead of over the network.
    pub transport_inprocess_use: bool,
}

/// What the engine is started with.
#[derive(Clone, Copy, Debug, PartialEq, Eq, Structural)]
pub struct RaftServerOptions {
    pub node_id: u64,
    pub tick_interval: usize,
    pub election_tick: usize,
    pub transport_inprocess_use: bool,
}

/// The state that a group's state machine keeps on this node.
#[derive(Clone, Copy, Debug, PartialEq, Eq, Structural)]
pub struct SimpleStateMachine {
    /// The number of entries applied.
    pub persisted: u64,
    /// The group's peer on this node.
    pub peer_id: u64,
}

/// What the engine is asked to create a group with.
#[derive(Clone, Debug, PartialEq, Eq)]
pub struct RaftOptions {
    pub id: u64,
    pub peers: Vec<Peer>,
    pub state_machine: SimpleStateMachine,
    pub use_memory_storage: bool,
}

/// The process-wide server of one node.
#[derive(Debug, PartialEq, Eq)]
pub struct JimRaftServer {
    pub conf: Arc<RaftConf>,
    pub node_id: u64,
}

/// The answer of [`JimRaftServer::get_instance`].
#[derive(Debug)]
pub struct Instance {
    /// The one server of this process.
    pub server: Arc<JimRaftServer>,
    /// The engine to start, on the call that made the server; `None` on every
    /// later call.
    pub start: Option<RaftServerOptions>,
}

/// The engine options for node `node_id` under configuration `conf`: every
/// value is taken over as it is.
pub open spec fn server_options(conf: RaftConf, node_id: u64) -> RaftServerOptions {
    RaftServerOptions {
        node_id,
        tick_interval: conf.tick_interval,
        election_tick: conf.election_tick,
        transport_inprocess_use: conf.transport_inprocess_use,
    }
}

/// Whether a call of `get_instance` with `conf` and `node_id` on the slot
/// `before` may leave the slot `after` and answer `instance`.
pub open spec fn is_instance(
    before: Option<Arc<JimRaftServer>>,
    conf: RaftConf,
    node_id: u64,
    after: Option<Arc<JimRaftServer>>,
    instance: Instance,
) -> bool {
    &&& after == Some(instance.server)
    &&& match before {
        Some(server) => instance.server == server && instance.start is None,
        None => {
            &&& *instance.server.conf == conf
            &&& instance.server.node_id == node_id
            &&& instance.start == Some(server_options(conf, node_id))
        },
    }
}

/// There is one server: a call that follows another returns the server that
/// the earlier call returned, leaves the slot as it is and starts no engine,
/// whatever configuration and node it is made with.
pub proof fn lemma_one_instance(
    before: Option<Arc<JimRaftServer>>,
    first_conf: RaftConf,
    first_node_id: u64,
    between: Option<Arc<JimRaftServer>>,
    first: Instance,
    second_conf: RaftConf,
    second_node_id: u64,
    after: Option<Arc<JimRaftServer>>,
    second: Instance,
)
    requires
        is_instance(before, first_conf, first_node_id, between, first),
        is_instance(between, second_conf, second_node_id, after, second),
    ensures
        second.server == first.server,
        second.start is None,
        after == between,
{
}

/// Whether `replica` lives on node `node_id`.
pub open spec fn is_local(replica: Replica, node_id: u64) -> bool {
    replica.node as int == node_id as int
}

/// The replicas among `replicas` that live on node `node_id`, in their order.
pub open spec fn local_replicas(replicas: Seq<Replica>, node_id: u64) -> Seq<Replica> {
    replicas.filter(|replica: Replica| is_local(replica, node_id))
}

/// The peers that stand for `replicas`, one for each, in their order.
pub open spec fn peers_of(replicas: Seq<Replica>) -> Seq<Peer> {
    replicas.map_values(|replica: Replica| peer_of(replica))
}

/// The error for a partition that does not have exactly one replica on the
/// node.
pub open spec fn configuration_error(partition: Partition, node_id: u64) -> RaftError {
    RaftError::Configuration {
        collection_id: partition.collection_id,
        partition_id: partition.id,
        node_id,
        local_replicas: local_replicas(partition.replicas@, node_id).len() as usize,
    }
}

/// Where no replica lives on the node, there is no local replica.
pub proof fn lemma_no_local_replica(replicas: Seq<Replica>, node_id: u64)
    requires
        forall|i: int| 0 <= i < replicas.len() ==> !is_local(replicas[i], node_id),
    ensures
        local_replicas(replicas, node_id).len() == 0,
    decreases replicas.len(),
{
    reveal(Seq::filter);
    if replicas.len() > 0 {
        let front = replicas.drop_last();
        lemma_no_local_replica(front, node_id);
    }
}

/// Where exactly one replica, the one at `at`, lives on the node, it is the
/// one local replica.
pub proof fn lemma_one_local_replica(replicas: Seq<Replica>, node_id: u64, at: int)
    requires
        0 <= at < replicas.len(),
        is_local(replicas[at], node_id),
        forall|i: int| 0 <= i < replicas.len() && i != at ==> !is_local(replicas[i], node_id),
    ensures
        local_replicas(replicas, node_id) == seq![replicas[at]],
    decreases replicas.len(),
{
    reveal(Seq::filter);
    let front = replicas.drop_last();
    if at == replicas.len() - 1 {
        lemma_no_local_replica(front, node_id);
        assert(local_replicas(replicas, node_id) =~= seq![replicas[at]]);
    } else {
        lemma_one_local_replica(front, node_id, at);
    }
}

/// Where a replica lives on the node, there is a local replica.
pub proof fn lemma_some_local_replica(replicas: Seq<Replica>, node_id: u64, at: int)
    requires
        0 <= at < replicas.len(),
        is_local(replicas[at], node_id),
    ensures
        local_replicas(replicas, node_id).len() >= 1,
    decreases replicas.len(),
{
    reveal(Seq::filter);
    if at < replicas.len() - 1 {
        lemma_some_local_replica(replicas.drop_last(), node_id, at);
    }
}

/// Where two replicas live on the node, there are at least two local
/// replicas.
pub proof fn lemma_several_local_replicas(
    replicas: Seq<Replica>,
    node_id: u64,
    first: int,
    second: int,
)
    requires
        0 <= first < second < replicas.len(),
        is_local(replicas[first], node_id),
        is_local(replicas[second], node_id),
    ensures
        local_replicas(replicas, node_id).len() >= 2,
    decreases replicas.len(),
{
    reveal(Seq::filter);
    let front = replicas.drop_last();
    if second == replicas.len() - 1 {
        lemma_some_local_replica(front, node_id, first);
    } else {
        lemma_several_local_replicas(front, node_id, first, second);
    }
}

impl SimpleStateMachine {
    /// The state machine of the peer `peer_id`, with nothing applied yet.
    pub fn new(peer_id: u64) -> (machine: Self)
        ensures
            machine == (SimpleStateMachine { persisted: 0, peer_id }),
    {
        SimpleStateMachine { persisted: 0, peer_id }
    }

    /// Counts one more applied entry.
    pub fn entry_applied(&mut self)
        requires
            old(self).persisted < u64::MAX,
        ensures
            final(self).persisted == old(self).persisted + 1,
            final(self).peer_id == old(self).peer_id,
    {
        self.persisted = self.persisted + 1;
    }
}

impl JimRaftServer {
    /// The one server of the process, kept in `slot`.
    ///
    /// The first call, on an empty slot, makes the server from `conf` and
    /// `node_id`, puts it in the slot and says which engine to start. Every
    /// later call returns the server in the slot, whatever its arguments,
    /// and starts nothing.
    pub fn get_instance(slot: &mut Option<Arc<JimRaftServer>>, conf: Arc<RaftConf>, node_id: u64) -> (instance: Instance)
        ensures
            is_instance(*old(slot), *conf, node_id, *final(slot), instance),
    {
        match slot {
            Some(server) => Instance { server: Arc::clone(server), start: None },
            None => {
                let server = Arc::new(Self::create_raft_server(conf, node_id));
                let start = server.server_options();
                *slot = Some(Arc::clone(&server));
                Instance { server, start: Some(start) }
            },
        }
    }

    /// A server for node `node_id` under configuration `conf`.
    pub fn create_raft_server(conf: Arc<RaftConf>, node_id: u64) -> (server: Self)
        ensures
            *server.conf == *conf,
            server.node_id == node_id,
    {
        JimRaftServer { conf, node_id }
    }

    /// What the engine of this server is started with.
    pub fn server_options(&self) -> (options: RaftServerOptions)
        ensures
            options == server_options(*self.conf, self.node_id),
    {
        RaftServerOptions {
            node_id: self.node_id,
            tick_interval: self.conf.tick_interval,
            election_tick: self.conf.election_tick,
            transport_inprocess_use: self.conf.transport_inprocess_use,
        }
    }

    /// The peer of this node in the group of `partition`, and the group's
    /// peers.
    ///
    /// Succeeds exactly when one replica of the partition lives on this node.
    pub fn create_peers(&self, partition: &Partition) -> (result: Result<(u64, Vec<Peer>), RaftError>)
        ensures
            match result {
                Ok((current_peer_id, peers)) => {
                    &&& local_replicas(partition.replicas@, self.node_id).len() == 1
                    &&& current_peer_id == local_replicas(partition.replicas@, self.node_id)[0].peer
                    &&& peers@ == peers_of(partition.replicas@)
                },
                Err(error) => {
                    &&& local_replicas(partition.replicas@, self.node_id).len() != 1
                    &&& error == configuration_error(*partition, self.node_id)
                },
            },
    {
        let ghost replicas = partition.replicas@;
        let ghost local = |replica: Replica| is_local(replica, self.node_id);
        let mut current_peer_id: u64 = 0;
        let mut found: usize = 0;
        let mut peers: Vec<Peer> = Vec::new();
        let mut at: usize = 0;
        proof {
            assert(replicas.take(0) =~= Seq::<Replica>::empty());
            reveal(Seq::filter);
        }
        while at < partition.replicas.len()
            invariant
                replicas == partition.replicas@,
                local == (|replica: Replica| is_local(replica, self.node_id)),
                at <= replicas.len(),
                found == replicas.take(at as int).filter(local).len(),
                found <= at,
                found > 0 ==> current_peer_id == replicas.take(at as int).filter(local).last().peer,
                peers@ == peers_of(replicas.take(at as int)),
            decreases replicas.len() - at,
        {
            let replica = &partition.replicas[at];
            proof {
                let before = replicas.take(at as int);
                assert(replicas.take(at + 1) =~= before.push(*replica));
                before.lemma_filter_push(*replica, local);
                assert(peers_of(before.push(*replica)) =~= peers_of(before).push(peer_of(*replica)));
            }
            if replica.node as u64 == self.node_id {
                current_peer_id = replica.peer;
                found = found + 1;
            }
            peers.push(replica.to_peer());
            at = at + 1;
        }
        proof {
            assert(replicas.take(at as int) =~= replicas);
        }
        if found == 1 {
            Ok((current_peer_id, peers))
        } else {
            Err(
                RaftError::Configuration {
                    collection_id: partition.collection_id,
                    partition_id: partition.id,
                    node_id: self.node_id,
                    local_replicas: found,
                },
            )
        }
    }

    /// What to ask the engine for, to create the group of `partition`.
    ///
    /// Succeeds exactly when one replica of the partition lives on this
    /// node: the group is then identified by the partition's collection and
    /// partition identifiers, has one peer for each replica, a fresh state
    /// machine for this node's peer, and in-memory storage. Otherwise there
    /// is nothing to ask the engine for.
    pub fn create_raft(&self, partition: &Partition) -> (result: Result<RaftOptions, RaftError>)
        ensures
            match result {
                Ok(options) => {
                    &&& local_replicas(partition.replicas@, self.node_id).len() == 1
                    &&& options.id as int == group_id(partition.collection_id, partition.id)
                    &&& options.peers@ == peers_of(partition.replicas@)
                    &&& options.state_machine == (SimpleStateMachine {
                        persisted: 0,
                        peer_id: local_replicas(partition.replicas@, self.node_id)[0].peer,
                    })
                    &&& options.use_memory_storage
                },
                Err(error) => {
                    &&& local_replicas(partition.replicas@, self.node_id).len() != 1
                    &&& error == configuration_error(*partition, self.node_id)
                },
            },
    {
        match self.create_peers(partition) {
            Ok((current_peer_id, peers)) => Ok(
                RaftOptions {
                    id: merge_u32(partition.collection_id, partition.id),
                    peers,
                    state_machine: SimpleStateMachine::new(current_peer_id),
                    use_memory_storage: true,
                },
            ),
            Err(error) => Err(error),
        }
    }

    /// Takes the engine's answer to the creation of the group `group_id`:
    /// the created group as it is, or the engine's error, wrapped and
    /// otherwise unchanged.
    pub fn create_raft_done<G>(group_id: u64, created: Result<G, String>) -> (result: Result<G, RaftError>)
        ensures
            match created {
                Ok(raft) => result == Ok::<G, RaftError>(raft),
                Err(message) => result == Err::<G, RaftError>(
                    RaftError::Engine { operation: Operation::CreateRaft, group_id, message },
                ),
            },
    {
        match created {
            Ok(raft) => Ok(raft),
            Err(message) => Err(RaftError::Engine { operation: Operation::CreateRaft, group_id, message }),
        }
    }
}

} // verus!
