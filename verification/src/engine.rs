//! The handle of one partition's consensus group: proposing entries and
//! reading the log.
//!
//! The engine is driven by the caller. The functions here say what is handed
//! to it and what becomes of its answers.

use crate::entity::Partition;
use crate::error::{Operation, RaftError};
use crate::group_id::{group_id, merge_u32};
use std::sync::Arc;
use vstd::prelude::*;

verus! {

/// The priority that every proposal is made with.
pub const PROPOSAL_PRIORITY: u32 = 1;

/// Holds the completion notification of one proposal and gives it out once.
#[derive(Debug)]
pub struct AppendCallbackFaced<T> {
    pub target: Option<T>,
}

/// What is handed to the engine for one proposal.
#[derive(Debug)]
pub struct Proposal<T> {
    /// The encoded entry.
    pub data: Vec<u8>,
    pub priority: u32,
    /// The notification to give out when the engine reports the outcome.
    pub callback: AppendCallbackFaced<T>,
}

/// The request to open a log reader.
#[derive(Clone, Copy, Debug, PartialEq, Eq, Structural)]
pub struct ReadLog {
    pub group_id: u64,
    pub start_index: u64,
}

/// The handle of one partition's group: the partition snapshot and the
/// engine's group object.
#[derive(Debug)]
pub struct RaftEngine<G> {
    pub partition: Arc<Partition>,
    pub raft: G,
}

impl<T> AppendCallbackFaced<T> {
    /// Holds `callback` until the outcome is reported.
    pub fn new(callback: T) -> (faced: Self)
        ensures
            faced.target == Some(callback),
    {
        AppendCallbackFaced { target: Some(callback) }
    }

    /// Whether the notification has been given out.
    pub open spec fn is_spent(&self) -> bool {
        self.target is None
    }

    /// Gives the notification out for its one invocation: `Some` on the
    /// first call, `None` on every later call.
    pub fn take(&mut self) -> (callback: Option<T>)
        ensures
            callback == old(self).target,
            final(self).is_spent(),
    {
        self.target.take()
    }
}

impl<G> RaftEngine<G> {
    /// The handle of the group `raft` of `partition`.
    pub fn new(partition: Arc<Partition>, raft: G) -> (engine: Self)
        ensures
            engine.partition == partition,
            engine.raft == raft,
    {
        RaftEngine { partition, raft }
    }

    /// The identifier of the group, as a mathematical integer.
    pub open spec fn spec_group_id(&self) -> int {
        group_id(self.partition.collection_id, self.partition.id)
    }

    /// The identifier of the group.
    pub fn group_id(&self) -> (id: u64)
        ensures
            id as int == self.spec_group_id(),
    {
        merge_u32(self.partition.collection_id, self.partition.id)
    }

    /// What to hand to the engine to propose the encoded entry `data`, with
    /// `callback` as its completion notification.
    pub fn append<T>(&self, data: Vec<u8>, callback: T) -> (proposal: Proposal<T>)
        ensures
            proposal.data == data,
            proposal.priority == PROPOSAL_PRIORITY,
            proposal.callback.target == Some(callback),
    {
        Proposal { data, priority: PROPOSAL_PRIORITY, callback: AppendCallbackFaced::new(callback) }
    }

    /// Takes the engine's answer to a proposal: acceptance, or the engine's
    /// reason for rejecting it, as a protocol error of this group.
    pub fn append_done(&self, accepted: Result<(), String>) -> (result: Result<(), RaftError>)
        ensures
            match accepted {
                Ok(_) => result is Ok,
                Err(message) => result is Err && result->Err_0 == (RaftError::Protocol {
                    group_id: self.spec_group_id() as u64,
                    message,
                }),
            },
    {
        match accepted {
            Ok(_) => Ok(()),
            Err(message) => Err(RaftError::Protocol { group_id: self.group_id(), message }),
        }
    }

    /// The request to open a reader of this group's log at `start_index`.
    pub fn begin_read_log(&self, start_index: u64) -> (request: ReadLog)
        ensures
            request.group_id as int == self.spec_group_id(),
            request.start_index == start_index,
    {
        ReadLog { group_id: self.group_id(), start_index }
    }

    /// Takes the engine's answer to `request`: the reader as it is, or the
    /// engine's error, wrapped with the group and the index. An error never
    /// becomes a reader.
    pub fn begin_read_log_done<R>(request: ReadLog, opened: Result<R, String>) -> (result: Result<
        R,
        RaftError,
    >)
        ensures
            match opened {
                Ok(reader) => result == Ok::<R, RaftError>(reader),
                Err(message) => result == Err::<R, RaftError>(
                    RaftError::Engine {
                        operation: Operation::BeginReadLog { start_index: request.start_index },
                        group_id: request.group_id,
                        message,
                    },
                ),
            },
    {
        match opened {
            Ok(reader) => Ok(reader),
            Err(message) => Err(
                RaftError::Engine {
                    operation: Operation::BeginReadLog { start_index: request.start_index },
                    group_id: request.group_id,
                    message,
                },
            ),
        }
    }
}

} // verus!
