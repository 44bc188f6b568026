use raft_bridge::engine::{AppendCallbackFaced, RaftEngine, ReadLog, PROPOSAL_PRIORITY};
use raft_bridge::entity::{Partition, Replica, ReplicaType};
use raft_bridge::error::{Operation, RaftError};
use std::sync::Arc;

fn engine() -> RaftEngine<&'static str> {
    let partition = Partition {
        id: 7,
        collection_id: 3,
        replicas: vec![Replica { node: 1, peer: 11, replica_type: ReplicaType::NORMAL }],
    };
    RaftEngine::new(Arc::new(partition), "group")
}

#[test]
fn handle_holds_partition_and_group() {
    let partition = Arc::new(Partition { id: 1, collection_id: 2, replicas: vec![] });
    let handle = RaftEngine::new(Arc::clone(&partition), 99u8);
    assert!(Arc::ptr_eq(&handle.partition, &partition));
    assert_eq!(handle.raft, 99);
    assert_eq!(handle.group_id(), 8_589_934_593);
}

#[test]
fn proposal_carries_entry_priority_and_completion() {
    let proposal = engine().append(vec![1, 2, 3], "done");
    assert_eq!(proposal.data, vec![1, 2, 3]);
    assert_eq!(proposal.priority, 1);
    assert_eq!(proposal.priority, PROPOSAL_PRIORITY);
    assert_eq!(proposal.callback.target, Some("done"));
}

#[test]
fn proposal_of_an_empty_entry() {
    let proposal = engine().append(Vec::new(), 0u8);
    assert!(proposal.data.is_empty());
    assert_eq!(proposal.priority, 1);
}

#[test]
fn completion_is_given_out_exactly_once_on_success_and_on_failure() {
    for outcome in [Ok(()), Err("not committed")] {
        let mut calls: Vec<Result<(), &str>> = Vec::new();
        let mut proposal = engine().append(vec![9], |result: Result<(), &'static str>| result);
        for _ in 0..3 {
            if let Some(completion) = proposal.callback.take() {
                calls.push(completion(outcome));
            }
        }
        assert_eq!(calls, vec![outcome]);
        assert!(proposal.callback.target.is_none());
    }
}

#[test]
fn completion_guard_is_spent_after_the_first_take() {
    let mut faced = AppendCallbackFaced::new(5);
    assert_eq!(faced.take(), Some(5));
    assert_eq!(faced.take(), None);
    assert_eq!(faced.take(), None);
}

#[test]
fn accepted_proposal_is_ok() {
    assert_eq!(engine().append_done(Ok(())), Ok(()));
}

#[test]
fn rejected_proposal_is_a_protocol_error_of_the_group() {
    assert_eq!(
        engine().append_done(Err("not leader".to_string())),
        Err(RaftError::Protocol {
            group_id: 12_884_901_895,
            message: "not leader".to_string(),
        })
    );
}

#[test]
fn read_log_request_names_group_and_index() {
    assert_eq!(
        engine().begin_read_log(42),
        ReadLog { group_id: 12_884_901_895, start_index: 42 }
    );
    assert_eq!(engine().begin_read_log(0).start_index, 0);
    assert_eq!(engine().begin_read_log(u64::MAX).start_index, u64::MAX);
}

#[test]
fn reading_an_index_never_written_fails_with_the_wrapped_engine_error() {
    let request = engine().begin_read_log(1_000);
    let opened: Result<Vec<u8>, String> = Err("index out of range".to_string());
    assert_eq!(
        RaftEngine::<&str>::begin_read_log_done(request, opened),
        Err(RaftError::Engine {
            operation: Operation::BeginReadLog { start_index: 1_000 },
            group_id: 12_884_901_895,
            message: "index out of range".to_string(),
        })
    );
}

#[test]
fn opened_reader_is_handed_on() {
    let request = engine().begin_read_log(3);
    let opened: Result<Vec<u8>, String> = Ok(vec![3, 4, 5]);
    assert_eq!(
        RaftEngine::<&str>::begin_read_log_done(request, opened),
        Ok(vec![3, 4, 5])
    );
}
