use std::collections::BTreeMap;

use raft_core::collections::configuration::Configuration;
use raft_core::collections::node_collection::NodeCollection;
use raft_core::components::election_manager::ElectionManager;
use raft_core::in_memory::in_memory_storage::InMemoryStorage;
use raft_core::in_memory::manual_timer::ManualTimer;
use raft_core::log_entry::{EntryType, LogEntry};
use raft_core::node_state::NodeState;
use raft_core::raft_messages::RaftMsg;
use raft_core::snapshot::{Snapshot, SnapshotError, SnapshotMetadata};
use raft_core::state_machine::StateMachine;
use raft_core::storage::Storage;

/// A key-value store driven by `SET key=value` commands; other commands are ignored.
struct KvStateMachine {
    data: BTreeMap<String, String>,
}

impl KvStateMachine {
    fn new() -> Self {
        KvStateMachine { data: BTreeMap::new() }
    }
}

impl StateMachine for KvStateMachine {
    type Payload = String;

    fn apply(&mut self, payload: &String) {
        if let Some(rest) = payload.strip_prefix("SET ") {
            if let Some((k, v)) = rest.split_once('=') {
                self.data.insert(k.to_string(), v.to_string());
            }
        }
    }

    fn get(&self, key: &str) -> Option<&str> {
        self.data.get(key).map(|v| v.as_str())
    }

    fn create_snapshot(&self) -> Vec<u8> {
        let mut out = String::new();
        for (k, v) in &self.data {
            out.push_str(&format!("{}={}\n", k, v));
        }
        out.into_bytes()
    }

    fn restore_from_snapshot(&mut self, data: &Vec<u8>) -> Result<(), SnapshotError> {
        let text = std::str::from_utf8(data).map_err(|_| SnapshotError::CorruptData)?;
        self.data.clear();
        for line in text.lines() {
            let (k, v) = line.split_once('=').ok_or(SnapshotError::DeserializationFailed)?;
            self.data.insert(k.to_string(), v.to_string());
        }
        Ok(())
    }
}

fn new_election() -> ElectionManager<ManualTimer> {
    ElectionManager::new(ManualTimer::new())
}

fn entry(term: u64, text: &str) -> LogEntry<String> {
    LogEntry { term, entry_type: EntryType::Command(text.to_string()) }
}

fn term_two_entries(n: u64) -> Vec<LogEntry<String>> {
    (1..=n).map(|i| LogEntry { term: 2, entry_type: EntryType::Command(format!("cmd{}", i)) }).collect()
}

fn snapshot_through(index: u64) -> Snapshot {
    let mut state_machine = KvStateMachine::new();
    for i in 1..=index {
        state_machine.apply(&format!("cmd{}", i));
    }
    Snapshot {
        metadata: SnapshotMetadata { last_included_index: index, last_included_term: 2 },
        data: state_machine.create_snapshot(),
    }
}

#[test]
fn test_liveness_start_election_increments_term() {
    let mut election = new_election();
    let mut storage = InMemoryStorage::<String>::new();
    let mut current_term = 1;
    let mut role = NodeState::Follower;

    let _msg: RaftMsg<String> = election.start_election(1, &mut current_term, &mut storage, &mut role);

    assert_eq!(current_term, 2);
    assert_eq!(role, NodeState::Candidate);
    assert_eq!(storage.current_term(), 2);
}

#[test]
fn test_safety_start_election_votes_for_self() {
    let mut election = new_election();
    let mut storage = InMemoryStorage::<String>::new();
    let mut current_term = 1;
    let mut role = NodeState::Follower;

    election.start_election(1, &mut current_term, &mut storage, &mut role);

    assert_eq!(storage.voted_for(), Some(1));
}

#[test]
fn test_liveness_start_election_generates_correct_message() {
    let mut election = new_election();
    let mut storage = InMemoryStorage::<String>::new();
    storage.set_current_term(5);
    let mut current_term = 5;
    let mut role = NodeState::Follower;

    let msg = election.start_election(42, &mut current_term, &mut storage, &mut role);

    match msg {
        RaftMsg::RequestVote { term, candidate_id, last_log_index, last_log_term } => {
            assert_eq!(term, 6);
            assert_eq!(candidate_id, 42);
            assert_eq!(last_log_index, 0);
            assert_eq!(last_log_term, 0);
        }
        _ => panic!("Expected RequestVote message"),
    }
}

#[test]
fn test_safety_grant_vote_to_first_candidate() {
    let mut election = new_election();
    let mut storage = InMemoryStorage::<String>::new();
    storage.set_current_term(1);
    let mut current_term = 1;

    let response = election.handle_vote_request(1, 5, 0, 0, &mut current_term, &mut storage);

    match response {
        RaftMsg::RequestVoteResponse { term, vote_granted } => {
            assert_eq!(term, 1);
            assert!(vote_granted);
        }
        _ => panic!("Expected RequestVoteResponse"),
    }
    assert_eq!(storage.voted_for(), Some(5));
}

#[test]
fn test_safety_reject_when_already_voted() {
    let mut election = new_election();
    let mut storage = InMemoryStorage::<String>::new();
    storage.set_current_term(1);
    storage.set_voted_for(Some(3));
    let mut current_term = 1;

    let response = election.handle_vote_request(1, 5, 0, 0, &mut current_term, &mut storage);

    match response {
        RaftMsg::RequestVoteResponse { vote_granted, .. } => assert!(!vote_granted),
        _ => panic!("Expected RequestVoteResponse"),
    }
}

#[test]
fn test_safety_grant_vote_to_same_candidate_twice() {
    let mut election = new_election();
    let mut storage = InMemoryStorage::<String>::new();
    storage.set_current_term(1);
    storage.set_voted_for(Some(5));
    let mut current_term = 1;

    let response = election.handle_vote_request(1, 5, 0, 0, &mut current_term, &mut storage);

    match response {
        RaftMsg::RequestVoteResponse { vote_granted, .. } => assert!(vote_granted),
        _ => panic!("Expected RequestVoteResponse"),
    }
}

#[test]
fn test_safety_reject_less_up_to_date_candidate() {
    let mut election = new_election();
    let mut storage = InMemoryStorage::<String>::new();
    storage.append_entries(&[entry(1, "cmd1"), entry(2, "cmd2"), entry(2, "cmd3")]);
    storage.set_current_term(2);
    let mut current_term = 2;

    let response = election.handle_vote_request(2, 5, 2, 2, &mut current_term, &mut storage);

    match response {
        RaftMsg::RequestVoteResponse { vote_granted, .. } => assert!(!vote_granted),
        _ => panic!("Expected RequestVoteResponse"),
    }
}

#[test]
fn test_safety_grant_to_equally_up_to_date_candidate() {
    let mut election = new_election();
    let mut storage = InMemoryStorage::<String>::new();
    storage.append_entries(&[entry(1, "cmd1"), entry(2, "cmd2")]);
    storage.set_current_term(2);
    let mut current_term = 2;

    let response = election.handle_vote_request(2, 5, 2, 2, &mut current_term, &mut storage);

    match response {
        RaftMsg::RequestVoteResponse { vote_granted, .. } => {
            assert!(vote_granted, "Should grant vote to equally up-to-date candidate");
        }
        _ => panic!("Expected RequestVoteResponse"),
    }
}

#[test]
fn test_safety_update_term_from_higher_request() {
    let mut election = new_election();
    let mut storage = InMemoryStorage::<String>::new();
    storage.set_current_term(1);
    storage.set_voted_for(Some(3));
    let mut current_term = 1;

    let response = election.handle_vote_request(5, 7, 0, 0, &mut current_term, &mut storage);

    assert_eq!(current_term, 5);
    assert_eq!(storage.current_term(), 5);
    match response {
        RaftMsg::RequestVoteResponse { vote_granted, .. } => {
            assert!(vote_granted);
            assert_eq!(storage.voted_for(), Some(7));
        }
        _ => panic!("Expected RequestVoteResponse"),
    }
}

#[test]
fn test_safety_reject_stale_vote_request() {
    let mut election = new_election();
    let mut storage = InMemoryStorage::<String>::new();
    storage.set_current_term(5);
    let mut current_term = 5;

    let response = election.handle_vote_request(3, 7, 0, 0, &mut current_term, &mut storage);

    match response {
        RaftMsg::RequestVoteResponse { term, vote_granted } => {
            assert_eq!(term, 5);
            assert!(!vote_granted);
        }
        _ => panic!("Expected RequestVoteResponse"),
    }
}

#[test]
fn test_handle_pre_vote_request_log_not_up_to_date() {
    let mut manager = new_election();
    let mut storage = InMemoryStorage::<String>::new();
    storage.append_entries(&[entry(2, "cmd")]);

    let msg = manager.handle_pre_vote_request(1, 1, 1, 1, &storage);

    match msg {
        RaftMsg::PreVoteResponse { term, vote_granted } => {
            assert_eq!(term, 1);
            assert!(!vote_granted);
        }
        _ => panic!("Expected PreVoteResponse"),
    }
}

fn candidate_in_term(term: u64) -> (ElectionManager<ManualTimer>, u64, NodeState) {
    let mut election = new_election();
    let mut storage = InMemoryStorage::<String>::new();
    storage.set_current_term(term);
    let mut current_term = term;
    let mut role = NodeState::Candidate;
    election.start_election(1, &mut current_term, &mut storage, &mut role);
    (election, current_term, role)
}

fn config_of(ids: &[u64]) -> Configuration {
    let mut peers = NodeCollection::new();
    for &id in ids {
        peers.push(id);
    }
    Configuration::new(peers)
}

#[test]
fn test_liveness_become_leader_on_majority() {
    let (mut election, current_term, role) = candidate_in_term(2);
    let config = config_of(&[2, 3]);

    let became_leader = election.handle_vote_response(2, 3, true, &current_term, &role, &config);

    assert!(became_leader);
}

#[test]
fn test_liveness_stay_candidate_without_majority() {
    let (mut election, current_term, role) = candidate_in_term(2);
    let config = config_of(&[2, 3, 4, 5]);

    let became_leader = election.handle_vote_response(2, 3, true, &current_term, &role, &config);

    assert!(!became_leader);
    assert_eq!(role, NodeState::Candidate);
}

#[test]
fn test_liveness_handle_vote_rejection() {
    let (mut election, current_term, role) = candidate_in_term(2);
    let config = config_of(&[2]);

    let became_leader = election.handle_vote_response(2, 3, false, &current_term, &role, &config);

    assert!(!became_leader);
    assert_eq!(role, NodeState::Candidate);
}

#[test]
fn test_safety_ignore_stale_vote_response() {
    let (mut election, current_term, role) = candidate_in_term(5);
    let config = config_of(&[2]);

    let became_leader = election.handle_vote_response(2, 3, true, &current_term, &role, &config);

    assert!(!became_leader);
}

#[test]
fn test_liveness_majority_calculation_even_cluster() {
    let (mut election, current_term, role) = candidate_in_term(1);
    let config = config_of(&[2, 3, 4]);

    election.handle_vote_response(2, 2, true, &current_term, &role, &config);
    let became_leader = election.handle_vote_response(3, 2, true, &current_term, &role, &config);

    assert!(became_leader);
}

#[test]
fn test_liveness_single_node_cluster() {
    let (mut election, current_term, mut role) = candidate_in_term(1);
    let config = config_of(&[]);

    let became_leader = election.handle_vote_response(1, current_term, true, &current_term, &role, &config);
    if became_leader {
        role = NodeState::Leader;
    }

    assert!(became_leader);
    assert_eq!(role, NodeState::Leader);
}

#[test]
fn test_liveness_start_election_with_compacted_log() {
    let mut election = new_election();
    let mut storage = InMemoryStorage::<String>::new();
    storage.set_current_term(3);
    let mut current_term = 3;
    let mut role = NodeState::Follower;
    storage.append_entries(&term_two_entries(15));
    storage.save_snapshot(snapshot_through(10));
    storage.discard_entries_before(11);
    storage.discard_entries_before(16);

    let msg = election.start_election(1, &mut current_term, &mut storage, &mut role);

    assert_eq!(storage.first_log_index(), 16);
    assert_eq!(storage.last_log_index(), 15);
    assert_eq!(storage.last_log_term(), 2);
    match msg {
        RaftMsg::RequestVote { term, candidate_id, last_log_index, last_log_term } => {
            assert_eq!(term, 4);
            assert_eq!(candidate_id, 1);
            assert_eq!(last_log_index, 15);
            assert_eq!(last_log_term, 2);
        }
        _ => panic!("Expected RequestVote message"),
    }
}

#[test]
fn test_safety_grant_vote_with_compacted_log() {
    let mut election = new_election();
    let mut storage = InMemoryStorage::<String>::new();
    storage.set_current_term(3);
    let mut current_term = 3;
    storage.append_entries(&term_two_entries(20));
    storage.save_snapshot(snapshot_through(15));
    storage.discard_entries_before(21);
    let actual_last_index = storage.last_log_index();
    let actual_last_term = storage.last_log_term();

    let response = election.handle_vote_request(3, 5, 18, 2, &mut current_term, &mut storage);

    assert_eq!(actual_last_index, 20, "last_log_index when log empty");
    assert_eq!(actual_last_term, 2, "last_log_term from snapshot");
    match response {
        RaftMsg::RequestVoteResponse { vote_granted, .. } => assert!(!vote_granted),
        _ => panic!("Expected RequestVoteResponse"),
    }
}

#[test]
fn test_safety_reject_candidate_with_older_log_than_snapshot() {
    let mut election = new_election();
    let mut storage = InMemoryStorage::<String>::new();
    storage.set_current_term(3);
    let mut current_term = 3;
    storage.append_entries(&term_two_entries(15));
    storage.save_snapshot(snapshot_through(15));
    storage.discard_entries_before(16);

    let response = election.handle_vote_request(3, 5, 10, 2, &mut current_term, &mut storage);

    assert_eq!(storage.last_log_index(), 15);
    assert_eq!(storage.last_log_term(), 2);
    match response {
        RaftMsg::RequestVoteResponse { vote_granted, .. } => assert!(!vote_granted),
        _ => panic!("Expected RequestVoteResponse"),
    }
}

#[test]
fn test_safety_grant_vote_with_higher_term_than_snapshot() {
    let mut election = new_election();
    let mut storage = InMemoryStorage::<String>::new();
    storage.set_current_term(3);
    let mut current_term = 3;
    storage.append_entries(&term_two_entries(15));
    storage.save_snapshot(snapshot_through(15));
    storage.discard_entries_before(16);

    let response = election.handle_vote_request(3, 5, 10, 3, &mut current_term, &mut storage);

    assert_eq!(storage.last_log_index(), 15);
    assert_eq!(storage.last_log_term(), 2);
    match response {
        RaftMsg::RequestVoteResponse { vote_granted, .. } => assert!(vote_granted),
        _ => panic!("Expected RequestVoteResponse"),
    }
}

#[test]
fn test_liveness_pre_vote_rejection_with_stale_term() {
    let mut election = new_election();
    let mut storage = InMemoryStorage::<String>::new();
    storage.set_current_term(5);
    let current_term = 5;

    let response = election.handle_pre_vote_request(3, 0, 0, current_term, &storage);

    match response {
        RaftMsg::PreVoteResponse { vote_granted, .. } => assert!(!vote_granted),
        _ => panic!("Expected PreVoteResponse"),
    }
}

#[test]
fn test_safety_pre_vote_response_from_minority_does_not_start_election() {
    let mut election = new_election();
    let mut storage = InMemoryStorage::<String>::new();
    storage.set_current_term(2);
    let current_term = 2;
    election.start_pre_vote(1, current_term, &storage);
    let config = config_of(&[2, 3, 4, 5]);

    let should_start_election = election.handle_pre_vote_response(2, true, &config);

    assert!(!should_start_election);
    assert_eq!(current_term, 2);
}

#[test]
fn one_vote_per_term_second_candidate_refused() {
    let mut election = new_election();
    let mut storage = InMemoryStorage::<String>::new();
    let mut current_term = 4;
    storage.set_current_term(4);

    let first = election.handle_vote_request(4, 2, 0, 0, &mut current_term, &mut storage);
    let second = election.handle_vote_request(4, 3, 0, 0, &mut current_term, &mut storage);

    assert_eq!(first, RaftMsg::RequestVoteResponse { term: 4, vote_granted: true });
    assert_eq!(second, RaftMsg::RequestVoteResponse { term: 4, vote_granted: false });
    assert_eq!(storage.voted_for(), Some(2));
}

#[test]
fn pre_vote_round_won_with_majority_and_then_closed() {
    let mut election = new_election();
    let storage = InMemoryStorage::<String>::new();
    let msg: RaftMsg<String> = election.start_pre_vote(1, 3, &storage);
    assert_eq!(msg, RaftMsg::PreVoteRequest { term: 3, candidate_id: 1, last_log_index: 0, last_log_term: 0 });
    let config = config_of(&[1, 2, 3]);

    assert!(election.handle_pre_vote_response(2, true, &config));
    // The round is over: later grants count for nothing.
    assert!(!election.handle_pre_vote_response(3, true, &config));
}

#[test]
fn pre_vote_request_changes_no_state() {
    let mut election = new_election();
    let mut storage = InMemoryStorage::<String>::new();
    storage.set_current_term(2);
    storage.set_voted_for(Some(9));

    let msg = election.handle_pre_vote_request(7, 0, 0, 2, &storage);

    assert_eq!(msg, RaftMsg::PreVoteResponse { term: 2, vote_granted: true });
    assert_eq!(storage.current_term(), 2);
    assert_eq!(storage.voted_for(), Some(9));
    assert!(!election.timer_service().is_election_running());
}

#[test]
fn vote_response_ignored_when_not_candidate() {
    let mut election = new_election();
    let config = config_of(&[1, 2, 3]);
    let current_term = 3;
    assert!(!election.handle_vote_response(2, 3, true, &current_term, &NodeState::Follower, &config));
    assert!(!election.handle_vote_response(2, 3, true, &current_term, &NodeState::Leader, &config));
}

#[test]
fn repeated_vote_from_one_server_counts_once() {
    let (mut election, current_term, role) = candidate_in_term(1);
    let config = config_of(&[1, 2, 3, 4, 5]);

    assert!(!election.handle_vote_response(2, 2, true, &current_term, &role, &config));
    assert!(!election.handle_vote_response(2, 2, true, &current_term, &role, &config));
    assert!(!election.handle_vote_response(2, 2, true, &current_term, &role, &config));
    assert!(election.handle_vote_response(3, 2, true, &current_term, &role, &config));
}

#[test]
fn repeated_pre_vote_from_one_server_counts_once() {
    let mut election = new_election();
    let storage = InMemoryStorage::<String>::new();
    let _msg: RaftMsg<String> = election.start_pre_vote(1, 3, &storage);
    let config = config_of(&[1, 2, 3, 4, 5]);

    assert!(!election.handle_pre_vote_response(2, true, &config));
    assert!(!election.handle_pre_vote_response(2, true, &config));
    assert!(election.handle_pre_vote_response(4, true, &config));
}
