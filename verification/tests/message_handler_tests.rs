use std::collections::BTreeMap;

use raft_core::clock::{Clock, Instant};
use raft_core::collections::configuration::Configuration;
use raft_core::collections::node_collection::NodeCollection;
use raft_core::components::config_change_manager::ConfigChangeManager;
use raft_core::components::election_manager::ElectionManager;
use raft_core::components::leader_lease::LeaderLease;
use raft_core::components::log_replication_manager::LogReplicationManager;
use raft_core::components::message_handler::{ClientError, MessageHandler};
use raft_core::components::message_handler_context::MessageHandlerContext;
use raft_core::components::snapshot_manager::SnapshotManager;
use raft_core::in_memory::in_memory_storage::InMemoryStorage;
use raft_core::in_memory::in_memory_transport::InMemoryTransport;
use raft_core::in_memory::manual_timer::ManualTimer;
use raft_core::log_entry::{ConfigurationChange, EntryType, LogEntry};
use raft_core::node_state::NodeState;
use raft_core::observer::{EventLevel, Observer, Role, TimerKind as ObservedTimer};
use raft_core::raft_messages::RaftMsg;
use raft_core::snapshot::SnapshotError;
use raft_core::state_machine::StateMachine;
use raft_core::storage::Storage;
use raft_core::timer_service::{TimerKind, TimerService};

struct KvStateMachine {
    data: BTreeMap<String, String>,
}

impl StateMachine for KvStateMachine {
    type Payload = String;

    fn apply(&mut self, payload: &String) {
        if let Some(rest) = payload.strip_prefix("SET ") {
            if let Some((k, v)) = rest.split_once('=') {
                self.data.insert(k.to_string(), v.to_string());
            }
        }
    }

    fn get(&self, key: &str) -> Option<&str> {
        self.data.get(key).map(|v| v.as_str())
    }

    fn create_snapshot(&self) -> Vec<u8> {
        let mut out = String::new();
        for (k, v) in &self.data {
            out.push_str(&format!("{}={}\n", k, v));
        }
        out.into_bytes()
    }

    fn restore_from_snapshot(&mut self, data: &Vec<u8>) -> Result<(), SnapshotError> {
        let text = std::str::from_utf8(data).map_err(|_| SnapshotError::CorruptData)?;
        self.data.clear();
        for line in text.lines() {
            if let Some((k, v)) = line.split_once('=') {
                self.data.insert(k.to_string(), v.to_string());
            }
        }
        Ok(())
    }
}

struct QuietObserver;

impl Observer for QuietObserver {
    type Payload = String;
    fn min_level(&self) -> EventLevel {
        EventLevel::Off
    }
    fn leader_elected(&mut self, _node: u64, _term: u64) {}
    fn role_changed(&mut self, _node: u64, _old: Role, _new: Role, _term: u64) {}
    fn leader_lost(&mut self, _node: u64, _old_term: u64, _new_term: u64) {}
    fn election_started(&mut self, _node: u64, _term: u64) {}
    fn election_timeout(&mut self, _node: u64, _term: u64) {}
    fn pre_vote_started(&mut self, _node: u64, _term: u64) {}
    fn pre_vote_requested(&mut self, _c: u64, _v: u64, _t: u64, _i: u64, _lt: u64) {}
    fn pre_vote_granted(&mut self, _c: u64, _v: u64, _g: bool, _t: u64) {}
    fn pre_vote_succeeded(&mut self, _node: u64, _term: u64) {}
    fn commit_advanced(&mut self, _node: u64, _o: u64, _n: u64) {}
    fn log_appended(&mut self, _node: u64, _c: usize, _i: u64, _t: u64) {}
    fn log_truncated(&mut self, _node: u64, _from: u64) {}
    fn vote_requested(&mut self, _c: u64, _v: u64, _t: u64, _i: u64, _lt: u64) {}
    fn vote_granted(&mut self, _c: u64, _v: u64, _g: bool, _t: u64) {}
    fn voted_for(&mut self, _v: u64, _c: u64, _t: u64) {}
    fn heartbeat_sent(&mut self, _l: u64, _f: u64, _t: u64) {}
    fn append_entries_sent(&mut self, _l: u64, _f: u64, _n: usize, _t: u64) {}
    fn append_entries_response(&mut self, _f: u64, _l: u64, _s: bool, _m: u64, _t: u64) {}
    fn timer_fired(&mut self, _node: u64, _timer: ObservedTimer, _term: u64) {}
    fn timer_reset(&mut self, _node: u64, _timer: ObservedTimer, _term: u64) {}
    fn message_sent(&mut self, _from: u64, _to: u64, _msg: &RaftMsg<String>) {}
    fn message_received(&mut self, _to: u64, _from: u64, _msg: &RaftMsg<String>) {}
    fn higher_term_discovered(&mut self, _n: u64, _o: u64, _t: u64, _p: u64) {}
    fn configuration_change_applied(&mut self, _node: u64, _target: u64, _added: bool) {}
    fn state_machine_applied(&mut self, _node: u64, _index: u64, _payload: &String) {}
    fn state_machine_read(&mut self, _node: u64, _key: &str, _found: bool) {}
}

/// A clock that always reads the same instant.
struct FrozenClock;

impl Clock for FrozenClock {
    fn now(&self) -> Instant {
        Instant::from_millis(0)
    }
}

type Ctx = MessageHandlerContext<
    InMemoryTransport<String>,
    InMemoryStorage<String>,
    KvStateMachine,
    ManualTimer,
    QuietObserver,
    FrozenClock,
>;

fn config_of(ids: &[u64]) -> Configuration {
    let mut members = NodeCollection::new();
    for &id in ids {
        members.push(id);
    }
    Configuration::new(members)
}

fn create_context(node_id: u64, role: NodeState, term: u64, members: &[u64], snapshot_threshold: u64) -> Ctx {
    let mut storage = InMemoryStorage::<String>::new();
    storage.set_current_term(term);
    MessageHandlerContext {
        id: node_id,
        role,
        current_term: term,
        current_leader: None,
        transport: InMemoryTransport::new(),
        storage,
        state_machine: KvStateMachine { data: BTreeMap::new() },
        observer: QuietObserver,
        election: ElectionManager::new(ManualTimer::new()),
        replication: LogReplicationManager::new(),
        config_manager: ConfigChangeManager::new(config_of(members)),
        snapshot_manager: SnapshotManager::new(snapshot_threshold),
        leader_lease: LeaderLease::new(5000, FrozenClock),
    }
}

/// A leader context whose replication state tracks every member.
fn leader_context(term: u64, members: &[u64]) -> Ctx {
    let mut ctx = create_context(1, NodeState::Leader, term, members, 10);
    let members_now = ctx.config_manager.config().members.clone();
    ctx.replication.initialize_leader_state(members_now.iter(), &ctx.storage);
    ctx
}

fn sent_to(ctx: &mut Ctx, peer: u64) -> Vec<RaftMsg<String>> {
    ctx.transport.drain_outbox().into_iter().filter(|(to, _)| *to == peer).map(|(_, m)| m).collect()
}

fn create_handler() -> MessageHandler {
    MessageHandler::new()
}

#[test]
fn test_message_handler_start_election() {
    let mut ctx = create_context(1, NodeState::Follower, 5, &[], 1000);
    let handler = create_handler();

    handler.start_election(&mut ctx);

    assert_eq!(ctx.current_term, 6);
    assert!(ctx.role == NodeState::Candidate || ctx.role == NodeState::Leader);
    assert_eq!(ctx.storage.current_term(), 6);
}

#[test]
fn test_message_handler_start_pre_vote() {
    let mut ctx = create_context(1, NodeState::Follower, 5, &[], 1000);
    let handler = create_handler();

    handler.start_pre_vote(&mut ctx);

    assert_eq!(ctx.current_term, 5);
    assert_eq!(ctx.role, NodeState::Follower);
    assert_eq!(ctx.storage.current_term(), 5);
}

#[test]
fn test_message_handler_reuse_across_operations() {
    let mut ctx = create_context(1, NodeState::Follower, 5, &[], 1000);
    let handler = create_handler();

    handler.start_pre_vote(&mut ctx);
    assert_eq!(ctx.role, NodeState::Follower);
    assert_eq!(ctx.current_term, 5);

    handler.start_election(&mut ctx);
    assert!(ctx.role == NodeState::Candidate || ctx.role == NodeState::Leader);
    assert_eq!(ctx.current_term, 6);
}

#[test]
fn test_message_handler_handle_election_timer_as_follower() {
    let mut ctx = create_context(1, NodeState::Follower, 5, &[], 1000);
    let handler = create_handler();

    handler.handle_timer(&mut ctx, TimerKind::Election);

    // With no peers the pre-vote and the election are won at once.
    assert_eq!(ctx.role, NodeState::Leader);
    assert_eq!(ctx.current_term, 6);
}

#[test]
fn test_message_handler_handle_election_timer_as_leader() {
    let mut ctx = create_context(1, NodeState::Leader, 5, &[], 1000);
    let handler = create_handler();

    handler.handle_timer(&mut ctx, TimerKind::Election);

    assert_eq!(ctx.role, NodeState::Leader);
    assert_eq!(ctx.current_term, 5);
}

#[test]
fn test_message_handler_handle_election_timer_as_candidate() {
    let mut ctx = create_context(1, NodeState::Candidate, 5, &[1, 2], 10);
    ctx.storage.set_voted_for(Some(1));
    let handler = create_handler();

    handler.handle_timer(&mut ctx, TimerKind::Election);

    assert_eq!(ctx.role, NodeState::Candidate);
    assert_eq!(ctx.current_term, 5);
    assert_eq!(ctx.storage.current_term(), 5);
    assert!(!sent_to(&mut ctx, 2).is_empty());
}

#[test]
fn test_message_handler_handle_heartbeat_timer_as_leader() {
    let mut ctx = leader_context(5, &[1, 2]);
    let handler = create_handler();

    handler.handle_timer(&mut ctx, TimerKind::Heartbeat);

    assert!(!sent_to(&mut ctx, 2).is_empty());
}

#[test]
fn test_message_handler_submit_client_command_as_follower_fails() {
    let mut ctx = create_context(2, NodeState::Follower, 1, &[], 1000);
    let handler = create_handler();

    let result = handler.submit_client_command(&mut ctx, "test_command".to_string());
    assert_eq!(result, Err(ClientError::NotLeader { leader_hint: None }));
}

#[test]
fn test_message_handler_submit_config_change_as_follower_fails() {
    let mut ctx = create_context(2, NodeState::Follower, 1, &[], 1000);
    let handler = create_handler();

    let result = handler.submit_config_change(&mut ctx, ConfigurationChange::AddServer(4));
    assert_eq!(result, Err(ClientError::NotLeader { leader_hint: None }));
}

#[test]
fn test_message_handler_handles_higher_term_message() {
    let mut ctx = create_context(1, NodeState::Follower, 1, &[], 10);
    let handler = create_handler();
    let msg = RaftMsg::AppendEntries { term: 2, prev_log_index: 0, prev_log_term: 0, entries: vec![], leader_commit: 0 };

    handler.handle_message(&mut ctx, 2, msg);

    assert_eq!(ctx.current_term, 2);
    assert_eq!(ctx.role, NodeState::Follower);
}

#[test]
fn test_message_handler_handles_pre_vote_request() {
    let mut ctx = create_context(1, NodeState::Follower, 2, &[], 10);
    let handler = create_handler();
    let msg = RaftMsg::PreVoteRequest { term: 2, candidate_id: 2, last_log_index: 0, last_log_term: 0 };

    handler.handle_message(&mut ctx, 2, msg);

    assert!(!sent_to(&mut ctx, 2).is_empty());
}

#[test]
fn test_message_handler_handles_vote_request() {
    let mut ctx = create_context(1, NodeState::Follower, 2, &[], 10);
    let handler = create_handler();
    let msg = RaftMsg::RequestVote { term: 2, candidate_id: 2, last_log_index: 0, last_log_term: 0 };

    handler.handle_message(&mut ctx, 2, msg);

    assert_eq!(ctx.storage.voted_for(), Some(2));
}

#[test]
fn test_message_handler_handles_append_entries_success() {
    let mut ctx = create_context(1, NodeState::Follower, 2, &[], 10);
    let handler = create_handler();
    let msg = RaftMsg::AppendEntries { term: 2, prev_log_index: 0, prev_log_term: 0, entries: vec![], leader_commit: 0 };

    handler.handle_message(&mut ctx, 2, msg);

    assert!(!sent_to(&mut ctx, 2).is_empty());
}

#[test]
fn test_message_handler_broadcast_to_peers() {
    let mut ctx = create_context(1, NodeState::Leader, 5, &[1, 2, 3], 10);
    let handler = create_handler();

    handler.send_heartbeats(&mut ctx);

    let outbox = ctx.transport.drain_outbox();
    assert!(outbox.iter().any(|(to, _)| *to == 2));
    assert!(outbox.iter().any(|(to, _)| *to == 3));
}

#[test]
fn test_message_handler_send_append_entries_to_followers() {
    let mut ctx = leader_context(5, &[1, 2]);
    let handler = create_handler();

    handler.send_append_entries_to_followers(&mut ctx);

    assert!(!sent_to(&mut ctx, 2).is_empty());
}

#[test]
fn test_message_handler_handles_vote_response_updates_election_state() {
    let mut ctx = create_context(1, NodeState::Candidate, 2, &[1, 2, 3], 10);
    ctx.storage.set_voted_for(Some(1));
    let mut term = ctx.current_term;
    let mut role = ctx.role;
    ctx.election.start_election(1, &mut term, &mut ctx.storage, &mut role);
    ctx.current_term = term;
    ctx.role = role;
    let handler = create_handler();

    handler.handle_message(&mut ctx, 2, RaftMsg::RequestVoteResponse { term: 2, vote_granted: true });

    assert!(ctx.role == NodeState::Candidate || ctx.role == NodeState::Leader);
}

#[test]
fn test_message_handler_handles_install_snapshot_message() {
    let mut ctx = create_context(1, NodeState::Follower, 2, &[], 10);
    let handler = create_handler();
    let msg = RaftMsg::InstallSnapshot {
        term: 2,
        leader_id: 2,
        last_included_index: 5,
        last_included_term: 1,
        offset: 0,
        data: Vec::new(),
        done: true,
    };

    handler.handle_message(&mut ctx, 2, msg);

    assert!(!sent_to(&mut ctx, 2).is_empty());
}

#[test]
fn test_message_handler_handles_install_snapshot_response() {
    let mut ctx = leader_context(2, &[1, 2]);
    let handler = create_handler();

    handler.handle_message(&mut ctx, 2, RaftMsg::InstallSnapshotResponse { term: 2, success: true });

    assert_eq!(ctx.role, NodeState::Leader);
}

#[test]
fn test_message_handler_submit_client_command_as_leader_succeeds() {
    let mut ctx = leader_context(2, &[1, 2]);
    let handler = create_handler();

    let result = handler.submit_client_command(&mut ctx, "test_command".to_string());

    assert!(result.is_ok());
}

#[test]
fn test_message_handler_submit_config_change_as_leader_succeeds() {
    let mut ctx = leader_context(2, &[1]);
    let handler = create_handler();

    let result = handler.submit_config_change(&mut ctx, ConfigurationChange::AddServer(2));

    assert!(result.is_ok());
}

#[test]
fn test_message_handler_handles_append_entries_response() {
    let mut ctx = leader_context(2, &[1, 2]);
    let handler = create_handler();

    handler.handle_message(&mut ctx, 2, RaftMsg::AppendEntriesResponse { term: 2, success: true, match_index: 0 });

    assert!(ctx.replication.match_index().get(2).is_some());
}

#[test]
fn test_message_handler_ignores_stale_append_entries_response() {
    let mut ctx = leader_context(3, &[1, 2]);
    let initial_match_index = ctx.replication.match_index().get(2);
    let initial_commit_index = ctx.replication.commit_index();
    let handler = create_handler();

    handler.handle_message(&mut ctx, 2, RaftMsg::AppendEntriesResponse { term: 2, success: true, match_index: 10 });

    assert_eq!(ctx.replication.match_index().get(2), initial_match_index);
    assert_eq!(ctx.replication.commit_index(), initial_commit_index);
    assert_eq!(ctx.role, NodeState::Leader);
    assert_eq!(ctx.current_term, 3);
}

#[test]
fn test_message_handler_grants_lease_on_commit_advance() {
    let mut ctx = leader_context(2, &[1, 2]);
    let payload = "test command".to_string();
    ctx.storage.append_entries(&[LogEntry { term: 2, entry_type: EntryType::Command(payload.clone()) }]);
    let handler = create_handler();

    assert!(!ctx.leader_lease.is_valid());

    handler.handle_message(&mut ctx, 2, RaftMsg::AppendEntriesResponse { term: 2, success: true, match_index: 1 });

    assert_eq!(ctx.replication.commit_index(), 1);
    assert!(ctx.leader_lease.is_valid());
}

#[test]
fn test_message_handler_revokes_lease_on_step_down() {
    let mut ctx = leader_context(2, &[1, 2]);
    let handler = create_handler();

    ctx.leader_lease.grant();
    assert!(ctx.leader_lease.is_valid());

    let msg = RaftMsg::AppendEntries { term: 3, prev_log_index: 0, prev_log_term: 0, entries: vec![], leader_commit: 0 };
    handler.handle_message(&mut ctx, 2, msg);

    assert_eq!(ctx.role, NodeState::Follower);
    assert_eq!(ctx.current_term, 3);
    assert!(!ctx.leader_lease.is_valid());
}

#[test]
fn test_message_handler_does_not_grant_lease_for_non_leader() {
    let mut ctx = create_context(1, NodeState::Follower, 2, &[1, 2], 10);
    let members_now = ctx.config_manager.config().members.clone();
    ctx.replication.initialize_leader_state(members_now.iter(), &ctx.storage);
    let handler = create_handler();

    assert!(!ctx.leader_lease.is_valid());

    handler.handle_message(&mut ctx, 2, RaftMsg::AppendEntriesResponse { term: 2, success: true, match_index: 1 });

    assert!(!ctx.leader_lease.is_valid());
}

#[test]
fn test_message_handler_does_not_grant_lease_for_stale_term() {
    let mut ctx = leader_context(3, &[1, 2]);
    let handler = create_handler();

    assert!(!ctx.leader_lease.is_valid());

    handler.handle_message(&mut ctx, 2, RaftMsg::AppendEntriesResponse { term: 2, success: true, match_index: 1 });

    assert!(!ctx.leader_lease.is_valid());
}

#[test]
fn test_message_handler_lease_remains_valid_across_multiple_commits() {
    let mut ctx = leader_context(2, &[1, 2]);
    for text in ["cmd1", "cmd2"] {
        ctx.storage.append_entries(&[LogEntry { term: 2, entry_type: EntryType::Command(text.to_string()) }]);
    }
    let handler = create_handler();

    assert!(!ctx.leader_lease.is_valid());

    handler.handle_message(&mut ctx, 2, RaftMsg::AppendEntriesResponse { term: 2, success: true, match_index: 1 });
    assert_eq!(ctx.replication.commit_index(), 1);
    assert!(ctx.leader_lease.is_valid());

    handler.handle_message(&mut ctx, 2, RaftMsg::AppendEntriesResponse { term: 2, success: true, match_index: 2 });
    assert_eq!(ctx.replication.commit_index(), 2);
    assert!(ctx.leader_lease.is_valid());
}

#[test]
fn stale_append_entries_is_refused_with_current_term() {
    let mut ctx = create_context(1, NodeState::Follower, 4, &[1, 2], 10);
    let handler = create_handler();
    let msg = RaftMsg::AppendEntries {
        term: 3,
        prev_log_index: 0,
        prev_log_term: 0,
        entries: vec![LogEntry { term: 3, entry_type: EntryType::Command("x".to_string()) }],
        leader_commit: 1,
    };

    handler.handle_message(&mut ctx, 2, msg);

    assert_eq!(
        sent_to(&mut ctx, 2),
        vec![RaftMsg::AppendEntriesResponse { term: 4, success: false, match_index: 0 }]
    );
    assert_eq!(ctx.storage.last_log_index(), 0);
    assert_eq!(ctx.current_term, 4);
}

#[test]
fn single_member_leader_commits_submitted_command_at_once() {
    let mut ctx = leader_context(1, &[1]);
    let handler = create_handler();

    let result = handler.submit_client_command(&mut ctx, "SET k=v".to_string());

    assert_eq!(result, Ok(1));
    assert_eq!(ctx.replication.commit_index(), 1);
    assert_eq!(ctx.state_machine.get("k"), Some("v"));
}

#[test]
fn pre_vote_request_leaves_term_and_vote_alone() {
    let mut ctx = create_context(1, NodeState::Follower, 2, &[1, 2], 10);
    ctx.storage.set_voted_for(Some(1));
    let handler = create_handler();

    handler.handle_message(
        &mut ctx,
        2,
        RaftMsg::PreVoteRequest { term: 3, candidate_id: 2, last_log_index: 0, last_log_term: 0 },
    );

    assert_eq!(ctx.current_term, 2);
    assert_eq!(ctx.storage.voted_for(), Some(1));
    assert_eq!(sent_to(&mut ctx, 2), vec![RaftMsg::PreVoteResponse { term: 2, vote_granted: true }]);
}

#[test]
fn server_with_no_peers_wins_its_election_at_once() {
    let mut ctx = create_context(1, NodeState::Follower, 5, &[1], 1000);
    let handler = create_handler();

    handler.handle_timer(&mut ctx, TimerKind::Election);

    assert_eq!(ctx.role, NodeState::Leader);
    assert_eq!(ctx.current_term, 6);
}

#[test]
fn server_whose_only_member_is_another_waits_for_votes() {
    let mut ctx = create_context(1, NodeState::Follower, 5, &[2], 1000);
    let handler = create_handler();

    handler.start_election(&mut ctx);

    assert_eq!(ctx.role, NodeState::Candidate);
    assert_eq!(ctx.current_term, 6);
    let to_peer = sent_to(&mut ctx, 2);
    assert_eq!(to_peer.len(), 1);
    assert!(matches!(to_peer[0], RaftMsg::RequestVote { term: 6, candidate_id: 1, .. }));
}

#[test]
fn current_term_append_entries_restarts_a_running_election_timer() {
    let mut ctx = create_context(1, NodeState::Follower, 2, &[1, 2], 10);
    let handler = create_handler();
    ctx.election.timer_service_mut().reset_election_timer();
    ctx.election.timer_service_mut().fire(TimerKind::Election);
    assert!(!ctx.election.timer_service().check_expired().is_empty());

    let msg = RaftMsg::AppendEntries { term: 2, prev_log_index: 0, prev_log_term: 0, entries: vec![], leader_commit: 0 };
    handler.handle_message(&mut ctx, 2, msg);

    assert!(ctx.election.timer_service().is_election_running());
    assert!(ctx.election.timer_service().check_expired().is_empty());
}

#[test]
fn stale_append_entries_leaves_a_fired_election_timer_alone() {
    let mut ctx = create_context(1, NodeState::Follower, 3, &[1, 2], 10);
    let handler = create_handler();
    ctx.election.timer_service_mut().reset_election_timer();
    ctx.election.timer_service_mut().fire(TimerKind::Election);

    let msg = RaftMsg::AppendEntries { term: 2, prev_log_index: 0, prev_log_term: 0, entries: vec![], leader_commit: 0 };
    handler.handle_message(&mut ctx, 2, msg);

    assert_eq!(ctx.election.timer_service().check_expired().iter(), vec![TimerKind::Election]);
}

#[test]
fn leader_steps_down_on_request_vote_of_a_later_term() {
    let mut ctx = leader_context(2, &[1, 2]);
    ctx.leader_lease.grant();
    assert!(ctx.leader_lease.is_valid());
    let handler = create_handler();
    let msg = RaftMsg::RequestVote { term: 3, candidate_id: 2, last_log_index: 0, last_log_term: 0 };

    handler.handle_message(&mut ctx, 2, msg);

    assert_eq!(ctx.role, NodeState::Follower);
    assert_eq!(ctx.current_term, 3);
    assert_eq!(ctx.storage.voted_for(), Some(2));
    assert!(!ctx.leader_lease.is_valid());
    assert_eq!(sent_to(&mut ctx, 2), vec![RaftMsg::RequestVoteResponse { term: 3, vote_granted: true }]);
}
