use raft_core::collections::config_change_collection::ConfigChangeCollection;
use raft_core::collections::configuration::Configuration;
use raft_core::collections::node_collection::NodeCollection;
use raft_core::components::config_change_manager::{ConfigChangeManager, ConfigError};
use raft_core::components::log_replication_manager::LogReplicationManager;
use raft_core::log_entry::ConfigurationChange;
use raft_core::node_state::NodeState;
use raft_core::observer::{EventLevel, Observer, Role, TimerKind};
use raft_core::raft_messages::RaftMsg;

struct NullObserver {
    applied: Vec<(u64, u64, bool)>,
}

impl Observer for NullObserver {
    type Payload = String;
    fn min_level(&self) -> EventLevel {
        EventLevel::Off
    }
    fn leader_elected(&mut self, _node: u64, _term: u64) {}
    fn role_changed(&mut self, _node: u64, _old: Role, _new: Role, _term: u64) {}
    fn leader_lost(&mut self, _node: u64, _old_term: u64, _new_term: u64) {}
    fn election_started(&mut self, _node: u64, _term: u64) {}
    fn election_timeout(&mut self, _node: u64, _term: u64) {}
    fn pre_vote_started(&mut self, _node: u64, _term: u64) {}
    fn pre_vote_requested(&mut self, _c: u64, _v: u64, _t: u64, _i: u64, _lt: u64) {}
    fn pre_vote_granted(&mut self, _c: u64, _v: u64, _g: bool, _t: u64) {}
    fn pre_vote_succeeded(&mut self, _node: u64, _term: u64) {}
    fn commit_advanced(&mut self, _node: u64, _o: u64, _n: u64) {}
    fn log_appended(&mut self, _node: u64, _c: usize, _i: u64, _t: u64) {}
    fn log_truncated(&mut self, _node: u64, _from: u64) {}
    fn vote_requested(&mut self, _c: u64, _v: u64, _t: u64, _i: u64, _lt: u64) {}
    fn vote_granted(&mut self, _c: u64, _v: u64, _g: bool, _t: u64) {}
    fn voted_for(&mut self, _v: u64, _c: u64, _t: u64) {}
    fn heartbeat_sent(&mut self, _l: u64, _f: u64, _t: u64) {}
    fn append_entries_sent(&mut self, _l: u64, _f: u64, _n: usize, _t: u64) {}
    fn append_entries_response(&mut self, _f: u64, _l: u64, _s: bool, _m: u64, _t: u64) {}
    fn timer_fired(&mut self, _node: u64, _timer: TimerKind, _term: u64) {}
    fn timer_reset(&mut self, _node: u64, _timer: TimerKind, _term: u64) {}
    fn message_sent(&mut self, _from: u64, _to: u64, _msg: &RaftMsg<String>) {}
    fn message_received(&mut self, _to: u64, _from: u64, _msg: &RaftMsg<String>) {}
    fn higher_term_discovered(&mut self, _n: u64, _o: u64, _t: u64, _p: u64) {}
    fn configuration_change_applied(&mut self, _node: u64, target: u64, added: bool) {
        self.applied.push((_node, target, added));
    }
    fn state_machine_applied(&mut self, _node: u64, _index: u64, _payload: &String) {}
    fn state_machine_read(&mut self, _node: u64, _key: &str, _found: bool) {}
}

fn make_test_config(nodes: &[u64]) -> Configuration {
    let mut members = NodeCollection::new();
    members.push(1);
    for &node_id in nodes {
        members.push(node_id);
    }
    Configuration::new(members)
}

#[test]
fn config_change_manager_tests_test_new_manager() {
    let config = make_test_config(&[2, 3]);
    let manager = ConfigChangeManager::new(config);
    assert_eq!(manager.config().size(), 3);
    assert!(manager.config().contains(1));
    assert!(manager.config().contains(2));
    assert!(manager.config().contains(3));
}

#[test]
fn test_config_getter() {
    let config = make_test_config(&[2, 3, 4]);
    let manager = ConfigChangeManager::new(config);
    let retrieved_config = manager.config();
    assert_eq!(retrieved_config.size(), 4);
    assert_eq!(retrieved_config.quorum_size(), 3);
}

#[test]
fn test_add_server_not_leader() {
    let mut manager = ConfigChangeManager::new(make_test_config(&[2, 3]));
    assert_eq!(manager.add_server(4, 1, false, 0), Err(ConfigError::NotLeader));
}

#[test]
fn test_add_server_already_exists_in_peers() {
    let mut manager = ConfigChangeManager::new(make_test_config(&[2, 3]));
    assert_eq!(manager.add_server(2, 1, true, 0), Err(ConfigError::NodeAlreadyExists));
}

#[test]
fn test_add_server_self_already_exists() {
    let mut manager = ConfigChangeManager::new(make_test_config(&[2, 3]));
    assert_eq!(manager.add_server(1, 1, true, 0), Err(ConfigError::NodeAlreadyExists));
}

#[test]
fn test_add_server_config_change_in_progress() {
    let mut manager = ConfigChangeManager::new(make_test_config(&[2, 3]));
    let result1 = manager.add_server(4, 1, true, 0);
    assert!(result1.is_ok());
    manager.track_pending_change(10);
    let result2 = manager.add_server(5, 1, true, 5);
    assert_eq!(result2, Err(ConfigError::ConfigChangeInProgress));
}

#[test]
fn test_add_server_allows_new_change_after_commit() {
    let mut manager = ConfigChangeManager::new(make_test_config(&[2, 3]));
    let result1 = manager.add_server(4, 1, true, 0);
    assert!(result1.is_ok());
    manager.track_pending_change(10);
    let result2 = manager.add_server(5, 1, true, 10);
    assert!(result2.is_ok());
    assert_eq!(result2.unwrap(), ConfigurationChange::AddServer(5));
}

#[test]
fn test_add_server_returns_correct_change() {
    let mut manager = ConfigChangeManager::new(make_test_config(&[2, 3]));
    let result = manager.add_server(4, 1, true, 0);
    assert!(result.is_ok());
    assert_eq!(result.unwrap(), ConfigurationChange::AddServer(4));
}

#[test]
fn test_remove_server_not_leader() {
    let mut manager = ConfigChangeManager::new(make_test_config(&[2, 3]));
    assert_eq!(manager.remove_server(3, 1, false, 0), Err(ConfigError::NotLeader));
}

#[test]
fn test_remove_server_not_found() {
    let mut manager = ConfigChangeManager::new(make_test_config(&[2, 3]));
    assert_eq!(manager.remove_server(99, 1, true, 0), Err(ConfigError::NodeNotFound));
}

#[test]
fn test_remove_server_last_node() {
    let mut manager = ConfigChangeManager::new(make_test_config(&[]));
    assert_eq!(manager.remove_server(1, 1, true, 0), Err(ConfigError::CannotRemoveLastNode));
}

#[test]
fn test_remove_server_self_allowed() {
    let mut manager = ConfigChangeManager::new(make_test_config(&[2, 3]));
    let result = manager.remove_server(1, 1, true, 0);
    assert!(result.is_ok());
    assert_eq!(result.unwrap(), ConfigurationChange::RemoveServer(1));
}

#[test]
fn test_remove_server_config_change_in_progress() {
    let mut manager = ConfigChangeManager::new(make_test_config(&[2, 3]));
    let result1 = manager.remove_server(3, 1, true, 0);
    assert!(result1.is_ok());
    manager.track_pending_change(10);
    let result2 = manager.remove_server(2, 1, true, 5);
    assert_eq!(result2, Err(ConfigError::ConfigChangeInProgress));
}

#[test]
fn test_remove_server_returns_correct_change() {
    let mut manager = ConfigChangeManager::new(make_test_config(&[2, 3, 4]));
    let result = manager.remove_server(3, 1, true, 0);
    assert!(result.is_ok());
    assert_eq!(result.unwrap(), ConfigurationChange::RemoveServer(3));
}

#[test]
fn test_track_pending_change() {
    let mut manager = ConfigChangeManager::new(make_test_config(&[2, 3]));
    manager.track_pending_change(42);
    assert_eq!(manager.add_server(4, 1, true, 10), Err(ConfigError::ConfigChangeInProgress));
}

#[test]
fn test_is_change_committed() {
    let manager = ConfigChangeManager::new(make_test_config(&[2, 3]));
    assert!(manager.is_change_committed(5, 10));
    assert!(manager.is_change_committed(10, 10));
    assert!(!manager.is_change_committed(15, 10));
}

#[test]
fn test_pending_change_cleared_after_commit() {
    let mut manager = ConfigChangeManager::new(make_test_config(&[2, 3]));
    let result1 = manager.add_server(4, 1, true, 0);
    assert!(result1.is_ok());
    manager.track_pending_change(10);
    let result2 = manager.add_server(5, 1, true, 9);
    let result3 = manager.add_server(5, 1, true, 10);
    assert_eq!(result2, Err(ConfigError::ConfigChangeInProgress));
    assert!(result3.is_ok());
}

#[test]
fn test_add_to_empty_cluster() {
    let mut manager = ConfigChangeManager::new(make_test_config(&[]));
    let result = manager.add_server(2, 1, true, 0);
    assert!(result.is_ok());
    assert_eq!(result.unwrap(), ConfigurationChange::AddServer(2));
}

#[test]
fn test_remove_from_two_node_cluster() {
    let mut manager = ConfigChangeManager::new(make_test_config(&[2]));
    let result = manager.remove_server(2, 1, true, 0);
    assert!(result.is_ok());
    assert_eq!(result.unwrap(), ConfigurationChange::RemoveServer(2));
}

#[test]
fn test_cannot_remove_only_member() {
    let mut manager = ConfigChangeManager::new(make_test_config(&[]));
    assert_eq!(manager.remove_server(1, 1, true, 0), Err(ConfigError::CannotRemoveLastNode));
}

#[test]
fn test_multiple_changes_in_sequence() {
    let mut manager = ConfigChangeManager::new(make_test_config(&[2, 3]));
    let result1 = manager.add_server(4, 1, true, 0);
    assert!(result1.is_ok());
    manager.track_pending_change(10);
    let result2 = manager.remove_server(3, 1, true, 10);
    assert!(result2.is_ok());
    manager.track_pending_change(15);
    let result3 = manager.add_server(5, 1, true, 14);
    let result4 = manager.add_server(5, 1, true, 15);
    assert_eq!(result3, Err(ConfigError::ConfigChangeInProgress));
    assert!(result4.is_ok());
}

#[test]
fn test_config_manager_workflow() {
    let mut manager = ConfigChangeManager::new(make_test_config(&[2, 3]));
    let change = manager.add_server(4, 1, true, 0).unwrap();
    assert_eq!(change, ConfigurationChange::AddServer(4));
    manager.track_pending_change(10);
    let result = manager.add_server(5, 1, true, 9);
    let change2 = manager.remove_server(2, 1, true, 10);
    assert_eq!(result, Err(ConfigError::ConfigChangeInProgress));
    assert!(change2.is_ok());
    assert_eq!(change2.unwrap(), ConfigurationChange::RemoveServer(2));
}

#[test]
fn test_apply_changes_add_server() {
    let mut members = NodeCollection::new();
    members.push(1);
    let mut manager = ConfigChangeManager::new(Configuration::new(members));
    let mut changes = ConfigChangeCollection::new();
    changes.push(1, ConfigurationChange::AddServer(2));
    let mut observer = NullObserver { applied: Vec::new() };
    let mut current_role = NodeState::Leader;
    let mut replication = LogReplicationManager::new();
    manager.apply_changes(changes, 1, 5, &mut replication, &mut observer, &mut current_role);
    assert!(manager.config().contains(2));
    assert_eq!(replication.next_index().get(2), Some(6));
    assert_eq!(replication.match_index().get(2), Some(0));
}

#[test]
fn test_apply_changes_remove_server() {
    let mut members = NodeCollection::new();
    members.push(1);
    members.push(2);
    let mut manager = ConfigChangeManager::new(Configuration::new(members));
    let mut changes = ConfigChangeCollection::new();
    changes.push(1, ConfigurationChange::RemoveServer(2));
    let mut observer = NullObserver { applied: Vec::new() };
    let mut current_role = NodeState::Leader;
    let mut replication = LogReplicationManager::new();
    manager.apply_changes(changes, 1, 5, &mut replication, &mut observer, &mut current_role);
    assert!(!manager.config().contains(2));
    assert!(replication.next_index().get(2).is_none());
}

#[test]
fn test_apply_changes_remove_self() {
    let mut members = NodeCollection::new();
    members.push(1);
    members.push(2);
    let mut manager = ConfigChangeManager::new(Configuration::new(members));
    let mut changes = ConfigChangeCollection::new();
    changes.push(1, ConfigurationChange::RemoveServer(1));
    let mut observer = NullObserver { applied: Vec::new() };
    let mut current_role = NodeState::Leader;
    let mut replication = LogReplicationManager::new();
    manager.apply_changes(changes, 1, 5, &mut replication, &mut observer, &mut current_role);
    assert!(!manager.config().contains(1));
    assert_eq!(current_role, NodeState::Follower);
}

#[test]
fn apply_changes_added_server_catches_up_on_leader() {
    let mut members = NodeCollection::new();
    members.push(1);
    let mut manager = ConfigChangeManager::new(Configuration::new(members));
    let mut changes = ConfigChangeCollection::new();
    changes.push(3, ConfigurationChange::AddServer(2));
    let mut observer = NullObserver { applied: Vec::new() };
    let mut current_role = NodeState::Leader;
    let mut replication = LogReplicationManager::new();
    manager.track_pending_change(3);
    manager.apply_changes(changes, 1, 5, &mut replication, &mut observer, &mut current_role);
    assert!(replication.is_catching_up(2));
    assert_eq!(observer.applied, vec![(1, 2, true)]);
    // The pending change was applied, so another change is allowed at commit 0.
    assert!(manager.add_server(3, 1, true, 0).is_ok());
}

#[test]
fn apply_changes_on_follower_leaves_replication_alone() {
    let mut members = NodeCollection::new();
    members.push(1);
    members.push(2);
    let mut manager = ConfigChangeManager::new(Configuration::new(members));
    let mut changes = ConfigChangeCollection::new();
    changes.push(1, ConfigurationChange::AddServer(3));
    changes.push(2, ConfigurationChange::RemoveServer(2));
    let mut observer = NullObserver { applied: Vec::new() };
    let mut current_role = NodeState::Follower;
    let mut replication = LogReplicationManager::new();
    manager.apply_changes(changes, 1, 5, &mut replication, &mut observer, &mut current_role);
    assert_eq!(manager.config().iter(), &[1, 3]);
    assert!(replication.next_index().get(3).is_none());
    assert!(!replication.is_catching_up(3));
    assert_eq!(current_role, NodeState::Follower);
}

#[test]
fn configuration_quorum_and_peers() {
    let empty = Configuration::new(NodeCollection::new());
    assert_eq!(empty.quorum_size(), 0);
    assert!(empty.has_quorum(0));
    let config = make_test_config(&[2, 3, 4]);
    assert_eq!(config.quorum_size(), 3);
    assert!(!config.has_quorum(2));
    assert!(config.has_quorum(3));
    assert_eq!(config.peers(1), vec![2, 3, 4]);
    assert_eq!(config.peers(3), vec![1, 2, 4]);
    let five = make_test_config(&[2, 3, 4, 5]);
    assert_eq!(five.quorum_size(), 3);
}

#[test]
fn node_collection_operations() {
    let mut nodes = NodeCollection::from_slice(&[5, 6, 5, 7]);
    assert_eq!(nodes.len(), 4);
    assert!(nodes.contains(6));
    nodes.remove(5);
    assert_eq!(nodes.iter(), &[6, 7]);
    assert_eq!(nodes.get(1), 7);
    nodes.clear();
    assert!(nodes.is_empty());
}

#[test]
fn config_change_collection_keeps_order() {
    let mut changes = ConfigChangeCollection::new();
    assert!(changes.is_empty());
    changes.push(4, ConfigurationChange::AddServer(9));
    changes.push(7, ConfigurationChange::RemoveServer(2));
    assert_eq!(changes.len(), 2);
    assert_eq!(changes.get(1), (7, ConfigurationChange::RemoveServer(2)));
    assert_eq!(changes.iter()[0], (4, ConfigurationChange::AddServer(9)));
    changes.clear();
    assert_eq!(changes.len(), 0);
}
