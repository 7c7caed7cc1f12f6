use raft_core::collections::config_change_collection::ConfigChangeCollection;
use raft_core::collections::configuration::Configuration;
use raft_core::collections::map_collection::{quorum_index, MapCollection};
use raft_core::collections::node_collection::NodeCollection;
use raft_core::log_entry::ConfigurationChange;

fn config_of(ids: &[u64]) -> Configuration {
    Configuration::new(NodeCollection::from_slice(ids))
}

#[test]
fn quorum_size_is_a_strict_majority() {
    assert_eq!(config_of(&[]).quorum_size(), 0);
    assert_eq!(config_of(&[1]).quorum_size(), 1);
    assert_eq!(config_of(&[1, 2]).quorum_size(), 2);
    assert_eq!(config_of(&[1, 2, 3]).quorum_size(), 2);
    assert_eq!(config_of(&[1, 2, 3, 4]).quorum_size(), 3);
    assert_eq!(config_of(&[1, 2, 3, 4, 5]).quorum_size(), 3);
    assert!(config_of(&[1, 2, 3, 4, 5]).has_quorum(3));
    assert!(!config_of(&[1, 2, 3, 4, 5]).has_quorum(2));
}

#[test]
fn two_majorities_of_one_configuration_overlap() {
    for n in 1..=9u64 {
        let ids: Vec<u64> = (1..=n).collect();
        let q = config_of(&ids).quorum_size() as u64;
        assert!(2 * q > n);
        assert!(q <= n);
    }
}

#[test]
fn configuration_membership_and_peers() {
    let config = config_of(&[1, 2, 3]);
    assert!(config.contains(2));
    assert!(!config.contains(4));
    assert_eq!(config.size(), 3);
    assert_eq!(config.iter(), &[1, 2, 3]);
    assert_eq!(config.peers(2), vec![1, 3]);
    assert_eq!(config.peers(9), vec![1, 2, 3]);
}

#[test]
fn node_collection_remove_drops_every_occurrence() {
    let mut nodes = NodeCollection::from_slice(&[1, 2, 1, 3]);
    nodes.remove(1);
    assert_eq!(nodes.iter(), &[2, 3]);
    assert_eq!(nodes.len(), 2);
    assert!(!nodes.contains(1));
    assert_eq!(nodes.get(1), 3);
    nodes.clear();
    assert!(nodes.is_empty());
}

#[test]
fn quorum_index_is_highest_value_held_by_a_majority() {
    assert_eq!(quorum_index(&vec![7]), 7);
    assert_eq!(quorum_index(&vec![5, 3, 0]), 3);
    assert_eq!(quorum_index(&vec![5, 3, 3, 0, 0]), 3);
    assert_eq!(quorum_index(&vec![5, 3, 3, 5, 4]), 4);
    assert_eq!(quorum_index(&vec![10, 3, 4]), 4);
    assert_eq!(quorum_index(&vec![2, 9]), 2);
}

#[test]
fn compute_median_counts_the_leader_once() {
    let mut matched = MapCollection::new();
    matched.insert(2, 3);
    matched.insert(3, 4);
    // The leader (1) is a member too; its recorded value is ignored in favour of its log.
    matched.insert(1, 0);
    assert_eq!(matched.compute_median(1, 10, &config_of(&[1, 2, 3])), Some(4));
    assert_eq!(matched.compute_median(1, 10, &config_of(&[2, 3])), Some(4));
}

#[test]
fn compute_median_treats_unknown_members_as_zero() {
    let mut matched = MapCollection::new();
    matched.insert(2, 8);
    assert_eq!(matched.compute_median(1, 8, &config_of(&[1, 2, 3, 4, 5])), Some(0));
    matched.insert(3, 8);
    assert_eq!(matched.compute_median(1, 8, &config_of(&[1, 2, 3, 4, 5])), Some(8));
}

#[test]
fn map_collection_insert_get_remove() {
    let mut map = MapCollection::new();
    assert!(map.is_empty());
    map.insert(4, 10);
    map.insert(4, 12);
    map.insert(5, 1);
    assert_eq!(map.get(4), Some(12));
    assert_eq!(map.len(), 2);
    map.remove(4);
    assert_eq!(map.get(4), None);
    map.clear();
    assert_eq!(map.len(), 0);
}

#[test]
fn config_change_collection_push_get_clear() {
    let mut changes = ConfigChangeCollection::new();
    assert!(changes.is_empty());
    changes.push(3, ConfigurationChange::AddServer(4));
    changes.push(7, ConfigurationChange::RemoveServer(2));
    assert_eq!(changes.len(), 2);
    assert_eq!(changes.get(0), (3, ConfigurationChange::AddServer(4)));
    assert_eq!(changes.iter()[1], (7, ConfigurationChange::RemoveServer(2)));
    changes.clear();
    assert_eq!(changes.len(), 0);
}
