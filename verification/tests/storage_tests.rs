use raft_core::clock::Instant;
use raft_core::in_memory::in_memory_storage::InMemoryStorage;
use raft_core::in_memory::in_memory_transport::InMemoryTransport;
use raft_core::in_memory::manual_timer::ManualTimer;
use raft_core::log_entry::{EntryType, LogEntry};
use raft_core::raft_messages::RaftMsg;
use raft_core::snapshot::{Snapshot, SnapshotBuildError, SnapshotBuilder, SnapshotError, SnapshotMetadata};
use raft_core::storage::Storage;
use raft_core::timer_service::{ExpiredTimers, TimerKind, TimerService};
use raft_core::transport::Transport;

fn entry(term: u64, text: &str) -> LogEntry<String> {
    LogEntry { term, entry_type: EntryType::Command(text.to_string()) }
}

fn storage_with(terms: &[u64]) -> InMemoryStorage<String> {
    let mut storage = InMemoryStorage::<String>::new();
    for (i, t) in terms.iter().enumerate() {
        storage.append_entries(&[entry(*t, &format!("cmd{}", i + 1))]);
    }
    storage
}

#[test]
fn empty_storage() {
    let storage = InMemoryStorage::<String>::new();
    assert_eq!(storage.current_term(), 0);
    assert_eq!(storage.voted_for(), None);
    assert_eq!(storage.first_log_index(), 1);
    assert_eq!(storage.last_log_index(), 0);
    assert_eq!(storage.last_log_term(), 0);
    assert!(storage.get_entry(0).is_none());
    assert!(storage.get_entry(1).is_none());
    assert!(storage.load_snapshot().is_none());
    assert!(storage.get_snapshot_chunk(0, 10).is_none());
}

#[test]
fn get_entries_clamps_to_the_log() {
    let storage = storage_with(&[1, 1, 2, 3]);
    let all = storage.get_entries(0, 100);
    assert_eq!(all.iter().map(|e| e.term).collect::<Vec<_>>(), vec![1, 1, 2, 3]);
    let middle = storage.get_entries(2, 4);
    assert_eq!(middle, vec![entry(1, "cmd2"), entry(2, "cmd3")]);
    assert!(storage.get_entries(4, 4).is_empty());
    assert!(storage.get_entries(5, 2).is_empty());
}

#[test]
fn truncate_after_keeps_entries_up_to_index() {
    let mut storage = storage_with(&[1, 1, 2, 3]);
    storage.truncate_after(2);
    assert_eq!(storage.last_log_index(), 2);
    assert_eq!(storage.last_log_term(), 1);
    storage.truncate_after(10);
    assert_eq!(storage.last_log_index(), 2);
    storage.truncate_after(0);
    assert_eq!(storage.last_log_index(), 0);
}

#[test]
fn discard_keeps_later_entries_and_their_indices() {
    let mut storage = storage_with(&[1, 2, 3, 4, 5]);
    storage.discard_entries_before(3);
    assert_eq!(storage.first_log_index(), 3);
    assert_eq!(storage.last_log_index(), 5);
    assert_eq!(storage.get_entry(3), Some(entry(3, "cmd3")));
    assert_eq!(storage.get_entry(5), Some(entry(5, "cmd5")));
    assert!(storage.get_entry(2).is_none());
    // Discarding before the start changes nothing.
    storage.discard_entries_before(2);
    assert_eq!(storage.first_log_index(), 3);
}

#[test]
fn last_term_falls_back_to_snapshot() {
    let mut storage = storage_with(&[1, 4]);
    storage.save_snapshot(Snapshot {
        metadata: SnapshotMetadata { last_included_index: 2, last_included_term: 4 },
        data: vec![1, 2, 3],
    });
    storage.discard_entries_before(3);
    assert_eq!(storage.last_log_index(), 2);
    assert_eq!(storage.last_log_term(), 4);
    assert_eq!(
        storage.snapshot_metadata(),
        Some(SnapshotMetadata { last_included_index: 2, last_included_term: 4 })
    );
}

#[test]
fn snapshot_chunks_cover_the_data() {
    let mut storage = InMemoryStorage::<String>::new();
    storage.save_snapshot(Snapshot {
        metadata: SnapshotMetadata { last_included_index: 7, last_included_term: 2 },
        data: vec![10, 11, 12, 13, 14],
    });
    let first = storage.get_snapshot_chunk(0, 2).unwrap();
    assert_eq!((first.offset, first.data.clone(), first.done), (0, vec![10, 11], false));
    let last = storage.get_snapshot_chunk(3, 2).unwrap();
    assert_eq!((last.offset, last.data.clone(), last.done), (3, vec![13, 14], true));
    let whole = storage.get_snapshot_chunk(0, usize::MAX).unwrap();
    assert_eq!(whole.data, vec![10, 11, 12, 13, 14]);
    assert!(whole.done);
    assert!(storage.get_snapshot_chunk(6, 1).is_none());
}

#[test]
fn received_chunks_become_the_snapshot() {
    let mut storage = InMemoryStorage::<String>::new();
    assert_eq!(storage.apply_snapshot_chunk(0, vec![1, 2], false, 9, 3), Ok(()));
    assert!(storage.snapshot_metadata().is_none());
    assert_eq!(storage.apply_snapshot_chunk(2, vec![3], true, 9, 3), Ok(()));
    let snapshot = storage.load_snapshot().unwrap();
    assert_eq!(snapshot.metadata, SnapshotMetadata { last_included_index: 9, last_included_term: 3 });
    assert_eq!(snapshot.data, vec![1, 2, 3]);
}

#[test]
fn out_of_order_chunk_is_refused() {
    let mut storage = InMemoryStorage::<String>::new();
    assert_eq!(storage.apply_snapshot_chunk(0, vec![1, 2], false, 9, 3), Ok(()));
    assert_eq!(storage.apply_snapshot_chunk(5, vec![3], true, 9, 3), Err(SnapshotError::CorruptData));
    assert!(storage.snapshot_metadata().is_none());
}

#[test]
fn snapshot_builder_accepts_chunks_in_order_only() {
    let mut builder = SnapshotBuilder::new();
    assert_eq!(builder.add_chunk(0, vec![1, 2]), Ok(()));
    assert_eq!(builder.add_chunk(3, vec![9]), Err(SnapshotBuildError::InvalidOffset));
    assert_eq!(builder.add_chunk(2, vec![3]), Ok(()));
    assert!(builder.is_complete(3));
    assert!(!builder.is_complete(4));
    assert_eq!(builder.build(), Ok(vec![1, 2, 3]));
}

#[test]
fn expired_timers_hold_at_most_two() {
    let mut expired = ExpiredTimers::new();
    assert!(expired.is_empty());
    expired.push(TimerKind::Election);
    expired.push(TimerKind::Heartbeat);
    expired.push(TimerKind::Election);
    assert_eq!(expired.iter(), vec![TimerKind::Election, TimerKind::Heartbeat]);
}

#[test]
fn manual_timer_fires_only_running_timers() {
    let mut timer = ManualTimer::new();
    timer.fire(TimerKind::Election);
    assert!(timer.check_expired().is_empty());

    timer.reset_election_timer();
    assert!(timer.is_election_running());
    timer.fire(TimerKind::Election);
    assert_eq!(timer.check_expired().iter(), vec![TimerKind::Election]);

    timer.reset_election_timer();
    assert!(timer.check_expired().is_empty());

    timer.reset_heartbeat_timer();
    timer.fire(TimerKind::Heartbeat);
    timer.stop_timers();
    assert!(!timer.is_heartbeat_running());
    assert!(timer.check_expired().is_empty());
}

#[test]
fn transport_queues_in_order_and_drains() {
    let mut transport = InMemoryTransport::<String>::new();
    transport.send(2, RaftMsg::PreVoteResponse { term: 1, vote_granted: true });
    transport.send(3, RaftMsg::RequestVoteResponse { term: 1, vote_granted: false });
    assert_eq!(transport.len(), 2);
    let out = transport.drain_outbox();
    assert_eq!(out[0].0, 2);
    assert_eq!(out[1], (3, RaftMsg::RequestVoteResponse { term: 1, vote_granted: false }));
    assert_eq!(transport.len(), 0);
}

#[test]
fn instant_arithmetic_saturates() {
    let t = Instant::from_millis(1000);
    assert_eq!(t.plus_millis(500).as_millis(), 1500);
    assert_eq!(Instant::from_millis(u64::MAX - 1).plus_millis(10).as_millis(), u64::MAX);
    assert_eq!(t.millis_since(Instant::from_millis(400)), 600);
    assert_eq!(t.millis_since(Instant::from_millis(4000)), 0);
    assert!(Instant::from_millis(1).is_before(t));
    assert!(!t.is_before(t));
}
