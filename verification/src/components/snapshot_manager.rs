use crate::snapshot::{Snapshot, SnapshotError, SnapshotMetadata};
use crate::state_machine::StateMachine;
use crate::storage::{discarded_before, entry_at, has_entry, storage_wf, Storage, StorageView};
use crate::types::LogIndex;
use vstd::prelude::*;

verus! {

/// A snapshot is due once this many entries are committed and no snapshot covers them yet.
pub open spec fn snapshot_due<P>(threshold: LogIndex, commit_index: LogIndex, v: StorageView<P>) -> bool {
    &&& commit_index >= threshold
    &&& !(v.snapshot is Some && v.snapshot->0.last_included_index >= threshold)
}

/// Decides when to take snapshots, takes them, and compacts the log behind them.
pub struct SnapshotManager {
    threshold: LogIndex,
}

impl SnapshotManager {
    pub closed spec fn threshold_view(&self) -> LogIndex {
        self.threshold
    }

    pub fn new(threshold: LogIndex) -> (r: Self)
        ensures
            r.threshold_view() == threshold,
    {
        SnapshotManager { threshold }
    }

    pub fn threshold(&self) -> (r: LogIndex)
        ensures
            r == self.threshold_view(),
    {
        self.threshold
    }

    pub fn should_create<S: Storage>(&self, commit_index: LogIndex, storage: &S) -> (r: bool)
        ensures
            r == snapshot_due(self.threshold_view(), commit_index, storage@),
    {
        if commit_index < self.threshold {
            return false;
        }
        if let Some(snapshot) = storage.load_snapshot() {
            if snapshot.metadata.last_included_index >= self.threshold {
                return false;
            }
        }
        true
    }

    /// Snapshots the state machine as of `last_applied` and compacts the log up to it.
    /// Fails with nothing changed when nothing was applied or the log no longer holds
    /// the entry at `last_applied`.
    pub fn create<S: Storage, SM: StateMachine>(&self, storage: &mut S, state_machine: &mut SM, last_applied: LogIndex) -> (r: Result<
        LogIndex,
        SnapshotError,
    >)
        requires
            storage_wf(old(storage)@),
        ensures
            storage_wf(final(storage)@),
            *final(state_machine) == *old(state_machine),
            last_applied == 0 ==> r == Err::<LogIndex, SnapshotError>(SnapshotError::NoEntriesToSnapshot)
                && final(storage)@ == old(storage)@,
            last_applied != 0 && !has_entry(old(storage)@, last_applied as int) ==> r == Err::<LogIndex, SnapshotError>(
                SnapshotError::EntryNotFound,
            ) && final(storage)@ == old(storage)@,
            last_applied != 0 && has_entry(old(storage)@, last_applied as int) ==> {
                let meta = SnapshotMetadata {
                    last_included_index: last_applied,
                    last_included_term: entry_at(old(storage)@, last_applied as int).term,
                };
                let compacted = discarded_before(old(storage)@, (last_applied + 1) as LogIndex);
                &&& r == Ok::<LogIndex, SnapshotError>(last_applied)
                &&& SM::snapshot_history(final(storage)@.snapshot_data) == Some(old(state_machine).applied())
                &&& final(storage)@ == (StorageView {
                    snapshot: Some(meta),
                    snapshot_data: final(storage)@.snapshot_data,
                    ..compacted
                })
            },
    {
        if last_applied == 0 {
            return Err(SnapshotError::NoEntriesToSnapshot);
        }
        let last_included_term = match storage.get_entry(last_applied) {
            Some(e) => e.term,
            None => return Err(SnapshotError::EntryNotFound),
        };
        let snapshot_data = state_machine.create_snapshot();
        proof {
            assert(snapshot_data@.len() == snapshot_data.len());
        }
        let snapshot = Snapshot {
            metadata: SnapshotMetadata { last_included_index: last_applied, last_included_term },
            data: snapshot_data,
        };
        storage.save_snapshot(snapshot);
        self.compact(storage, last_applied);
        Ok(last_applied)
    }

    /// Drops the log entries up to and including `last_included_index`.
    pub fn compact<S: Storage>(&self, storage: &mut S, last_included_index: LogIndex)
        requires
            storage_wf(old(storage)@),
            last_included_index < u64::MAX,
        ensures
            final(storage)@ == discarded_before(old(storage)@, (last_included_index + 1) as LogIndex),
    {
        storage.discard_entries_before(last_included_index + 1);
    }
}

} // verus!
