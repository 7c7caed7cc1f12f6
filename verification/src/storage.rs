use crate::log_entry::{entries_cloned, entry_cloned, LogEntry};
use crate::snapshot::{Snapshot, SnapshotChunk, SnapshotError, SnapshotMetadata};
use crate::types::{LogIndex, NodeId, Term};
use vstd::prelude::*;

verus! {

/// What a storage holds, as mathematical values.
///
/// The log holds `entries`; `entries[0]` has index `first_index`. The entries before
/// `first_index` were compacted into the snapshot, if there is one. `incoming` holds
/// the bytes of a snapshot under transfer received so far.
pub struct StorageView<P> {
    pub current_term: Term,
    pub voted_for: Option<NodeId>,
    pub first_index: LogIndex,
    pub entries: Seq<LogEntry<P>>,
    pub snapshot: Option<SnapshotMetadata>,
    pub snapshot_data: Seq<u8>,
    pub incoming: Seq<u8>,
}

/// The received bytes that a snapshot chunk at `offset` continues: a chunk at offset 0
/// starts a new transfer.
pub open spec fn chunk_base(incoming: Seq<u8>, offset: u64) -> Seq<u8> {
    if offset == 0 {
        Seq::empty()
    } else {
        incoming
    }
}

/// The storage after a snapshot chunk at `offset` was accepted: with `done`, the
/// received bytes become the snapshot ending at the given index and term.
pub open spec fn after_chunk<P>(
    v: StorageView<P>,
    offset: u64,
    chunk: Seq<u8>,
    done: bool,
    last_included_index: LogIndex,
    last_included_term: Term,
) -> StorageView<P> {
    let bytes = chunk_base(v.incoming, offset) + chunk;
    if done {
        StorageView {
            snapshot: Some(SnapshotMetadata { last_included_index, last_included_term }),
            snapshot_data: bytes,
            incoming: Seq::empty(),
            ..v
        }
    } else {
        StorageView { incoming: bytes, ..v }
    }
}

/// Index of the last log entry (the entry before `first_index` when the log is empty).
pub open spec fn last_index<P>(v: StorageView<P>) -> int {
    v.first_index - 1 + v.entries.len()
}

/// The log holds an entry at index `i`.
pub open spec fn has_entry<P>(v: StorageView<P>, i: int) -> bool {
    v.first_index <= i <= last_index(v)
}

/// The entry at index `i`, when `has_entry(v, i)`.
pub open spec fn entry_at<P>(v: StorageView<P>, i: int) -> LogEntry<P> {
    v.entries[i - v.first_index]
}

/// Term of the last entry: of the last log entry, else of the snapshot, else 0.
pub open spec fn last_term<P>(v: StorageView<P>) -> Term {
    if v.entries.len() > 0 {
        v.entries.last().term
    } else if v.snapshot is Some {
        v.snapshot->0.last_included_term
    } else {
        0
    }
}

/// Limits that keep every index of the log and snapshot representable.
pub open spec fn storage_wf<P>(v: StorageView<P>) -> bool {
    &&& 1 <= v.first_index
    &&& v.first_index + v.entries.len() <= u64::MAX
    &&& v.snapshot is Some ==> v.snapshot->0.last_included_index < u64::MAX
    &&& v.snapshot_data.len() <= usize::MAX
    &&& v.incoming.len() <= usize::MAX
}

/// The storage after the entries with index above `index` were dropped.
pub open spec fn truncated_after<P>(v: StorageView<P>, index: int) -> StorageView<P> {
    let keep = if index < v.first_index {
        0
    } else if index - v.first_index + 1 >= v.entries.len() {
        v.entries.len() as int
    } else {
        index - v.first_index + 1
    };
    StorageView { entries: v.entries.take(keep), ..v }
}

/// The storage after the entries with index below `index` were dropped.
pub open spec fn discarded_before<P>(v: StorageView<P>, index: LogIndex) -> StorageView<P> {
    if index <= v.first_index {
        v
    } else if index - v.first_index >= v.entries.len() {
        StorageView { first_index: index, entries: Seq::empty(), ..v }
    } else {
        StorageView { first_index: index, entries: v.entries.skip(index - v.first_index), ..v }
    }
}

/// Compaction keeps every entry at or after the compaction point as it was.
pub proof fn lemma_compaction_keeps_later_entries<P>(v: StorageView<P>, index: LogIndex, i: int)
    requires
        has_entry(v, i),
        i >= index,
    ensures
        has_entry(discarded_before(v, index), i),
        entry_at(discarded_before(v, index), i) == entry_at(v, i),
{
}

/// Truncation keeps every entry up to the truncation point as it was.
pub proof fn lemma_truncation_keeps_earlier_entries<P>(v: StorageView<P>, index: int, i: int)
    requires
        has_entry(v, i),
        i <= index,
    ensures
        has_entry(truncated_after(v, index), i),
        entry_at(truncated_after(v, index), i) == entry_at(v, i),
{
}

/// The first index that `get_entries(start, end)` returns.
pub open spec fn range_start<P>(v: StorageView<P>, start: LogIndex) -> int {
    if start < v.first_index {
        v.first_index as int
    } else {
        start as int
    }
}

/// How many entries `get_entries(start, end)` returns.
pub open spec fn range_len<P>(v: StorageView<P>, start: LogIndex, end: LogIndex) -> int {
    let hi = if end > last_index(v) + 1 {
        last_index(v) + 1
    } else {
        end as int
    };
    if hi > range_start(v, start) {
        hi - range_start(v, start)
    } else {
        0
    }
}

/// Durable state of a Raft server: term, vote, log and snapshot.
///
/// Its contracts are stated over `view`. The library's algorithms hold for every
/// implementation that meets them.
pub trait Storage {
    type Payload: Clone;

    spec fn view(&self) -> StorageView<Self::Payload>;

    fn current_term(&self) -> (t: Term)
        ensures
            t == self@.current_term,
    ;

    fn set_current_term(&mut self, term: Term)
        ensures
            final(self)@ == (StorageView { current_term: term, ..old(self)@ }),
    ;

    fn voted_for(&self) -> (r: Option<NodeId>)
        ensures
            r == self@.voted_for,
    ;

    fn set_voted_for(&mut self, vote: Option<NodeId>)
        ensures
            final(self)@ == (StorageView { voted_for: vote, ..old(self)@ }),
    ;

    fn last_log_index(&self) -> (r: LogIndex)
        requires
            storage_wf(self@),
        ensures
            r == last_index(self@),
    ;

    fn last_log_term(&self) -> (r: Term)
        ensures
            r == last_term(self@),
    ;

    fn first_log_index(&self) -> (r: LogIndex)
        ensures
            r == self@.first_index,
    ;

    /// A copy of the entry at `index`, if the log holds it.
    fn get_entry(&self, index: LogIndex) -> (r: Option<LogEntry<Self::Payload>>)
        requires
            storage_wf(self@),
        ensures
            r is Some <==> has_entry(self@, index as int),
            r is Some ==> entry_cloned(entry_at(self@, index as int), r->0),
    ;

    /// Copies of the entries with index in `start..end` that the log holds.
    fn get_entries(&self, start: LogIndex, end: LogIndex) -> (r: Vec<LogEntry<Self::Payload>>)
        requires
            storage_wf(self@),
        ensures
            r@.len() == range_len(self@, start, end),
            forall|k: int| 0 <= k < r@.len() ==> #[trigger] entry_cloned(
                entry_at(self@, range_start(self@, start) + k),
                r@[k],
            ),
    ;

    /// Appends copies of `entries` to the log.
    fn append_entries(&mut self, entries: &[LogEntry<Self::Payload>])
        requires
            storage_wf(old(self)@),
            last_index(old(self)@) + entries@.len() < u64::MAX,
        ensures
            final(self)@.current_term == old(self)@.current_term,
            final(self)@.voted_for == old(self)@.voted_for,
            final(self)@.first_index == old(self)@.first_index,
            final(self)@.snapshot == old(self)@.snapshot,
            final(self)@.snapshot_data == old(self)@.snapshot_data,
            final(self)@.incoming == old(self)@.incoming,
            final(self)@.entries.len() == old(self)@.entries.len() + entries@.len(),
            final(self)@.entries.take(old(self)@.entries.len() as int) == old(self)@.entries,
            entries_cloned(entries@, final(self)@.entries.skip(old(self)@.entries.len() as int)),
    ;

    /// Drops the entries with index above `index`.
    fn truncate_after(&mut self, index: LogIndex)
        requires
            storage_wf(old(self)@),
        ensures
            final(self)@ == truncated_after(old(self)@, index as int),
    ;

    fn save_snapshot(&mut self, snapshot: Snapshot)
        requires
            snapshot.metadata.last_included_index < u64::MAX,
        ensures
            final(self)@ == (StorageView {
                snapshot: Some(snapshot.metadata),
                snapshot_data: snapshot.data@,
                ..old(self)@
            }),
    ;

    fn load_snapshot(&self) -> (r: Option<Snapshot>)
        ensures
            r is Some <==> self@.snapshot is Some,
            r is Some ==> r->0.metadata == self@.snapshot->0 && r->0.data@ == self@.snapshot_data,
    ;

    fn snapshot_metadata(&self) -> (r: Option<SnapshotMetadata>)
        ensures
            r == self@.snapshot,
    ;

    /// The snapshot bytes from `offset`, at most `max_size` of them.
    fn get_snapshot_chunk(&self, offset: usize, max_size: usize) -> (r: Option<SnapshotChunk>)
        ensures
            r is Some <==> self@.snapshot is Some && offset <= self@.snapshot_data.len(),
            r is Some ==> {
                let c = r->0;
                let end = if offset + max_size < self@.snapshot_data.len() {
                    offset + max_size
                } else {
                    self@.snapshot_data.len() as int
                };
                &&& c.offset == offset
                &&& c.data@ == self@.snapshot_data.subrange(offset as int, end)
                &&& c.done == (end == self@.snapshot_data.len())
            },
    ;

    /// Receives a chunk of a snapshot sent by the leader. Chunks arrive in order: one
    /// at offset 0 starts a transfer, any other continues it where the received bytes
    /// end, and is refused otherwise. With `done`, the received bytes become the
    /// snapshot.
    fn apply_snapshot_chunk(
        &mut self,
        offset: u64,
        chunk: Vec<u8>,
        done: bool,
        last_included_index: LogIndex,
        last_included_term: Term,
    ) -> (r: Result<(), SnapshotError>)
        requires
            storage_wf(old(self)@),
            last_included_index < u64::MAX,
        ensures
            storage_wf(final(self)@),
            r is Ok <==> offset == chunk_base(old(self)@.incoming, offset).len(),
            r is Ok ==> final(self)@ == after_chunk(
                old(self)@,
                offset,
                chunk@,
                done,
                last_included_index,
                last_included_term,
            ),
            r is Err ==> r == Err::<(), SnapshotError>(SnapshotError::CorruptData) && final(self)@ == old(self)@,
    ;

    /// Drops the entries with index below `index`.
    fn discard_entries_before(&mut self, index: LogIndex)
        requires
            storage_wf(old(self)@),
        ensures
            final(self)@ == discarded_before(old(self)@, index),
    ;
}

} // verus!
