use crate::log_entry::{clone_entries, LogEntry};
use crate::snapshot::{copy_bytes, Snapshot, SnapshotBuilder, SnapshotChunk, SnapshotError, SnapshotMetadata};
use crate::storage::{last_index, Storage, StorageView};
use crate::types::{LogIndex, NodeId, Term};
use vstd::prelude::*;

verus! {

/// Storage held in memory: term, vote, the log after the snapshot, the snapshot, and
/// the chunks of a snapshot being received.
pub struct InMemoryStorage<P> {
    current_term: Term,
    voted_for: Option<NodeId>,
    first_index: LogIndex,
    entries: Vec<LogEntry<P>>,
    snapshot: Option<Snapshot>,
    incoming: SnapshotBuilder,
}

impl<P: Clone> InMemoryStorage<P> {
    /// Term 0, no vote, an empty log starting at index 1, no snapshot.
    pub fn new() -> (r: Self)
        ensures
            r@ == (StorageView::<P> {
                current_term: 0,
                voted_for: None,
                first_index: 1,
                entries: Seq::empty(),
                snapshot: None,
                snapshot_data: Seq::empty(),
                incoming: Seq::empty(),
            }),
    {
        InMemoryStorage {
            current_term: 0,
            voted_for: None,
            first_index: 1,
            entries: Vec::new(),
            snapshot: None,
            incoming: SnapshotBuilder::new(),
        }
    }
}

impl<P: Clone> Storage for InMemoryStorage<P> {
    type Payload = P;

    closed spec fn view(&self) -> StorageView<P> {
        StorageView {
            current_term: self.current_term,
            voted_for: self.voted_for,
            first_index: self.first_index,
            entries: self.entries@,
            snapshot: match self.snapshot {
                Some(s) => Some(s.metadata),
                None => None,
            },
            snapshot_data: match self.snapshot {
                Some(s) => s.data@,
                None => Seq::empty(),
            },
            incoming: self.incoming@,
        }
    }

    fn current_term(&self) -> (t: Term) {
        self.current_term
    }

    fn set_current_term(&mut self, term: Term) {
        self.current_term = term;
    }

    fn voted_for(&self) -> (r: Option<NodeId>) {
        self.voted_for
    }

    fn set_voted_for(&mut self, vote: Option<NodeId>) {
        self.voted_for = vote;
    }

    fn last_log_index(&self) -> (r: LogIndex) {
        self.first_index - 1 + self.entries.len() as u64
    }

    fn last_log_term(&self) -> (r: Term) {
        let n = self.entries.len();
        if n > 0 {
            self.entries[n - 1].term
        } else {
            match &self.snapshot {
                Some(s) => s.metadata.last_included_term,
                None => 0,
            }
        }
    }

    fn first_log_index(&self) -> (r: LogIndex) {
        self.first_index
    }

    fn get_entry(&self, index: LogIndex) -> (r: Option<LogEntry<P>>) {
        if index >= self.first_index && index - self.first_index < self.entries.len() as u64 {
            let k = (index - self.first_index) as usize;
            Some(self.entries[k].clone_entry())
        } else {
            None
        }
    }

    fn get_entries(&self, start: LogIndex, end: LogIndex) -> (r: Vec<LogEntry<P>>) {
        let last_plus_one = self.first_index + self.entries.len() as u64;
        let lo = if start < self.first_index {
            self.first_index
        } else {
            start
        };
        let hi = if end > last_plus_one {
            last_plus_one
        } else {
            end
        };
        let mut out: Vec<LogEntry<P>> = Vec::new();
        if hi > lo {
            let a = (lo - self.first_index) as usize;
            let b = (hi - self.first_index) as usize;
            let mut i: usize = a;
            while i < b
                invariant
                    a <= i <= b,
                    b <= self.entries@.len(),
                    out@.len() == i - a,
                    forall|k: int| 0 <= k < out@.len() ==> #[trigger] crate::log_entry::entry_cloned(
                        self.entries@[a + k],
                        out@[k],
                    ),
                decreases b - i,
            {
                out.push(self.entries[i].clone_entry());
                i = i + 1;
            }
            proof {
                let v = self@;
                assert(crate::storage::range_start(v, start) == lo);
                assert forall|k: int| 0 <= k < out@.len() implies #[trigger] crate::log_entry::entry_cloned(
                    crate::storage::entry_at(v, crate::storage::range_start(v, start) + k),
                    out@[k],
                ) by {
                    assert(crate::storage::entry_at(v, lo + k) == self.entries@[a + k]);
                }
            }
        }
        out
    }

    fn append_entries(&mut self, entries: &[LogEntry<P>]) {
        let copies = clone_entries(entries);
        let mut copies = copies;
        let ghost before = self.entries@;
        self.entries.append(&mut copies);
        assert(self.entries@.take(before.len() as int) =~= before);
        assert(self.entries@.skip(before.len() as int) =~= copies_view(before, self.entries@));
    }

    fn truncate_after(&mut self, index: LogIndex) {
        if index < self.first_index {
            self.entries.truncate(0);
        } else if index - self.first_index + 1 < self.entries.len() as u64 {
            let keep = (index - self.first_index + 1) as usize;
            self.entries.truncate(keep);
        }
        proof {
            let v = old(self)@;
            let w = crate::storage::truncated_after(v, index as int);
            assert(self.entries@ =~= w.entries);
        }
    }

    fn save_snapshot(&mut self, snapshot: Snapshot) {
        self.snapshot = Some(snapshot);
    }

    fn load_snapshot(&self) -> (r: Option<Snapshot>) {
        match &self.snapshot {
            Some(s) => Some(Snapshot { metadata: s.metadata, data: copy_bytes(&s.data) }),
            None => None,
        }
    }

    fn snapshot_metadata(&self) -> (r: Option<SnapshotMetadata>) {
        match &self.snapshot {
            Some(s) => Some(s.metadata),
            None => None,
        }
    }

    fn get_snapshot_chunk(&self, offset: usize, max_size: usize) -> (r: Option<SnapshotChunk>) {
        match &self.snapshot {
            None => None,
            Some(s) => {
                let len = s.data.len();
                if offset > len {
                    return None;
                }
                let end = if max_size < len - offset {
                    offset + max_size
                } else {
                    len
                };
                let mut data: Vec<u8> = Vec::new();
                let mut i: usize = offset;
                while i < end
                    invariant
                        offset <= i <= end,
                        end <= s.data@.len(),
                        data@ == s.data@.subrange(offset as int, i as int),
                    decreases end - i,
                {
                    data.push(s.data[i]);
                    i = i + 1;
                    assert(data@ =~= s.data@.subrange(offset as int, i as int));
                }
                Some(SnapshotChunk { offset, data, done: end == len })
            },
        }
    }

    fn apply_snapshot_chunk(
        &mut self,
        offset: u64,
        chunk: Vec<u8>,
        done: bool,
        last_included_index: LogIndex,
        last_included_term: Term,
    ) -> (r: Result<(), SnapshotError>) {
        if offset == 0 {
            self.incoming = SnapshotBuilder::new();
        }
        if offset > usize::MAX as u64 {
            let received = self.incoming.len();
            assert(received == self@.incoming.len());
            return Err(SnapshotError::CorruptData);
        }
        match self.incoming.add_chunk(offset as usize, chunk) {
            Ok(()) => {},
            Err(_) => return Err(SnapshotError::CorruptData),
        }
        let received = self.incoming.len();
        assert(received == self@.incoming.len());
        if done {
            let mut assembled = SnapshotBuilder::new();
            std::mem::swap(&mut assembled, &mut self.incoming);
            let data = match assembled.build() {
                Ok(d) => d,
                Err(_) => return Err(SnapshotError::CorruptData),
            };
            proof {
                assert(data@.len() == data.len());
            }
            self.snapshot = Some(Snapshot {
                metadata: SnapshotMetadata { last_included_index, last_included_term },
                data,
            });
        }
        Ok(())
    }

    fn discard_entries_before(&mut self, index: LogIndex) {
        if index <= self.first_index {
            return;
        }
        if index - self.first_index >= self.entries.len() as u64 {
            self.entries = Vec::new();
            self.first_index = index;
        } else {
            let k = (index - self.first_index) as usize;
            let tail = self.entries.split_off(k);
            self.entries = tail;
            self.first_index = index;
        }
        proof {
            let w = crate::storage::discarded_before(old(self)@, index);
            assert(self.entries@ =~= w.entries);
        }
    }
}

/// The entries after `before` in `after`.
spec fn copies_view<P>(before: Seq<LogEntry<P>>, after: Seq<LogEntry<P>>) -> Seq<LogEntry<P>> {
    after.skip(before.len() as int)
}

} // verus!
