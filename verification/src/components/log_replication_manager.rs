use crate::collections::config_change_collection::ConfigChangeCollection;
use crate::collections::configuration::Configuration;
use crate::collections::map_collection::{is_quorum_index, match_value, quorum_values, MapCollection};
use crate::collections::node_collection::{without, NodeCollection};
use crate::log_entry::{entry_cloned, ConfigurationChange, EntryType, LogEntry};
use crate::node_state::NodeState;
use crate::raft_messages::RaftMsg;
use crate::snapshot::SnapshotMetadata;
use crate::state_machine::StateMachine;
use crate::storage::{
    after_chunk, chunk_base, discarded_before, entry_at, has_entry, last_index, range_len, range_start, storage_wf,
    truncated_after, Storage, StorageView,
};
use crate::types::{LogIndex, NodeId, Term};
use vstd::prelude::*;

verus! {

broadcast use vstd::seq_lib::group_seq_properties;

/// The membership changes among the entries with index in `lo + 1 ..= hi`, in log order.
pub open spec fn config_changes_between<P>(v: StorageView<P>, lo: int, hi: int) -> Seq<(LogIndex, ConfigurationChange)>
    decreases hi - lo,
{
    if hi <= lo {
        Seq::empty()
    } else {
        config_changes_between(v, lo, hi - 1) + change_at(v, hi)
    }
}

/// The membership change that the entry at `i` carries, if the log holds such an entry.
pub open spec fn change_at<P>(v: StorageView<P>, i: int) -> Seq<(LogIndex, ConfigurationChange)> {
    if has_entry(v, i) {
        match entry_at(v, i).entry_type {
            EntryType::ConfigChange(c) => seq![(i as LogIndex, c)],
            EntryType::Command(_) => Seq::empty(),
        }
    } else {
        Seq::empty()
    }
}

/// The client commands among the entries with index in `lo + 1 ..= hi` that the log
/// holds, in log order.
pub open spec fn commands_between<P>(v: StorageView<P>, lo: int, hi: int) -> Seq<P>
    decreases hi - lo,
{
    if hi <= lo {
        Seq::empty()
    } else {
        commands_between(v, lo, hi - 1) + command_at(v, hi)
    }
}

/// The client command that the entry at `i` carries, if the log holds such an entry.
pub open spec fn command_at<P>(v: StorageView<P>, i: int) -> Seq<P> {
    if has_entry(v, i) {
        match entry_at(v, i).entry_type {
            EntryType::Command(p) => seq![p],
            EntryType::ConfigChange(_) => Seq::empty(),
        }
    } else {
        Seq::empty()
    }
}

/// `after` is `before` followed by copies of `commands`, in order: what a state machine
/// has taken in once it was handed `commands`.
pub open spec fn applied_after<P: Clone>(before: Seq<P>, commands: Seq<P>, after: Seq<P>) -> bool {
    &&& after.len() == before.len() + commands.len()
    &&& after.take(before.len() as int) == before
    &&& forall|k: int| 0 <= k < commands.len() ==> #[trigger] cloned(commands[k], after[before.len() + k])
}

/// A follower takes a snapshot chunk when the snapshot it belongs to ends after the
/// follower's own snapshot, and the chunk continues the bytes received so far (see
/// `Storage::apply_snapshot_chunk`).
pub open spec fn snapshot_chunk_accepted<P>(v: StorageView<P>, last_included_index: LogIndex, offset: u64) -> bool {
    &&& !(v.snapshot is Some && last_included_index <= v.snapshot->0.last_included_index)
    &&& offset == chunk_base(v.incoming, offset).len()
}

/// The index that the leader sends next to `peer` (1 when it has none recorded).
pub open spec fn next_of(m: Map<NodeId, LogIndex>, peer: NodeId) -> LogIndex {
    if m.contains_key(peer) {
        m[peer]
    } else {
        1
    }
}

/// The log's entry at `i` matches term `t`: index 0, an entry of that term, or the
/// snapshot's last entry with that term.
pub open spec fn log_consistent<P>(v: StorageView<P>, i: LogIndex, t: Term) -> bool {
    if i == 0 {
        true
    } else if has_entry(v, i as int) {
        entry_at(v, i as int).term == t
    } else {
        v.snapshot is Some && i == v.snapshot->0.last_included_index && t == v.snapshot->0.last_included_term
    }
}

/// Term of the entry at `i` as the leader knows it: from the log, else from the
/// snapshot's last entry, else 0.
pub open spec fn term_at<P>(v: StorageView<P>, i: LogIndex) -> Term {
    if i == 0 {
        0
    } else if has_entry(v, i as int) {
        entry_at(v, i as int).term
    } else if v.snapshot is Some && i == v.snapshot->0.last_included_index {
        v.snapshot->0.last_included_term
    } else {
        0
    }
}

/// The index that a majority of the configuration (the leader with its last index,
/// and every member of `members` with its recorded index) has replicated.
pub open spec fn majority_index<P>(
    match_index: Map<NodeId, LogIndex>,
    leader: NodeId,
    v: StorageView<P>,
    members: Seq<NodeId>,
) -> LogIndex {
    choose|r: LogIndex| #[trigger] is_quorum_index(
        quorum_values(match_index, leader, last_index(v) as LogIndex, members),
        r,
    )
}

proof fn lemma_quorum_index_unique(s: Seq<u64>, r1: u64, r2: u64)
    requires
        is_quorum_index(s, r1),
        is_quorum_index(s, r2),
    ensures
        r1 == r2,
{
}

/// `r` is the AppendEntries that a leader in `current_term` with commit index `commit`
/// sends to a follower whose next index is `next`.
pub open spec fn is_append_entries_for<P: Clone>(
    r: RaftMsg<P>,
    v: StorageView<P>,
    next: LogIndex,
    current_term: Term,
    commit: LogIndex,
) -> bool {
    let prev = if next == 0 {
        0
    } else {
        (next - 1) as LogIndex
    };
    match r {
        RaftMsg::AppendEntries { term, prev_log_index, prev_log_term, entries, leader_commit } => {
            &&& term == current_term
            &&& prev_log_index == prev
            &&& prev_log_term == term_at(v, prev)
            &&& leader_commit == commit
            &&& entries@.len() == range_len(v, next, (last_index(v) + 1) as LogIndex)
            &&& forall|k: int| 0 <= k < entries@.len() ==> #[trigger] entry_cloned(
                entry_at(v, range_start(v, next) + k),
                entries@[k],
            )
        },
        _ => false,
    }
}

/// `r` is what a leader whose storage is `v` sends to `peer`: an InstallSnapshot with
/// the whole snapshot when the entries the peer needs next were compacted, else the
/// AppendEntries for its next index.
pub open spec fn is_peer_message<P: Clone>(
    r: RaftMsg<P>,
    next: Map<NodeId, LogIndex>,
    commit: LogIndex,
    peer: NodeId,
    leader_id: NodeId,
    v: StorageView<P>,
) -> bool {
    if next_of(next, peer) < v.first_index && v.snapshot is Some {
        &&& r is InstallSnapshot
        &&& r == (RaftMsg::<P>::InstallSnapshot {
            term: v.current_term,
            leader_id,
            last_included_index: v.snapshot->0.last_included_index,
            last_included_term: v.snapshot->0.last_included_term,
            offset: 0,
            data: r->InstallSnapshot_data,
            done: true,
        })
        &&& r->InstallSnapshot_data@ == v.snapshot_data
    } else {
        is_append_entries_for(r, v, next_of(next, peer), v.current_term, commit)
    }
}

/// The storage after `entries` were accepted behind `prev_log_index`: the entries after
/// `prev_log_index` are dropped when the log is longer, then `entries` appended.
pub open spec fn log_after_append<P: Clone>(
    v: StorageView<P>,
    prev_log_index: LogIndex,
    entries: Seq<LogEntry<P>>,
    w: StorageView<P>,
) -> bool {
    if entries.len() == 0 {
        w == v
    } else {
        let t = if last_index(v) > prev_log_index {
            truncated_after(v, prev_log_index as int)
        } else {
            v
        };
        &&& w.current_term == t.current_term
        &&& w.voted_for == t.voted_for
        &&& w.first_index == t.first_index
        &&& w.snapshot == t.snapshot
        &&& w.snapshot_data == t.snapshot_data
        &&& w.entries.len() == t.entries.len() + entries.len()
        &&& w.entries.take(t.entries.len() as int) == t.entries
        &&& crate::log_entry::entries_cloned(entries, w.entries.skip(t.entries.len() as int))
    }
}

/// The commit index after a leader looked for a majority: the majority index when it is
/// past `commit` and its entry is of the leader's current term, else `commit` unchanged.
pub open spec fn commit_after_advance<P>(
    match_index: Map<NodeId, LogIndex>,
    leader: NodeId,
    v: StorageView<P>,
    members: Seq<NodeId>,
    commit: LogIndex,
) -> LogIndex {
    let q = majority_index(match_index, leader, v, members);
    if q > commit && has_entry(v, q as int) && entry_at(v, q as int).term == v.current_term {
        q
    } else {
        commit
    }
}

/// How far a follower whose log is now `w` may commit on the leader's word: up to the
/// leader's commit index, and no further than its own log.
pub open spec fn commit_target<P>(leader_commit: LogIndex, w: StorageView<P>) -> LogIndex {
    if leader_commit < last_index(w) {
        leader_commit
    } else {
        last_index(w) as LogIndex
    }
}

/// The commit index of a follower after an accepted AppendEntries whose log is now `w`:
/// it moves up to `commit_target`, and never down.
pub open spec fn commit_after_append<P>(commit: LogIndex, leader_commit: LogIndex, w: StorageView<P>) -> LogIndex {
    if leader_commit > commit && commit_target(leader_commit, w) > commit {
        commit_target(leader_commit, w)
    } else {
        commit
    }
}

/// The apply position after applying everything up to `commit`.
pub open spec fn applied_up_to(applied: LogIndex, commit: LogIndex) -> LogIndex {
    if applied < commit {
        commit
    } else {
        applied
    }
}

/// The catching-up servers after `peer` was seen to hold `index`: it is caught up once
/// it holds everything committed.
pub open spec fn catching_after(catching_up: Seq<NodeId>, peer: NodeId, index: LogIndex, commit: LogIndex) -> Seq<NodeId> {
    if catching_up.contains(peer) && index >= commit {
        without(catching_up, peer)
    } else {
        catching_up
    }
}

/// A leader's commit index never decreases.
pub proof fn lemma_leader_commit_monotonic<P>(
    match_index: Map<NodeId, LogIndex>,
    leader: NodeId,
    v: StorageView<P>,
    members: Seq<NodeId>,
    commit: LogIndex,
)
    ensures
        commit_after_advance(match_index, leader, v, members, commit) >= commit,
{
}

/// A leader commits only an entry of its current term that a majority of the
/// configuration (the leader and every member) holds.
pub proof fn lemma_leader_commits_current_term_majority<P>(
    match_index: Map<NodeId, LogIndex>,
    leader: NodeId,
    v: StorageView<P>,
    members: Seq<NodeId>,
    commit: LogIndex,
)
    requires
        storage_wf(v),
        commit_after_advance(match_index, leader, v, members, commit) != commit,
    ensures
        ({
            let c = commit_after_advance(match_index, leader, v, members, commit);
            let values = quorum_values(match_index, leader, last_index(v) as LogIndex, members);
            &&& c > commit
            &&& has_entry(v, c as int)
            &&& entry_at(v, c as int).term == v.current_term
            &&& crate::collections::map_collection::count_at_least(values, c)
                >= crate::collections::map_collection::majority(values.len())
        }),
{
    let values = quorum_values(match_index, leader, last_index(v) as LogIndex, members);
    assert(values.len() > 0);
    crate::collections::map_collection::lemma_quorum_index_exists(values);
}

/// A follower's commit index never decreases, and it moves only to a point that
/// neither its log nor the leader's commit index falls short of.
pub proof fn lemma_follower_commit_bounds<P>(commit: LogIndex, leader_commit: LogIndex, w: StorageView<P>)
    requires
        storage_wf(w),
    ensures
        commit_after_append(commit, leader_commit, w) >= commit,
        commit_after_append(commit, leader_commit, w) != commit ==> commit_after_append(commit, leader_commit, w)
            <= leader_commit && commit_after_append(commit, leader_commit, w) <= last_index(w),
{
}

/// After a follower accepts entries behind `prev_log_index` (which it holds, or which
/// ends its snapshot), its log keeps every entry up to `prev_log_index` and continues
/// with copies of the leader's entries, in order.
pub proof fn lemma_append_keeps_prefix_and_adds_entries<P: Clone>(
    v: StorageView<P>,
    prev_log_index: LogIndex,
    entries: Seq<LogEntry<P>>,
    w: StorageView<P>,
)
    requires
        storage_wf(v),
        v.first_index - 1 <= prev_log_index <= last_index(v),
        log_after_append(v, prev_log_index, entries, w),
    ensures
        forall|i: int| v.first_index <= i <= prev_log_index ==> has_entry(w, i) && #[trigger] entry_at(w, i) == entry_at(v, i),
        entries.len() > 0 ==> last_index(w) == prev_log_index + entries.len(),
        entries.len() > 0 ==> forall|k: int| 0 <= k < entries.len() ==> #[trigger] entry_cloned(
            entries[k],
            entry_at(w, prev_log_index + 1 + k),
        ),
{
    if entries.len() > 0 {
        let t = if last_index(v) > prev_log_index {
            truncated_after(v, prev_log_index as int)
        } else {
            v
        };
        assert(t.entries.len() == prev_log_index - v.first_index + 1);
        assert forall|i: int| v.first_index <= i <= prev_log_index implies has_entry(w, i) && #[trigger] entry_at(w, i) == entry_at(v, i) by {
            assert(w.entries.take(t.entries.len() as int)[i - v.first_index] == w.entries[i - v.first_index]);
        }
        assert forall|k: int| 0 <= k < entries.len() implies #[trigger] entry_cloned(entries[k], entry_at(w, prev_log_index + 1 + k)) by {
            assert(w.entries.skip(t.entries.len() as int)[k] == w.entries[t.entries.len() + k]);
        }
    }
}

/// Tracks what each follower holds, and the commit and apply positions of this server.
pub struct LogReplicationManager {
    next_index: MapCollection,
    match_index: MapCollection,
    commit_index: LogIndex,
    last_applied: LogIndex,
    catching_up: NodeCollection,
}

impl LogReplicationManager {
    pub closed spec fn next(&self) -> Map<NodeId, LogIndex> {
        self.next_index@
    }

    pub closed spec fn matched(&self) -> Map<NodeId, LogIndex> {
        self.match_index@
    }

    pub closed spec fn commit(&self) -> LogIndex {
        self.commit_index
    }

    pub closed spec fn applied(&self) -> LogIndex {
        self.last_applied
    }

    /// Servers that joined and do not count towards a majority until they catch up.
    pub closed spec fn catching(&self) -> Seq<NodeId> {
        self.catching_up@
    }

    pub fn new() -> (r: Self)
        ensures
            r.next() == Map::<NodeId, LogIndex>::empty(),
            r.matched() == Map::<NodeId, LogIndex>::empty(),
            r.commit() == 0,
            r.applied() == 0,
            r.catching() == Seq::<NodeId>::empty(),
    {
        LogReplicationManager {
            next_index: MapCollection::new(),
            match_index: MapCollection::new(),
            commit_index: 0,
            last_applied: 0,
            catching_up: NodeCollection::new(),
        }
    }

    /// A new leader expects every peer to need the entry after its own last one, and
    /// knows nothing replicated on any of them.
    pub fn initialize_leader_state<P: Clone, S: Storage<Payload = P>>(&mut self, peers: &[NodeId], storage: &S)
        requires
            storage_wf(storage@),
        ensures
            forall|k: NodeId| #[trigger] final(self).next().contains_key(k) <==> old(self).next().contains_key(k) || peers@.contains(k),
            forall|k: NodeId| #[trigger] final(self).matched().contains_key(k) <==> old(self).matched().contains_key(k) || peers@.contains(k),
            forall|k: NodeId| peers@.contains(k) ==> #[trigger] final(self).next()[k] == last_index(storage@) + 1
                && final(self).matched()[k] == 0,
            forall|k: NodeId| !peers@.contains(k) && old(self).next().contains_key(k)
                ==> #[trigger] final(self).next()[k] == old(self).next()[k],
            forall|k: NodeId| !peers@.contains(k) && old(self).matched().contains_key(k)
                ==> #[trigger] final(self).matched()[k] == old(self).matched()[k],
            final(self).commit() == old(self).commit(),
            final(self).applied() == old(self).applied(),
            final(self).catching() == old(self).catching(),
    {
        let next_log_index = storage.last_log_index() + 1;
        let mut i: usize = 0;
        while i < peers.len()
            invariant
                i <= peers@.len(),
                next_log_index == last_index(storage@) + 1,
                self.commit_index == old(self).commit_index,
                self.last_applied == old(self).last_applied,
                self.catching_up@ == old(self).catching_up@,
                forall|k: NodeId| #[trigger] self.next_index@.contains_key(k) <==> old(self).next_index@.contains_key(k) || peers@.take(i as int).contains(k),
                forall|k: NodeId| #[trigger] self.match_index@.contains_key(k) <==> old(self).match_index@.contains_key(k) || peers@.take(i as int).contains(k),
                forall|k: NodeId| peers@.take(i as int).contains(k) ==> #[trigger] self.next_index@[k] == next_log_index && self.match_index@[k] == 0,
                forall|k: NodeId| !peers@.take(i as int).contains(k) && old(self).next_index@.contains_key(k)
                    ==> #[trigger] self.next_index@[k] == old(self).next_index@[k],
                forall|k: NodeId| !peers@.take(i as int).contains(k) && old(self).match_index@.contains_key(k)
                    ==> #[trigger] self.match_index@[k] == old(self).match_index@[k],
            decreases peers@.len() - i,
        {
            let peer = peers[i];
            self.next_index.insert(peer, next_log_index);
            self.match_index.insert(peer, 0);
            assert(peers@.take(i as int + 1) =~= peers@.take(i as int).push(peer));
            assert forall|k: NodeId| peers@.take(i as int + 1).contains(k) implies k == peer || peers@.take(i as int).contains(k) by {
                let j = choose|j: int| 0 <= j < i + 1 && #[trigger] peers@.take(i as int + 1)[j] == k;
                if j < i {
                    assert(peers@.take(i as int)[j] == k);
                }
            }
            assert forall|k: NodeId| peers@.take(i as int + 1).contains(k) implies #[trigger] self.next_index@[k] == next_log_index
                && self.match_index@[k] == 0 by {
                if k != peer {
                    assert(peers@.take(i as int).contains(k));
                }
            }
            i = i + 1;
        }
        assert(peers@.take(peers@.len() as int) =~= peers@);
    }

    /// The AppendEntries for `peer`, or, when the entries it needs were compacted, an
    /// InstallSnapshot carrying the whole snapshot in one chunk.
    pub fn get_append_entries_for_peer<P: Clone, S: Storage<Payload = P>>(
        &self,
        peer: NodeId,
        leader_id: NodeId,
        storage: &S,
    ) -> (r: RaftMsg<P>)
        requires
            storage_wf(storage@),
        ensures
            is_peer_message(r, self.next(), self.commit(), peer, leader_id, storage@),
    {
        let next_idx = match self.next_index.get(peer) {
            Some(n) => n,
            None => 1,
        };
        let first_idx = storage.first_log_index();
        let current_term = storage.current_term();
        if next_idx < first_idx {
            if let Some(chunk) = storage.get_snapshot_chunk(0, usize::MAX) {
                if let Some(metadata) = storage.snapshot_metadata() {
                    return RaftMsg::InstallSnapshot {
                        term: current_term,
                        leader_id,
                        last_included_index: metadata.last_included_index,
                        last_included_term: metadata.last_included_term,
                        offset: chunk.offset as u64,
                        data: chunk.data,
                        done: chunk.done,
                    };
                }
            }
        }
        self.get_append_entries_for_follower(peer, current_term, storage)
    }

    /// The AppendEntries for `peer`: the entries from its next index to the end of the
    /// log, behind the entry before them.
    pub fn get_append_entries_for_follower<P: Clone, S: Storage<Payload = P>>(
        &self,
        peer: NodeId,
        current_term: Term,
        storage: &S,
    ) -> (r: RaftMsg<P>)
        requires
            storage_wf(storage@),
        ensures
            is_append_entries_for(r, storage@, next_of(self.next(), peer), current_term, self.commit()),
    {
        let next_idx = match self.next_index.get(peer) {
            Some(n) => n,
            None => 1,
        };
        let prev_log_index = if next_idx == 0 {
            0
        } else {
            next_idx - 1
        };
        let prev_log_term = if prev_log_index == 0 {
            0
        } else if let Some(entry) = storage.get_entry(prev_log_index) {
            entry.term
        } else if let Some(metadata) = storage.snapshot_metadata() {
            if prev_log_index == metadata.last_included_index {
                metadata.last_included_term
            } else {
                0
            }
        } else {
            0
        };
        let entries = storage.get_entries(next_idx, storage.last_log_index() + 1);
        RaftMsg::AppendEntries {
            term: current_term,
            prev_log_index,
            prev_log_term,
            entries,
            leader_commit: self.commit_index,
        }
    }

    fn check_log_consistency<P: Clone, S: Storage<Payload = P>>(
        &self,
        prev_log_index: LogIndex,
        prev_log_term: Term,
        storage: &S,
    ) -> (r: bool)
        requires
            storage_wf(storage@),
        ensures
            r == log_consistent(storage@, prev_log_index, prev_log_term),
    {
        if prev_log_index == 0 {
            return true;
        }
        if let Some(entry) = storage.get_entry(prev_log_index) {
            return entry.term == prev_log_term;
        }
        if let Some(snapshot_metadata) = storage.snapshot_metadata() {
            if prev_log_index == snapshot_metadata.last_included_index {
                return prev_log_term == snapshot_metadata.last_included_term;
            }
        }
        false
    }

    /// Hands the entries after `last_applied` up to `commit_index` to the state machine
    /// (commands) or returns them (membership changes).
    fn apply_committed_entries<P: Clone, S: Storage<Payload = P>, SM: StateMachine<Payload = P>>(
        &mut self,
        storage: &S,
        state_machine: &mut SM,
    ) -> (r: ConfigChangeCollection)
        requires
            storage_wf(storage@),
        ensures
            final(self).applied() == if old(self).applied() < old(self).commit() {
                old(self).commit()
            } else {
                old(self).applied()
            },
            r@ == config_changes_between(storage@, old(self).applied() as int, old(self).commit() as int),
            applied_after(
                old(state_machine).applied(),
                commands_between(storage@, old(self).applied() as int, old(self).commit() as int),
                final(state_machine).applied(),
            ),
            final(self).commit() == old(self).commit(),
            final(self).next() == old(self).next(),
            final(self).matched() == old(self).matched(),
            final(self).catching() == old(self).catching(),
    {
        let mut config_changes = ConfigChangeCollection::new();
        let ghost start = self.last_applied;
        let ghost sm0 = state_machine.applied();
        while self.last_applied < self.commit_index
            invariant
                storage_wf(storage@),
                self.commit_index == old(self).commit_index,
                self.next_index@ == old(self).next_index@,
                self.match_index@ == old(self).match_index@,
                self.catching_up@ == old(self).catching_up@,
                start == old(self).last_applied,
                start <= self.last_applied,
                start < self.commit_index ==> self.last_applied <= self.commit_index,
                start >= self.commit_index ==> self.last_applied == start,
                config_changes@ == config_changes_between(storage@, start as int, self.last_applied as int),
                sm0 == old(state_machine).applied(),
                applied_after(sm0, commands_between(storage@, start as int, self.last_applied as int), state_machine.applied()),
            decreases self.commit_index - self.last_applied,
        {
            self.last_applied = self.last_applied + 1;
            let idx = self.last_applied;
            let ghost before = state_machine.applied();
            let ghost cmds = commands_between(storage@, start as int, idx - 1);
            if let Some(entry) = storage.get_entry(idx) {
                match &entry.entry_type {
                    EntryType::Command(payload) => {
                        state_machine.apply(payload);
                        proof {
                            let c2 = commands_between(storage@, start as int, idx as int);
                            assert(c2 == cmds.push(entry_at(storage@, idx as int).entry_type->Command_0));
                            let after = state_machine.applied();
                            assert(after.take(sm0.len() as int) =~= sm0) by {
                                assert(after.take(before.len() as int) == before);
                                assert forall|k: int| 0 <= k < sm0.len() implies after.take(sm0.len() as int)[k] == sm0[k] by {
                                    assert(before.take(sm0.len() as int)[k] == sm0[k]);
                                }
                            }
                            assert forall|k: int| 0 <= k < c2.len() implies #[trigger] cloned(c2[k], after[sm0.len() + k]) by {
                                if k < cmds.len() {
                                    assert(cloned(cmds[k], before[sm0.len() + k]));
                                }
                            }
                        }
                    },
                    EntryType::ConfigChange(change) => {
                        config_changes.push(idx, *change);
                        assert(commands_between(storage@, start as int, idx as int) =~= cmds);
                    },
                }
            } else {
                assert(commands_between(storage@, start as int, idx as int) =~= cmds);
            }
            assert(config_changes@ =~= config_changes_between(storage@, start as int, idx as int));
        }
        config_changes
    }

    fn try_append_entries<P: Clone, S: Storage<Payload = P>, SM: StateMachine<Payload = P>>(
        &mut self,
        prev_log_index: LogIndex,
        prev_log_term: Term,
        entries: Vec<LogEntry<P>>,
        leader_commit: LogIndex,
        storage: &mut S,
        state_machine: &mut SM,
    ) -> (r: (bool, ConfigChangeCollection))
        requires
            storage_wf(old(storage)@),
            last_index(old(storage)@) + entries@.len() < u64::MAX,
        ensures
            r.0 == log_consistent(old(storage)@, prev_log_index, prev_log_term),
            !r.0 ==> final(storage)@ == old(storage)@ && *final(self) == *old(self) && r.1@.len() == 0,
            r.0 ==> log_after_append(old(storage)@, prev_log_index, entries@, final(storage)@),
            r.0 ==> final(self).commit() == commit_after_append(old(self).commit(), leader_commit, final(storage)@),
            r.0 && final(self).commit() > old(self).commit() ==> {
                &&& final(self).applied() == (if old(self).applied() < final(self).commit() {
                    final(self).commit()
                } else {
                    old(self).applied()
                })
                &&& r.1@ == config_changes_between(final(storage)@, old(self).applied() as int, final(self).commit() as int)
            },
            r.0 && final(self).commit() > old(self).commit() ==> applied_after(
                old(state_machine).applied(),
                commands_between(final(storage)@, old(self).applied() as int, final(self).commit() as int),
                final(state_machine).applied(),
            ),
            !(r.0 && final(self).commit() > old(self).commit()) ==> *final(state_machine) == *old(state_machine),
            r.0 && final(self).commit() == old(self).commit() ==> final(self).applied() == old(self).applied() && r.1@.len() == 0,
            final(self).next() == old(self).next(),
            final(self).matched() == old(self).matched(),
            final(self).catching() == old(self).catching(),
            storage_wf(final(storage)@),
    {
        if !self.check_log_consistency(prev_log_index, prev_log_term, storage) {
            return (false, ConfigChangeCollection::new());
        }
        if entries.len() != 0 {
            let last_index = storage.last_log_index();
            if last_index > prev_log_index {
                storage.truncate_after(prev_log_index);
            }
            storage.append_entries(entries.as_slice());
        }
        if leader_commit > self.commit_index {
            let last = storage.last_log_index();
            let target = if leader_commit < last {
                leader_commit
            } else {
                last
            };
            if target > self.commit_index {
                self.commit_index = target;
                let config_changes = self.apply_committed_entries(storage, state_machine);
                return (true, config_changes);
            }
        }
        (true, ConfigChangeCollection::new())
    }

    /// Commits the highest entry of the current term that a majority of the
    /// configuration holds, and applies what became committed.
    pub fn advance_commit_index<P: Clone, S: Storage<Payload = P>, SM: StateMachine<Payload = P>>(
        &mut self,
        storage: &S,
        state_machine: &mut SM,
        config: &Configuration,
        leader_id: NodeId,
    ) -> (r: ConfigChangeCollection)
        requires
            storage_wf(storage@),
        ensures
            final(self).commit() == commit_after_advance(
                old(self).matched(),
                leader_id,
                storage@,
                config.members@,
                old(self).commit(),
            ),
            final(self).commit() > old(self).commit() ==> final(self).applied() == applied_up_to(
                old(self).applied(),
                final(self).commit(),
            ) && r@ == config_changes_between(storage@, old(self).applied() as int, final(self).commit() as int),
            final(self).commit() > old(self).commit() ==> applied_after(
                old(state_machine).applied(),
                commands_between(storage@, old(self).applied() as int, final(self).commit() as int),
                final(state_machine).applied(),
            ),
            final(self).commit() == old(self).commit() ==> final(self).applied() == old(self).applied() && r@.len() == 0
                && *final(state_machine) == *old(state_machine),
            final(self).next() == old(self).next(),
            final(self).matched() == old(self).matched(),
            final(self).catching() == old(self).catching(),
    {
        let leader_index = storage.last_log_index();
        let median = self.match_index.compute_median(leader_id, leader_index, config);
        if let Some(new_commit) = median {
            proof {
                let s = quorum_values(self.match_index@, leader_id, leader_index, config.members@);
                let q = majority_index(self.match_index@, leader_id, storage@, config.members@);
                assert(is_quorum_index(s, q));
                lemma_quorum_index_unique(s, q, new_commit);
            }
            if new_commit > self.commit_index {
                if let Some(entry) = storage.get_entry(new_commit) {
                    if entry.term == storage.current_term() {
                        self.commit_index = new_commit;
                        return self.apply_committed_entries(storage, state_machine);
                    }
                }
            }
        }
        ConfigChangeCollection::new()
    }

    /// Handles an AppendEntries from a leader in `term`. A higher term is adopted (the
    /// server becomes follower, its vote cleared); a candidate of the same term steps
    /// down. The entries are accepted when the term is not stale and the log matches at
    /// `prev_log_index`; accepted entries replace what follows `prev_log_index`, the
    /// commit index follows the leader's, and newly committed entries are applied.
    /// Returns the response and the membership changes that became committed.
    pub fn handle_append_entries<P: Clone, S: Storage<Payload = P>, SM: StateMachine<Payload = P>>(
        &mut self,
        term: Term,
        prev_log_index: LogIndex,
        prev_log_term: Term,
        entries: Vec<LogEntry<P>>,
        leader_commit: LogIndex,
        current_term: &mut Term,
        storage: &mut S,
        state_machine: &mut SM,
        role: &mut NodeState,
    ) -> (r: (RaftMsg<P>, ConfigChangeCollection))
        requires
            storage_wf(old(storage)@),
            last_index(old(storage)@) + entries@.len() < u64::MAX,
        ensures
            ({
                let v1 = crate::components::election_manager::storage_after_term(old(storage)@, *old(current_term), term);
                let ok = term >= *old(current_term) && log_consistent(old(storage)@, prev_log_index, prev_log_term);
                &&& *final(current_term) == crate::components::election_manager::max_term(*old(current_term), term)
                &&& term > *old(current_term) ==> *final(role) == NodeState::Follower
                &&& term == *old(current_term) && *old(role) == NodeState::Candidate ==> *final(role) == NodeState::Follower
                &&& term < *old(current_term) || (term == *old(current_term) && *old(role) != NodeState::Candidate)
                    ==> *final(role) == *old(role)
                &&& !ok ==> final(storage)@ == v1 && *final(self) == *old(self) && r.1@.len() == 0
                &&& ok ==> log_after_append(v1, prev_log_index, entries@, final(storage)@)
                &&& ok ==> final(self).commit() == commit_after_append(old(self).commit(), leader_commit, final(storage)@)
                &&& ok && final(self).commit() > old(self).commit() ==> final(self).applied() == applied_up_to(
                    old(self).applied(),
                    final(self).commit(),
                ) && r.1@ == config_changes_between(
                    final(storage)@,
                    old(self).applied() as int,
                    final(self).commit() as int,
                )
                &&& ok && final(self).commit() > old(self).commit() ==> applied_after(
                    old(state_machine).applied(),
                    commands_between(final(storage)@, old(self).applied() as int, final(self).commit() as int),
                    final(state_machine).applied(),
                )
                &&& !(ok && final(self).commit() > old(self).commit()) ==> *final(state_machine) == *old(state_machine)
                &&& ok && final(self).commit() == old(self).commit() ==> final(self).applied() == old(self).applied() && r.1@.len() == 0
                &&& r.0 == (RaftMsg::<P>::AppendEntriesResponse {
                    term: *final(current_term),
                    success: ok,
                    match_index: last_index(final(storage)@) as LogIndex,
                })
            }),
            final(self).next() == old(self).next(),
            final(self).matched() == old(self).matched(),
            final(self).catching() == old(self).catching(),
            storage_wf(final(storage)@),
    {
        if term > *current_term {
            *current_term = term;
            storage.set_current_term(term);
            *role = NodeState::Follower;
            storage.set_voted_for(None);
        } else if term == *current_term && *role == NodeState::Candidate {
            *role = NodeState::Follower;
        }
        let (success, config_changes) = if term < *current_term {
            (false, ConfigChangeCollection::new())
        } else {
            self.try_append_entries(prev_log_index, prev_log_term, entries, leader_commit, storage, state_machine)
        };
        let response = RaftMsg::AppendEntriesResponse {
            term: *current_term,
            success,
            match_index: storage.last_log_index(),
        };
        (response, config_changes)
    }

    /// Handles a follower's answer to an AppendEntries. On success with a higher match
    /// index, records it, tries to advance the commit index, and marks a catching-up
    /// server caught up once it holds everything committed. On failure, steps the
    /// follower's next index back by one (not below 1).
    pub fn handle_append_entries_response<P: Clone, S: Storage<Payload = P>, SM: StateMachine<Payload = P>>(
        &mut self,
        from: NodeId,
        success: bool,
        match_index: LogIndex,
        storage: &S,
        state_machine: &mut SM,
        config: &Configuration,
        leader_id: NodeId,
    ) -> (r: ConfigChangeCollection)
        requires
            storage_wf(storage@),
            match_index < u64::MAX,
        ensures
            success && match_index > match_value(old(self).matched(), from) ==> {
                let m1 = old(self).matched().insert(from, match_index);
                &&& final(self).matched() == m1
                &&& final(self).next() == old(self).next().insert(from, (match_index + 1) as LogIndex)
                &&& final(self).commit() == commit_after_advance(
                    m1,
                    leader_id,
                    storage@,
                    config.members@,
                    old(self).commit(),
                )
                &&& final(self).commit() > old(self).commit() ==> final(self).applied() == applied_up_to(
                    old(self).applied(),
                    final(self).commit(),
                ) && r@ == config_changes_between(storage@, old(self).applied() as int, final(self).commit() as int)
                &&& final(self).commit() > old(self).commit() ==> applied_after(
                    old(state_machine).applied(),
                    commands_between(storage@, old(self).applied() as int, final(self).commit() as int),
                    final(state_machine).applied(),
                )
                &&& final(self).commit() == old(self).commit() ==> final(self).applied() == old(self).applied() && r@.len() == 0
                    && *final(state_machine) == *old(state_machine)
                &&& final(self).catching() == catching_after(old(self).catching(), from, match_index, final(self).commit())
            },
            success && match_index <= match_value(old(self).matched(), from) ==> *final(self) == *old(self) && r@.len() == 0
                && *final(state_machine) == *old(state_machine),
            !success ==> {
                &&& final(self).next() == (if next_of(old(self).next(), from) > 1 {
                    old(self).next().insert(from, (next_of(old(self).next(), from) - 1) as LogIndex)
                } else {
                    old(self).next()
                })
                &&& final(self).matched() == old(self).matched()
                &&& final(self).commit() == old(self).commit()
                &&& final(self).applied() == old(self).applied()
                &&& final(self).catching() == old(self).catching()
                &&& r@.len() == 0
                &&& *final(state_machine) == *old(state_machine)
            },
    {
        if success {
            let current_match = match self.match_index.get(from) {
                Some(m) => m,
                None => 0,
            };
            if match_index > current_match {
                self.match_index.insert(from, match_index);
                self.next_index.insert(from, match_index + 1);
                let changes = self.advance_commit_index(storage, state_machine, config, leader_id);
                if self.catching_up.contains(from) && match_index >= self.commit_index {
                    self.catching_up.remove(from);
                }
                return changes;
            }
        } else {
            let next = match self.next_index.get(from) {
                Some(n) => n,
                None => 1,
            };
            if next > 1 {
                self.next_index.insert(from, next - 1);
            }
        }
        ConfigChangeCollection::new()
    }

    pub fn commit_index(&self) -> (r: LogIndex)
        ensures
            r == self.commit(),
    {
        self.commit_index
    }

    pub fn last_applied(&self) -> (r: LogIndex)
        ensures
            r == self.applied(),
    {
        self.last_applied
    }

    pub fn set_last_applied(&mut self, index: LogIndex)
        ensures
            final(self).applied() == index,
            final(self).commit() == old(self).commit(),
            final(self).next() == old(self).next(),
            final(self).matched() == old(self).matched(),
            final(self).catching() == old(self).catching(),
    {
        self.last_applied = index;
    }

    pub fn next_index(&self) -> (r: &MapCollection)
        ensures
            r@ == self.next(),
    {
        &self.next_index
    }

    pub fn next_index_mut(&mut self) -> (r: &mut MapCollection)
        ensures
            r@ == old(self).next(),
            final(self).next() == final(r)@,
            final(self).matched() == old(self).matched(),
            final(self).commit() == old(self).commit(),
            final(self).applied() == old(self).applied(),
            final(self).catching() == old(self).catching(),
    {
        &mut self.next_index
    }

    pub fn match_index(&self) -> (r: &MapCollection)
        ensures
            r@ == self.matched(),
    {
        &self.match_index
    }

    pub fn match_index_mut(&mut self) -> (r: &mut MapCollection)
        ensures
            r@ == old(self).matched(),
            final(self).matched() == final(r)@,
            final(self).next() == old(self).next(),
            final(self).commit() == old(self).commit(),
            final(self).applied() == old(self).applied(),
            final(self).catching() == old(self).catching(),
    {
        &mut self.match_index
    }

    /// Records that a server that just joined is catching up with the log; it counts
    /// towards majorities like every member.
    pub fn mark_server_catching_up(&mut self, node_id: NodeId)
        ensures
            final(self).catching() == (if old(self).catching().contains(node_id) {
                old(self).catching()
            } else {
                old(self).catching().push(node_id)
            }),
            final(self).next() == old(self).next(),
            final(self).matched() == old(self).matched(),
            final(self).commit() == old(self).commit(),
            final(self).applied() == old(self).applied(),
    {
        if !self.catching_up.contains(node_id) {
            self.catching_up.push(node_id);
        }
    }

    pub fn is_catching_up(&self, node_id: NodeId) -> (r: bool)
        ensures
            r == self.catching().contains(node_id),
    {
        self.catching_up.contains(node_id)
    }

    /// Handles an InstallSnapshot from a leader in `term`. A stale term is refused with
    /// nothing changed. Otherwise a higher term is adopted (follower, vote cleared), a
    /// candidate of the same term steps down, and a snapshot no newer than the one held
    /// is refused. The chunk goes to storage; when it completes the snapshot, the state
    /// machine is restored from it, the log before it discarded, and the commit and
    /// apply positions moved up to it.
    pub fn handle_install_snapshot<P: Clone, S: Storage<Payload = P>, SM: StateMachine<Payload = P>>(
        &mut self,
        term: Term,
        leader_id: NodeId,
        last_included_index: LogIndex,
        last_included_term: Term,
        offset: u64,
        data: Vec<u8>,
        done: bool,
        current_term: &mut Term,
        storage: &mut S,
        state_machine: &mut SM,
        role: &mut NodeState,
    ) -> (r: RaftMsg<P>)
        requires
            storage_wf(old(storage)@),
            last_included_index < u64::MAX,
        ensures
            term < *old(current_term) ==> {
                &&& r == RaftMsg::<P>::InstallSnapshotResponse { term: *old(current_term), success: false }
                &&& *final(current_term) == *old(current_term)
                &&& final(storage)@ == old(storage)@
                &&& *final(role) == *old(role)
                &&& *final(self) == *old(self)
                &&& *final(state_machine) == *old(state_machine)
            },
            term >= *old(current_term) ==> {
                let v1 = crate::components::election_manager::storage_after_term(old(storage)@, *old(current_term), term);
                let accepted = snapshot_chunk_accepted(v1, last_included_index, offset);
                let v2 = after_chunk(v1, offset, data@, done, last_included_index, last_included_term);
                &&& *final(current_term) == term
                &&& term > *old(current_term) ==> *final(role) == NodeState::Follower
                &&& term == *old(current_term) && *old(role) == NodeState::Candidate ==> *final(role) == NodeState::Follower
                &&& term == *old(current_term) && *old(role) != NodeState::Candidate ==> *final(role) == *old(role)
                &&& r == RaftMsg::<P>::InstallSnapshotResponse { term, success: accepted }
                &&& !accepted ==> final(storage)@ == v1 && *final(self) == *old(self)
                    && *final(state_machine) == *old(state_machine)
                &&& accepted && !done ==> final(storage)@ == v2 && *final(self) == *old(self)
                    && *final(state_machine) == *old(state_machine)
                &&& accepted && done ==> {
                    &&& final(storage)@ == discarded_before(v2, (last_included_index + 1) as LogIndex)
                    &&& final(self).commit() == (if old(self).commit() < last_included_index { last_included_index } else { old(self).commit() })
                    &&& final(self).applied() == (if old(self).applied() < last_included_index { last_included_index } else { old(self).applied() })
                    &&& SM::snapshot_history(v2.snapshot_data) is Some ==> final(state_machine).applied()
                        == SM::snapshot_history(v2.snapshot_data)->0
                }
            },
            final(self).next() == old(self).next(),
            final(self).matched() == old(self).matched(),
            final(self).catching() == old(self).catching(),
            storage_wf(final(storage)@),
    {
        if term < *current_term {
            return RaftMsg::InstallSnapshotResponse { term: *current_term, success: false };
        }
        if term > *current_term {
            *current_term = term;
            storage.set_current_term(term);
            storage.set_voted_for(None);
            *role = NodeState::Follower;
        } else if term == *current_term && *role == NodeState::Candidate {
            *role = NodeState::Follower;
        }
        if let Some(current_snapshot_metadata) = storage.snapshot_metadata() {
            if last_included_index <= current_snapshot_metadata.last_included_index {
                return RaftMsg::InstallSnapshotResponse { term: *current_term, success: false };
            }
        }
        match storage.apply_snapshot_chunk(offset, data, done, last_included_index, last_included_term) {
            Ok(_) => {
                if done {
                    if let Some(snapshot) = storage.load_snapshot() {
                        let _ = state_machine.restore_from_snapshot(&snapshot.data);
                        storage.discard_entries_before(last_included_index + 1);
                        if self.commit_index < last_included_index {
                            self.commit_index = last_included_index;
                        }
                        if self.last_applied < last_included_index {
                            self.last_applied = last_included_index;
                        }
                    }
                }
                RaftMsg::InstallSnapshotResponse { term: *current_term, success: true }
            },
            Err(_) => RaftMsg::InstallSnapshotResponse { term: *current_term, success: false },
        }
    }

    /// Handles a follower's answer to an InstallSnapshot covering up to
    /// `last_included_index`: on success the follower holds everything up to it.
    pub fn handle_install_snapshot_response(
        &mut self,
        peer: NodeId,
        success: bool,
        last_included_index: LogIndex,
    )
        requires
            last_included_index < u64::MAX,
        ensures
            success ==> {
                &&& final(self).next() == old(self).next().insert(peer, (last_included_index + 1) as LogIndex)
                &&& final(self).matched() == old(self).matched().insert(peer, last_included_index)
                &&& final(self).catching() == catching_after(old(self).catching(), peer, last_included_index, old(self).commit())
                &&& final(self).commit() == old(self).commit()
                &&& final(self).applied() == old(self).applied()
            },
            !success ==> *final(self) == *old(self),
    {
        if success {
            self.next_index.insert(peer, last_included_index + 1);
            self.match_index.insert(peer, last_included_index);
            if self.catching_up.contains(peer) && last_included_index >= self.commit_index {
                self.catching_up.remove(peer);
            }
        }
    }
}

} // verus!
