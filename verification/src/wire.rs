use crate::log_entry::{ConfigurationChange, EntryType, LogEntry};
use crate::raft_messages::RaftMsg;
use vstd::prelude::*;

verus! {

/// A membership change as it travels between servers.
#[derive(Debug, Clone, PartialEq, Eq)]
pub enum WireConfigurationChange {
    AddServer { node_id: u64 },
    RemoveServer { node_id: u64 },
}

/// The kind of a log entry as it travels between servers.
#[derive(Debug, Clone, PartialEq)]
pub enum WireEntryType {
    Command { payload: String },
    ConfigChange { change: WireConfigurationChange },
}

/// A log entry as it travels between servers.
#[derive(Debug, Clone, PartialEq)]
pub struct WireLogEntry {
    pub term: u64,
    pub entry_type: WireEntryType,
}

/// A Raft message as it travels between servers: plain fields, entries and snapshot
/// bytes as lists.
#[derive(Debug, Clone, PartialEq)]
pub enum WireRaftMsg {
    RequestVote { term: u64, candidate_id: u64, last_log_index: u64, last_log_term: u64 },
    RequestVoteResponse { term: u64, vote_granted: bool },
    AppendEntries {
        term: u64,
        prev_log_index: u64,
        prev_log_term: u64,
        entries: Vec<WireLogEntry>,
        leader_commit: u64,
    },
    AppendEntriesResponse { term: u64, success: bool, match_index: u64 },
    InstallSnapshot {
        term: u64,
        leader_id: u64,
        last_included_index: u64,
        last_included_term: u64,
        offset: u64,
        data: Vec<u8>,
        done: bool,
    },
    InstallSnapshotResponse { term: u64, success: bool },
    PreVoteRequest { term: u64, candidate_id: u64, last_log_index: u64, last_log_term: u64 },
    PreVoteResponse { term: u64, vote_granted: bool },
}

pub open spec fn wire_change(c: ConfigurationChange) -> WireConfigurationChange {
    match c {
        ConfigurationChange::AddServer(node_id) => WireConfigurationChange::AddServer { node_id },
        ConfigurationChange::RemoveServer(node_id) => WireConfigurationChange::RemoveServer { node_id },
    }
}

pub open spec fn change_of_wire(w: WireConfigurationChange) -> ConfigurationChange {
    match w {
        WireConfigurationChange::AddServer { node_id } => ConfigurationChange::AddServer(node_id),
        WireConfigurationChange::RemoveServer { node_id } => ConfigurationChange::RemoveServer(node_id),
    }
}

pub open spec fn wire_entry(e: LogEntry<String>) -> WireLogEntry {
    WireLogEntry {
        term: e.term,
        entry_type: match e.entry_type {
            EntryType::Command(payload) => WireEntryType::Command { payload },
            EntryType::ConfigChange(c) => WireEntryType::ConfigChange { change: wire_change(c) },
        },
    }
}

pub open spec fn entry_of_wire(w: WireLogEntry) -> LogEntry<String> {
    LogEntry {
        term: w.term,
        entry_type: match w.entry_type {
            WireEntryType::Command { payload } => EntryType::Command(payload),
            WireEntryType::ConfigChange { change } => EntryType::ConfigChange(change_of_wire(change)),
        },
    }
}

/// The message `w` carries: same variant and fields, entries converted one by one.
pub open spec fn msg_matches_wire(m: RaftMsg<String>, w: WireRaftMsg) -> bool {
    match (m, w) {
        (
            RaftMsg::RequestVote { term: a, candidate_id: b, last_log_index: c, last_log_term: d },
            WireRaftMsg::RequestVote { term: a2, candidate_id: b2, last_log_index: c2, last_log_term: d2 },
        ) => a == a2 && b == b2 && c == c2 && d == d2,
        (
            RaftMsg::PreVoteRequest { term: a, candidate_id: b, last_log_index: c, last_log_term: d },
            WireRaftMsg::PreVoteRequest { term: a2, candidate_id: b2, last_log_index: c2, last_log_term: d2 },
        ) => a == a2 && b == b2 && c == c2 && d == d2,
        (
            RaftMsg::RequestVoteResponse { term: a, vote_granted: b },
            WireRaftMsg::RequestVoteResponse { term: a2, vote_granted: b2 },
        ) => a == a2 && b == b2,
        (
            RaftMsg::PreVoteResponse { term: a, vote_granted: b },
            WireRaftMsg::PreVoteResponse { term: a2, vote_granted: b2 },
        ) => a == a2 && b == b2,
        (
            RaftMsg::AppendEntries { term: a, prev_log_index: b, prev_log_term: c, entries: e, leader_commit: d },
            WireRaftMsg::AppendEntries { term: a2, prev_log_index: b2, prev_log_term: c2, entries: e2, leader_commit: d2 },
        ) => a == a2 && b == b2 && c == c2 && d == d2 && e@.len() == e2@.len()
            && forall|i: int| 0 <= i < e@.len() ==> #[trigger] e2@[i] == wire_entry(e@[i]),
        (
            RaftMsg::AppendEntriesResponse { term: a, success: b, match_index: c },
            WireRaftMsg::AppendEntriesResponse { term: a2, success: b2, match_index: c2 },
        ) => a == a2 && b == b2 && c == c2,
        (
            RaftMsg::InstallSnapshot { term: a, leader_id: b, last_included_index: c, last_included_term: d, offset: o, data: x, done: f },
            WireRaftMsg::InstallSnapshot { term: a2, leader_id: b2, last_included_index: c2, last_included_term: d2, offset: o2, data: x2, done: f2 },
        ) => a == a2 && b == b2 && c == c2 && d == d2 && o == o2 && x@ == x2@ && f == f2,
        (
            RaftMsg::InstallSnapshotResponse { term: a, success: b },
            WireRaftMsg::InstallSnapshotResponse { term: a2, success: b2 },
        ) => a == a2 && b == b2,
        _ => false,
    }
}

/// Converting a membership change to the wire and back gives it back.
pub proof fn lemma_change_round_trip(c: ConfigurationChange)
    ensures
        change_of_wire(wire_change(c)) == c,
{
}

/// Converting a log entry to the wire and back gives it back.
pub proof fn lemma_entry_round_trip(e: LogEntry<String>)
    ensures
        entry_of_wire(wire_entry(e)) == e,
{
}

/// Converting a wire entry to a log entry and back gives it back.
pub proof fn lemma_wire_entry_round_trip(w: WireLogEntry)
    ensures
        wire_entry(entry_of_wire(w)) == w,
{
    match w.entry_type {
        WireEntryType::Command { payload } => {},
        WireEntryType::ConfigChange { change } => {
            match change {
                WireConfigurationChange::AddServer { node_id } => {},
                WireConfigurationChange::RemoveServer { node_id } => {},
            }
        },
    }
}

/// A message converted to the wire and back is the message it was: the same variant and
/// fields, the same entries and snapshot bytes.
pub proof fn lemma_message_round_trip(m: RaftMsg<String>, w: WireRaftMsg, back: RaftMsg<String>)
    requires
        msg_matches_wire(m, w),
        msg_matches_wire(back, w),
    ensures
        crate::raft_messages::msg_cloned(m, back),
{
    match (m, back) {
        (RaftMsg::AppendEntries { entries: e1, .. }, RaftMsg::AppendEntries { entries: e2, .. }) => {
            let we = w->AppendEntries_entries;
            assert forall|i: int| 0 <= i < e1@.len() implies #[trigger] crate::log_entry::entry_cloned(e1@[i], e2@[i]) by {
                assert(we@[i] == wire_entry(e1@[i]));
                assert(we@[i] == wire_entry(e2@[i]));
                lemma_entry_round_trip(e1@[i]);
                lemma_entry_round_trip(e2@[i]);
            }
        },
        _ => {},
    }
}

impl WireConfigurationChange {
    pub fn from_change(change: ConfigurationChange) -> (r: Self)
        ensures
            r == wire_change(change),
    {
        match change {
            ConfigurationChange::AddServer(node_id) => WireConfigurationChange::AddServer { node_id },
            ConfigurationChange::RemoveServer(node_id) => WireConfigurationChange::RemoveServer { node_id },
        }
    }

    pub fn into_change(self) -> (r: ConfigurationChange)
        ensures
            r == change_of_wire(self),
    {
        match self {
            WireConfigurationChange::AddServer { node_id } => ConfigurationChange::AddServer(node_id),
            WireConfigurationChange::RemoveServer { node_id } => ConfigurationChange::RemoveServer(node_id),
        }
    }
}

impl WireLogEntry {
    pub fn from_entry(entry: LogEntry<String>) -> (r: Self)
        ensures
            r == wire_entry(entry),
    {
        let entry_type = match entry.entry_type {
            EntryType::Command(payload) => WireEntryType::Command { payload },
            EntryType::ConfigChange(c) => WireEntryType::ConfigChange { change: WireConfigurationChange::from_change(c) },
        };
        WireLogEntry { term: entry.term, entry_type }
    }

    /// A copy of this entry.
    pub fn copy(&self) -> (r: Self)
        ensures
            r == *self,
    {
        let entry_type = match &self.entry_type {
            WireEntryType::Command { payload } => WireEntryType::Command { payload: payload.clone() },
            WireEntryType::ConfigChange { change } => WireEntryType::ConfigChange {
                change: match change {
                    WireConfigurationChange::AddServer { node_id } => WireConfigurationChange::AddServer { node_id: *node_id },
                    WireConfigurationChange::RemoveServer { node_id } => WireConfigurationChange::RemoveServer { node_id: *node_id },
                },
            },
        };
        WireLogEntry { term: self.term, entry_type }
    }

    pub fn into_entry(self) -> (r: LogEntry<String>)
        ensures
            r == entry_of_wire(self),
    {
        let entry_type = match self.entry_type {
            WireEntryType::Command { payload } => EntryType::Command(payload),
            WireEntryType::ConfigChange { change } => EntryType::ConfigChange(change.into_change()),
        };
        LogEntry { term: self.term, entry_type }
    }
}

impl WireRaftMsg {
    /// The wire form of `msg`.
    pub fn from_msg(msg: RaftMsg<String>) -> (r: Self)
        ensures
            msg_matches_wire(msg, r),
    {
        match msg {
            RaftMsg::RequestVote { term, candidate_id, last_log_index, last_log_term } => WireRaftMsg::RequestVote {
                term,
                candidate_id,
                last_log_index,
                last_log_term,
            },
            RaftMsg::RequestVoteResponse { term, vote_granted } => WireRaftMsg::RequestVoteResponse { term, vote_granted },
            RaftMsg::PreVoteRequest { term, candidate_id, last_log_index, last_log_term } => WireRaftMsg::PreVoteRequest {
                term,
                candidate_id,
                last_log_index,
                last_log_term,
            },
            RaftMsg::PreVoteResponse { term, vote_granted } => WireRaftMsg::PreVoteResponse { term, vote_granted },
            RaftMsg::AppendEntries { term, prev_log_index, prev_log_term, entries, leader_commit } => {
                let mut wire_entries: Vec<WireLogEntry> = Vec::new();
                let mut i: usize = 0;
                while i < entries.len()
                    invariant
                        i <= entries@.len(),
                        wire_entries@.len() == i,
                        forall|k: int| 0 <= k < i ==> #[trigger] wire_entries@[k] == wire_entry(entries@[k]),
                    decreases entries@.len() - i,
                {
                    let e = entries[i].clone_entry();
                    proof {
                        assert(e == entries@[i as int]);
                    }
                    wire_entries.push(WireLogEntry::from_entry(e));
                    i = i + 1;
                }
                WireRaftMsg::AppendEntries { term, prev_log_index, prev_log_term, entries: wire_entries, leader_commit }
            },
            RaftMsg::AppendEntriesResponse { term, success, match_index } => WireRaftMsg::AppendEntriesResponse {
                term,
                success,
                match_index,
            },
            RaftMsg::InstallSnapshot { term, leader_id, last_included_index, last_included_term, offset, data, done } => {
                WireRaftMsg::InstallSnapshot { term, leader_id, last_included_index, last_included_term, offset, data, done }
            },
            RaftMsg::InstallSnapshotResponse { term, success } => WireRaftMsg::InstallSnapshotResponse { term, success },
        }
    }

    /// The message that `self` carries.
    pub fn into_msg(self) -> (r: RaftMsg<String>)
        ensures
            msg_matches_wire(r, self),
    {
        match self {
            WireRaftMsg::RequestVote { term, candidate_id, last_log_index, last_log_term } => RaftMsg::RequestVote {
                term,
                candidate_id,
                last_log_index,
                last_log_term,
            },
            WireRaftMsg::RequestVoteResponse { term, vote_granted } => RaftMsg::RequestVoteResponse { term, vote_granted },
            WireRaftMsg::PreVoteRequest { term, candidate_id, last_log_index, last_log_term } => RaftMsg::PreVoteRequest {
                term,
                candidate_id,
                last_log_index,
                last_log_term,
            },
            WireRaftMsg::PreVoteResponse { term, vote_granted } => RaftMsg::PreVoteResponse { term, vote_granted },
            WireRaftMsg::AppendEntries { term, prev_log_index, prev_log_term, entries, leader_commit } => {
                let mut log_entries: Vec<LogEntry<String>> = Vec::new();
                let mut i: usize = 0;
                while i < entries.len()
                    invariant
                        i <= entries@.len(),
                        log_entries@.len() == i,
                        forall|k: int| 0 <= k < i ==> entries@[k] == #[trigger] wire_entry(log_entries@[k]),
                    decreases entries@.len() - i,
                {
                    let w = entries[i].copy();
                    let e = w.into_entry();
                    proof {
                        lemma_wire_entry_round_trip(w);
                    }
                    log_entries.push(e);
                    i = i + 1;
                }
                RaftMsg::AppendEntries { term, prev_log_index, prev_log_term, entries: log_entries, leader_commit }
            },
            WireRaftMsg::AppendEntriesResponse { term, success, match_index } => RaftMsg::AppendEntriesResponse {
                term,
                success,
                match_index,
            },
            WireRaftMsg::InstallSnapshot { term, leader_id, last_included_index, last_included_term, offset, data, done } => {
                RaftMsg::InstallSnapshot { term, leader_id, last_included_index, last_included_term, offset, data, done }
            },
            WireRaftMsg::InstallSnapshotResponse { term, success } => RaftMsg::InstallSnapshotResponse { term, success },
        }
    }
}

} // verus!
