use crate::log_entry::{clone_entries, entries_cloned, LogEntry};
use crate::snapshot::copy_bytes;
use crate::types::{LogIndex, NodeId, Term};
use vstd::prelude::*;

verus! {

/// The messages that Raft servers exchange.
#[derive(Clone, Debug, PartialEq)]
pub enum RaftMsg<P> {
    RequestVote { term: Term, candidate_id: NodeId, last_log_index: LogIndex, last_log_term: Term },
    RequestVoteResponse { term: Term, vote_granted: bool },
    PreVoteRequest { term: Term, candidate_id: NodeId, last_log_index: LogIndex, last_log_term: Term },
    PreVoteResponse { term: Term, vote_granted: bool },
    AppendEntries {
        term: Term,
        prev_log_index: LogIndex,
        prev_log_term: Term,
        entries: Vec<LogEntry<P>>,
        leader_commit: LogIndex,
    },
    AppendEntriesResponse { term: Term, success: bool, match_index: LogIndex },
    InstallSnapshot {
        term: Term,
        leader_id: NodeId,
        last_included_index: LogIndex,
        last_included_term: Term,
        offset: u64,
        data: Vec<u8>,
        done: bool,
    },
    InstallSnapshotResponse { term: Term, success: bool },
}

/// `b` is a copy of `a`: the same variant with the same fields, log entries cloned.
pub open spec fn msg_cloned<P: Clone>(a: RaftMsg<P>, b: RaftMsg<P>) -> bool {
    match (a, b) {
        (
            RaftMsg::AppendEntries { term: t1, prev_log_index: i1, prev_log_term: pt1, entries: e1, leader_commit: c1 },
            RaftMsg::AppendEntries { term: t2, prev_log_index: i2, prev_log_term: pt2, entries: e2, leader_commit: c2 },
        ) => t1 == t2 && i1 == i2 && pt1 == pt2 && c1 == c2 && entries_cloned(e1@, e2@),
        (
            RaftMsg::InstallSnapshot { term: t1, leader_id: l1, last_included_index: i1, last_included_term: lt1, offset: o1, data: d1, done: f1 },
            RaftMsg::InstallSnapshot { term: t2, leader_id: l2, last_included_index: i2, last_included_term: lt2, offset: o2, data: d2, done: f2 },
        ) => t1 == t2 && l1 == l2 && i1 == i2 && lt1 == lt2 && o1 == o2 && d1@ == d2@ && f1 == f2,
        (RaftMsg::AppendEntries { .. }, _) => false,
        (RaftMsg::InstallSnapshot { .. }, _) => false,
        _ => a == b,
    }
}

impl<P: Clone> RaftMsg<P> {
    /// A copy of this message.
    pub fn clone_msg(&self) -> (r: Self)
        ensures
            msg_cloned(*self, r),
    {
        match self {
            RaftMsg::RequestVote { term, candidate_id, last_log_index, last_log_term } => RaftMsg::RequestVote {
                term: *term,
                candidate_id: *candidate_id,
                last_log_index: *last_log_index,
                last_log_term: *last_log_term,
            },
            RaftMsg::RequestVoteResponse { term, vote_granted } => RaftMsg::RequestVoteResponse {
                term: *term,
                vote_granted: *vote_granted,
            },
            RaftMsg::PreVoteRequest { term, candidate_id, last_log_index, last_log_term } => RaftMsg::PreVoteRequest {
                term: *term,
                candidate_id: *candidate_id,
                last_log_index: *last_log_index,
                last_log_term: *last_log_term,
            },
            RaftMsg::PreVoteResponse { term, vote_granted } => RaftMsg::PreVoteResponse {
                term: *term,
                vote_granted: *vote_granted,
            },
            RaftMsg::AppendEntries { term, prev_log_index, prev_log_term, entries, leader_commit } => RaftMsg::AppendEntries {
                term: *term,
                prev_log_index: *prev_log_index,
                prev_log_term: *prev_log_term,
                entries: clone_entries(entries.as_slice()),
                leader_commit: *leader_commit,
            },
            RaftMsg::AppendEntriesResponse { term, success, match_index } => RaftMsg::AppendEntriesResponse {
                term: *term,
                success: *success,
                match_index: *match_index,
            },
            RaftMsg::InstallSnapshot { term, leader_id, last_included_index, last_included_term, offset, data, done } => {
                let copy = copy_bytes(data);
                RaftMsg::InstallSnapshot {
                    term: *term,
                    leader_id: *leader_id,
                    last_included_index: *last_included_index,
                    last_included_term: *last_included_term,
                    offset: *offset,
                    data: copy,
                    done: *done,
                }
            },
            RaftMsg::InstallSnapshotResponse { term, success } => RaftMsg::InstallSnapshotResponse {
                term: *term,
                success: *success,
            },
        }
    }
}

} // verus!
