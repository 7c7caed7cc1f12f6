use crate::raft_messages::RaftMsg;
use crate::types::{LogIndex, NodeId, Term};
use vstd::prelude::*;

verus! {

/// How much an observer wants to hear, from nothing to every message.
#[derive(Debug, Clone, Copy, PartialEq, Eq, PartialOrd, Ord)]
pub enum EventLevel {
    Off,
    Essential,
    Info,
    Debug,
    Trace,
}

#[derive(Debug, Clone, Copy, PartialEq, Eq, Structural)]
pub enum Role {
    Follower,
    Candidate,
    Leader,
}

#[derive(Debug, Clone, Copy, PartialEq, Eq, Structural)]
pub enum TimerKind {
    Election,
    Heartbeat,
}

/// A notification that a server gives its observer, with what it carries.
pub enum ObserverEvent<P> {
    LeaderElected { node: NodeId, term: Term },
    RoleChanged { node: NodeId, from_role: Role, to_role: Role, term: Term },
    LeaderLost { node: NodeId, old_term: Term, new_term: Term },
    ElectionStarted { node: NodeId, term: Term },
    ElectionTimeout { node: NodeId, term: Term },
    PreVoteStarted { node: NodeId, term: Term },
    PreVoteRequested { candidate: NodeId, voter: NodeId, term: Term, last_log_index: LogIndex, last_log_term: Term },
    PreVoteGranted { candidate: NodeId, voter: NodeId, granted: bool, term: Term },
    PreVoteSucceeded { node: NodeId, term: Term },
    CommitAdvanced { node: NodeId, old_index: LogIndex, new_index: LogIndex },
    LogAppended { node: NodeId, count: usize, last_index: LogIndex, last_term: Term },
    LogTruncated { node: NodeId, from_index: LogIndex },
    VoteRequested { candidate: NodeId, voter: NodeId, term: Term, last_log_index: LogIndex, last_log_term: Term },
    VoteGranted { candidate: NodeId, voter: NodeId, granted: bool, term: Term },
    VotedFor { voter: NodeId, candidate: NodeId, term: Term },
    HeartbeatSent { leader: NodeId, follower: NodeId, term: Term },
    AppendEntriesSent { leader: NodeId, follower: NodeId, entry_count: usize, term: Term },
    AppendEntriesResponse { follower: NodeId, leader: NodeId, success: bool, match_index: LogIndex, term: Term },
    TimerFired { node: NodeId, timer: TimerKind, term: Term },
    TimerReset { node: NodeId, timer: TimerKind, term: Term },
    MessageSent { from: NodeId, to: NodeId, msg: RaftMsg<P> },
    MessageReceived { to: NodeId, from: NodeId, msg: RaftMsg<P> },
    HigherTermDiscovered { node: NodeId, old_term: Term, new_term: Term, from_peer: NodeId },
    ConfigurationChangeApplied { node: NodeId, target: NodeId, added: bool },
    StateMachineApplied { node: NodeId, index: LogIndex, payload: P },
    StateMachineRead { node: NodeId, key: Seq<char>, found: bool },
}

/// Receives notifications of what a server does. Notifications do not change
/// the server's state.
pub trait Observer {
    type Payload: Clone;

    /// The notifications received so far, in order. An implementation must override
    /// this to record each notification: the default, an empty sequence, meets none of
    /// the notification methods' contracts, so they say nothing true of an
    /// implementation that keeps it (as one written outside Verus does).
    closed spec fn events(&self) -> Seq<ObserverEvent<Self::Payload>> {
        Seq::empty()
    }

    fn min_level(&self) -> EventLevel;

    fn leader_elected(&mut self, node: NodeId, term: Term)
        ensures
            final(self).events() == old(self).events().push(ObserverEvent::LeaderElected { node, term }),
    ;

    fn role_changed(&mut self, node: NodeId, from_role: Role, to_role: Role, term: Term)
        ensures
            final(self).events() == old(self).events().push(ObserverEvent::RoleChanged { node, from_role, to_role, term }),
    ;

    fn leader_lost(&mut self, node: NodeId, old_term: Term, new_term: Term)
        ensures
            final(self).events() == old(self).events().push(ObserverEvent::LeaderLost { node, old_term, new_term }),
    ;

    fn election_started(&mut self, node: NodeId, term: Term)
        ensures
            final(self).events() == old(self).events().push(ObserverEvent::ElectionStarted { node, term }),
    ;

    fn election_timeout(&mut self, node: NodeId, term: Term)
        ensures
            final(self).events() == old(self).events().push(ObserverEvent::ElectionTimeout { node, term }),
    ;

    fn pre_vote_started(&mut self, node: NodeId, term: Term)
        ensures
            final(self).events() == old(self).events().push(ObserverEvent::PreVoteStarted { node, term }),
    ;

    fn pre_vote_requested(
        &mut self,
        candidate: NodeId,
        voter: NodeId,
        term: Term,
        last_log_index: LogIndex,
        last_log_term: Term,
    )
        ensures
            final(self).events() == old(self).events().push(ObserverEvent::PreVoteRequested { candidate, voter, term, last_log_index, last_log_term }),
    ;

    fn pre_vote_granted(&mut self, candidate: NodeId, voter: NodeId, granted: bool, term: Term)
        ensures
            final(self).events() == old(self).events().push(ObserverEvent::PreVoteGranted { candidate, voter, granted, term }),
    ;

    fn pre_vote_succeeded(&mut self, node: NodeId, term: Term)
        ensures
            final(self).events() == old(self).events().push(ObserverEvent::PreVoteSucceeded { node, term }),
    ;

    fn commit_advanced(&mut self, node: NodeId, old_index: LogIndex, new_index: LogIndex)
        ensures
            final(self).events() == old(self).events().push(ObserverEvent::CommitAdvanced { node, old_index, new_index }),
    ;

    fn log_appended(&mut self, node: NodeId, count: usize, last_index: LogIndex, last_term: Term)
        ensures
            final(self).events() == old(self).events().push(ObserverEvent::LogAppended { node, count, last_index, last_term }),
    ;

    fn log_truncated(&mut self, node: NodeId, from_index: LogIndex)
        ensures
            final(self).events() == old(self).events().push(ObserverEvent::LogTruncated { node, from_index }),
    ;

    fn vote_requested(
        &mut self,
        candidate: NodeId,
        voter: NodeId,
        term: Term,
        last_log_index: LogIndex,
        last_log_term: Term,
    )
        ensures
            final(self).events() == old(self).events().push(ObserverEvent::VoteRequested { candidate, voter, term, last_log_index, last_log_term }),
    ;

    fn vote_granted(&mut self, candidate: NodeId, voter: NodeId, granted: bool, term: Term)
        ensures
            final(self).events() == old(self).events().push(ObserverEvent::VoteGranted { candidate, voter, granted, term }),
    ;

    fn voted_for(&mut self, voter: NodeId, candidate: NodeId, term: Term)
        ensures
            final(self).events() == old(self).events().push(ObserverEvent::VotedFor { voter, candidate, term }),
    ;

    fn heartbeat_sent(&mut self, leader: NodeId, follower: NodeId, term: Term)
        ensures
            final(self).events() == old(self).events().push(ObserverEvent::HeartbeatSent { leader, follower, term }),
    ;

    fn append_entries_sent(&mut self, leader: NodeId, follower: NodeId, entry_count: usize, term: Term)
        ensures
            final(self).events() == old(self).events().push(ObserverEvent::AppendEntriesSent { leader, follower, entry_count, term }),
    ;

    fn append_entries_response(
        &mut self,
        follower: NodeId,
        leader: NodeId,
        success: bool,
        match_index: LogIndex,
        term: Term,
    )
        ensures
            final(self).events() == old(self).events().push(ObserverEvent::AppendEntriesResponse { follower, leader, success, match_index, term }),
    ;

    fn timer_fired(&mut self, node: NodeId, timer: TimerKind, term: Term)
        ensures
            final(self).events() == old(self).events().push(ObserverEvent::TimerFired { node, timer, term }),
    ;

    fn timer_reset(&mut self, node: NodeId, timer: TimerKind, term: Term)
        ensures
            final(self).events() == old(self).events().push(ObserverEvent::TimerReset { node, timer, term }),
    ;

    fn message_sent(&mut self, from: NodeId, to: NodeId, msg: &RaftMsg<Self::Payload>)
        ensures
            final(self).events() == old(self).events().push(ObserverEvent::MessageSent { from, to, msg: *msg }),
    ;

    fn message_received(&mut self, to: NodeId, from: NodeId, msg: &RaftMsg<Self::Payload>)
        ensures
            final(self).events() == old(self).events().push(ObserverEvent::MessageReceived { to, from, msg: *msg }),
    ;

    fn higher_term_discovered(&mut self, node: NodeId, old_term: Term, new_term: Term, from_peer: NodeId)
        ensures
            final(self).events() == old(self).events().push(ObserverEvent::HigherTermDiscovered { node, old_term, new_term, from_peer }),
    ;

    fn configuration_change_applied(&mut self, node: NodeId, target: NodeId, added: bool)
        ensures
            final(self).events() == old(self).events().push(ObserverEvent::ConfigurationChangeApplied { node, target, added }),
    ;

    fn state_machine_applied(&mut self, node: NodeId, index: LogIndex, payload: &Self::Payload)
        ensures
            final(self).events() == old(self).events().push(ObserverEvent::StateMachineApplied { node, index, payload: *payload }),
    ;

    fn state_machine_read(&mut self, node: NodeId, key: &str, found: bool)
        ensures
            final(self).events() == old(self).events().push(ObserverEvent::StateMachineRead { node, key: key@, found }),
    ;
}

} // verus!
