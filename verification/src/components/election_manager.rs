use crate::collections::configuration::{quorum_size_of, Configuration};
use crate::collections::node_collection::NodeCollection;
use crate::node_state::NodeState;
use crate::raft_messages::RaftMsg;
use crate::storage::{last_index, last_term, storage_wf, Storage, StorageView};
use crate::timer_service::{TimerService, TimerState};
use crate::types::{LogIndex, NodeId, Term};
use vstd::prelude::*;

verus! {

/// The election timer was restarted once and runs; the heartbeat timer is as it was.
pub open spec fn election_timer_reset(before: TimerState, after: TimerState) -> bool {
    &&& after.election_running
    &&& after.heartbeat_running == before.heartbeat_running
    &&& after.election_restarts == before.election_restarts + 1
    &&& after.heartbeat_restarts == before.heartbeat_restarts
}

/// The heartbeat timer was restarted once and runs; the election timer is as it was.
pub open spec fn heartbeat_timer_reset(before: TimerState, after: TimerState) -> bool {
    &&& after.heartbeat_running
    &&& after.election_running == before.election_running
    &&& after.heartbeat_restarts == before.heartbeat_restarts + 1
    &&& after.election_restarts == before.election_restarts
}

/// Both timers are as they were.
pub open spec fn timers_unchanged(before: TimerState, after: TimerState) -> bool {
    &&& after.election_running == before.election_running
    &&& after.heartbeat_running == before.heartbeat_running
    &&& after.election_restarts == before.election_restarts
    &&& after.heartbeat_restarts == before.heartbeat_restarts
}

/// A candidate whose log ends at (`index`, `term`) is at least as up to date as `v`.
pub open spec fn log_up_to_date<P>(index: LogIndex, term: Term, v: StorageView<P>) -> bool {
    term > last_term(v) || (term == last_term(v) && index >= last_index(v))
}

/// The term a server is in after hearing of `term` while in `current_term`.
pub open spec fn max_term(current_term: Term, term: Term) -> Term {
    if term > current_term {
        term
    } else {
        current_term
    }
}

/// The storage after hearing of `term`: a higher term is adopted and the vote cleared.
pub open spec fn storage_after_term<P>(v: StorageView<P>, current_term: Term, term: Term) -> StorageView<P> {
    if term > current_term {
        StorageView { current_term: term, voted_for: None, ..v }
    } else {
        v
    }
}

/// A server in `current_term` whose storage is `v` grants its vote for `term` to `candidate`.
pub open spec fn grants_vote<P>(
    v: StorageView<P>,
    current_term: Term,
    term: Term,
    candidate: NodeId,
    last_log_index: LogIndex,
    last_log_term: Term,
) -> bool {
    &&& term >= current_term
    &&& (v.voted_for is None || v.voted_for == Some(candidate))
    &&& log_up_to_date(last_log_index, last_log_term, v)
}

/// The vote decision on a RequestVote, after the server adopted its term.
pub open spec fn vote_decision<P>(
    v: StorageView<P>,
    current_term: Term,
    term: Term,
    candidate: NodeId,
    last_log_index: LogIndex,
    last_log_term: Term,
) -> bool {
    grants_vote(
        storage_after_term(v, current_term, term),
        max_term(current_term, term),
        term,
        candidate,
        last_log_index,
        last_log_term,
    )
}

/// The storage after a RequestVote was handled.
pub open spec fn storage_after_vote<P>(
    v: StorageView<P>,
    current_term: Term,
    term: Term,
    candidate: NodeId,
    last_log_index: LogIndex,
    last_log_term: Term,
) -> StorageView<P> {
    let v1 = storage_after_term(v, current_term, term);
    if vote_decision(v, current_term, term, candidate, last_log_index, last_log_term) {
        StorageView { voted_for: Some(candidate), ..v1 }
    } else {
        v1
    }
}

/// Within one term a server votes for at most one candidate: once it granted its vote
/// to `c1`, a request of another candidate `c2` in the same term is refused.
pub proof fn lemma_one_vote_per_term<P>(
    v: StorageView<P>,
    current_term: Term,
    term: Term,
    c1: NodeId,
    i1: LogIndex,
    t1: Term,
    c2: NodeId,
    i2: LogIndex,
    t2: Term,
)
    requires
        c1 != c2,
        vote_decision(v, current_term, term, c1, i1, t1),
    ensures
        !vote_decision(
            storage_after_vote(v, current_term, term, c1, i1, t1),
            max_term(current_term, term),
            term,
            c2,
            i2,
            t2,
        ),
{
}

/// Logs are compared by the term of their last entry first, and only on equal last
/// terms by their length: a candidate whose last term is lower than the voter's is
/// behind whatever its length, one whose last term is higher is ahead whatever its
/// length, and on equal last terms it must be at least as long as the voter's log.
pub proof fn lemma_up_to_date_compares_last_term_first<P>(index: LogIndex, term: Term, v: StorageView<P>)
    ensures
        term < last_term(v) ==> !log_up_to_date(index, term, v),
        term > last_term(v) ==> log_up_to_date(index, term, v),
        term == last_term(v) ==> (log_up_to_date(index, term, v) <==> index >= last_index(v)),
{
}

/// Being up to date is kept by a log that ends later: a log ending where the voter's
/// does is up to date, and a log whose last entry is at a higher term, or at the same term and no
/// lower index, than an up-to-date one is up to date too.
pub proof fn lemma_up_to_date_is_monotonic<P>(i1: LogIndex, t1: Term, i2: LogIndex, t2: Term, v: StorageView<P>)
    ensures
        i1 == last_index(v) && t1 == last_term(v) ==> log_up_to_date(i1, t1, v),
        log_up_to_date(i1, t1, v) && (t2 > t1 || (t2 == t1 && i2 >= i1)) ==> log_up_to_date(i2, t2, v),
{
}

/// A RequestVote from a candidate whose last log term is lower than the voter's last
/// log term is refused, whatever the length of the candidate's log.
pub proof fn lemma_older_last_term_refused<P>(
    v: StorageView<P>,
    current_term: Term,
    term: Term,
    candidate: NodeId,
    last_log_index: LogIndex,
    last_log_term: Term,
)
    requires
        last_log_term < last_term(v),
    ensures
        !vote_decision(v, current_term, term, candidate, last_log_index, last_log_term),
{
}

/// A vote is granted only to a candidate whose log is at least as up to date as the voter's.
pub proof fn lemma_vote_needs_up_to_date_log<P>(
    v: StorageView<P>,
    current_term: Term,
    term: Term,
    candidate: NodeId,
    last_log_index: LogIndex,
    last_log_term: Term,
)
    requires
        vote_decision(v, current_term, term, candidate, last_log_index, last_log_term),
    ensures
        log_up_to_date(last_log_index, last_log_term, v),
        term >= current_term,
{
}

/// The voters in `votes` with `from` counted too: a voter is counted once, however
/// often its vote arrives.
pub open spec fn with_vote(votes: Seq<NodeId>, from: NodeId) -> Seq<NodeId> {
    if votes.contains(from) {
        votes
    } else {
        votes.push(from)
    }
}

/// A vote that arrives again is not counted again, and counted voters stay distinct.
pub proof fn lemma_vote_counted_once(votes: Seq<NodeId>, from: NodeId)
    ensures
        with_vote(with_vote(votes, from), from) == with_vote(votes, from),
        with_vote(votes, from).contains(from),
        votes.no_duplicates() ==> with_vote(votes, from).no_duplicates(),
        with_vote(votes, from).len() <= votes.len() + 1,
{
    if !votes.contains(from) {
        assert(votes.push(from)[votes.len() as int] == from);
        if votes.no_duplicates() {
            assert forall|i: int, j: int| 0 <= i < j < votes.len() + 1 implies votes.push(from)[i] != votes.push(from)[j] by {
                if j == votes.len() {
                    assert(votes.push(from)[i] == votes[i]);
                }
            }
        }
    }
}

/// Two majorities of a configuration whose members are distinct, each made of distinct
/// members, share a member.
pub proof fn lemma_majorities_share_member(members: Seq<NodeId>, a: Seq<NodeId>, b: Seq<NodeId>)
    requires
        members.len() > 0,
        members.no_duplicates(),
        a.no_duplicates(),
        b.no_duplicates(),
        forall|x: NodeId| a.contains(x) ==> members.contains(x),
        forall|x: NodeId| b.contains(x) ==> members.contains(x),
        a.len() >= quorum_size_of(members.len()),
        b.len() >= quorum_size_of(members.len()),
    ensures
        exists|x: NodeId| a.contains(x) && b.contains(x),
{
    let (sa, sb, sm) = (a.to_set(), b.to_set(), members.to_set());
    a.unique_seq_to_set();
    b.unique_seq_to_set();
    members.unique_seq_to_set();
    vstd::seq_lib::seq_to_set_is_finite(members);
    vstd::set_lib::lemma_len_subset(sa + sb, sm);
    crate::collections::configuration::lemma_quorums_overlap(members.len());
    if !(exists|x: NodeId| a.contains(x) && b.contains(x)) {
        assert(sa.disjoint(sb));
        vstd::set_lib::lemma_set_disjoint_lens(sa, sb);
    }
}

/// One leader per term: in a term in which each server votes for at most one candidate
/// (`vote_of`, see `lemma_one_vote_per_term`), two candidates that each hold the votes
/// of a majority of distinct members of the configuration are the same candidate.
pub proof fn lemma_one_leader_per_term(
    members: Seq<NodeId>,
    vote_of: spec_fn(NodeId) -> Option<NodeId>,
    c1: NodeId,
    votes1: Seq<NodeId>,
    c2: NodeId,
    votes2: Seq<NodeId>,
)
    requires
        members.len() > 0,
        members.no_duplicates(),
        votes1.no_duplicates(),
        votes2.no_duplicates(),
        forall|x: NodeId| votes1.contains(x) ==> members.contains(x) && vote_of(x) == Some(c1),
        forall|x: NodeId| votes2.contains(x) ==> members.contains(x) && vote_of(x) == Some(c2),
        votes1.len() >= quorum_size_of(members.len()),
        votes2.len() >= quorum_size_of(members.len()),
    ensures
        c1 == c2,
{
    lemma_majorities_share_member(members, votes1, votes2);
    let x = choose|x: NodeId| votes1.contains(x) && votes2.contains(x);
    assert(vote_of(x) == Some(c1) && vote_of(x) == Some(c2));
}

/// Counts votes and pre-votes, and owns the election timer.
pub struct ElectionManager<TS> {
    votes_received: NodeCollection,
    pre_votes_received: NodeCollection,
    in_pre_vote: bool,
    timer_service: TS,
}

impl<TS: TimerService> ElectionManager<TS> {
    /// The servers whose vote this candidate holds.
    pub closed spec fn votes(&self) -> Seq<NodeId> {
        self.votes_received@
    }

    /// The servers whose pre-vote this server holds.
    pub closed spec fn pre_votes(&self) -> Seq<NodeId> {
        self.pre_votes_received@
    }

    /// A pre-vote round is under way.
    pub closed spec fn pre_voting(&self) -> bool {
        self.in_pre_vote
    }

    pub closed spec fn timer(&self) -> TS {
        self.timer_service
    }

    pub fn new(timer_service: TS) -> (r: Self)
        ensures
            r.votes() == Seq::<NodeId>::empty(),
            r.pre_votes() == Seq::<NodeId>::empty(),
            !r.pre_voting(),
            r.timer() == timer_service,
    {
        ElectionManager {
            votes_received: NodeCollection::new(),
            pre_votes_received: NodeCollection::new(),
            in_pre_vote: false,
            timer_service,
        }
    }

    /// Opens a pre-vote round: counts this server's own pre-vote, restarts the election
    /// timer, and returns the PreVoteRequest to broadcast.
    pub fn start_pre_vote<P: Clone, S: Storage<Payload = P>>(
        &mut self,
        node_id: NodeId,
        current_term: Term,
        storage: &S,
    ) -> (r: RaftMsg<P>)
        requires
            storage_wf(storage@),
        ensures
            final(self).pre_votes() == seq![node_id],
            final(self).pre_voting(),
            final(self).votes() == old(self).votes(),
            election_timer_reset(old(self).timer().timers(), final(self).timer().timers()),
            r == (RaftMsg::<P>::PreVoteRequest {
                term: current_term,
                candidate_id: node_id,
                last_log_index: last_index(storage@) as u64,
                last_log_term: last_term(storage@),
            }),
    {
        self.pre_votes_received.clear();
        self.pre_votes_received.push(node_id);
        self.in_pre_vote = true;
        self.timer_service.reset_election_timer();
        RaftMsg::PreVoteRequest {
            term: current_term,
            candidate_id: node_id,
            last_log_index: storage.last_log_index(),
            last_log_term: storage.last_log_term(),
        }
    }

    /// Answers a PreVoteRequest: granted when the request's term is not stale and the
    /// candidate's log is at least as up to date. Nothing is changed.
    pub fn handle_pre_vote_request<P: Clone, S: Storage<Payload = P>>(
        &mut self,
        term: Term,
        last_log_index: LogIndex,
        last_log_term: Term,
        current_term: Term,
        storage: &S,
    ) -> (r: RaftMsg<P>)
        requires
            storage_wf(storage@),
        ensures
            *final(self) == *old(self),
            r == (RaftMsg::<P>::PreVoteResponse {
                term: current_term,
                vote_granted: term >= current_term && log_up_to_date(last_log_index, last_log_term, storage@),
            }),
    {
        let vote_granted = if term < current_term {
            false
        } else {
            Self::is_log_up_to_date(last_log_index, last_log_term, storage)
        };
        RaftMsg::PreVoteResponse { term: current_term, vote_granted }
    }

    /// Counts a pre-vote, once per voter; returns whether the round is won, which ends it.
    pub fn handle_pre_vote_response(&mut self, from: NodeId, vote_granted: bool, config: &Configuration) -> (r: bool)
        ensures
            final(self).votes() == old(self).votes(),
            final(self).timer() == old(self).timer(),
            !old(self).pre_voting() || !vote_granted ==> !r && *final(self) == *old(self),
            old(self).pre_voting() && vote_granted ==> {
                &&& final(self).pre_votes() == with_vote(old(self).pre_votes(), from)
                &&& r == (final(self).pre_votes().len() >= quorum_size_of(config.members@.len()))
                &&& final(self).pre_voting() == !r
            },
    {
        if !self.in_pre_vote || !vote_granted {
            return false;
        }
        if !self.pre_votes_received.contains(from) {
            self.pre_votes_received.push(from);
        }
        let pre_votes = self.pre_votes_received.len();
        if config.has_quorum(pre_votes) {
            self.in_pre_vote = false;
            true
        } else {
            false
        }
    }

    /// Starts an election: moves to the next term, votes for itself (durably), becomes
    /// candidate, restarts the election timer, and returns the RequestVote to broadcast.
    pub fn start_election<P: Clone, S: Storage<Payload = P>>(
        &mut self,
        node_id: NodeId,
        current_term: &mut Term,
        storage: &mut S,
        role: &mut NodeState,
    ) -> (r: RaftMsg<P>)
        requires
            *old(current_term) < u64::MAX,
            storage_wf(old(storage)@),
        ensures
            *final(current_term) == *old(current_term) + 1,
            final(storage)@ == (StorageView {
                current_term: *final(current_term),
                voted_for: Some(node_id),
                ..old(storage)@
            }),
            final(self).votes() == seq![node_id],
            final(self).pre_votes() == old(self).pre_votes(),
            !final(self).pre_voting(),
            *final(role) == NodeState::Candidate,
            election_timer_reset(old(self).timer().timers(), final(self).timer().timers()),
            r == (RaftMsg::<P>::RequestVote {
                term: *final(current_term),
                candidate_id: node_id,
                last_log_index: last_index(old(storage)@) as u64,
                last_log_term: last_term(old(storage)@),
            }),
    {
        *current_term = *current_term + 1;
        storage.set_current_term(*current_term);
        storage.set_voted_for(Some(node_id));
        self.votes_received.clear();
        self.votes_received.push(node_id);
        self.in_pre_vote = false;
        *role = NodeState::Candidate;
        self.timer_service.reset_election_timer();
        RaftMsg::RequestVote {
            term: *current_term,
            candidate_id: node_id,
            last_log_index: storage.last_log_index(),
            last_log_term: storage.last_log_term(),
        }
    }

    /// Answers a RequestVote. A higher term is adopted first (clearing the vote); the vote
    /// is then granted as `vote_decision` says, recorded durably, and restarts the
    /// election timer.
    pub fn handle_vote_request<P: Clone, S: Storage<Payload = P>>(
        &mut self,
        term: Term,
        candidate_id: NodeId,
        last_log_index: LogIndex,
        last_log_term: Term,
        current_term: &mut Term,
        storage: &mut S,
    ) -> (r: RaftMsg<P>)
        requires
            storage_wf(old(storage)@),
        ensures
            *final(current_term) == max_term(*old(current_term), term),
            final(storage)@ == storage_after_vote(
                old(storage)@,
                *old(current_term),
                term,
                candidate_id,
                last_log_index,
                last_log_term,
            ),
            final(self).votes() == old(self).votes(),
            final(self).pre_votes() == old(self).pre_votes(),
            final(self).pre_voting() == old(self).pre_voting(),
            vote_decision(old(storage)@, *old(current_term), term, candidate_id, last_log_index, last_log_term)
                ==> election_timer_reset(old(self).timer().timers(), final(self).timer().timers()),
            !vote_decision(old(storage)@, *old(current_term), term, candidate_id, last_log_index, last_log_term)
                ==> final(self).timer() == old(self).timer(),
            r == (RaftMsg::<P>::RequestVoteResponse {
                term: *final(current_term),
                vote_granted: vote_decision(
                    old(storage)@,
                    *old(current_term),
                    term,
                    candidate_id,
                    last_log_index,
                    last_log_term,
                ),
            }),
    {
        if term > *current_term {
            *current_term = term;
            storage.set_current_term(term);
            storage.set_voted_for(None);
        }
        let vote_granted = self.should_grant_vote(
            term,
            *current_term,
            candidate_id,
            last_log_index,
            last_log_term,
            storage,
        );
        if vote_granted {
            storage.set_voted_for(Some(candidate_id));
            self.timer_service.reset_election_timer();
        }
        RaftMsg::RequestVoteResponse { term: *current_term, vote_granted }
    }

    /// Counts a vote for this candidate, once per voter; returns whether it now holds a
    /// majority.
    /// Responses of other terms, refusals, and responses while not candidate are ignored.
    pub fn handle_vote_response(
        &mut self,
        from: NodeId,
        term: Term,
        vote_granted: bool,
        current_term: &Term,
        role: &NodeState,
        config: &Configuration,
    ) -> (r: bool)
        ensures
            final(self).pre_votes() == old(self).pre_votes(),
            final(self).pre_voting() == old(self).pre_voting(),
            final(self).timer() == old(self).timer(),
            (*role != NodeState::Candidate || term != *current_term || !vote_granted) ==> !r
                && final(self).votes() == old(self).votes(),
            (*role == NodeState::Candidate && term == *current_term && vote_granted) ==> {
                &&& final(self).votes() == with_vote(old(self).votes(), from)
                &&& r == (final(self).votes().len() >= quorum_size_of(config.members@.len()))
            },
    {
        if term > *current_term {
            return false;
        }
        if *role != NodeState::Candidate || term != *current_term || !vote_granted {
            return false;
        }
        if !self.votes_received.contains(from) {
            self.votes_received.push(from);
        }
        let votes = self.votes_received.len();
        config.has_quorum(votes)
    }

    fn is_log_up_to_date<P: Clone, S: Storage<Payload = P>>(
        candidate_last_log_index: LogIndex,
        candidate_last_log_term: Term,
        storage: &S,
    ) -> (r: bool)
        requires
            storage_wf(storage@),
        ensures
            r == log_up_to_date(candidate_last_log_index, candidate_last_log_term, storage@),
            candidate_last_log_term < last_term(storage@) ==> !r,
            candidate_last_log_term > last_term(storage@) ==> r,
            candidate_last_log_term == last_term(storage@) ==> (r <==> candidate_last_log_index >= last_index(storage@)),
    {
        let our_term = storage.last_log_term();
        let our_index = storage.last_log_index();
        candidate_last_log_term > our_term || (candidate_last_log_term == our_term
            && candidate_last_log_index >= our_index)
    }

    fn should_grant_vote<P: Clone, S: Storage<Payload = P>>(
        &self,
        term: Term,
        current_term: Term,
        candidate_id: NodeId,
        last_log_index: LogIndex,
        last_log_term: Term,
        storage: &S,
    ) -> (r: bool)
        requires
            storage_wf(storage@),
        ensures
            r == grants_vote(storage@, current_term, term, candidate_id, last_log_index, last_log_term),
    {
        if term < current_term {
            return false;
        }
        if let Some(voted) = storage.voted_for() {
            if voted != candidate_id {
                return false;
            }
        }
        Self::is_log_up_to_date(last_log_index, last_log_term, storage)
    }

    pub fn timer_service(&self) -> (r: &TS)
        ensures
            *r == self.timer(),
    {
        &self.timer_service
    }

    pub fn timer_service_mut(&mut self) -> (r: &mut TS)
        ensures
            *r == old(self).timer(),
            final(self).timer() == *final(r),
            final(self).votes() == old(self).votes(),
            final(self).pre_votes() == old(self).pre_votes(),
            final(self).pre_voting() == old(self).pre_voting(),
    {
        &mut self.timer_service
    }
}

} // verus!
