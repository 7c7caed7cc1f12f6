use crate::components::election_manager::{election_timer_reset, ElectionManager};
use crate::components::log_replication_manager::LogReplicationManager;
use crate::node_state::NodeState;
use crate::observer::{Observer, ObserverEvent, Role};
use crate::raft_messages::RaftMsg;
use crate::storage::{last_index, last_term, storage_wf, Storage, StorageView};
use crate::timer_service::TimerService;
use crate::types::{NodeId, Term};
use vstd::prelude::*;

verus! {

/// The observable role of a server in state `s`.
pub open spec fn role_of(s: NodeState) -> Role {
    match s {
        NodeState::Follower => Role::Follower,
        NodeState::Candidate => Role::Candidate,
        NodeState::Leader => Role::Leader,
    }
}

/// What a step-down from `old_role` in `old_term` to follower in `new_term` reports,
/// after `before`: that leadership was lost (only for a leader), then the role change.
pub open spec fn step_down_events<P>(
    before: Seq<ObserverEvent<P>>,
    node: NodeId,
    old_role: Role,
    old_term: Term,
    new_term: Term,
) -> Seq<ObserverEvent<P>> {
    let lost = if old_role == Role::Leader {
        before.push(ObserverEvent::LeaderLost { node, old_term, new_term })
    } else {
        before
    };
    lost.push(ObserverEvent::RoleChanged { node, from_role: old_role, to_role: Role::Follower, term: new_term })
}

/// Moves a server between follower, candidate and leader, with the state changes that go along.
pub struct RoleTransitionManager;

impl RoleTransitionManager {
    pub fn new() -> (r: Self) {
        RoleTransitionManager
    }

    /// Starts a pre-vote round (see `ElectionManager::start_pre_vote`).
    pub fn start_pre_vote<P: Clone, S: Storage<Payload = P>, TS: TimerService, O: Observer<Payload = P>>(
        node_id: NodeId,
        current_term: Term,
        storage: &S,
        election: &mut ElectionManager<TS>,
        observer: &mut O,
    ) -> (r: RaftMsg<P>)
        requires
            storage_wf(storage@),
        ensures
            final(election).pre_votes() == seq![node_id],
            final(election).pre_voting(),
            final(election).votes() == old(election).votes(),
            election_timer_reset(old(election).timer().timers(), final(election).timer().timers()),
            final(observer).events() == old(observer).events().push(ObserverEvent::PreVoteStarted { node: node_id, term: current_term }),
            r == (RaftMsg::<P>::PreVoteRequest {
                term: current_term,
                candidate_id: node_id,
                last_log_index: last_index(storage@) as u64,
                last_log_term: last_term(storage@),
            }),
    {
        observer.pre_vote_started(node_id, current_term);
        election.start_pre_vote(node_id, current_term, storage)
    }

    /// Starts an election (see `ElectionManager::start_election`).
    pub fn start_election<P: Clone, S: Storage<Payload = P>, TS: TimerService, O: Observer<Payload = P>>(
        node_id: NodeId,
        current_term: &mut Term,
        storage: &mut S,
        role: &mut NodeState,
        election: &mut ElectionManager<TS>,
        observer: &mut O,
        old_role: Role,
    ) -> (r: RaftMsg<P>)
        requires
            *old(current_term) < u64::MAX,
            storage_wf(old(storage)@),
        ensures
            *final(current_term) == *old(current_term) + 1,
            final(storage)@ == (StorageView {
                current_term: *final(current_term),
                voted_for: Some(node_id),
                ..old(storage)@
            }),
            final(election).votes() == seq![node_id],
            final(election).pre_votes() == old(election).pre_votes(),
            !final(election).pre_voting(),
            *final(role) == NodeState::Candidate,
            election_timer_reset(old(election).timer().timers(), final(election).timer().timers()),
            final(observer).events() == old(observer).events()
                .push(ObserverEvent::ElectionStarted { node: node_id, term: *final(current_term) })
                .push(ObserverEvent::RoleChanged { node: node_id, from_role: old_role, to_role: Role::Candidate, term: *final(current_term) })
                .push(ObserverEvent::VotedFor { voter: node_id, candidate: node_id, term: *final(current_term) }),
            r == (RaftMsg::<P>::RequestVote {
                term: *final(current_term),
                candidate_id: node_id,
                last_log_index: last_index(old(storage)@) as u64,
                last_log_term: last_term(old(storage)@),
            }),
    {
        let vote_request = election.start_election(node_id, current_term, storage, role);
        observer.election_started(node_id, *current_term);
        observer.role_changed(node_id, old_role, Role::Candidate, *current_term);
        observer.voted_for(node_id, node_id, *current_term);
        vote_request
    }

    /// Makes this server leader: it starts tracking every member, stops the election
    /// timer and starts the heartbeat timer.
    pub fn become_leader<P: Clone, S: Storage<Payload = P>, TS: TimerService, O: Observer<Payload = P>>(
        node_id: NodeId,
        current_term: Term,
        role: &mut NodeState,
        storage: &S,
        members: &[NodeId],
        election: &mut ElectionManager<TS>,
        replication: &mut LogReplicationManager,
        observer: &mut O,
        old_role: Role,
    )
        requires
            storage_wf(storage@),
        ensures
            *final(role) == NodeState::Leader,
            forall|k: NodeId| #[trigger] final(replication).next().contains_key(k) <==> old(replication).next().contains_key(k) || members@.contains(k),
            forall|k: NodeId| #[trigger] final(replication).matched().contains_key(k) <==> old(replication).matched().contains_key(k) || members@.contains(k),
            forall|k: NodeId| members@.contains(k) ==> #[trigger] final(replication).next()[k] == last_index(storage@) + 1
                && final(replication).matched()[k] == 0,
            forall|k: NodeId| !members@.contains(k) && old(replication).next().contains_key(k)
                ==> #[trigger] final(replication).next()[k] == old(replication).next()[k],
            forall|k: NodeId| !members@.contains(k) && old(replication).matched().contains_key(k)
                ==> #[trigger] final(replication).matched()[k] == old(replication).matched()[k],
            final(replication).commit() == old(replication).commit(),
            final(replication).applied() == old(replication).applied(),
            final(replication).catching() == old(replication).catching(),
            !final(election).timer().timers().election_running,
            final(election).timer().timers().heartbeat_running,
            final(election).timer().timers().heartbeat_restarts == old(election).timer().timers().heartbeat_restarts + 1,
            final(election).timer().timers().election_restarts == old(election).timer().timers().election_restarts,
            final(election).votes() == old(election).votes(),
            final(election).pre_votes() == old(election).pre_votes(),
            final(election).pre_voting() == old(election).pre_voting(),
            final(observer).events() == old(observer).events()
                .push(ObserverEvent::RoleChanged { node: node_id, from_role: old_role, to_role: Role::Leader, term: current_term })
                .push(ObserverEvent::LeaderElected { node: node_id, term: current_term }),
    {
        *role = NodeState::Leader;
        observer.role_changed(node_id, old_role, Role::Leader, current_term);
        observer.leader_elected(node_id, current_term);
        replication.initialize_leader_state(members, storage);
        election.timer_service_mut().stop_timers();
        election.timer_service_mut().reset_heartbeat_timer();
    }

    /// Steps down to follower in `new_term`: the term is stored, the vote cleared, and
    /// the election timer restarted.
    pub fn step_down<P: Clone, S: Storage<Payload = P>, TS: TimerService, O: Observer<Payload = P>>(
        node_id: NodeId,
        old_term: Term,
        new_term: Term,
        current_term: &mut Term,
        storage: &mut S,
        role: &mut NodeState,
        election: &mut ElectionManager<TS>,
        observer: &mut O,
        old_role: Role,
    )
        ensures
            *final(current_term) == new_term,
            final(storage)@ == (StorageView { current_term: new_term, voted_for: None, ..old(storage)@ }),
            *final(role) == NodeState::Follower,
            election_timer_reset(old(election).timer().timers(), final(election).timer().timers()),
            final(election).votes() == old(election).votes(),
            final(election).pre_votes() == old(election).pre_votes(),
            final(election).pre_voting() == old(election).pre_voting(),
            final(observer).events() == step_down_events(old(observer).events(), node_id, old_role, old_term, new_term),
    {
        if old_role == Role::Leader {
            observer.leader_lost(node_id, old_term, new_term);
        }
        *current_term = new_term;
        storage.set_current_term(new_term);
        *role = NodeState::Follower;
        storage.set_voted_for(None);
        election.timer_service_mut().reset_election_timer();
        observer.role_changed(node_id, old_role, Role::Follower, new_term);
    }

    pub fn node_state_to_role(state: &NodeState) -> (r: Role)
        ensures
            r == role_of(*state),
    {
        match state {
            NodeState::Follower => Role::Follower,
            NodeState::Candidate => Role::Candidate,
            NodeState::Leader => Role::Leader,
        }
    }
}

} // verus!
