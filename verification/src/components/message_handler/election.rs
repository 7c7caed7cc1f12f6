use crate::clock::Clock;
use crate::collections::configuration::quorum_size_of;
use crate::components::election_manager::{
    election_timer_reset, log_up_to_date, max_term, storage_after_vote, vote_decision, with_vote,
};
use crate::components::message_handler::{common, replication};
use crate::components::message_handler::replication::followers_sent;
use crate::components::message_handler_context::{broadcast_sent, peers_of, MessageHandlerContext};
use crate::components::role_transition_manager::{role_of, step_down_events, RoleTransitionManager};
use crate::node_state::NodeState;
use crate::observer::{Observer, ObserverEvent, Role, TimerKind as ObserverTimerKind};
use crate::raft_messages::RaftMsg;
use crate::state_machine::StateMachine;
use crate::storage::{last_index, last_term, storage_wf, Storage, StorageView};
use crate::timer_service::TimerService;
use crate::transport::Transport;
use crate::types::{LogIndex, NodeId, Term};
use vstd::prelude::*;

verus! {

/// What becoming leader in `term` after being `from_role` reports, after `before`.
pub open spec fn leader_events<P>(before: Seq<ObserverEvent<P>>, node: NodeId, from_role: Role, term: Term) -> Seq<ObserverEvent<P>> {
    before.push(ObserverEvent::RoleChanged { node, from_role, to_role: Role::Leader, term }).push(
        ObserverEvent::LeaderElected { node, term },
    )
}

/// What starting an election for `term` after being `from_role` reports, after `before`;
/// a server with no peers (`alone`) then also reports becoming leader.
pub open spec fn election_events<P>(
    before: Seq<ObserverEvent<P>>,
    node: NodeId,
    from_role: Role,
    term: Term,
    alone: bool,
) -> Seq<ObserverEvent<P>> {
    let started = before.push(ObserverEvent::ElectionStarted { node, term }).push(
        ObserverEvent::RoleChanged { node, from_role, to_role: Role::Candidate, term },
    ).push(ObserverEvent::VotedFor { voter: node, candidate: node, term });
    if alone {
        leader_events(started, node, Role::Candidate, term)
    } else {
        started
    }
}

/// What `handle_pre_vote_request` guarantees, relating the server before (`pre`) and after (`post`).
pub open spec fn handle_pre_vote_request_post<P: Clone, T: Transport<Payload = P>, S: Storage<Payload = P>, SM: StateMachine<Payload = P>, TS: TimerService, O: Observer<Payload = P>, CLK: Clock>(
    pre: MessageHandlerContext<T, S, SM, TS, O, CLK>,
    post: MessageHandlerContext<T, S, SM, TS, O, CLK>,
    from: NodeId,
    term: Term,
    candidate_id: NodeId,
    last_log_index: LogIndex,
    last_log_term: Term,
) -> bool {
    &&& post.transport.sent() == pre.transport.sent().push((
        from,
        RaftMsg::PreVoteResponse {
            term: pre.current_term,
            vote_granted: term >= pre.current_term && log_up_to_date(last_log_index, last_log_term, pre.storage@),
        },
        ))
    &&& post.observer.events() == pre.observer.events().push(
        ObserverEvent::PreVoteRequested { candidate: candidate_id, voter: pre.id, term, last_log_index, last_log_term },
    ).push(
        ObserverEvent::PreVoteGranted {
            candidate: candidate_id,
            voter: pre.id,
            granted: term >= pre.current_term && log_up_to_date(last_log_index, last_log_term, pre.storage@),
            term,
        },
    )
    &&& post.role == pre.role
    &&& post.current_term == pre.current_term
    &&& post.storage == pre.storage
    &&& post.election == pre.election
    &&& post.replication == pre.replication
    &&& post.config_manager == pre.config_manager
    &&& post.leader_lease == pre.leader_lease
}

/// Answers a PreVoteRequest (see `ElectionManager::handle_pre_vote_request`); nothing
/// but the transport changes.
pub fn handle_pre_vote_request<P: Clone, T: Transport<Payload = P>, S: Storage<Payload = P>, SM: StateMachine<Payload = P>, TS: TimerService, O: Observer<Payload = P>, CLK: Clock>(
    ctx: &mut MessageHandlerContext<T, S, SM, TS, O, CLK>,
    from: NodeId,
    term: Term,
    candidate_id: NodeId,
    last_log_index: LogIndex,
    last_log_term: Term,
)
    requires
        storage_wf(old(ctx).storage@),
    ensures
        handle_pre_vote_request_post(*old(ctx), *final(ctx), from, term, candidate_id, last_log_index, last_log_term),
{
    ctx.observer.pre_vote_requested(candidate_id, ctx.id, term, last_log_index, last_log_term);
    let response = ctx.election.handle_pre_vote_request(term, last_log_index, last_log_term, ctx.current_term, &ctx.storage);
    if let RaftMsg::PreVoteResponse { vote_granted, .. } = &response {
        ctx.observer.pre_vote_granted(candidate_id, ctx.id, *vote_granted, term);
    }
    common::send(ctx, from, response);
}

/// What `handle_vote_request` guarantees, relating the server before (`pre`) and after (`post`).
pub open spec fn handle_vote_request_post<P: Clone, T: Transport<Payload = P>, S: Storage<Payload = P>, SM: StateMachine<Payload = P>, TS: TimerService, O: Observer<Payload = P>, CLK: Clock>(
    pre: MessageHandlerContext<T, S, SM, TS, O, CLK>,
    post: MessageHandlerContext<T, S, SM, TS, O, CLK>,
    from: NodeId,
    term: Term,
    candidate_id: NodeId,
    last_log_index: LogIndex,
    last_log_term: Term,
) -> bool {
    &&& post.current_term == max_term(pre.current_term, term)
    &&& post.storage@ == storage_after_vote(
        pre.storage@,
        pre.current_term,
        term,
        candidate_id,
        last_log_index,
        last_log_term,
        )
    &&& post.transport.sent() == pre.transport.sent().push((
        from,
        RaftMsg::RequestVoteResponse {
            term: max_term(pre.current_term, term),
            vote_granted: vote_decision(
                pre.storage@,
                pre.current_term,
                term,
                candidate_id,
                last_log_index,
                last_log_term,
            ),
        },
        ))
    &&& ({
        let granted = vote_decision(pre.storage@, pre.current_term, term, candidate_id, last_log_index, last_log_term);
        let before = pre.election.timer().timers();
        let after = post.election.timer().timers();
        &&& term > pre.current_term ==> {
            &&& post.role == NodeState::Follower
            &&& post.current_leader is None
            &&& post.leader_lease.expiration_view() is None
            &&& post.leader_lease.duration() == pre.leader_lease.duration()
            &&& post.observer.events() == step_down_events(
                pre.observer.events(),
                pre.id,
                role_of(pre.role),
                pre.current_term,
                term,
            )
            &&& after.election_running
            &&& after.heartbeat_running == before.heartbeat_running
            &&& after.election_restarts == before.election_restarts + (if granted { 2int } else { 1int })
            &&& after.heartbeat_restarts == before.heartbeat_restarts
            }
        &&& term <= pre.current_term ==> {
            &&& post.role == pre.role
            &&& post.current_leader == pre.current_leader
            &&& post.leader_lease == pre.leader_lease
            &&& post.observer == pre.observer
            &&& granted ==> election_timer_reset(before, after)
            &&& !granted ==> post.election.timer() == pre.election.timer()
            }
        })
    &&& post.election.votes() == pre.election.votes()
    &&& post.election.pre_votes() == pre.election.pre_votes()
    &&& post.election.pre_voting() == pre.election.pre_voting()
    &&& post.replication == pre.replication
    &&& post.config_manager == pre.config_manager
    &&& storage_wf(post.storage@)
}

/// Answers a RequestVote (see `ElectionManager::handle_vote_request`). A request of a
/// later term first makes this server step down into that term.
pub fn handle_vote_request<P: Clone, T: Transport<Payload = P>, S: Storage<Payload = P>, SM: StateMachine<Payload = P>, TS: TimerService, O: Observer<Payload = P>, CLK: Clock>(
    ctx: &mut MessageHandlerContext<T, S, SM, TS, O, CLK>,
    from: NodeId,
    term: Term,
    candidate_id: NodeId,
    last_log_index: LogIndex,
    last_log_term: Term,
)
    requires
        storage_wf(old(ctx).storage@),
    ensures
        handle_vote_request_post(*old(ctx), *final(ctx), from, term, candidate_id, last_log_index, last_log_term),
{
    common::validate_term_and_step_down(ctx, term);
    let response = ctx.election.handle_vote_request(
        term,
        candidate_id,
        last_log_index,
        last_log_term,
        &mut ctx.current_term,
        &mut ctx.storage,
    );
    common::send(ctx, from, response);
}

/// What `start_pre_vote` guarantees, relating the server before (`pre`) and after (`post`).
pub open spec fn start_pre_vote_post<P: Clone, T: Transport<Payload = P>, S: Storage<Payload = P>, SM: StateMachine<Payload = P>, TS: TimerService, O: Observer<Payload = P>, CLK: Clock>(
    pre: MessageHandlerContext<T, S, SM, TS, O, CLK>,
    post: MessageHandlerContext<T, S, SM, TS, O, CLK>,
) -> bool {
    &&& broadcast_sent(
        pre.transport.sent(),
        post.transport.sent(),
        peers_of(pre),
        RaftMsg::PreVoteRequest {
            term: pre.current_term,
            candidate_id: pre.id,
            last_log_index: last_index(pre.storage@) as u64,
            last_log_term: last_term(pre.storage@),
        },
        )
    &&& post.election.pre_votes() == seq![pre.id]
    &&& post.election.pre_voting()
    &&& election_timer_reset(pre.election.timer().timers(), post.election.timer().timers())
    &&& post.observer.events() == pre.observer.events().push(ObserverEvent::PreVoteStarted { node: pre.id, term: pre.current_term })
    &&& post.id == pre.id
    &&& post.role == pre.role
    &&& post.current_term == pre.current_term
    &&& post.storage == pre.storage
    &&& post.replication == pre.replication
    &&& post.config_manager == pre.config_manager
    &&& post.leader_lease == pre.leader_lease
}

/// Broadcasts a PreVoteRequest for a new pre-vote round (see `ElectionManager::start_pre_vote`).
pub fn start_pre_vote<P: Clone, T: Transport<Payload = P>, S: Storage<Payload = P>, SM: StateMachine<Payload = P>, TS: TimerService, O: Observer<Payload = P>, CLK: Clock>(
    ctx: &mut MessageHandlerContext<T, S, SM, TS, O, CLK>,
)
    requires
        storage_wf(old(ctx).storage@),
    ensures
        start_pre_vote_post(*old(ctx), *final(ctx)),
{
    let pre_vote_request = RoleTransitionManager::start_pre_vote(
        ctx.id,
        ctx.current_term,
        &ctx.storage,
        &mut ctx.election,
        &mut ctx.observer,
    );
    common::broadcast(ctx, pre_vote_request);
}

/// What `start_election` guarantees, relating the server before (`pre`) and after (`post`).
pub open spec fn start_election_post<P: Clone, T: Transport<Payload = P>, S: Storage<Payload = P>, SM: StateMachine<Payload = P>, TS: TimerService, O: Observer<Payload = P>, CLK: Clock>(
    pre: MessageHandlerContext<T, S, SM, TS, O, CLK>,
    post: MessageHandlerContext<T, S, SM, TS, O, CLK>,
) -> bool {
    &&& started_election(pre, post)
    &&& post.observer.events() == election_events(
        pre.observer.events(),
        pre.id,
        role_of(pre.role),
        post.current_term,
        peers_of(pre).len() == 0,
        )
}

/// `post` is `pre` after starting an election, but for what the observer was told.
pub open spec fn started_election<P: Clone, T: Transport<Payload = P>, S: Storage<Payload = P>, SM: StateMachine<Payload = P>, TS: TimerService, O: Observer<Payload = P>, CLK: Clock>(
    pre: MessageHandlerContext<T, S, SM, TS, O, CLK>,
    post: MessageHandlerContext<T, S, SM, TS, O, CLK>,
) -> bool {
    &&& post.current_term == pre.current_term + 1
    &&& post.storage@ == (StorageView {
        current_term: post.current_term,
        voted_for: Some(pre.id),
        ..pre.storage@
        })
    &&& peers_of(pre).len() == 0 ==> post.role == NodeState::Leader
    &&& peers_of(pre).len() > 0 ==> {
        &&& post.role == NodeState::Candidate
        &&& post.election.votes() == seq![pre.id]
        &&& broadcast_sent(
            pre.transport.sent(),
            post.transport.sent(),
            peers_of(pre),
            RaftMsg::RequestVote {
                term: post.current_term,
                candidate_id: pre.id,
                last_log_index: last_index(pre.storage@) as u64,
                last_log_term: last_term(pre.storage@),
            },
        )
        }
    &&& post.id == pre.id
    &&& post.config_manager == pre.config_manager
    &&& storage_wf(post.storage@)
}

/// Starts an election and broadcasts the RequestVote; a server with no peers
/// holds a majority alone and becomes leader at once.
pub fn start_election<P: Clone, T: Transport<Payload = P>, S: Storage<Payload = P>, SM: StateMachine<Payload = P>, TS: TimerService, O: Observer<Payload = P>, CLK: Clock>(
    ctx: &mut MessageHandlerContext<T, S, SM, TS, O, CLK>,
)
    requires
        storage_wf(old(ctx).storage@),
        old(ctx).current_term < u64::MAX,
    ensures
        start_election_post(*old(ctx), *final(ctx)),
{
    let old_role = RoleTransitionManager::node_state_to_role(&ctx.role);
    let vote_request = RoleTransitionManager::start_election(
        ctx.id,
        &mut ctx.current_term,
        &mut ctx.storage,
        &mut ctx.role,
        &mut ctx.election,
        &mut ctx.observer,
        old_role,
    );
    common::broadcast(ctx, vote_request);
    if ctx.config_manager.config().peers(ctx.id).len() == 0 {
        become_leader(ctx);
    }
}

/// `post` is `pre` become leader of its term: every member is tracked as needing the
/// entry after the leader's last one and as holding nothing, the other tracked servers
/// keep their indices, and every other member is sent what the leader has for it.
pub open spec fn leader_started<P: Clone, T: Transport<Payload = P>, S: Storage<Payload = P>, SM: StateMachine<Payload = P>, TS: TimerService, O: Observer<Payload = P>, CLK: Clock>(
    pre: MessageHandlerContext<T, S, SM, TS, O, CLK>,
    post: MessageHandlerContext<T, S, SM, TS, O, CLK>,
) -> bool {
    let members = pre.config_manager.configuration().members@;
    &&& post.role == NodeState::Leader
    &&& post.current_term == pre.current_term
    &&& post.storage == pre.storage
    &&& post.id == pre.id
    &&& post.config_manager == pre.config_manager
    &&& post.state_machine == pre.state_machine
    &&& post.leader_lease == pre.leader_lease
    &&& forall|k: NodeId| #[trigger] post.replication.next().contains_key(k) <==> pre.replication.next().contains_key(k)
        || members.contains(k)
    &&& forall|k: NodeId| #[trigger] post.replication.matched().contains_key(k) <==> pre.replication.matched().contains_key(k)
        || members.contains(k)
    &&& forall|k: NodeId| members.contains(k) ==> #[trigger] post.replication.next()[k] == last_index(pre.storage@) + 1
        && post.replication.matched()[k] == 0
    &&& forall|k: NodeId| !members.contains(k) && pre.replication.next().contains_key(k)
        ==> #[trigger] post.replication.next()[k] == pre.replication.next()[k]
    &&& forall|k: NodeId| !members.contains(k) && pre.replication.matched().contains_key(k)
        ==> #[trigger] post.replication.matched()[k] == pre.replication.matched()[k]
    &&& post.replication.commit() == pre.replication.commit()
    &&& post.replication.applied() == pre.replication.applied()
    &&& post.replication.catching() == pre.replication.catching()
    &&& followers_sent(MessageHandlerContext { replication: post.replication, ..pre }, post.transport.sent())
    &&& !post.election.timer().timers().election_running
    &&& post.election.timer().timers().heartbeat_running
    &&& post.election.timer().timers().heartbeat_restarts == pre.election.timer().timers().heartbeat_restarts + 1
    &&& post.election.timer().timers().election_restarts == pre.election.timer().timers().election_restarts
    &&& post.observer.events() == leader_events(pre.observer.events(), pre.id, role_of(pre.role), pre.current_term)
}

/// Becomes leader of the current term and sends every follower its AppendEntries.
fn become_leader<P: Clone, T: Transport<Payload = P>, S: Storage<Payload = P>, SM: StateMachine<Payload = P>, TS: TimerService, O: Observer<Payload = P>, CLK: Clock>(
    ctx: &mut MessageHandlerContext<T, S, SM, TS, O, CLK>,
)
    requires
        storage_wf(old(ctx).storage@),
    ensures
        leader_started(*old(ctx), *final(ctx)),
        final(ctx).election.votes() == old(ctx).election.votes(),
{
    let old_role = RoleTransitionManager::node_state_to_role(&ctx.role);
    RoleTransitionManager::become_leader(
        ctx.id,
        ctx.current_term,
        &mut ctx.role,
        &ctx.storage,
        ctx.config_manager.config().iter(),
        &mut ctx.election,
        &mut ctx.replication,
        &mut ctx.observer,
        old_role,
    );
    replication::send_append_entries_to_followers(ctx);
}

/// A pre-vote from `from` for `term` completes a pre-vote round of `pre`: it is not of
/// a later term, a round is open, the vote is granted, and with it the voters form a
/// majority.
pub open spec fn pre_vote_wins<P: Clone, T: Transport<Payload = P>, S: Storage<Payload = P>, SM: StateMachine<Payload = P>, TS: TimerService, O: Observer<Payload = P>, CLK: Clock>(
    pre: MessageHandlerContext<T, S, SM, TS, O, CLK>,
    from: NodeId,
    term: Term,
    vote_granted: bool,
) -> bool {
    &&& term <= pre.current_term
    &&& pre.election.pre_voting()
    &&& vote_granted
    &&& with_vote(pre.election.pre_votes(), from).len() >= quorum_size_of(pre.config_manager.configuration().members@.len())
}

/// What `handle_pre_vote_response` guarantees, relating the server before (`pre`) and after (`post`).
pub open spec fn handle_pre_vote_response_post<P: Clone, T: Transport<Payload = P>, S: Storage<Payload = P>, SM: StateMachine<Payload = P>, TS: TimerService, O: Observer<Payload = P>, CLK: Clock>(
    pre: MessageHandlerContext<T, S, SM, TS, O, CLK>,
    post: MessageHandlerContext<T, S, SM, TS, O, CLK>,
    from: NodeId,
    term: Term,
    vote_granted: bool,
) -> bool {
    &&& ({
        let wins = pre_vote_wins(pre, from, term, vote_granted);
        &&& term > pre.current_term ==> post == pre
        &&& wins ==> post.current_term == pre.current_term + 1
            && post.storage@ == (StorageView {
                current_term: post.current_term,
                voted_for: Some(pre.id),
                ..pre.storage@
            })
            && (post.role == NodeState::Candidate || post.role == NodeState::Leader)
        &&& wins ==> started_election(pre, post)
        &&& wins ==> post.observer.events() == election_events(
            pre.observer.events().push(ObserverEvent::PreVoteSucceeded { node: pre.id, term: pre.current_term }),
            pre.id,
            role_of(pre.role),
            post.current_term,
            peers_of(pre).len() == 0,
        )
        &&& !wins ==> post.current_term == pre.current_term
            && post.storage == pre.storage
            && post.role == pre.role
            && post.transport == pre.transport
            && post.observer == pre.observer
        })
    &&& post.id == pre.id
    &&& storage_wf(post.storage@)
}

/// Counts a pre-vote of this server's term or an earlier one; winning the round starts
/// a real election. A response of a later term is ignored.
pub fn handle_pre_vote_response<P: Clone, T: Transport<Payload = P>, S: Storage<Payload = P>, SM: StateMachine<Payload = P>, TS: TimerService, O: Observer<Payload = P>, CLK: Clock>(
    ctx: &mut MessageHandlerContext<T, S, SM, TS, O, CLK>,
    from: NodeId,
    term: Term,
    vote_granted: bool,
)
    requires
        storage_wf(old(ctx).storage@),
        pre_vote_wins(*old(ctx), from, term, vote_granted) ==> old(ctx).current_term < u64::MAX,
    ensures
        handle_pre_vote_response_post(*old(ctx), *final(ctx), from, term, vote_granted),
{
    if term > ctx.current_term {
        return;
    }
    let should_start_election = ctx.election.handle_pre_vote_response(from, vote_granted, ctx.config_manager.config());
    if should_start_election {
        ctx.observer.pre_vote_succeeded(ctx.id, ctx.current_term);
        start_election(ctx);
    }
}

/// What `handle_vote_response` guarantees, relating the server before (`pre`) and after (`post`).
pub open spec fn handle_vote_response_post<P: Clone, T: Transport<Payload = P>, S: Storage<Payload = P>, SM: StateMachine<Payload = P>, TS: TimerService, O: Observer<Payload = P>, CLK: Clock>(
    pre: MessageHandlerContext<T, S, SM, TS, O, CLK>,
    post: MessageHandlerContext<T, S, SM, TS, O, CLK>,
    from: NodeId,
    term: Term,
    vote_granted: bool,
) -> bool {
    &&& ({
        let counts = pre.role == NodeState::Candidate && term == pre.current_term && vote_granted;
        let wins = counts && with_vote(pre.election.votes(), from).len() >= quorum_size_of(
            pre.config_manager.configuration().members@.len(),
        );
        &&& term > pre.current_term ==> post.current_term == term
            && post.role == NodeState::Follower
            && post.storage@ == (StorageView { current_term: term, voted_for: None, ..pre.storage@ })
            && post.current_leader is None
            && post.leader_lease.expiration_view() is None
            && post.replication == pre.replication
            && post.transport == pre.transport
            && post.observer.events() == step_down_events(pre.observer.events(), pre.id, role_of(pre.role), pre.current_term, term)
        &&& term <= pre.current_term ==> post.current_term == pre.current_term
            && post.storage == pre.storage
        &&& counts ==> post.election.votes() == with_vote(pre.election.votes(), from)
        &&& wins ==> leader_started(pre, post)
        &&& term <= pre.current_term && !wins ==> post.role == pre.role && post.observer == pre.observer
        })
    &&& post.id == pre.id
    &&& storage_wf(post.storage@)
}

/// Counts a vote. A response of a later term makes this server step down; a vote that
/// completes a majority makes this candidate leader.
pub fn handle_vote_response<P: Clone, T: Transport<Payload = P>, S: Storage<Payload = P>, SM: StateMachine<Payload = P>, TS: TimerService, O: Observer<Payload = P>, CLK: Clock>(
    ctx: &mut MessageHandlerContext<T, S, SM, TS, O, CLK>,
    from: NodeId,
    term: Term,
    vote_granted: bool,
)
    requires
        storage_wf(old(ctx).storage@),
    ensures
        handle_vote_response_post(*old(ctx), *final(ctx), from, term, vote_granted),
{
    if common::validate_term_and_step_down(ctx, term) {
        return;
    }
    let should_become_leader = ctx.election.handle_vote_response(
        from,
        term,
        vote_granted,
        &ctx.current_term,
        &ctx.role,
        ctx.config_manager.config(),
    );
    if should_become_leader {
        become_leader(ctx);
    }
}

/// What a server that is not leader reports when its election timer fires in `term`:
/// the timer, the timeout and the pre-vote round; a server with no peers (`alone`) then
/// also reports the election of the next term and becoming leader.
pub open spec fn election_timeout_events<P>(
    before: Seq<ObserverEvent<P>>,
    node: NodeId,
    role: Role,
    term: Term,
    alone: bool,
) -> Seq<ObserverEvent<P>> {
    let pre_vote = before.push(ObserverEvent::TimerFired { node, timer: ObserverTimerKind::Election, term }).push(
        ObserverEvent::ElectionTimeout { node, term },
    ).push(ObserverEvent::PreVoteStarted { node, term });
    if alone {
        election_events(pre_vote, node, role, (term + 1) as Term, true)
    } else {
        pre_vote
    }
}

/// What `handle_election_timer` guarantees, relating the server before (`pre`) and after (`post`).
pub open spec fn handle_election_timer_post<P: Clone, T: Transport<Payload = P>, S: Storage<Payload = P>, SM: StateMachine<Payload = P>, TS: TimerService, O: Observer<Payload = P>, CLK: Clock>(
    pre: MessageHandlerContext<T, S, SM, TS, O, CLK>,
    post: MessageHandlerContext<T, S, SM, TS, O, CLK>,
) -> bool {
    &&& pre.role == NodeState::Leader ==> post.role == NodeState::Leader
        && post.current_term == pre.current_term
        && post.storage == pre.storage
        && post.transport == pre.transport
        && post.observer.events() == pre.observer.events().push(
            ObserverEvent::TimerFired { node: pre.id, timer: ObserverTimerKind::Election, term: pre.current_term },
        )
    &&& pre.role != NodeState::Leader ==> post.observer.events() == election_timeout_events(
        pre.observer.events(),
        pre.id,
        role_of(pre.role),
        pre.current_term,
        peers_of(pre).len() == 0,
        )
    &&& pre.role != NodeState::Leader && peers_of(pre).len() > 0 ==> {
        &&& post.current_term == pre.current_term
        &&& post.storage == pre.storage
        &&& post.role == pre.role
        &&& post.election.pre_voting()
        &&& post.election.pre_votes() == seq![pre.id]
        &&& election_timer_reset(pre.election.timer().timers(), post.election.timer().timers())
        &&& broadcast_sent(
            pre.transport.sent(),
            post.transport.sent(),
            peers_of(pre),
            RaftMsg::PreVoteRequest {
                term: pre.current_term,
                candidate_id: pre.id,
                last_log_index: last_index(pre.storage@) as u64,
                last_log_term: last_term(pre.storage@),
            },
        )
        }
    &&& pre.role != NodeState::Leader && peers_of(pre).len() == 0 ==> {
        &&& post.current_term == pre.current_term + 1
        &&& post.role == NodeState::Leader
        &&& post.storage@ == (StorageView {
            current_term: post.current_term,
            voted_for: Some(pre.id),
            ..pre.storage@
        })
        }
    &&& post.id == pre.id
    &&& storage_wf(post.storage@)
}

/// The election timer fired: a server that is not leader starts a pre-vote round, and
/// with no peers, an election right away.
pub fn handle_election_timer<P: Clone, T: Transport<Payload = P>, S: Storage<Payload = P>, SM: StateMachine<Payload = P>, TS: TimerService, O: Observer<Payload = P>, CLK: Clock>(
    ctx: &mut MessageHandlerContext<T, S, SM, TS, O, CLK>,
)
    requires
        storage_wf(old(ctx).storage@),
        old(ctx).role != NodeState::Leader && peers_of(*old(ctx)).len() == 0
            ==> old(ctx).current_term < u64::MAX,
    ensures
        handle_election_timer_post(*old(ctx), *final(ctx)),
{
    ctx.observer.timer_fired(ctx.id, ObserverTimerKind::Election, ctx.current_term);
    if ctx.role != NodeState::Leader {
        ctx.observer.election_timeout(ctx.id, ctx.current_term);
        start_pre_vote(ctx);
        if ctx.config_manager.config().peers(ctx.id).len() == 0 {
            start_election(ctx);
        }
    }
}

} // verus!
