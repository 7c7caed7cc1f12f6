use crate::clock::Clock;
use crate::collections::config_change_collection::ConfigChangeCollection;
use crate::components::config_change_manager::{apply_changes_spec, change_events};
use crate::components::election_manager::election_timer_reset;
use crate::components::message_handler_context::{broadcast_sent, peers_of, MessageHandlerContext};
use crate::components::role_transition_manager::{role_of, step_down_events, RoleTransitionManager};
use crate::observer::{Observer, ObserverEvent, Role};
use crate::raft_messages::RaftMsg;
use crate::state_machine::StateMachine;
use crate::storage::{last_index, storage_wf, Storage, StorageView};
use crate::timer_service::TimerService;
use crate::transport::Transport;
use crate::types::{NodeId, Term};
use vstd::prelude::*;

verus! {

/// What `send` guarantees, relating the server before (`pre`) and after (`post`).
pub open spec fn send_post<P: Clone, T: Transport<Payload = P>, S: Storage<Payload = P>, SM: StateMachine<Payload = P>, TS: TimerService, O: Observer<Payload = P>, CLK: Clock>(
    pre: MessageHandlerContext<T, S, SM, TS, O, CLK>,
    post: MessageHandlerContext<T, S, SM, TS, O, CLK>,
    to: NodeId,
    msg: RaftMsg<P>,
) -> bool {
    &&& post.transport.sent() == pre.transport.sent().push((to, msg))
    &&& post.id == pre.id
    &&& post.role == pre.role
    &&& post.current_term == pre.current_term
    &&& post.current_leader == pre.current_leader
    &&& post.storage == pre.storage
    &&& post.state_machine == pre.state_machine
    &&& post.observer == pre.observer
    &&& post.election == pre.election
    &&& post.replication == pre.replication
    &&& post.config_manager == pre.config_manager
    &&& post.snapshot_manager == pre.snapshot_manager
    &&& post.leader_lease == pre.leader_lease
}

/// Hands `msg` to the transport for `to`.
pub fn send<P: Clone, T: Transport<Payload = P>, S: Storage<Payload = P>, SM: StateMachine<Payload = P>, TS: TimerService, O: Observer<Payload = P>, CLK: Clock>(
    ctx: &mut MessageHandlerContext<T, S, SM, TS, O, CLK>,
    to: NodeId,
    msg: RaftMsg<P>,
)
    ensures
        send_post(*old(ctx), *final(ctx), to, msg),
{
    ctx.transport.send(to, msg);
}

/// What `broadcast` guarantees, relating the server before (`pre`) and after (`post`).
pub open spec fn broadcast_post<P: Clone, T: Transport<Payload = P>, S: Storage<Payload = P>, SM: StateMachine<Payload = P>, TS: TimerService, O: Observer<Payload = P>, CLK: Clock>(
    pre: MessageHandlerContext<T, S, SM, TS, O, CLK>,
    post: MessageHandlerContext<T, S, SM, TS, O, CLK>,
    msg: RaftMsg<P>,
) -> bool {
    &&& broadcast_sent(pre.transport.sent(), post.transport.sent(), peers_of(pre), msg)
    &&& post.id == pre.id
    &&& post.role == pre.role
    &&& post.current_term == pre.current_term
    &&& post.current_leader == pre.current_leader
    &&& post.storage == pre.storage
    &&& post.state_machine == pre.state_machine
    &&& post.observer == pre.observer
    &&& post.election == pre.election
    &&& post.replication == pre.replication
    &&& post.config_manager == pre.config_manager
    &&& post.snapshot_manager == pre.snapshot_manager
    &&& post.leader_lease == pre.leader_lease
}

/// Sends a copy of `msg` to every member other than this server.
pub fn broadcast<P: Clone, T: Transport<Payload = P>, S: Storage<Payload = P>, SM: StateMachine<Payload = P>, TS: TimerService, O: Observer<Payload = P>, CLK: Clock>(
    ctx: &mut MessageHandlerContext<T, S, SM, TS, O, CLK>,
    msg: RaftMsg<P>,
)
    ensures
        broadcast_post(*old(ctx), *final(ctx), msg),
{
    let ids = ctx.config_manager.config().peers(ctx.id);
    let ghost before = ctx.transport.sent();
    let mut i: usize = 0;
    while i < ids.len()
        invariant
            i <= ids@.len(),
            ids@ == peers_of(*old(ctx)),
            ctx.transport.sent().len() == before.len() + i,
            ctx.transport.sent().take(before.len() as int) == before,
            forall|k: int| 0 <= k < i ==> (#[trigger] ctx.transport.sent()[before.len() + k]).0 == ids@[k]
                && crate::raft_messages::msg_cloned(msg, ctx.transport.sent()[before.len() + k].1),
            ctx.id == old(ctx).id,
            ctx.role == old(ctx).role,
            ctx.current_term == old(ctx).current_term,
            ctx.current_leader == old(ctx).current_leader,
            ctx.storage == old(ctx).storage,
            ctx.state_machine == old(ctx).state_machine,
            ctx.observer == old(ctx).observer,
            ctx.election == old(ctx).election,
            ctx.replication == old(ctx).replication,
            ctx.config_manager == old(ctx).config_manager,
            ctx.snapshot_manager == old(ctx).snapshot_manager,
            ctx.leader_lease == old(ctx).leader_lease,
        decreases ids@.len() - i,
    {
        let peer = ids[i];
        let copy = msg.clone_msg();
        let ghost prev = ctx.transport.sent();
        send(ctx, peer, copy);
        assert forall|k: int| 0 <= k < i + 1 implies (#[trigger] ctx.transport.sent()[before.len() + k]).0 == ids@[k]
            && crate::raft_messages::msg_cloned(msg, ctx.transport.sent()[before.len() + k].1) by {
            if k < i {
                assert(ctx.transport.sent()[before.len() + k] == prev[before.len() + k]);
            }
        }
        assert(ctx.transport.sent().take(before.len() as int) =~= before) by {
            assert(prev.take(before.len() as int) == before);
        }
        i = i + 1;
    }
}

pub fn node_state_to_role<P: Clone, T: Transport<Payload = P>, S: Storage<Payload = P>, SM: StateMachine<Payload = P>, TS: TimerService, O: Observer<Payload = P>, CLK: Clock>(
    ctx: &MessageHandlerContext<T, S, SM, TS, O, CLK>,
) -> (r: Role)
    ensures
        r == role_of(ctx.role),
{
    RoleTransitionManager::node_state_to_role(&ctx.role)
}

/// What `step_down` guarantees, relating the server before (`pre`) and after (`post`).
pub open spec fn step_down_post<P: Clone, T: Transport<Payload = P>, S: Storage<Payload = P>, SM: StateMachine<Payload = P>, TS: TimerService, O: Observer<Payload = P>, CLK: Clock>(
    pre: MessageHandlerContext<T, S, SM, TS, O, CLK>,
    post: MessageHandlerContext<T, S, SM, TS, O, CLK>,
    new_term: Term,
) -> bool {
    &&& post.current_term == new_term
    &&& post.storage@ == (StorageView { current_term: new_term, voted_for: None, ..pre.storage@ })
    &&& post.role == crate::node_state::NodeState::Follower
    &&& post.current_leader is None
    &&& post.leader_lease.expiration_view() is None
    &&& post.leader_lease.duration() == pre.leader_lease.duration()
    &&& election_timer_reset(pre.election.timer().timers(), post.election.timer().timers())
    &&& post.election.votes() == pre.election.votes()
    &&& post.election.pre_votes() == pre.election.pre_votes()
    &&& post.election.pre_voting() == pre.election.pre_voting()
    &&& post.observer.events() == step_down_events(pre.observer.events(), pre.id, role_of(pre.role), pre.current_term, new_term)
    &&& post.id == pre.id
    &&& post.transport == pre.transport
    &&& post.state_machine == pre.state_machine
    &&& post.replication == pre.replication
    &&& post.config_manager == pre.config_manager
    &&& post.snapshot_manager == pre.snapshot_manager
}

/// Steps down to follower in `new_term`: stores the term, clears the vote, restarts the
/// election timer, forgets the leader and revokes the lease.
pub fn step_down<P: Clone, T: Transport<Payload = P>, S: Storage<Payload = P>, SM: StateMachine<Payload = P>, TS: TimerService, O: Observer<Payload = P>, CLK: Clock>(
    ctx: &mut MessageHandlerContext<T, S, SM, TS, O, CLK>,
    new_term: Term,
)
    ensures
        step_down_post(*old(ctx), *final(ctx), new_term),
{
    let old_role = RoleTransitionManager::node_state_to_role(&ctx.role);
    let old_term = ctx.current_term;
    RoleTransitionManager::step_down(
        ctx.id,
        old_term,
        new_term,
        &mut ctx.current_term,
        &mut ctx.storage,
        &mut ctx.role,
        &mut ctx.election,
        &mut ctx.observer,
        old_role,
    );
    ctx.current_leader = None;
    ctx.leader_lease.revoke();
}

/// What `validate_term_and_step_down` guarantees, relating the server before (`pre`) and after (`post`).
pub open spec fn validate_term_and_step_down_post<P: Clone, T: Transport<Payload = P>, S: Storage<Payload = P>, SM: StateMachine<Payload = P>, TS: TimerService, O: Observer<Payload = P>, CLK: Clock>(
    pre: MessageHandlerContext<T, S, SM, TS, O, CLK>,
    post: MessageHandlerContext<T, S, SM, TS, O, CLK>,
    term: Term,
    r: bool,
) -> bool {
    &&& r == (term > pre.current_term)
    &&& !r ==> post == pre
    &&& r ==> {
        &&& post.current_term == term
        &&& post.storage@ == (StorageView { current_term: term, voted_for: None, ..pre.storage@ })
        &&& post.role == crate::node_state::NodeState::Follower
        &&& post.current_leader is None
        &&& post.leader_lease.expiration_view() is None
        &&& election_timer_reset(pre.election.timer().timers(), post.election.timer().timers())
        &&& post.transport == pre.transport
        &&& post.replication == pre.replication
        &&& post.config_manager == pre.config_manager
        &&& post.state_machine == pre.state_machine
        &&& post.snapshot_manager == pre.snapshot_manager
        &&& post.leader_lease.duration() == pre.leader_lease.duration()
        &&& post.election.votes() == pre.election.votes()
        &&& post.election.pre_votes() == pre.election.pre_votes()
        &&& post.election.pre_voting() == pre.election.pre_voting()
        &&& post.observer.events() == step_down_events(pre.observer.events(), pre.id, role_of(pre.role), pre.current_term, term)
        }
    &&& post.id == pre.id
}

/// A message of a higher term makes this server step down into that term (returns
/// true); otherwise nothing changes.
pub fn validate_term_and_step_down<P: Clone, T: Transport<Payload = P>, S: Storage<Payload = P>, SM: StateMachine<Payload = P>, TS: TimerService, O: Observer<Payload = P>, CLK: Clock>(
    ctx: &mut MessageHandlerContext<T, S, SM, TS, O, CLK>,
    term: Term,
) -> (r: bool)
    ensures
        validate_term_and_step_down_post(*old(ctx), *final(ctx), term, r),
{
    if term > ctx.current_term {
        step_down(ctx, term);
        true
    } else {
        false
    }
}

/// What `reset_election_timer_if_valid_term` guarantees, relating the server before (`pre`) and after (`post`).
pub open spec fn reset_election_timer_if_valid_term_post<P: Clone, T: Transport<Payload = P>, S: Storage<Payload = P>, SM: StateMachine<Payload = P>, TS: TimerService, O: Observer<Payload = P>, CLK: Clock>(
    pre: MessageHandlerContext<T, S, SM, TS, O, CLK>,
    post: MessageHandlerContext<T, S, SM, TS, O, CLK>,
    term: Term,
) -> bool {
    &&& term >= pre.current_term ==> election_timer_reset(
        pre.election.timer().timers(),
        post.election.timer().timers(),
        )
    &&& term < pre.current_term ==> post == pre
    &&& post.election.votes() == pre.election.votes()
    &&& post.election.pre_votes() == pre.election.pre_votes()
    &&& post.election.pre_voting() == pre.election.pre_voting()
    &&& post.id == pre.id
    &&& post.role == pre.role
    &&& post.current_term == pre.current_term
    &&& post.current_leader == pre.current_leader
    &&& post.transport == pre.transport
    &&& post.storage == pre.storage
    &&& post.state_machine == pre.state_machine
    &&& post.observer == pre.observer
    &&& post.replication == pre.replication
    &&& post.config_manager == pre.config_manager
    &&& post.snapshot_manager == pre.snapshot_manager
    &&& post.leader_lease == pre.leader_lease
}

/// A message of the current or a later term comes from a live leader or candidate:
/// restart the election timer.
pub fn reset_election_timer_if_valid_term<P: Clone, T: Transport<Payload = P>, S: Storage<Payload = P>, SM: StateMachine<Payload = P>, TS: TimerService, O: Observer<Payload = P>, CLK: Clock>(
    ctx: &mut MessageHandlerContext<T, S, SM, TS, O, CLK>,
    term: Term,
)
    ensures
        reset_election_timer_if_valid_term_post(*old(ctx), *final(ctx), term),
{
    if term >= ctx.current_term {
        ctx.election.timer_service_mut().reset_election_timer();
    }
}

/// What applying `changes` reports after `before`: one notification per change, then a
/// role change when the role is not what it was.
pub open spec fn config_change_events<P>(
    before: Seq<ObserverEvent<P>>,
    node: NodeId,
    changes: Seq<(crate::types::LogIndex, crate::log_entry::ConfigurationChange)>,
    from_role: Role,
    to_role: Role,
    term: Term,
) -> Seq<ObserverEvent<P>> {
    let applied = before + change_events::<P>(node, changes);
    if from_role != to_role {
        applied.push(ObserverEvent::RoleChanged { node, from_role, to_role, term })
    } else {
        applied
    }
}

/// What `apply_config_changes` guarantees, relating the server before (`pre`) and after (`post`).
pub open spec fn apply_config_changes_post<P: Clone, T: Transport<Payload = P>, S: Storage<Payload = P>, SM: StateMachine<Payload = P>, TS: TimerService, O: Observer<Payload = P>, CLK: Clock>(
    pre: MessageHandlerContext<T, S, SM, TS, O, CLK>,
    post: MessageHandlerContext<T, S, SM, TS, O, CLK>,
    changes: ConfigChangeCollection,
) -> bool {
    &&& post.config_manager.membership(post.role, post.replication) == apply_changes_spec(
        pre.config_manager.membership(pre.role, pre.replication),
        changes@,
        pre.id,
        last_index(pre.storage@) as u64,
        )
    &&& post.replication.commit() == pre.replication.commit()
    &&& post.replication.applied() == pre.replication.applied()
    &&& post.observer.events() == config_change_events(pre.observer.events(), pre.id, changes@, role_of(pre.role), role_of(post.role), pre.current_term)
    &&& post.id == pre.id
    &&& post.current_term == pre.current_term
    &&& post.current_leader == pre.current_leader
    &&& post.transport == pre.transport
    &&& post.storage == pre.storage
    &&& post.state_machine == pre.state_machine
    &&& post.election == pre.election
    &&& post.snapshot_manager == pre.snapshot_manager
    &&& post.leader_lease == pre.leader_lease
}

/// Applies committed membership changes (see `ConfigChangeManager::apply_changes`).
pub fn apply_config_changes<P: Clone, T: Transport<Payload = P>, S: Storage<Payload = P>, SM: StateMachine<Payload = P>, TS: TimerService, O: Observer<Payload = P>, CLK: Clock>(
    ctx: &mut MessageHandlerContext<T, S, SM, TS, O, CLK>,
    changes: ConfigChangeCollection,
)
    requires
        storage_wf(old(ctx).storage@),
    ensures
        apply_config_changes_post(*old(ctx), *final(ctx), changes),
{
    let old_role = node_state_to_role(ctx);
    let last_log_index = ctx.storage.last_log_index();
    ctx.config_manager.apply_changes(
        changes,
        ctx.id,
        last_log_index,
        &mut ctx.replication,
        &mut ctx.observer,
        &mut ctx.role,
    );
    let new_role = node_state_to_role(ctx);
    if old_role != new_role {
        ctx.observer.role_changed(ctx.id, old_role, new_role, ctx.current_term);
    }
}

} // verus!
