use crate::clock::Clock;
use crate::components::config_change_manager::{apply_changes_spec, MembershipState};
use crate::components::election_manager::{election_timer_reset, heartbeat_timer_reset, storage_after_term};
use crate::components::snapshot_manager::snapshot_due;
use crate::components::log_replication_manager::{
    applied_after, applied_up_to, catching_after, commands_between, config_changes_between, next_of,
    snapshot_chunk_accepted, commit_after_advance, commit_after_append, is_peer_message, log_after_append, log_consistent,
};
use crate::collections::map_collection::match_value;
use crate::components::message_handler::common;
use crate::components::message_handler_context::{peers_of, MessageHandlerContext};
use crate::log_entry::LogEntry;
use crate::node_state::NodeState;
use crate::observer::{Observer, ObserverEvent, TimerKind as ObserverTimerKind};
use crate::components::message_handler::common::config_change_events;
use crate::components::role_transition_manager::{role_of, step_down_events};
use crate::raft_messages::RaftMsg;
use crate::snapshot::SnapshotMetadata;
use crate::state_machine::StateMachine;
use crate::storage::{after_chunk, discarded_before, entry_at, has_entry, last_index, storage_wf, Storage, StorageView};
use crate::timer_service::TimerService;
use crate::transport::Transport;
use crate::types::{LogIndex, NodeId, Term};
use vstd::prelude::*;

verus! {

/// What `handle_append_entries` guarantees, relating the server before (`pre`) and after (`post`).
pub open spec fn handle_append_entries_post<P: Clone, T: Transport<Payload = P>, S: Storage<Payload = P>, SM: StateMachine<Payload = P>, TS: TimerService, O: Observer<Payload = P>, CLK: Clock>(
    pre: MessageHandlerContext<T, S, SM, TS, O, CLK>,
    post: MessageHandlerContext<T, S, SM, TS, O, CLK>,
    from: NodeId,
    term: Term,
    prev_log_index: LogIndex,
    prev_log_term: Term,
    entries: Vec<LogEntry<P>>,
    leader_commit: LogIndex,
) -> bool {
    &&& term > pre.current_term ==> {
        &&& post.current_term == term
        &&& post.role == NodeState::Follower
        &&& post.storage@ == (StorageView { current_term: term, voted_for: None, ..pre.storage@ })
        &&& post.transport == pre.transport
        &&& post.replication == pre.replication
        &&& post.current_leader is None
        &&& post.leader_lease.expiration_view() is None
        &&& election_timer_reset(pre.election.timer().timers(), post.election.timer().timers())
        &&& post.state_machine == pre.state_machine
        &&& post.config_manager == pre.config_manager
        &&& post.observer.events() == step_down_events(pre.observer.events(), pre.id, role_of(pre.role), pre.current_term, term)
        }
    &&& term <= pre.current_term ==> {
        let ok = term == pre.current_term && log_consistent(pre.storage@, prev_log_index, prev_log_term);
        let mid_role = if term == pre.current_term && pre.role == NodeState::Candidate {
            NodeState::Follower
        } else {
            pre.role
        };
        let changes = if ok && post.replication.commit() > pre.replication.commit() {
            config_changes_between(post.storage@, pre.replication.applied() as int, post.replication.commit() as int)
        } else {
            Seq::empty()
        };
        &&& post.current_term == pre.current_term
        &&& post.observer.events() == config_change_events(
            pre.observer.events(),
            pre.id,
            changes,
            role_of(mid_role),
            role_of(post.role),
            pre.current_term,
        )
        &&& term < pre.current_term ==> {
            &&& post.role == pre.role
            &&& post.election == pre.election
            &&& post.state_machine == pre.state_machine
            &&& post.config_manager.membership(post.role, post.replication)
                == pre.config_manager.membership(pre.role, pre.replication)
            &&& post.replication.applied() == pre.replication.applied()
            }
        &&& term == pre.current_term && pre.role != NodeState::Leader ==> post.role == NodeState::Follower
        &&& ok && post.replication.commit() > pre.replication.commit() ==> applied_after(
            pre.state_machine.applied(),
            commands_between(post.storage@, pre.replication.applied() as int, post.replication.commit() as int),
            post.state_machine.applied(),
        )
        &&& !(ok && post.replication.commit() > pre.replication.commit()) ==> post.state_machine == pre.state_machine
        &&& ok ==> log_after_append(pre.storage@, prev_log_index, entries@, post.storage@)
        &&& ok ==> post.replication.commit() == commit_after_append(
            pre.replication.commit(),
            leader_commit,
            post.storage@,
        )
        &&& !ok ==> post.storage@ == pre.storage@ && post.replication.commit() == pre.replication.commit()
        &&& term == pre.current_term ==> election_timer_reset(
            pre.election.timer().timers(),
            post.election.timer().timers(),
        )
        &&& post.transport.sent() == pre.transport.sent().push((
            from,
            RaftMsg::AppendEntriesResponse {
                term: pre.current_term,
                success: ok,
                match_index: last_index(post.storage@) as LogIndex,
            },
        ))
        }
    &&& post.id == pre.id
    &&& storage_wf(post.storage@)
}

/// Handles an AppendEntries. A later term makes this server step down into it, and the
/// message is not processed further. Otherwise the election timer restarts when the
/// term is current, the entries are handled (see
/// `LogReplicationManager::handle_append_entries`), committed membership changes are
/// applied, and the response goes back to `from`.
pub fn handle_append_entries<P: Clone, T: Transport<Payload = P>, S: Storage<Payload = P>, SM: StateMachine<Payload = P>, TS: TimerService, O: Observer<Payload = P>, CLK: Clock>(
    ctx: &mut MessageHandlerContext<T, S, SM, TS, O, CLK>,
    from: NodeId,
    term: Term,
    prev_log_index: LogIndex,
    prev_log_term: Term,
    entries: Vec<LogEntry<P>>,
    leader_commit: LogIndex,
)
    requires
        storage_wf(old(ctx).storage@),
        last_index(old(ctx).storage@) + entries@.len() < u64::MAX,
    ensures
        handle_append_entries_post(*old(ctx), *final(ctx), from, term, prev_log_index, prev_log_term, entries, leader_commit),
{
    if common::validate_term_and_step_down(ctx, term) {
        return;
    }
    common::reset_election_timer_if_valid_term(ctx, term);
    let (response, config_changes) = ctx.replication.handle_append_entries(
        term,
        prev_log_index,
        prev_log_term,
        entries,
        leader_commit,
        &mut ctx.current_term,
        &mut ctx.storage,
        &mut ctx.state_machine,
        &mut ctx.role,
    );
    let ghost st = ctx.config_manager.membership(ctx.role, ctx.replication);
    let ghost changes = config_changes@;
    let ghost last = last_index(ctx.storage@) as LogIndex;
    proof {
        if changes.len() == 0 {
            assert(changes =~= Seq::<(LogIndex, crate::log_entry::ConfigurationChange)>::empty());
        }
    }
    common::apply_config_changes(ctx, config_changes);
    proof {
        if st.role != NodeState::Leader {
            crate::components::config_change_manager::lemma_changes_keep_non_leader(st, changes, ctx.id, last);
        }
    }
    common::send(ctx, from, response);
}

/// What `handle_append_entries_response` guarantees, relating the server before (`pre`) and after (`post`).
pub open spec fn handle_append_entries_response_post<P: Clone, T: Transport<Payload = P>, S: Storage<Payload = P>, SM: StateMachine<Payload = P>, TS: TimerService, O: Observer<Payload = P>, CLK: Clock>(
    pre: MessageHandlerContext<T, S, SM, TS, O, CLK>,
    post: MessageHandlerContext<T, S, SM, TS, O, CLK>,
    from: NodeId,
    term: Term,
    success: bool,
    match_index: LogIndex,
) -> bool {
    &&& term > pre.current_term ==> {
        &&& post.current_term == term
        &&& post.role == NodeState::Follower
        &&& post.storage@ == (StorageView { current_term: term, voted_for: None, ..pre.storage@ })
        &&& post.replication == pre.replication
        &&& post.current_leader is None
        &&& post.leader_lease.expiration_view() is None
        &&& election_timer_reset(pre.election.timer().timers(), post.election.timer().timers())
        &&& post.transport == pre.transport
        &&& post.config_manager == pre.config_manager
        &&& post.observer.events() == step_down_events(pre.observer.events(), pre.id, role_of(pre.role), pre.current_term, term)
        }
    &&& term < pre.current_term || (term == pre.current_term && pre.role != NodeState::Leader)
        ==> post == pre
    &&& term == pre.current_term && pre.role == NodeState::Leader ==> {
        let advances = success && match_index > match_value(pre.replication.matched(), from);
        let m1 = pre.replication.matched().insert(from, match_index);
        let n1 = pre.replication.next().insert(from, (match_index + 1) as LogIndex);
        let c = commit_after_advance(
            m1,
            pre.id,
            pre.storage@,
            pre.config_manager.configuration().members@,
            pre.replication.commit(),
        );
        let cat1 = catching_after(pre.replication.catching(), from, match_index, c);
        &&& post.current_term == pre.current_term
        &&& post.storage@.current_term == pre.storage@.current_term
        &&& post.storage@.voted_for == pre.storage@.voted_for
        &&& post.transport == pre.transport
        &&& post.election == pre.election
        &&& !success ==> {
            &&& post.replication.next() == (if next_of(pre.replication.next(), from) > 1 {
                pre.replication.next().insert(from, (next_of(pre.replication.next(), from) - 1) as LogIndex)
            } else {
                pre.replication.next()
            })
            &&& post.replication.matched() == pre.replication.matched()
            &&& post.replication.catching() == pre.replication.catching()
            &&& post.replication.commit() == pre.replication.commit()
            &&& post.replication.applied() == pre.replication.applied()
            &&& post.storage == pre.storage
            &&& post.state_machine == pre.state_machine
            &&& post.config_manager == pre.config_manager
            &&& post.role == pre.role
            &&& post.leader_lease == pre.leader_lease
            &&& post.observer == pre.observer
            }
        &&& success && !advances ==> post == pre
        &&& advances ==> post.replication.commit() == c
        &&& advances && c == pre.replication.commit() ==> {
            &&& post.replication.next() == n1
            &&& post.replication.matched() == m1
            &&& post.replication.catching() == cat1
            &&& post.replication.applied() == pre.replication.applied()
            &&& post.storage == pre.storage
            &&& post.state_machine == pre.state_machine
            &&& post.config_manager == pre.config_manager
            &&& post.role == pre.role
            &&& post.leader_lease == pre.leader_lease
            &&& post.observer == pre.observer
            }
        &&& advances && c > pre.replication.commit() ==> {
            let due = snapshot_due(pre.snapshot_manager.threshold_view(), c, pre.storage@);
            &&& post.observer.events() == config_change_events(
                pre.observer.events().push(
                    ObserverEvent::CommitAdvanced { node: pre.id, old_index: pre.replication.commit(), new_index: c },
                ),
                pre.id,
                config_changes_between(pre.storage@, pre.replication.applied() as int, c as int),
                role_of(pre.role),
                role_of(post.role),
                pre.current_term,
            )
            &&& post.config_manager.membership(post.role, post.replication) == apply_changes_spec(
                MembershipState {
                    members: pre.config_manager.configuration().members@,
                    pending: pre.config_manager.pending(),
                    role: pre.role,
                    next: n1,
                    matched: m1,
                    catching: cat1,
                },
                config_changes_between(pre.storage@, pre.replication.applied() as int, c as int),
                pre.id,
                last_index(pre.storage@) as LogIndex,
            )
            &&& post.replication.applied() == applied_up_to(pre.replication.applied(), c)
            &&& applied_after(
                pre.state_machine.applied(),
                commands_between(pre.storage@, pre.replication.applied() as int, c as int),
                post.state_machine.applied(),
            )
            &&& post.leader_lease.expiration_view() is Some
            &&& !due ==> post.storage == pre.storage
            &&& due && !has_entry(pre.storage@, c as int) ==> post.storage@ == pre.storage@
            &&& due && has_entry(pre.storage@, c as int) ==> {
                &&& SM::snapshot_history(post.storage@.snapshot_data) == Some(post.state_machine.applied())
                &&& post.storage@ == (StorageView {
                    snapshot: Some(SnapshotMetadata {
                        last_included_index: c,
                        last_included_term: entry_at(pre.storage@, c as int).term,
                    }),
                    snapshot_data: post.storage@.snapshot_data,
                    ..discarded_before(pre.storage@, (c + 1) as LogIndex)
                })
                }
            }
        }
    &&& post.id == pre.id
    &&& storage_wf(post.storage@)
}

/// Handles a follower's answer to an AppendEntries. A later term makes this server step
/// down. A leader of the same term records the answer (see
/// `LogReplicationManager::handle_append_entries_response`); when the commit index
/// advances, the lease is granted, committed membership changes are applied, and a
/// snapshot is taken when one is due. Anything else is ignored.
pub fn handle_append_entries_response<P: Clone, T: Transport<Payload = P>, S: Storage<Payload = P>, SM: StateMachine<Payload = P>, TS: TimerService, O: Observer<Payload = P>, CLK: Clock>(
    ctx: &mut MessageHandlerContext<T, S, SM, TS, O, CLK>,
    from: NodeId,
    term: Term,
    success: bool,
    match_index: LogIndex,
)
    requires
        storage_wf(old(ctx).storage@),
        match_index < u64::MAX,
    ensures
        handle_append_entries_response_post(*old(ctx), *final(ctx), from, term, success, match_index),
{
    if common::validate_term_and_step_down(ctx, term) {
        return;
    }
    if ctx.role == NodeState::Leader && term == ctx.current_term {
        let old_commit_index = ctx.replication.commit_index();
        let config_changes = ctx.replication.handle_append_entries_response(
            from,
            success,
            match_index,
            &ctx.storage,
            &mut ctx.state_machine,
            ctx.config_manager.config(),
            ctx.id,
        );
        let new_commit_index = ctx.replication.commit_index();
        if new_commit_index > old_commit_index {
            ctx.observer.commit_advanced(ctx.id, old_commit_index, new_commit_index);
            ctx.leader_lease.grant();
            common::apply_config_changes(ctx, config_changes);
            if should_create_snapshot(ctx) {
                let _ = create_snapshot_internal(ctx);
            }
        }
    }
}

/// What `handle_install_snapshot` guarantees, relating the server before (`pre`) and after (`post`).
pub open spec fn handle_install_snapshot_post<P: Clone, T: Transport<Payload = P>, S: Storage<Payload = P>, SM: StateMachine<Payload = P>, TS: TimerService, O: Observer<Payload = P>, CLK: Clock>(
    pre: MessageHandlerContext<T, S, SM, TS, O, CLK>,
    post: MessageHandlerContext<T, S, SM, TS, O, CLK>,
    from: NodeId,
    term: Term,
    leader_id: NodeId,
    last_included_index: LogIndex,
    last_included_term: Term,
    offset: u64,
    data: Vec<u8>,
    done: bool,
) -> bool {
    &&& term < pre.current_term ==> {
        &&& post.transport.sent() == pre.transport.sent().push((
            from,
            RaftMsg::InstallSnapshotResponse { term: pre.current_term, success: false },
        ))
        &&& post.current_term == pre.current_term
        &&& post.storage@ == pre.storage@
        &&& post.role == pre.role
        &&& post.replication == pre.replication
        &&& post.election == pre.election
        &&& post.state_machine == pre.state_machine
        &&& post.leader_lease == pre.leader_lease
        }
    &&& post.observer == pre.observer
    &&& term >= pre.current_term ==> {
        let v1 = storage_after_term(pre.storage@, pre.current_term, term);
        let accepted = snapshot_chunk_accepted(v1, last_included_index, offset);
        let v2 = after_chunk(v1, offset, data@, done, last_included_index, last_included_term);
        &&& post.current_term == term
        &&& term > pre.current_term ==> post.role == NodeState::Follower
        &&& term == pre.current_term && pre.role == NodeState::Candidate ==> post.role == NodeState::Follower
        &&& term == pre.current_term && pre.role != NodeState::Candidate ==> post.role == pre.role
        &&& election_timer_reset(pre.election.timer().timers(), post.election.timer().timers())
        &&& post.transport.sent() == pre.transport.sent().push((
            from,
            RaftMsg::InstallSnapshotResponse { term, success: accepted },
        ))
        &&& !accepted ==> post.storage@ == v1 && post.replication == pre.replication
            && post.state_machine == pre.state_machine
        &&& accepted && !done ==> post.storage@ == v2 && post.replication == pre.replication
            && post.state_machine == pre.state_machine
        &&& accepted && done ==> {
            &&& post.storage@ == discarded_before(v2, (last_included_index + 1) as LogIndex)
            &&& post.replication.commit() == (if pre.replication.commit() < last_included_index {
                last_included_index
            } else {
                pre.replication.commit()
            })
            &&& post.replication.applied() == (if pre.replication.applied() < last_included_index {
                last_included_index
            } else {
                pre.replication.applied()
            })
            &&& SM::snapshot_history(v2.snapshot_data) is Some ==> post.state_machine.applied()
                == SM::snapshot_history(v2.snapshot_data)->0
        }
        }
    &&& post.id == pre.id
    &&& storage_wf(post.storage@)
}

/// Handles an InstallSnapshot (see `LogReplicationManager::handle_install_snapshot`),
/// restarting the election timer when the term is not stale, and answers `from`.
pub fn handle_install_snapshot<P: Clone, T: Transport<Payload = P>, S: Storage<Payload = P>, SM: StateMachine<Payload = P>, TS: TimerService, O: Observer<Payload = P>, CLK: Clock>(
    ctx: &mut MessageHandlerContext<T, S, SM, TS, O, CLK>,
    from: NodeId,
    term: Term,
    leader_id: NodeId,
    last_included_index: LogIndex,
    last_included_term: Term,
    offset: u64,
    data: Vec<u8>,
    done: bool,
)
    requires
        storage_wf(old(ctx).storage@),
        last_included_index < u64::MAX,
    ensures
        handle_install_snapshot_post(*old(ctx), *final(ctx), from, term, leader_id, last_included_index, last_included_term, offset, data, done),
{
    common::reset_election_timer_if_valid_term(ctx, term);
    let response = ctx.replication.handle_install_snapshot(
        term,
        leader_id,
        last_included_index,
        last_included_term,
        offset,
        data,
        done,
        &mut ctx.current_term,
        &mut ctx.storage,
        &mut ctx.state_machine,
        &mut ctx.role,
    );
    common::send(ctx, from, response);
}

/// What `handle_install_snapshot_response` guarantees, relating the server before (`pre`) and after (`post`).
pub open spec fn handle_install_snapshot_response_post<P: Clone, T: Transport<Payload = P>, S: Storage<Payload = P>, SM: StateMachine<Payload = P>, TS: TimerService, O: Observer<Payload = P>, CLK: Clock>(
    pre: MessageHandlerContext<T, S, SM, TS, O, CLK>,
    post: MessageHandlerContext<T, S, SM, TS, O, CLK>,
    from: NodeId,
    term: Term,
    success: bool,
) -> bool {
    &&& term > pre.current_term ==> {
        &&& post.current_term == term
        &&& post.role == NodeState::Follower
        &&& post.replication == pre.replication
        &&& post.storage@ == (StorageView { current_term: term, voted_for: None, ..pre.storage@ })
        &&& post.current_leader is None
        &&& post.leader_lease.expiration_view() is None
        &&& election_timer_reset(pre.election.timer().timers(), post.election.timer().timers())
        &&& post.transport == pre.transport
        &&& post.observer.events() == step_down_events(pre.observer.events(), pre.id, role_of(pre.role), pre.current_term, term)
        }
    &&& term <= pre.current_term && !(term == pre.current_term && pre.role == NodeState::Leader
        && pre.storage@.snapshot is Some) ==> post == pre
    &&& term == pre.current_term && pre.role == NodeState::Leader && pre.storage@.snapshot is Some ==> {
        let idx = pre.storage@.snapshot->0.last_included_index;
        &&& success ==> post.replication.next() == pre.replication.next().insert(from, (idx + 1) as LogIndex)
            && post.replication.matched() == pre.replication.matched().insert(from, idx)
        &&& !success ==> post.replication == pre.replication
        &&& post.replication.commit() == pre.replication.commit()
        &&& post.storage == pre.storage
        &&& post.current_term == pre.current_term
        &&& post.observer == pre.observer
        }
    &&& post.id == pre.id
    &&& storage_wf(post.storage@)
}

/// Handles a follower's answer to an InstallSnapshot. A later term makes this server
/// step down; a leader of the same term records that the follower holds the snapshot
/// (see `LogReplicationManager::handle_install_snapshot_response`).
pub fn handle_install_snapshot_response<P: Clone, T: Transport<Payload = P>, S: Storage<Payload = P>, SM: StateMachine<Payload = P>, TS: TimerService, O: Observer<Payload = P>, CLK: Clock>(
    ctx: &mut MessageHandlerContext<T, S, SM, TS, O, CLK>,
    from: NodeId,
    term: Term,
    success: bool,
)
    requires
        storage_wf(old(ctx).storage@),
    ensures
        handle_install_snapshot_response_post(*old(ctx), *final(ctx), from, term, success),
{
    if common::validate_term_and_step_down(ctx, term) {
        return;
    }
    if ctx.role == NodeState::Leader && term == ctx.current_term {
        if let Some(snapshot_metadata) = ctx.storage.snapshot_metadata() {
            ctx.replication.handle_install_snapshot_response(from, success, snapshot_metadata.last_included_index);
        }
    }
}

/// What `send_heartbeats` guarantees, relating the server before (`pre`) and after (`post`).
pub open spec fn send_heartbeats_post<P: Clone, T: Transport<Payload = P>, S: Storage<Payload = P>, SM: StateMachine<Payload = P>, TS: TimerService, O: Observer<Payload = P>, CLK: Clock>(
    pre: MessageHandlerContext<T, S, SM, TS, O, CLK>,
    post: MessageHandlerContext<T, S, SM, TS, O, CLK>,
) -> bool {
    &&& followers_sent(pre, post.transport.sent())
    &&& heartbeat_timer_reset(pre.election.timer().timers(), post.election.timer().timers())
    &&& post.role == pre.role
    &&& post.current_term == pre.current_term
    &&& post.storage == pre.storage
    &&& post.replication == pre.replication
    &&& post.config_manager == pre.config_manager
    &&& post.observer == pre.observer
    &&& post.id == pre.id
}

/// Sends every follower its AppendEntries and restarts the heartbeat timer.
pub fn send_heartbeats<P: Clone, T: Transport<Payload = P>, S: Storage<Payload = P>, SM: StateMachine<Payload = P>, TS: TimerService, O: Observer<Payload = P>, CLK: Clock>(
    ctx: &mut MessageHandlerContext<T, S, SM, TS, O, CLK>,
)
    requires
        storage_wf(old(ctx).storage@),
    ensures
        send_heartbeats_post(*old(ctx), *final(ctx)),
{
    send_append_entries_to_followers(ctx);
    ctx.election.timer_service_mut().reset_heartbeat_timer();
}

/// The transport's list `after` is that of `ctx` followed by one message for each peer,
/// in configuration order: what the leader has for that peer.
pub open spec fn followers_sent<P: Clone, T: Transport<Payload = P>, S: Storage<Payload = P>, SM, TS, O, CLK>(
    ctx: MessageHandlerContext<T, S, SM, TS, O, CLK>,
    after: Seq<(NodeId, RaftMsg<P>)>,
) -> bool {
    let before = ctx.transport.sent();
    let peers = peers_of(ctx);
    &&& after.len() == before.len() + peers.len()
    &&& after.take(before.len() as int) == before
    &&& forall|k: int| 0 <= k < peers.len() ==> (#[trigger] after[before.len() + k]).0 == peers[k]
        && is_peer_message(
            after[before.len() + k].1,
            ctx.replication.next(),
            ctx.replication.commit(),
            peers[k],
            ctx.id,
            ctx.storage@,
        )
}

/// What `send_append_entries_to_followers` guarantees, relating the server before (`pre`) and after (`post`).
pub open spec fn send_append_entries_to_followers_post<P: Clone, T: Transport<Payload = P>, S: Storage<Payload = P>, SM: StateMachine<Payload = P>, TS: TimerService, O: Observer<Payload = P>, CLK: Clock>(
    pre: MessageHandlerContext<T, S, SM, TS, O, CLK>,
    post: MessageHandlerContext<T, S, SM, TS, O, CLK>,
) -> bool {
    &&& followers_sent(pre, post.transport.sent())
    &&& post.id == pre.id
    &&& post.role == pre.role
    &&& post.current_term == pre.current_term
    &&& post.current_leader == pre.current_leader
    &&& post.storage == pre.storage
    &&& post.state_machine == pre.state_machine
    &&& post.observer == pre.observer
    &&& post.election == pre.election
    &&& post.replication == pre.replication
    &&& post.config_manager == pre.config_manager
    &&& post.snapshot_manager == pre.snapshot_manager
    &&& post.leader_lease == pre.leader_lease
}

/// Sends every member other than this server what it needs next: entries, or the snapshot.
pub fn send_append_entries_to_followers<P: Clone, T: Transport<Payload = P>, S: Storage<Payload = P>, SM: StateMachine<Payload = P>, TS: TimerService, O: Observer<Payload = P>, CLK: Clock>(
    ctx: &mut MessageHandlerContext<T, S, SM, TS, O, CLK>,
)
    requires
        storage_wf(old(ctx).storage@),
    ensures
        send_append_entries_to_followers_post(*old(ctx), *final(ctx)),
{
    let ids = ctx.config_manager.config().peers(ctx.id);
    let ghost before = ctx.transport.sent();
    let mut i: usize = 0;
    while i < ids.len()
        invariant
            i <= ids@.len(),
            ids@ == peers_of(*old(ctx)),
            storage_wf(ctx.storage@),
            ctx.transport.sent().len() == before.len() + i,
            ctx.transport.sent().take(before.len() as int) == before,
            before == old(ctx).transport.sent(),
            forall|k: int| 0 <= k < i ==> (#[trigger] ctx.transport.sent()[before.len() + k]).0 == ids@[k]
                && is_peer_message(
                    ctx.transport.sent()[before.len() + k].1,
                    old(ctx).replication.next(),
                    old(ctx).replication.commit(),
                    ids@[k],
                    old(ctx).id,
                    old(ctx).storage@,
                ),
            ctx.id == old(ctx).id,
            ctx.role == old(ctx).role,
            ctx.current_term == old(ctx).current_term,
            ctx.current_leader == old(ctx).current_leader,
            ctx.storage == old(ctx).storage,
            ctx.state_machine == old(ctx).state_machine,
            ctx.observer == old(ctx).observer,
            ctx.election == old(ctx).election,
            ctx.replication == old(ctx).replication,
            ctx.config_manager == old(ctx).config_manager,
            ctx.snapshot_manager == old(ctx).snapshot_manager,
            ctx.leader_lease == old(ctx).leader_lease,
        decreases ids@.len() - i,
    {
        let peer = ids[i];
        let msg = ctx.replication.get_append_entries_for_peer(peer, ctx.id, &ctx.storage);
        let ghost prev = ctx.transport.sent();
        common::send(ctx, peer, msg);
        assert forall|k: int| 0 <= k < i + 1 implies (#[trigger] ctx.transport.sent()[before.len() + k]).0 == ids@[k]
            && is_peer_message(
                ctx.transport.sent()[before.len() + k].1,
                old(ctx).replication.next(),
                old(ctx).replication.commit(),
                ids@[k],
                old(ctx).id,
                old(ctx).storage@,
            ) by {
            if k < i {
                assert(ctx.transport.sent()[before.len() + k] == prev[before.len() + k]);
            }
        }
        assert(ctx.transport.sent().take(before.len() as int) =~= before) by {
            assert(prev.take(before.len() as int) == before);
        }
        i = i + 1;
    }
}

/// What `handle_heartbeat_timer` guarantees, relating the server before (`pre`) and after (`post`).
pub open spec fn handle_heartbeat_timer_post<P: Clone, T: Transport<Payload = P>, S: Storage<Payload = P>, SM: StateMachine<Payload = P>, TS: TimerService, O: Observer<Payload = P>, CLK: Clock>(
    pre: MessageHandlerContext<T, S, SM, TS, O, CLK>,
    post: MessageHandlerContext<T, S, SM, TS, O, CLK>,
) -> bool {
    &&& pre.role == NodeState::Leader ==> followers_sent(pre, post.transport.sent())
        && heartbeat_timer_reset(pre.election.timer().timers(), post.election.timer().timers())
    &&& pre.role != NodeState::Leader ==> post.transport == pre.transport
        && post.election == pre.election
    &&& post.observer.events() == pre.observer.events().push(
        ObserverEvent::TimerFired { node: pre.id, timer: ObserverTimerKind::Heartbeat, term: pre.current_term },
    )
    &&& post.role == pre.role
    &&& post.current_term == pre.current_term
    &&& post.storage == pre.storage
    &&& post.replication == pre.replication
    &&& post.config_manager == pre.config_manager
    &&& post.id == pre.id
}

/// The heartbeat timer fired: a leader sends heartbeats, anyone else does nothing.
pub fn handle_heartbeat_timer<P: Clone, T: Transport<Payload = P>, S: Storage<Payload = P>, SM: StateMachine<Payload = P>, TS: TimerService, O: Observer<Payload = P>, CLK: Clock>(
    ctx: &mut MessageHandlerContext<T, S, SM, TS, O, CLK>,
)
    requires
        storage_wf(old(ctx).storage@),
    ensures
        handle_heartbeat_timer_post(*old(ctx), *final(ctx)),
{
    ctx.observer.timer_fired(ctx.id, ObserverTimerKind::Heartbeat, ctx.current_term);
    if ctx.role == NodeState::Leader {
        send_heartbeats(ctx);
    }
}

fn should_create_snapshot<P: Clone, T: Transport<Payload = P>, S: Storage<Payload = P>, SM: StateMachine<Payload = P>, TS: TimerService, O: Observer<Payload = P>, CLK: Clock>(
    ctx: &MessageHandlerContext<T, S, SM, TS, O, CLK>,
) -> (r: bool)
    ensures
        r == crate::components::snapshot_manager::snapshot_due(
            ctx.snapshot_manager.threshold_view(),
            ctx.replication.commit(),
            ctx.storage@,
        ),
{
    ctx.snapshot_manager.should_create(ctx.replication.commit_index(), &ctx.storage)
}

fn create_snapshot_internal<P: Clone, T: Transport<Payload = P>, S: Storage<Payload = P>, SM: StateMachine<Payload = P>, TS: TimerService, O: Observer<Payload = P>, CLK: Clock>(
    ctx: &mut MessageHandlerContext<T, S, SM, TS, O, CLK>,
) -> (r: Result<(), ()>)
    requires
        storage_wf(old(ctx).storage@),
    ensures
        storage_wf(final(ctx).storage@),
        final(ctx).storage@.current_term == old(ctx).storage@.current_term,
        final(ctx).storage@.voted_for == old(ctx).storage@.voted_for,
        final(ctx).id == old(ctx).id,
        final(ctx).role == old(ctx).role,
        final(ctx).current_term == old(ctx).current_term,
        final(ctx).transport == old(ctx).transport,
        final(ctx).replication == old(ctx).replication,
        final(ctx).config_manager == old(ctx).config_manager,
        final(ctx).leader_lease == old(ctx).leader_lease,
        final(ctx).snapshot_manager == old(ctx).snapshot_manager,
        final(ctx).state_machine == old(ctx).state_machine,
        final(ctx).election == old(ctx).election,
        final(ctx).observer == old(ctx).observer,
        ({
            let c = old(ctx).replication.commit();
            let v = old(ctx).storage@;
            &&& (c == 0 || !has_entry(v, c as int)) ==> r is Err && final(ctx).storage@ == v
            &&& (c != 0 && has_entry(v, c as int)) ==> r is Ok
                && SM::snapshot_history(final(ctx).storage@.snapshot_data) == Some(old(ctx).state_machine.applied())
                && final(ctx).storage@ == (StorageView {
                snapshot: Some(SnapshotMetadata { last_included_index: c, last_included_term: entry_at(v, c as int).term }),
                snapshot_data: final(ctx).storage@.snapshot_data,
                ..discarded_before(v, (c + 1) as LogIndex)
            })
        }),
{
    let commit_index = ctx.replication.commit_index();
    match ctx.snapshot_manager.create(&mut ctx.storage, &mut ctx.state_machine, commit_index) {
        Ok(_) => Ok(()),
        Err(_) => Err(()),
    }
}

} // verus!
