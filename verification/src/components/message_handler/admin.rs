use crate::clock::Clock;
use crate::components::config_change_manager::{add_server_result, remove_server_result, ConfigError};
use crate::components::message_handler::{common, replication, ClientError};
use crate::components::log_replication_manager::{applied_after, commands_between, commit_after_advance, config_changes_between};
use crate::components::message_handler::common::config_change_events;
use crate::components::role_transition_manager::role_of;
use crate::components::message_handler::replication::followers_sent;
use crate::components::message_handler_context::{peers_of, MessageHandlerContext};
use crate::log_entry::{entry_cloned, ConfigurationChange, EntryType, LogEntry};
use crate::node_state::NodeState;
use crate::observer::{Observer, Role};
use crate::state_machine::StateMachine;
use crate::storage::{last_index, storage_wf, Storage, StorageView};
use crate::timer_service::TimerService;
use crate::transport::Transport;
use crate::types::{LogIndex, NodeId};
use vstd::prelude::*;

verus! {

/// `w` is `v` with `entry` (copied) appended to the log.
pub open spec fn appended_one<P: Clone>(v: StorageView<P>, w: StorageView<P>, entry: LogEntry<P>) -> bool {
    &&& w.current_term == v.current_term
    &&& w.voted_for == v.voted_for
    &&& w.first_index == v.first_index
    &&& w.snapshot == v.snapshot
    &&& w.snapshot_data == v.snapshot_data
    &&& w.entries.len() == v.entries.len() + 1
    &&& w.entries.take(v.entries.len() as int) == v.entries
    &&& entry_cloned(entry, w.entries.last())
}

/// What submitting `entry_type` does: a leader appends it to its log in its current
/// term and returns its index; any other server refuses with nothing changed.
pub open spec fn submit_post<P: Clone, T: Transport<Payload = P>, S: Storage<Payload = P>, SM: StateMachine<Payload = P>, TS, O: Observer<Payload = P>, CLK>(
    pre: MessageHandlerContext<T, S, SM, TS, O, CLK>,
    post: MessageHandlerContext<T, S, SM, TS, O, CLK>,
    entry_type: EntryType<P>,
    r: Result<LogIndex, ClientError>,
) -> bool {
    &&& pre.role != NodeState::Leader ==> r == Err::<LogIndex, ClientError>(ClientError::NotLeader { leader_hint: pre.current_leader }) && post == pre
    &&& pre.role == NodeState::Leader ==> {
        &&& r == Ok::<LogIndex, ClientError>((last_index(pre.storage@) + 1) as LogIndex)
        &&& appended_one(pre.storage@, post.storage@, LogEntry { term: pre.current_term, entry_type })
        &&& post.current_term == pre.current_term
        &&& post.replication.commit() >= pre.replication.commit()
        &&& peers_of(pre).len() > 0 ==> {
            &&& post.replication == pre.replication
            &&& post.config_manager == pre.config_manager
            &&& post.state_machine == pre.state_machine
            &&& post.role == pre.role
            &&& post.observer == pre.observer
            }
        &&& peers_of(pre).len() == 0 ==> {
            &&& post.observer.events() == config_change_events(
                pre.observer.events(),
                pre.id,
                if post.replication.commit() > pre.replication.commit() {
                    config_changes_between(post.storage@, pre.replication.applied() as int, post.replication.commit() as int)
                } else {
                    Seq::empty()
                },
                Role::Leader,
                role_of(post.role),
                pre.current_term,
            )
            &&& post.replication.commit() == commit_after_advance(
                pre.replication.matched(),
                pre.id,
                post.storage@,
                pre.config_manager.configuration().members@,
                pre.replication.commit(),
            )
            &&& post.replication.commit() > pre.replication.commit() ==> applied_after(
                pre.state_machine.applied(),
                commands_between(post.storage@, pre.replication.applied() as int, post.replication.commit() as int),
                post.state_machine.applied(),
            )
            &&& post.replication.commit() == pre.replication.commit() ==> post.state_machine == pre.state_machine
            }
        &&& followers_sent(
            MessageHandlerContext {
                storage: post.storage,
                replication: post.replication,
                config_manager: post.config_manager,
                role: post.role,
                state_machine: post.state_machine,
                ..pre
            },
            post.transport.sent(),
        )
    }
    &&& post.id == pre.id
    &&& storage_wf(post.storage@)
}

/// Appends a client command to the leader's log (see `submit_post`), commits it at once
/// when the leader has no peers, and replicates it.
pub fn submit_client_command<P: Clone, T: Transport<Payload = P>, S: Storage<Payload = P>, SM: StateMachine<Payload = P>, TS: TimerService, O: Observer<Payload = P>, CLK: Clock>(
    ctx: &mut MessageHandlerContext<T, S, SM, TS, O, CLK>,
    payload: P,
) -> (r: Result<LogIndex, ClientError>)
    requires
        storage_wf(old(ctx).storage@),
        last_index(old(ctx).storage@) + 1 < u64::MAX,
    ensures
        submit_post(*old(ctx), *final(ctx), EntryType::Command(payload), r),
{
    if ctx.role != NodeState::Leader {
        return Err(ClientError::NotLeader { leader_hint: ctx.current_leader });
    }
    let entry = LogEntry { term: ctx.current_term, entry_type: EntryType::Command(payload) };
    let entries = vec![entry];
    ctx.storage.append_entries(entries.as_slice());
    let index = ctx.storage.last_log_index();
    proof {
        assert(ctx.storage@.entries.skip(old(ctx).storage@.entries.len() as int)[0] == ctx.storage@.entries.last());
    }
    if ctx.config_manager.config().peers(ctx.id).len() == 0 {
        let config_changes = ctx.replication.advance_commit_index(
            &ctx.storage,
            &mut ctx.state_machine,
            ctx.config_manager.config(),
            ctx.id,
        );
        proof {
            if config_changes@.len() == 0 {
                assert(config_changes@ =~= Seq::<(LogIndex, ConfigurationChange)>::empty());
            }
        }
        common::apply_config_changes(ctx, config_changes);
    }
    replication::send_append_entries_to_followers(ctx);
    Ok(index)
}

/// Appends a membership change to the leader's log (see `submit_post`), commits it at
/// once when the leader has no peers, and replicates it.
pub fn submit_config_change<P: Clone, T: Transport<Payload = P>, S: Storage<Payload = P>, SM: StateMachine<Payload = P>, TS: TimerService, O: Observer<Payload = P>, CLK: Clock>(
    ctx: &mut MessageHandlerContext<T, S, SM, TS, O, CLK>,
    change: ConfigurationChange,
) -> (r: Result<LogIndex, ClientError>)
    requires
        storage_wf(old(ctx).storage@),
        last_index(old(ctx).storage@) + 1 < u64::MAX,
    ensures
        submit_post(*old(ctx), *final(ctx), EntryType::ConfigChange(change), r),
{
    if ctx.role != NodeState::Leader {
        return Err(ClientError::NotLeader { leader_hint: ctx.current_leader });
    }
    let entry = LogEntry { term: ctx.current_term, entry_type: EntryType::ConfigChange(change) };
    let entries = vec![entry];
    ctx.storage.append_entries(entries.as_slice());
    let index = ctx.storage.last_log_index();
    proof {
        assert(ctx.storage@.entries.skip(old(ctx).storage@.entries.len() as int)[0] == ctx.storage@.entries.last());
    }
    if ctx.config_manager.config().peers(ctx.id).len() == 0 {
        let config_changes = ctx.replication.advance_commit_index(
            &ctx.storage,
            &mut ctx.state_machine,
            ctx.config_manager.config(),
            ctx.id,
        );
        proof {
            if config_changes@.len() == 0 {
                assert(config_changes@ =~= Seq::<(LogIndex, ConfigurationChange)>::empty());
            }
        }
        common::apply_config_changes(ctx, config_changes);
    }
    replication::send_append_entries_to_followers(ctx);
    Ok(index)
}

/// What adding or removing a server does: a refused change leaves everything as it was;
/// an allowed one is appended to the log like any membership change and becomes the
/// pending change.
pub open spec fn membership_post<P: Clone, T: Transport<Payload = P>, S: Storage<Payload = P>, SM, TS, O, CLK>(
    pre: MessageHandlerContext<T, S, SM, TS, O, CLK>,
    post: MessageHandlerContext<T, S, SM, TS, O, CLK>,
    check: Result<ConfigurationChange, ConfigError>,
    r: Result<LogIndex, ConfigError>,
) -> bool {
    &&& check is Err ==> r == Err::<LogIndex, ConfigError>(check->Err_0) && post == pre
    &&& check is Ok ==> {
        &&& r == Ok::<LogIndex, ConfigError>((last_index(pre.storage@) + 1) as LogIndex)
        &&& appended_one(
            pre.storage@,
            post.storage@,
            LogEntry { term: pre.current_term, entry_type: EntryType::ConfigChange(check->Ok_0) },
        )
        &&& post.config_manager.pending() == Some((last_index(pre.storage@) + 1) as LogIndex)
        &&& post.current_term == pre.current_term
        &&& peers_of(pre).len() > 0 ==> {
            &&& post.config_manager.configuration() == pre.config_manager.configuration()
            &&& post.replication == pre.replication
            &&& post.state_machine == pre.state_machine
            &&& post.role == pre.role
            &&& post.observer == pre.observer
            }
    }
    &&& post.id == pre.id
    &&& storage_wf(post.storage@)
}

/// Adds `node_id` to the cluster, when allowed (see `add_server_result`).
pub fn add_server<P: Clone, T: Transport<Payload = P>, S: Storage<Payload = P>, SM: StateMachine<Payload = P>, TS: TimerService, O: Observer<Payload = P>, CLK: Clock>(
    ctx: &mut MessageHandlerContext<T, S, SM, TS, O, CLK>,
    node_id: NodeId,
) -> (r: Result<LogIndex, ConfigError>)
    requires
        storage_wf(old(ctx).storage@),
        last_index(old(ctx).storage@) + 1 < u64::MAX,
    ensures
        membership_post(
            *old(ctx),
            *final(ctx),
            add_server_result(
                old(ctx).config_manager.pending(),
                old(ctx).config_manager.configuration().members@,
                node_id,
                old(ctx).id,
                old(ctx).role == NodeState::Leader,
                old(ctx).replication.commit(),
            ),
            r,
        ),
{
    let is_leader = ctx.role == NodeState::Leader;
    let commit_index = ctx.replication.commit_index();
    let change = match ctx.config_manager.add_server(node_id, ctx.id, is_leader, commit_index) {
        Ok(c) => c,
        Err(e) => return Err(e),
    };
    let index = match submit_config_change(ctx, change) {
        Ok(i) => i,
        Err(_) => return Err(ConfigError::NotLeader),
    };
    ctx.config_manager.track_pending_change(index);
    Ok(index)
}

/// Removes `node_id` from the cluster, when allowed (see `remove_server_result`).
pub fn remove_server<P: Clone, T: Transport<Payload = P>, S: Storage<Payload = P>, SM: StateMachine<Payload = P>, TS: TimerService, O: Observer<Payload = P>, CLK: Clock>(
    ctx: &mut MessageHandlerContext<T, S, SM, TS, O, CLK>,
    node_id: NodeId,
) -> (r: Result<LogIndex, ConfigError>)
    requires
        storage_wf(old(ctx).storage@),
        last_index(old(ctx).storage@) + 1 < u64::MAX,
    ensures
        membership_post(
            *old(ctx),
            *final(ctx),
            remove_server_result(
                old(ctx).config_manager.pending(),
                old(ctx).config_manager.configuration().members@,
                node_id,
                old(ctx).id,
                old(ctx).role == NodeState::Leader,
                old(ctx).replication.commit(),
            ),
            r,
        ),
{
    let is_leader = ctx.role == NodeState::Leader;
    let commit_index = ctx.replication.commit_index();
    let change = match ctx.config_manager.remove_server(node_id, ctx.id, is_leader, commit_index) {
        Ok(c) => c,
        Err(e) => return Err(e),
    };
    let index = match submit_config_change(ctx, change) {
        Ok(i) => i,
        Err(_) => return Err(ConfigError::NotLeader),
    };
    ctx.config_manager.track_pending_change(index);
    Ok(index)
}

} // verus!
