use crate::clock::Clock;
use crate::collections::config_change_collection::ConfigChangeCollection;
use crate::components::config_change_manager::{add_server_result, remove_server_result, ConfigError};
use crate::components::message_handler_context::{peers_of, MessageHandlerContext};
use crate::log_entry::{ConfigurationChange, EntryType};
use crate::node_state::NodeState;
use crate::observer::Observer;
use crate::raft_messages::RaftMsg;
use crate::state_machine::StateMachine;
use crate::storage::{last_index, storage_wf, Storage};
use crate::timer_service::{TimerKind, TimerService};
use crate::transport::Transport;
use crate::types::{LogIndex, NodeId, Term};
use admin::{membership_post, submit_post};
use common::{apply_config_changes_post, broadcast_post, send_post};
use election::{
    handle_election_timer_post, handle_pre_vote_request_post, handle_pre_vote_response_post,
    handle_vote_request_post, handle_vote_response_post, pre_vote_wins, start_election_post, start_pre_vote_post,
};
use replication::{
    handle_append_entries_post, handle_append_entries_response_post, handle_heartbeat_timer_post,
    handle_install_snapshot_post, handle_install_snapshot_response_post,
    send_append_entries_to_followers_post, send_heartbeats_post,
};
use vstd::prelude::*;

pub mod admin;
pub mod common;
pub mod election;
pub mod replication;

verus! {

#[derive(Debug, Clone, Copy, PartialEq, Eq, Structural)]
pub enum ClientError {
    /// This server is not the leader; `leader_hint` is the leader it knows of, if any.
    NotLeader { leader_hint: Option<NodeId> },
}

#[derive(Debug, Clone, Copy, PartialEq, Eq, Structural)]
pub enum ReadError {
    /// Node is not the leader or does not have a valid lease
    NotLeaderOrNoLease,
}

/// The message from `from` keeps every index it carries, the log it would extend, and
/// the term of an election it starts (`current_term` + 1, when it completes a pre-vote
/// round), representable.
pub open spec fn message_fits<P: Clone, T: Transport<Payload = P>, S: Storage<Payload = P>, SM: StateMachine<Payload = P>, TS: TimerService, O: Observer<Payload = P>, CLK: Clock>(
    ctx: MessageHandlerContext<T, S, SM, TS, O, CLK>,
    from: NodeId,
    msg: RaftMsg<P>,
) -> bool {
    match msg {
        RaftMsg::PreVoteResponse { term, vote_granted } => pre_vote_wins(ctx, from, term, vote_granted)
            ==> ctx.current_term < u64::MAX,
        RaftMsg::AppendEntries { entries, .. } => last_index(ctx.storage@) + entries@.len() < u64::MAX,
        RaftMsg::AppendEntriesResponse { match_index, .. } => match_index < u64::MAX,
        RaftMsg::InstallSnapshot { last_included_index, .. } => last_included_index < u64::MAX,
        _ => true,
    }
}

/// The term of an election that the timer may start (`current_term` + 1) is
/// representable: only the election timer of a server that is not leader and has no
/// peers starts one.
pub open spec fn timer_fits<P: Clone, T: Transport<Payload = P>, S: Storage<Payload = P>, SM: StateMachine<Payload = P>, TS: TimerService, O: Observer<Payload = P>, CLK: Clock>(
    ctx: MessageHandlerContext<T, S, SM, TS, O, CLK>,
    kind: TimerKind,
) -> bool {
    kind == TimerKind::Election && ctx.role != NodeState::Leader && peers_of(ctx).len() == 0
        ==> ctx.current_term < u64::MAX
}

/// What handling `msg` from `from` does: what its handler guarantees.
pub open spec fn handle_message_post<P: Clone, T: Transport<Payload = P>, S: Storage<Payload = P>, SM: StateMachine<Payload = P>, TS: TimerService, O: Observer<Payload = P>, CLK: Clock>(
    pre: MessageHandlerContext<T, S, SM, TS, O, CLK>,
    post: MessageHandlerContext<T, S, SM, TS, O, CLK>,
    from: NodeId,
    msg: RaftMsg<P>,
) -> bool {
    match msg {
        RaftMsg::PreVoteRequest { term, candidate_id, last_log_index, last_log_term } => handle_pre_vote_request_post(
            pre,
            post,
            from,
            term,
            candidate_id,
            last_log_index,
            last_log_term,
        ),
        RaftMsg::PreVoteResponse { term, vote_granted } => handle_pre_vote_response_post(pre, post, from, term, vote_granted),
        RaftMsg::RequestVote { term, candidate_id, last_log_index, last_log_term } => handle_vote_request_post(
            pre,
            post,
            from,
            term,
            candidate_id,
            last_log_index,
            last_log_term,
        ),
        RaftMsg::RequestVoteResponse { term, vote_granted } => handle_vote_response_post(pre, post, from, term, vote_granted),
        RaftMsg::AppendEntries { term, prev_log_index, prev_log_term, entries, leader_commit } => handle_append_entries_post(
            pre,
            post,
            from,
            term,
            prev_log_index,
            prev_log_term,
            entries,
            leader_commit,
        ),
        RaftMsg::AppendEntriesResponse { term, success, match_index } => handle_append_entries_response_post(
            pre,
            post,
            from,
            term,
            success,
            match_index,
        ),
        RaftMsg::InstallSnapshot { term, leader_id, last_included_index, last_included_term, offset, data, done } => handle_install_snapshot_post(
            pre,
            post,
            from,
            term,
            leader_id,
            last_included_index,
            last_included_term,
            offset,
            data,
            done,
        ),
        RaftMsg::InstallSnapshotResponse { term, success } => handle_install_snapshot_response_post(pre, post, from, term, success),
    }
}

/// What handling a fired timer does: what the timer's handler guarantees.
pub open spec fn handle_timer_post<P: Clone, T: Transport<Payload = P>, S: Storage<Payload = P>, SM: StateMachine<Payload = P>, TS: TimerService, O: Observer<Payload = P>, CLK: Clock>(
    pre: MessageHandlerContext<T, S, SM, TS, O, CLK>,
    post: MessageHandlerContext<T, S, SM, TS, O, CLK>,
    kind: TimerKind,
) -> bool {
    match kind {
        TimerKind::Election => handle_election_timer_post(pre, post),
        TimerKind::Heartbeat => handle_heartbeat_timer_post(pre, post),
    }
}

/// Handling a message never lowers the server's term.
pub proof fn lemma_message_never_lowers_term<P: Clone, T: Transport<Payload = P>, S: Storage<Payload = P>, SM: StateMachine<Payload = P>, TS: TimerService, O: Observer<Payload = P>, CLK: Clock>(
    pre: MessageHandlerContext<T, S, SM, TS, O, CLK>,
    post: MessageHandlerContext<T, S, SM, TS, O, CLK>,
    from: NodeId,
    msg: RaftMsg<P>,
)
    requires
        handle_message_post(pre, post, from, msg),
    ensures
        post.current_term >= pre.current_term,
{
}

/// A timer never lowers the server's term.
pub proof fn lemma_timer_never_lowers_term<P: Clone, T: Transport<Payload = P>, S: Storage<Payload = P>, SM: StateMachine<Payload = P>, TS: TimerService, O: Observer<Payload = P>, CLK: Clock>(
    pre: MessageHandlerContext<T, S, SM, TS, O, CLK>,
    post: MessageHandlerContext<T, S, SM, TS, O, CLK>,
    kind: TimerKind,
)
    requires
        handle_timer_post(pre, post, kind),
    ensures
        post.current_term >= pre.current_term,
{
}

/// An AppendEntries of an earlier term is refused and leaves the log as it was.
pub proof fn lemma_stale_append_entries_refused<P: Clone, T: Transport<Payload = P>, S: Storage<Payload = P>, SM: StateMachine<Payload = P>, TS: TimerService, O: Observer<Payload = P>, CLK: Clock>(
    pre: MessageHandlerContext<T, S, SM, TS, O, CLK>,
    post: MessageHandlerContext<T, S, SM, TS, O, CLK>,
    from: NodeId,
    term: Term,
    prev_log_index: LogIndex,
    prev_log_term: Term,
    entries: Vec<crate::log_entry::LogEntry<P>>,
    leader_commit: LogIndex,
)
    requires
        handle_append_entries_post(pre, post, from, term, prev_log_index, prev_log_term, entries, leader_commit),
        term < pre.current_term,
    ensures
        post.storage@ == pre.storage@,
        post.current_term == pre.current_term,
        post.transport.sent().last() == (from, RaftMsg::<P>::AppendEntriesResponse {
            term: pre.current_term,
            success: false,
            match_index: last_index(pre.storage@) as LogIndex,
        }),
{
}

/// Routes events to the handlers of the election, replication and administration rules.
pub struct MessageHandler;

impl MessageHandler {
    pub fn new() -> (r: Self) {
        MessageHandler
    }

    /// Dispatches a message from `from` to its handler (see `handle_message_post`).
    pub fn handle_message<P: Clone, T: Transport<Payload = P>, S: Storage<Payload = P>, SM: StateMachine<Payload = P>, TS: TimerService, O: Observer<Payload = P>, CLK: Clock>(
        &self,
        ctx: &mut MessageHandlerContext<T, S, SM, TS, O, CLK>,
        from: NodeId,
        msg: RaftMsg<P>,
    )
        requires
            storage_wf(old(ctx).storage@),
            message_fits(*old(ctx), from, msg),
        ensures
            handle_message_post(*old(ctx), *final(ctx), from, msg),
    {
        match msg {
            RaftMsg::PreVoteRequest { term, candidate_id, last_log_index, last_log_term } => election::handle_pre_vote_request(
                ctx,
                from,
                term,
                candidate_id,
                last_log_index,
                last_log_term,
            ),
            RaftMsg::PreVoteResponse { term, vote_granted } => election::handle_pre_vote_response(ctx, from, term, vote_granted),
            RaftMsg::RequestVote { term, candidate_id, last_log_index, last_log_term } => election::handle_vote_request(
                ctx,
                from,
                term,
                candidate_id,
                last_log_index,
                last_log_term,
            ),
            RaftMsg::RequestVoteResponse { term, vote_granted } => election::handle_vote_response(ctx, from, term, vote_granted),
            RaftMsg::AppendEntries { term, prev_log_index, prev_log_term, entries, leader_commit } => replication::handle_append_entries(
                ctx,
                from,
                term,
                prev_log_index,
                prev_log_term,
                entries,
                leader_commit,
            ),
            RaftMsg::AppendEntriesResponse { term, success, match_index } => replication::handle_append_entries_response(
                ctx,
                from,
                term,
                success,
                match_index,
            ),
            RaftMsg::InstallSnapshot {
                term,
                leader_id,
                last_included_index,
                last_included_term,
                offset,
                data,
                done,
            } => replication::handle_install_snapshot(
                ctx,
                from,
                term,
                leader_id,
                last_included_index,
                last_included_term,
                offset,
                data,
                done,
            ),
            RaftMsg::InstallSnapshotResponse { term, success } => replication::handle_install_snapshot_response(
                ctx,
                from,
                term,
                success,
            ),
        }
    }

    /// Handles a fired timer (see `handle_timer_post`).
    pub fn handle_timer<P: Clone, T: Transport<Payload = P>, S: Storage<Payload = P>, SM: StateMachine<Payload = P>, TS: TimerService, O: Observer<Payload = P>, CLK: Clock>(
        &self,
        ctx: &mut MessageHandlerContext<T, S, SM, TS, O, CLK>,
        kind: TimerKind,
    )
        requires
            storage_wf(old(ctx).storage@),
            timer_fits(*old(ctx), kind),
        ensures
            handle_timer_post(*old(ctx), *final(ctx), kind),
    {
        match kind {
            TimerKind::Election => {
                election::handle_election_timer(ctx);
            },
            TimerKind::Heartbeat => {
                replication::handle_heartbeat_timer(ctx);
            },
        }
    }

    /// Appends a client command to the leader's log (see `admin::submit_post`).
    pub fn submit_client_command<P: Clone, T: Transport<Payload = P>, S: Storage<Payload = P>, SM: StateMachine<Payload = P>, TS: TimerService, O: Observer<Payload = P>, CLK: Clock>(
        &self,
        ctx: &mut MessageHandlerContext<T, S, SM, TS, O, CLK>,
        payload: P,
    ) -> (r: Result<LogIndex, ClientError>)
        requires
            storage_wf(old(ctx).storage@),
            last_index(old(ctx).storage@) + 1 < u64::MAX,
        ensures
            submit_post(*old(ctx), *final(ctx), EntryType::Command(payload), r),
    {
        admin::submit_client_command(ctx, payload)
    }

    /// Appends a membership change to the leader's log (see `admin::submit_post`).
    pub fn submit_config_change<P: Clone, T: Transport<Payload = P>, S: Storage<Payload = P>, SM: StateMachine<Payload = P>, TS: TimerService, O: Observer<Payload = P>, CLK: Clock>(
        &self,
        ctx: &mut MessageHandlerContext<T, S, SM, TS, O, CLK>,
        change: ConfigurationChange,
    ) -> (r: Result<LogIndex, ClientError>)
        requires
            storage_wf(old(ctx).storage@),
            last_index(old(ctx).storage@) + 1 < u64::MAX,
        ensures
            submit_post(*old(ctx), *final(ctx), EntryType::ConfigChange(change), r),
    {
        admin::submit_config_change(ctx, change)
    }

    /// Starts a pre-vote round (see `election::start_pre_vote_post`).
    pub fn start_pre_vote<P: Clone, T: Transport<Payload = P>, S: Storage<Payload = P>, SM: StateMachine<Payload = P>, TS: TimerService, O: Observer<Payload = P>, CLK: Clock>(
        &self,
        ctx: &mut MessageHandlerContext<T, S, SM, TS, O, CLK>,
    )
        requires
            storage_wf(old(ctx).storage@),
        ensures
            start_pre_vote_post(*old(ctx), *final(ctx)),
    {
        election::start_pre_vote(ctx);
    }

    /// Starts an election (see `election::start_election_post`).
    pub fn start_election<P: Clone, T: Transport<Payload = P>, S: Storage<Payload = P>, SM: StateMachine<Payload = P>, TS: TimerService, O: Observer<Payload = P>, CLK: Clock>(
        &self,
        ctx: &mut MessageHandlerContext<T, S, SM, TS, O, CLK>,
    )
        requires
            storage_wf(old(ctx).storage@),
            old(ctx).current_term < u64::MAX,
        ensures
            start_election_post(*old(ctx), *final(ctx)),
    {
        election::start_election(ctx);
    }

    /// Adds a server to the cluster configuration (see `admin::add_server`).
    pub fn add_server<P: Clone, T: Transport<Payload = P>, S: Storage<Payload = P>, SM: StateMachine<Payload = P>, TS: TimerService, O: Observer<Payload = P>, CLK: Clock>(
        &self,
        ctx: &mut MessageHandlerContext<T, S, SM, TS, O, CLK>,
        node_id: NodeId,
    ) -> (r: Result<LogIndex, ConfigError>)
        requires
            storage_wf(old(ctx).storage@),
            last_index(old(ctx).storage@) + 1 < u64::MAX,
        ensures
            membership_post(
                *old(ctx),
                *final(ctx),
                add_server_result(
                    old(ctx).config_manager.pending(),
                    old(ctx).config_manager.configuration().members@,
                    node_id,
                    old(ctx).id,
                    old(ctx).role == NodeState::Leader,
                    old(ctx).replication.commit(),
                ),
                r,
            ),
    {
        admin::add_server(ctx, node_id)
    }

    /// Removes a server from the cluster configuration (see `admin::remove_server`).
    pub fn remove_server<P: Clone, T: Transport<Payload = P>, S: Storage<Payload = P>, SM: StateMachine<Payload = P>, TS: TimerService, O: Observer<Payload = P>, CLK: Clock>(
        &self,
        ctx: &mut MessageHandlerContext<T, S, SM, TS, O, CLK>,
        node_id: NodeId,
    ) -> (r: Result<LogIndex, ConfigError>)
        requires
            storage_wf(old(ctx).storage@),
            last_index(old(ctx).storage@) + 1 < u64::MAX,
        ensures
            membership_post(
                *old(ctx),
                *final(ctx),
                remove_server_result(
                    old(ctx).config_manager.pending(),
                    old(ctx).config_manager.configuration().members@,
                    node_id,
                    old(ctx).id,
                    old(ctx).role == NodeState::Leader,
                    old(ctx).replication.commit(),
                ),
                r,
            ),
    {
        admin::remove_server(ctx, node_id)
    }

    /// Hands `msg` to the transport for `to`.
    pub fn send<P: Clone, T: Transport<Payload = P>, S: Storage<Payload = P>, SM: StateMachine<Payload = P>, TS: TimerService, O: Observer<Payload = P>, CLK: Clock>(
        &self,
        ctx: &mut MessageHandlerContext<T, S, SM, TS, O, CLK>,
        to: NodeId,
        msg: RaftMsg<P>,
    )
        ensures
            send_post(*old(ctx), *final(ctx), to, msg),
    {
        common::send(ctx, to, msg);
    }

    /// Sends a copy of `msg` to every other member.
    pub fn broadcast<P: Clone, T: Transport<Payload = P>, S: Storage<Payload = P>, SM: StateMachine<Payload = P>, TS: TimerService, O: Observer<Payload = P>, CLK: Clock>(
        &self,
        ctx: &mut MessageHandlerContext<T, S, SM, TS, O, CLK>,
        msg: RaftMsg<P>,
    )
        ensures
            broadcast_post(*old(ctx), *final(ctx), msg),
    {
        common::broadcast(ctx, msg);
    }

    /// Sends every follower its AppendEntries and restarts the heartbeat timer.
    pub fn send_heartbeats<P: Clone, T: Transport<Payload = P>, S: Storage<Payload = P>, SM: StateMachine<Payload = P>, TS: TimerService, O: Observer<Payload = P>, CLK: Clock>(
        &self,
        ctx: &mut MessageHandlerContext<T, S, SM, TS, O, CLK>,
    )
        requires
            storage_wf(old(ctx).storage@),
        ensures
            send_heartbeats_post(*old(ctx), *final(ctx)),
    {
        replication::send_heartbeats(ctx);
    }

    /// Sends every follower what it needs next.
    pub fn send_append_entries_to_followers<P: Clone, T: Transport<Payload = P>, S: Storage<Payload = P>, SM: StateMachine<Payload = P>, TS: TimerService, O: Observer<Payload = P>, CLK: Clock>(
        &self,
        ctx: &mut MessageHandlerContext<T, S, SM, TS, O, CLK>,
    )
        requires
            storage_wf(old(ctx).storage@),
        ensures
            send_append_entries_to_followers_post(*old(ctx), *final(ctx)),
    {
        replication::send_append_entries_to_followers(ctx);
    }

    /// Applies committed membership changes.
    pub fn apply_config_changes<P: Clone, T: Transport<Payload = P>, S: Storage<Payload = P>, SM: StateMachine<Payload = P>, TS: TimerService, O: Observer<Payload = P>, CLK: Clock>(
        &self,
        ctx: &mut MessageHandlerContext<T, S, SM, TS, O, CLK>,
        changes: ConfigChangeCollection,
    )
        requires
            storage_wf(old(ctx).storage@),
        ensures
            apply_config_changes_post(*old(ctx), *final(ctx), changes),
    {
        common::apply_config_changes(ctx, changes);
    }
}

} // verus!
