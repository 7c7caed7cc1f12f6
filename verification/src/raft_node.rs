use crate::clock::Clock;
use crate::collections::configuration::Configuration;
use crate::collections::node_collection::NodeCollection;
use crate::components::config_change_manager::ConfigChangeManager;
use crate::components::election_manager::{election_timer_reset, ElectionManager};
use crate::components::leader_lease::LeaderLease;
use crate::components::log_replication_manager::LogReplicationManager;
use crate::components::message_handler::admin::submit_post;
use crate::components::message_handler::{
    handle_message_post, handle_timer_post, message_fits, timer_fits, ClientError, MessageHandler,
};
use crate::components::message_handler_context::MessageHandlerContext;
use crate::components::snapshot_manager::SnapshotManager;
use crate::event::Event;
use crate::log_entry::EntryType;
use crate::node_state::NodeState;
use crate::observer::Observer;
use crate::state_machine::StateMachine;
use crate::storage::{last_index, storage_wf, Storage};
use crate::timer_service::TimerService;
use crate::transport::Transport;
use crate::types::{LogIndex, NodeId, Term};
use vstd::prelude::*;

verus! {

/// The event keeps every index it carries, the log it would extend, and the term of an
/// election it may start, representable (see `message_fits` and `timer_fits`).
pub open spec fn event_fits<P: Clone, T: Transport<Payload = P>, S: Storage<Payload = P>, SM: StateMachine<Payload = P>, TS: TimerService, O: Observer<Payload = P>, CLK: Clock>(
    ctx: MessageHandlerContext<T, S, SM, TS, O, CLK>,
    event: Event<P>,
) -> bool {
    match event {
        Event::Message { from, msg } => message_fits(ctx, from, msg),
        Event::TimerFired(kind) => timer_fits(ctx, kind),
        Event::ClientCommand(_) => last_index(ctx.storage@) + 1 < u64::MAX,
        Event::ConfigChange(_) => last_index(ctx.storage@) + 1 < u64::MAX,
    }
}

/// What a server answers to a submission: its next log index when it is leader.
pub open spec fn submit_result<P, T, S: Storage<Payload = P>, SM, TS, O, CLK>(
    pre: MessageHandlerContext<T, S, SM, TS, O, CLK>,
) -> Result<LogIndex, ClientError> {
    if pre.role == NodeState::Leader {
        Ok((last_index(pre.storage@) + 1) as LogIndex)
    } else {
        Err(ClientError::NotLeader { leader_hint: pre.current_leader })
    }
}

/// What handling `event` does.
pub open spec fn on_event_post<P: Clone, T: Transport<Payload = P>, S: Storage<Payload = P>, SM: StateMachine<Payload = P>, TS: TimerService, O: Observer<Payload = P>, CLK: Clock>(
    pre: MessageHandlerContext<T, S, SM, TS, O, CLK>,
    post: MessageHandlerContext<T, S, SM, TS, O, CLK>,
    event: Event<P>,
) -> bool {
    match event {
        Event::TimerFired(kind) => handle_timer_post(pre, post, kind),
        Event::Message { from, msg } => handle_message_post(pre, post, from, msg),
        Event::ClientCommand(payload) => submit_post(pre, post, EntryType::Command(payload), submit_result(pre)),
        Event::ConfigChange(change) => submit_post(pre, post, EntryType::ConfigChange(change), submit_result(pre)),
    }
}

/// No event lowers the server's term.
pub proof fn lemma_event_never_lowers_term<P: Clone, T: Transport<Payload = P>, S: Storage<Payload = P>, SM: StateMachine<Payload = P>, TS: TimerService, O: Observer<Payload = P>, CLK: Clock>(
    pre: MessageHandlerContext<T, S, SM, TS, O, CLK>,
    post: MessageHandlerContext<T, S, SM, TS, O, CLK>,
    event: Event<P>,
)
    requires
        on_event_post(pre, post, event),
    ensures
        post.current_term >= pre.current_term,
{
    match event {
        Event::TimerFired(kind) => crate::components::message_handler::lemma_timer_never_lowers_term(pre, post, kind),
        Event::Message { from, msg } => crate::components::message_handler::lemma_message_never_lowers_term(pre, post, from, msg),
        _ => {},
    }
}

/// A Raft server: its state and the rules it follows, driven by events.
pub struct RaftNode<T, S, SM, TS, O, CLK> {
    ctx: MessageHandlerContext<T, S, SM, TS, O, CLK>,
}

impl<P: Clone, T: Transport<Payload = P>, S: Storage<Payload = P>, SM: StateMachine<Payload = P>, TS: TimerService, O: Observer<Payload = P>, CLK: Clock> RaftNode<T, S, SM, TS, O, CLK> {
    /// The server's state.
    pub closed spec fn state(&self) -> MessageHandlerContext<T, S, SM, TS, O, CLK> {
        self.ctx
    }

    /// A follower in the stored term. A stored snapshot is restored into the state
    /// machine and counts as applied; the election timer starts.
    pub(crate) fn new_from_builder(
        id: NodeId,
        storage: S,
        state_machine: SM,
        election: ElectionManager<TS>,
        replication: LogReplicationManager,
        transport: T,
        peers: NodeCollection,
        observer: O,
        snapshot_threshold: LogIndex,
        leader_lease: LeaderLease<CLK>,
    ) -> (r: Self)
        ensures
            r.state().id == id,
            r.state().role == NodeState::Follower,
            r.state().current_term == storage@.current_term,
            r.state().current_leader is None,
            r.state().storage == storage,
            r.state().transport == transport,
            r.state().config_manager.configuration().members == peers,
            r.state().config_manager.pending() is None,
            r.state().snapshot_manager.threshold_view() == snapshot_threshold,
            r.state().leader_lease == leader_lease,
            r.state().replication.commit() == replication.commit(),
            r.state().replication.applied() == (if storage@.snapshot is Some {
                storage@.snapshot->0.last_included_index
            } else {
                0
            }),
            r.state().election.votes() == election.votes(),
            election_timer_reset(election.timer().timers(), r.state().election.timer().timers()),
            storage@.snapshot is None ==> r.state().state_machine == state_machine,
            storage@.snapshot is Some && SM::snapshot_history(storage@.snapshot_data) is Some
                ==> r.state().state_machine.applied() == SM::snapshot_history(storage@.snapshot_data)->0,
    {
        let current_term = storage.current_term();
        let mut state_machine = state_machine;
        let mut replication = replication;
        let mut election = election;
        let mut last_applied: LogIndex = 0;
        if let Some(snapshot) = storage.load_snapshot() {
            let _ = state_machine.restore_from_snapshot(&snapshot.data);
            last_applied = snapshot.metadata.last_included_index;
        }
        replication.set_last_applied(last_applied);
        election.timer_service_mut().reset_election_timer();
        let config_manager = ConfigChangeManager::new(Configuration::new(peers));
        let snapshot_manager = SnapshotManager::new(snapshot_threshold);
        RaftNode {
            ctx: MessageHandlerContext {
                id,
                role: NodeState::Follower,
                current_term,
                current_leader: None,
                transport,
                storage,
                state_machine,
                observer,
                election,
                replication,
                config_manager,
                snapshot_manager,
                leader_lease,
            },
        }
    }

    pub fn role(&self) -> (r: &NodeState)
        ensures
            *r == self.state().role,
    {
        &self.ctx.role
    }

    pub fn storage(&self) -> (r: &S)
        ensures
            *r == self.state().storage,
    {
        &self.ctx.storage
    }

    pub fn state_machine(&self) -> (r: &SM)
        ensures
            *r == self.state().state_machine,
    {
        &self.ctx.state_machine
    }

    pub fn transport(&self) -> (r: &T)
        ensures
            *r == self.state().transport,
    {
        &self.ctx.transport
    }

    pub fn current_term(&self) -> (r: Term)
        ensures
            r == self.state().current_term,
    {
        self.ctx.current_term
    }

    pub fn id(&self) -> (r: NodeId)
        ensures
            r == self.state().id,
    {
        self.ctx.id
    }

    pub fn commit_index(&self) -> (r: LogIndex)
        ensures
            r == self.state().replication.commit(),
    {
        self.ctx.replication.commit_index()
    }

    /// The members, when there are any.
    pub fn peers(&self) -> (r: Option<&NodeCollection>)
        ensures
            self.state().config_manager.configuration().members@.len() == 0 ==> r is None,
            self.state().config_manager.configuration().members@.len() > 0 ==> r is Some
                && *r->0 == self.state().config_manager.configuration().members,
    {
        if self.ctx.config_manager.config().members.is_empty() {
            None
        } else {
            Some(&self.ctx.config_manager.config().members)
        }
    }

    pub fn timer_service(&self) -> (r: &TS)
        ensures
            *r == self.state().election.timer(),
    {
        self.ctx.election.timer_service()
    }

    pub fn config(&self) -> (r: &Configuration)
        ensures
            *r == self.state().config_manager.configuration(),
    {
        self.ctx.config_manager.config()
    }

    pub fn is_committed(&self, index: LogIndex) -> (r: bool)
        ensures
            r == (index <= self.state().replication.commit()),
    {
        index <= self.ctx.replication.commit_index()
    }

    pub fn observer(&mut self) -> (r: &mut O)
        ensures
            *r == old(self).state().observer,
            final(self).state() == (MessageHandlerContext { observer: *final(r), ..old(self).state() }),
    {
        &mut self.ctx.observer
    }

    /// Handles one event (see `on_event_post`); the answer to a submission is dropped.
    pub fn on_event(&mut self, event: Event<P>)
        requires
            storage_wf(old(self).state().storage@),
            event_fits(old(self).state(), event),
        ensures
            on_event_post(old(self).state(), final(self).state(), event),
    {
        let handler = MessageHandler::new();
        match event {
            Event::TimerFired(kind) => {
                handler.handle_timer(&mut self.ctx, kind);
            },
            Event::Message { from, msg } => {
                handler.handle_message(&mut self.ctx, from, msg);
            },
            Event::ClientCommand(payload) => {
                let _ = handler.submit_client_command(&mut self.ctx, payload);
            },
            Event::ConfigChange(change) => {
                let _ = handler.submit_config_change(&mut self.ctx, change);
            },
        }
    }

    /// Submits a client command (see `admin::submit_post`).
    pub fn submit_client_command(&mut self, payload: P) -> (r: Result<LogIndex, ClientError>)
        requires
            storage_wf(old(self).state().storage@),
            last_index(old(self).state().storage@) + 1 < u64::MAX,
        ensures
            submit_post(old(self).state(), final(self).state(), EntryType::Command(payload), r),
    {
        let handler = MessageHandler::new();
        handler.submit_client_command(&mut self.ctx, payload)
    }
}

} // verus!
