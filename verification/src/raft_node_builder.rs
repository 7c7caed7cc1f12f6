use crate::clock::Clock;
use crate::collections::node_collection::NodeCollection;
use crate::components::election_manager::{election_timer_reset, ElectionManager};
use crate::components::leader_lease::LeaderLease;
use crate::components::log_replication_manager::LogReplicationManager;
use crate::node_state::NodeState;
use crate::observer::Observer;
use crate::raft_node::RaftNode;
use crate::state_machine::StateMachine;
use crate::storage::Storage;
use crate::timer_service::TimerService;
use crate::transport::Transport;
use crate::types::{LogIndex, NodeId};
use vstd::prelude::*;

verus! {

/// Builds a `RaftNode` step by step: storage and state machine, then the election
/// manager, then the replication manager, then transport, members, observer and lease.
pub struct RaftNodeBuilder<S, SM> {
    pub id: NodeId,
    pub storage: S,
    pub state_machine: SM,
    pub snapshot_threshold: LogIndex,
}

impl<S: Storage, SM: StateMachine> RaftNodeBuilder<S, SM> {
    /// A builder with the default snapshot threshold of 10 entries.
    pub fn new(id: NodeId, storage: S, state_machine: SM) -> (r: Self)
        ensures
            r.id == id,
            r.storage == storage,
            r.state_machine == state_machine,
            r.snapshot_threshold == 10,
    {
        RaftNodeBuilder { id, storage, state_machine, snapshot_threshold: 10 }
    }

    pub fn with_snapshot_threshold(self, threshold: LogIndex) -> (r: Self)
        ensures
            r == (RaftNodeBuilder { snapshot_threshold: threshold, ..self }),
    {
        RaftNodeBuilder { snapshot_threshold: threshold, ..self }
    }

    pub fn with_election<TS: TimerService>(self, election: ElectionManager<TS>) -> (r: RaftNodeBuilderWithElection<S, SM, TS>)
        ensures
            r.id == self.id,
            r.storage == self.storage,
            r.state_machine == self.state_machine,
            r.snapshot_threshold == self.snapshot_threshold,
            r.election == election,
    {
        RaftNodeBuilderWithElection {
            id: self.id,
            storage: self.storage,
            state_machine: self.state_machine,
            snapshot_threshold: self.snapshot_threshold,
            election,
        }
    }
}

/// The builder once the election manager is given.
pub struct RaftNodeBuilderWithElection<S, SM, TS> {
    pub id: NodeId,
    pub storage: S,
    pub state_machine: SM,
    pub snapshot_threshold: LogIndex,
    pub election: ElectionManager<TS>,
}

impl<S: Storage, SM: StateMachine, TS: TimerService> RaftNodeBuilderWithElection<S, SM, TS> {
    pub fn with_replication(self, replication: LogReplicationManager) -> (r: RaftNodeBuilderWithReplication<S, SM, TS>)
        ensures
            r.id == self.id,
            r.storage == self.storage,
            r.state_machine == self.state_machine,
            r.snapshot_threshold == self.snapshot_threshold,
            r.election == self.election,
            r.replication == replication,
    {
        RaftNodeBuilderWithReplication {
            id: self.id,
            storage: self.storage,
            state_machine: self.state_machine,
            snapshot_threshold: self.snapshot_threshold,
            election: self.election,
            replication,
        }
    }
}

/// The builder once the replication manager is given.
pub struct RaftNodeBuilderWithReplication<S, SM, TS> {
    pub id: NodeId,
    pub storage: S,
    pub state_machine: SM,
    pub snapshot_threshold: LogIndex,
    pub election: ElectionManager<TS>,
    pub replication: LogReplicationManager,
}

impl<S: Storage, SM: StateMachine, TS: TimerService> RaftNodeBuilderWithReplication<S, SM, TS> {
    /// The server, a follower in the stored term (see `RaftNode::new_from_builder`).
    pub fn with_transport<P: Clone, T: Transport<Payload = P>, O: Observer<Payload = P>, CLK: Clock>(
        self,
        transport: T,
        peers: NodeCollection,
        observer: O,
        leader_lease: LeaderLease<CLK>,
    ) -> (r: RaftNode<T, S, SM, TS, O, CLK>) where S: Storage<Payload = P>, SM: StateMachine<Payload = P>
        ensures
            r.state().id == self.id,
            r.state().role == NodeState::Follower,
            r.state().current_term == self.storage@.current_term,
            r.state().storage == self.storage,
            r.state().transport == transport,
            r.state().config_manager.configuration().members == peers,
            r.state().snapshot_manager.threshold_view() == self.snapshot_threshold,
            r.state().leader_lease == leader_lease,
            r.state().replication.commit() == self.replication.commit(),
            r.state().replication.applied() == (if self.storage@.snapshot is Some {
                self.storage@.snapshot->0.last_included_index
            } else {
                0
            }),
            election_timer_reset(self.election.timer().timers(), r.state().election.timer().timers()),
            self.storage@.snapshot is None ==> r.state().state_machine == self.state_machine,
            self.storage@.snapshot is Some && SM::snapshot_history(self.storage@.snapshot_data) is Some
                ==> r.state().state_machine.applied() == SM::snapshot_history(self.storage@.snapshot_data)->0,
    {
        RaftNode::new_from_builder(
            self.id,
            self.storage,
            self.state_machine,
            self.election,
            self.replication,
            transport,
            peers,
            observer,
            self.snapshot_threshold,
            leader_lease,
        )
    }
}

} // verus!
