use crate::collections::node_collection::without;
use crate::components::config_change_manager::ConfigChangeManager;
use crate::components::election_manager::ElectionManager;
use crate::components::leader_lease::LeaderLease;
use crate::components::log_replication_manager::LogReplicationManager;
use crate::components::snapshot_manager::SnapshotManager;
use crate::node_state::NodeState;
use crate::raft_messages::{msg_cloned, RaftMsg};
use crate::types::{NodeId, Term};
use vstd::prelude::*;

verus! {

/// The whole state of one Raft server, on which the message handlers act.
pub struct MessageHandlerContext<T, S, SM, TS, O, CLK> {
    pub id: NodeId,
    pub role: NodeState,
    pub current_term: Term,
    pub current_leader: Option<NodeId>,
    pub transport: T,
    pub storage: S,
    pub state_machine: SM,
    pub observer: O,
    pub election: ElectionManager<TS>,
    pub replication: LogReplicationManager,
    pub config_manager: ConfigChangeManager,
    pub snapshot_manager: SnapshotManager,
    pub leader_lease: LeaderLease<CLK>,
}

/// The members other than this server, in configuration order.
pub open spec fn peers_of<T, S, SM, TS, O, CLK>(ctx: MessageHandlerContext<T, S, SM, TS, O, CLK>) -> Seq<NodeId> {
    without(ctx.config_manager.configuration().members@, ctx.id)
}

/// `after` is `before` followed by one copy of `msg` for each of `peers`, in order.
pub open spec fn broadcast_sent<P: Clone>(
    before: Seq<(NodeId, RaftMsg<P>)>,
    after: Seq<(NodeId, RaftMsg<P>)>,
    peers: Seq<NodeId>,
    msg: RaftMsg<P>,
) -> bool {
    &&& after.len() == before.len() + peers.len()
    &&& after.take(before.len() as int) == before
    &&& forall|k: int| 0 <= k < peers.len() ==> (#[trigger] after[before.len() + k]).0 == peers[k]
        && msg_cloned(msg, after[before.len() + k].1)
}

} // verus!
