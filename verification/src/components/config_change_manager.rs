use crate::collections::config_change_collection::ConfigChangeCollection;
use crate::collections::configuration::Configuration;
use crate::collections::node_collection::{without, NodeCollection};
use crate::components::log_replication_manager::LogReplicationManager;
use crate::log_entry::ConfigurationChange;
use crate::node_state::NodeState;
use crate::observer::{Observer, ObserverEvent};
use crate::types::{LogIndex, NodeId};
use vstd::prelude::*;

verus! {

#[derive(Debug, Clone, Copy, PartialEq, Eq, Structural)]
pub enum ConfigError {
    NotLeader,
    ConfigChangeInProgress,
    NodeAlreadyExists,
    NodeNotFound,
    CannotRemoveLastNode,
}

/// What applying committed membership changes acts on.
pub struct MembershipState {
    pub members: Seq<NodeId>,
    pub pending: Option<LogIndex>,
    pub role: NodeState,
    pub next: Map<NodeId, LogIndex>,
    pub matched: Map<NodeId, LogIndex>,
    pub catching: Seq<NodeId>,
}

/// One committed change, at log index `index`, applied by server `self_id` whose log
/// ends at `last_log_index`. A leader starts replicating to an added server (and marks
/// it as catching up with the log) and stops replicating to a removed
/// one; a server that removes itself becomes follower. The pending change is cleared
/// once its entry is applied.
pub open spec fn apply_change(
    st: MembershipState,
    index: LogIndex,
    change: ConfigurationChange,
    self_id: NodeId,
    last_log_index: LogIndex,
) -> MembershipState {
    let pending = if st.pending == Some(index) {
        None
    } else {
        st.pending
    };
    match change {
        ConfigurationChange::AddServer(id) => {
            if st.role == NodeState::Leader {
                MembershipState {
                    members: st.members.push(id),
                    pending,
                    next: st.next.insert(id, (last_log_index + 1) as LogIndex),
                    matched: st.matched.insert(id, 0),
                    catching: if st.catching.contains(id) {
                        st.catching
                    } else {
                        st.catching.push(id)
                    },
                    ..st
                }
            } else {
                MembershipState { members: st.members.push(id), pending, ..st }
            }
        },
        ConfigurationChange::RemoveServer(id) => {
            let role = if id == self_id {
                NodeState::Follower
            } else {
                st.role
            };
            if st.role == NodeState::Leader {
                MembershipState {
                    members: without(st.members, id),
                    pending,
                    role,
                    next: st.next.remove(id),
                    matched: st.matched.remove(id),
                    ..st
                }
            } else {
                MembershipState { members: without(st.members, id), pending, role, ..st }
            }
        },
    }
}

/// `changes` holds a change that adds a server.
pub open spec fn adds_server(changes: Seq<(LogIndex, ConfigurationChange)>) -> bool {
    exists|i: int| 0 <= i < changes.len() && (#[trigger] changes[i]).1 is AddServer
}

/// The changes applied one after another, in order.
pub open spec fn apply_changes_spec(
    st: MembershipState,
    changes: Seq<(LogIndex, ConfigurationChange)>,
    self_id: NodeId,
    last_log_index: LogIndex,
) -> MembershipState
    decreases changes.len(),
{
    if changes.len() == 0 {
        st
    } else {
        let before = apply_changes_spec(st, changes.drop_last(), self_id, last_log_index);
        apply_change(before, changes.last().0, changes.last().1, self_id, last_log_index)
    }
}

/// Applying committed membership changes never makes a server that is not leader
/// into one.
pub proof fn lemma_changes_keep_non_leader(
    st: MembershipState,
    changes: Seq<(LogIndex, ConfigurationChange)>,
    self_id: NodeId,
    last_log_index: LogIndex,
)
    requires
        st.role != NodeState::Leader,
    ensures
        apply_changes_spec(st, changes, self_id, last_log_index).role == st.role
            || apply_changes_spec(st, changes, self_id, last_log_index).role == NodeState::Follower,
        st.role == NodeState::Follower ==> apply_changes_spec(st, changes, self_id, last_log_index).role
            == NodeState::Follower,
    decreases changes.len(),
{
    if changes.len() > 0 {
        lemma_changes_keep_non_leader(st, changes.drop_last(), self_id, last_log_index);
    }
}

/// What `add_server` answers: only a leader changes membership, one change at a time
/// (the pending one committed), and only for a server that is not yet a member.
pub open spec fn add_server_result(
    pending: Option<LogIndex>,
    members: Seq<NodeId>,
    node_id: NodeId,
    self_id: NodeId,
    is_leader: bool,
    commit_index: LogIndex,
) -> Result<ConfigurationChange, ConfigError> {
    if !is_leader {
        Err(ConfigError::NotLeader)
    } else if pending is Some && pending->0 > commit_index {
        Err(ConfigError::ConfigChangeInProgress)
    } else if node_id == self_id || members.contains(node_id) {
        Err(ConfigError::NodeAlreadyExists)
    } else {
        Ok(ConfigurationChange::AddServer(node_id))
    }
}

/// What `remove_server` answers: only a leader changes membership, one change at a
/// time, never the last member, and only a member (or the leader itself).
pub open spec fn remove_server_result(
    pending: Option<LogIndex>,
    members: Seq<NodeId>,
    node_id: NodeId,
    self_id: NodeId,
    is_leader: bool,
    commit_index: LogIndex,
) -> Result<ConfigurationChange, ConfigError> {
    if !is_leader {
        Err(ConfigError::NotLeader)
    } else if pending is Some && pending->0 > commit_index {
        Err(ConfigError::ConfigChangeInProgress)
    } else if members.len() == 1 {
        Err(ConfigError::CannotRemoveLastNode)
    } else if node_id != self_id && !members.contains(node_id) {
        Err(ConfigError::NodeNotFound)
    } else {
        Ok(ConfigurationChange::RemoveServer(node_id))
    }
}

/// Membership changes go one at a time: a change is allowed only when no change is
/// pending or the pending one is committed, and only a leader makes one.
pub proof fn lemma_one_change_at_a_time(
    pending: Option<LogIndex>,
    members: Seq<NodeId>,
    node_id: NodeId,
    self_id: NodeId,
    is_leader: bool,
    commit_index: LogIndex,
)
    ensures
        add_server_result(pending, members, node_id, self_id, is_leader, commit_index) is Ok
            ==> is_leader && (pending is None || pending->0 <= commit_index),
        remove_server_result(pending, members, node_id, self_id, is_leader, commit_index) is Ok
            ==> is_leader && (pending is None || pending->0 <= commit_index) && members.len() != 1,
{
}

/// Once an added server's change is applied it is a member; once a removed server's
/// change is applied it is not.
pub proof fn lemma_applied_change_sets_membership(
    st: MembershipState,
    index: LogIndex,
    change: ConfigurationChange,
    self_id: NodeId,
    last_log_index: LogIndex,
)
    ensures
        change matches ConfigurationChange::AddServer(id) ==> apply_change(st, index, change, self_id, last_log_index).members.contains(id),
        change matches ConfigurationChange::RemoveServer(id) ==> !apply_change(st, index, change, self_id, last_log_index).members.contains(id),
{
    match change {
        ConfigurationChange::AddServer(id) => {
            assert(st.members.push(id)[st.members.len() as int] == id);
        },
        ConfigurationChange::RemoveServer(id) => {
            let m = without(st.members, id);
            if m.contains(id) {
                let j = choose|j: int| 0 <= j < m.len() && m[j] == id;
                st.members.lemma_filter_pred(crate::collections::node_collection::other_than(id), j);
            }
        },
    }
}

/// What applying `change` on server `node` reports.
pub open spec fn change_event<P>(node: NodeId, change: ConfigurationChange) -> ObserverEvent<P> {
    match change {
        ConfigurationChange::AddServer(id) => ObserverEvent::ConfigurationChangeApplied { node, target: id, added: true },
        ConfigurationChange::RemoveServer(id) => ObserverEvent::ConfigurationChangeApplied { node, target: id, added: false },
    }
}

/// What applying `changes` on server `node` reports: one notification per change, in order.
pub open spec fn change_events<P>(node: NodeId, changes: Seq<(LogIndex, ConfigurationChange)>) -> Seq<ObserverEvent<P>> {
    Seq::new(changes.len(), |i: int| change_event::<P>(node, changes[i].1))
}

/// Validates and produces single-server membership changes, and applies the committed ones.
pub struct ConfigChangeManager {
    config: Configuration,
    pending_change: Option<LogIndex>,
}

impl ConfigChangeManager {
    pub closed spec fn configuration(&self) -> Configuration {
        self.config
    }

    /// Log index of the membership change that is not yet applied, if any.
    pub closed spec fn pending(&self) -> Option<LogIndex> {
        self.pending_change
    }

    /// The state that `apply_changes` acts on.
    pub open spec fn membership(&self, role: NodeState, replication: LogReplicationManager) -> MembershipState {
        MembershipState {
            members: self.configuration().members@,
            pending: self.pending(),
            role,
            next: replication.next(),
            matched: replication.matched(),
            catching: replication.catching(),
        }
    }

    pub fn new(config: Configuration) -> (r: Self)
        ensures
            r.configuration() == config,
            r.pending() is None,
    {
        ConfigChangeManager { config, pending_change: None }
    }

    pub fn config(&self) -> (r: &Configuration)
        ensures
            *r == self.configuration(),
    {
        &self.config
    }

    pub fn is_change_committed(&self, index: LogIndex, commit_index: LogIndex) -> (r: bool)
        ensures
            r == (index <= commit_index),
    {
        index <= commit_index
    }

    /// The change that adds `node_id`, when allowed (see `add_server_result`).
    pub fn add_server(&mut self, node_id: NodeId, self_id: NodeId, is_leader: bool, commit_index: LogIndex) -> (r: Result<
        ConfigurationChange,
        ConfigError,
    >)
        ensures
            *final(self) == *old(self),
            r == add_server_result(
                old(self).pending(),
                old(self).configuration().members@,
                node_id,
                self_id,
                is_leader,
                commit_index,
            ),
    {
        if !is_leader {
            return Err(ConfigError::NotLeader);
        }
        if let Some(pending_index) = self.pending_change {
            if !self.is_change_committed(pending_index, commit_index) {
                return Err(ConfigError::ConfigChangeInProgress);
            }
        }
        if node_id == self_id || self.config.contains(node_id) {
            return Err(ConfigError::NodeAlreadyExists);
        }
        Ok(ConfigurationChange::AddServer(node_id))
    }

    /// The change that removes `node_id`, when allowed (see `remove_server_result`).
    pub fn remove_server(&mut self, node_id: NodeId, self_id: NodeId, is_leader: bool, commit_index: LogIndex) -> (r: Result<
        ConfigurationChange,
        ConfigError,
    >)
        ensures
            *final(self) == *old(self),
            r == remove_server_result(
                old(self).pending(),
                old(self).configuration().members@,
                node_id,
                self_id,
                is_leader,
                commit_index,
            ),
    {
        if !is_leader {
            return Err(ConfigError::NotLeader);
        }
        if let Some(pending_index) = self.pending_change {
            if !self.is_change_committed(pending_index, commit_index) {
                return Err(ConfigError::ConfigChangeInProgress);
            }
        }
        if self.config.size() == 1 {
            return Err(ConfigError::CannotRemoveLastNode);
        }
        if node_id != self_id && !self.config.contains(node_id) {
            return Err(ConfigError::NodeNotFound);
        }
        Ok(ConfigurationChange::RemoveServer(node_id))
    }

    pub fn track_pending_change(&mut self, index: LogIndex)
        ensures
            final(self).pending() == Some(index),
            final(self).configuration() == old(self).configuration(),
    {
        self.pending_change = Some(index);
    }

    /// Applies committed membership changes in log order (see `apply_change`).
    pub fn apply_changes<O: Observer>(
        &mut self,
        changes: ConfigChangeCollection,
        self_id: NodeId,
        last_log_index: LogIndex,
        replication: &mut LogReplicationManager,
        observer: &mut O,
        current_role: &mut NodeState,
    )
        requires
            *old(current_role) == NodeState::Leader && adds_server(changes@) ==> last_log_index < u64::MAX,
        ensures
            final(self).membership(*final(current_role), *final(replication)) == apply_changes_spec(
                old(self).membership(*old(current_role), *old(replication)),
                changes@,
                self_id,
                last_log_index,
            ),
            final(replication).commit() == old(replication).commit(),
            final(replication).applied() == old(replication).applied(),
            final(observer).events() == old(observer).events() + change_events::<O::Payload>(self_id, changes@),
    {
        let list = changes.iter();
        let mut i: usize = 0;
        while i < list.len()
            invariant
                i <= list@.len(),
                list@ == changes@,
                *current_role == NodeState::Leader ==> *old(current_role) == NodeState::Leader,
                *old(current_role) == NodeState::Leader && adds_server(changes@) ==> last_log_index < u64::MAX,
                self.membership(*current_role, *replication) == apply_changes_spec(
                    old(self).membership(*old(current_role), *old(replication)),
                    changes@.take(i as int),
                    self_id,
                    last_log_index,
                ),
                replication.commit() == old(replication).commit(),
                replication.applied() == old(replication).applied(),
                observer.events() == old(observer).events() + change_events::<O::Payload>(self_id, changes@.take(i as int)),
            decreases list@.len() - i,
        {
            let (index, change) = list[i];
            assert(changes@[i as int] == (index, change));
            assert(changes@.take(i as int + 1).drop_last() =~= changes@.take(i as int));
            let ghost before = observer.events();
            assert(before.push(change_event::<O::Payload>(self_id, change)) =~= old(observer).events()
                + change_events::<O::Payload>(self_id, changes@.take(i as int + 1)));
            match change {
                ConfigurationChange::AddServer(node_id) => {
                    observer.configuration_change_applied(self_id, node_id, true);
                    let mut new_members = NodeCollection::from_slice(self.config.members.iter());
                    new_members.push(node_id);
                    self.config = Configuration::new(new_members);
                    if *current_role == NodeState::Leader {
                        let next_index = last_log_index + 1;
                        replication.next_index_mut().insert(node_id, next_index);
                        replication.match_index_mut().insert(node_id, 0);
                        replication.mark_server_catching_up(node_id);
                    }
                },
                ConfigurationChange::RemoveServer(node_id) => {
                    observer.configuration_change_applied(self_id, node_id, false);
                    let mut new_members = NodeCollection::from_slice(self.config.members.iter());
                    new_members.remove(node_id);
                    self.config = Configuration::new(new_members);
                    if *current_role == NodeState::Leader {
                        replication.next_index_mut().remove(node_id);
                        replication.match_index_mut().remove(node_id);
                    }
                    if node_id == self_id {
                        *current_role = NodeState::Follower;
                    }
                },
            }
            if let Some(pending_index) = self.pending_change {
                if index == pending_index {
                    self.pending_change = None;
                }
            }
            i = i + 1;
        }
        assert(changes@.take(changes@.len() as int) =~= changes@);
    }
}

} // verus!
