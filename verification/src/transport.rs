use crate::raft_messages::RaftMsg;
use crate::types::NodeId;
use vstd::prelude::*;

verus! {

/// Delivers messages to other servers.
///
/// `sent` is everything handed to `send`, in order, with its destination.
pub trait Transport {
    type Payload: Clone;

    spec fn sent(&self) -> Seq<(NodeId, RaftMsg<Self::Payload>)>;

    fn send(&mut self, target: NodeId, msg: RaftMsg<Self::Payload>)
        ensures
            final(self).sent() == old(self).sent().push((target, msg)),
    ;
}

} // verus!
