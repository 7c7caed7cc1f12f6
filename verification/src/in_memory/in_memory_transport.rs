use crate::raft_messages::RaftMsg;
use crate::transport::Transport;
use crate::types::NodeId;
use vstd::prelude::*;

verus! {

/// A transport that queues outgoing messages until they are drained for delivery.
pub struct InMemoryTransport<P> {
    outbox: Vec<(NodeId, RaftMsg<P>)>,
}

impl<P: Clone> InMemoryTransport<P> {
    pub fn new() -> (r: Self)
        ensures
            r.sent() == Seq::<(NodeId, RaftMsg<P>)>::empty(),
    {
        InMemoryTransport { outbox: Vec::new() }
    }

    /// Takes the queued messages, oldest first.
    pub fn drain_outbox(&mut self) -> (r: Vec<(NodeId, RaftMsg<P>)>)
        ensures
            r@ == old(self).sent(),
            final(self).sent() == Seq::<(NodeId, RaftMsg<P>)>::empty(),
    {
        let mut out: Vec<(NodeId, RaftMsg<P>)> = Vec::new();
        std::mem::swap(&mut out, &mut self.outbox);
        out
    }

    /// How many messages are queued.
    pub fn len(&self) -> (r: usize)
        ensures
            r == self.sent().len(),
    {
        self.outbox.len()
    }
}

impl<P: Clone> Transport for InMemoryTransport<P> {
    type Payload = P;

    closed spec fn sent(&self) -> Seq<(NodeId, RaftMsg<P>)> {
        self.outbox@
    }

    fn send(&mut self, target: NodeId, msg: RaftMsg<P>) {
        self.outbox.push((target, msg));
    }
}

} // verus!
