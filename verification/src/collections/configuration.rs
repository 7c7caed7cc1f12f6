use crate::collections::node_collection::{without, NodeCollection};
use crate::types::NodeId;
use vstd::prelude::*;

verus! {

/// The members of the cluster.
#[derive(Clone, Debug, PartialEq)]
pub struct Configuration {
    pub members: NodeCollection,
}

/// The number of votes that makes a majority of `size` members (0 for an empty cluster).
pub open spec fn quorum_size_of(size: nat) -> nat {
    if size == 0 {
        0
    } else {
        size / 2 + 1
    }
}

/// The quorum of a non-empty cluster is the smallest count that is more than half of
/// it: one vote fewer is at most half. An empty cluster needs no vote.
pub proof fn lemma_quorum_is_smallest_majority(size: nat)
    ensures
        size > 0 ==> 2 * quorum_size_of(size) > size,
        size > 0 ==> 2 * (quorum_size_of(size) - 1) <= size,
        size > 0 ==> forall|count: nat| #[trigger] (2 * count) > size <==> count >= quorum_size_of(size),
        size == 0 ==> quorum_size_of(size) == 0,
{
}

/// Any two majorities of a non-empty cluster share a member: their sizes add up
/// to more than the cluster holds.
pub proof fn lemma_quorums_overlap(size: nat)
    requires
        size > 0,
    ensures
        2 * quorum_size_of(size) > size,
        quorum_size_of(size) <= size,
{
}

impl Configuration {
    pub fn new(members: NodeCollection) -> (r: Self)
        ensures
            r.members == members,
    {
        Configuration { members }
    }

    pub fn contains(&self, node_id: NodeId) -> (r: bool)
        ensures
            r == self.members@.contains(node_id),
    {
        self.members.contains(node_id)
    }

    pub fn size(&self) -> (r: usize)
        ensures
            r == self.members@.len(),
    {
        self.members.len()
    }

    pub fn quorum_size(&self) -> (r: usize)
        ensures
            r == quorum_size_of(self.members@.len()),
            self.members@.len() > 0 ==> 2 * r > self.members@.len() && 2 * (r - 1) <= self.members@.len(),
    {
        let size = self.size();
        if size == 0 {
            0
        } else {
            (size / 2) + 1
        }
    }

    pub fn has_quorum(&self, count: usize) -> (r: bool)
        ensures
            r == (count >= quorum_size_of(self.members@.len())),
            self.members@.len() > 0 ==> (r <==> 2 * count > self.members@.len()),
    {
        count >= self.quorum_size()
    }

    /// The members, in order.
    pub fn iter(&self) -> (r: &[NodeId])
        ensures
            r@ == self.members@,
    {
        self.members.iter()
    }

    /// The members other than `self_id`, in order.
    pub fn peers(&self, self_id: NodeId) -> (r: Vec<NodeId>)
        ensures
            r@ == without(self.members@, self_id),
    {
        let mut copy = NodeCollection::from_slice(self.members.iter());
        copy.remove(self_id);
        let mut out: Vec<NodeId> = Vec::new();
        let mut i: usize = 0;
        while i < copy.len()
            invariant
                i <= copy@.len(),
                copy@ == without(self.members@, self_id),
                out@ == copy@.take(i as int),
            decreases copy@.len() - i,
        {
            out.push(copy.get(i));
            i = i + 1;
            assert(out@ =~= copy@.take(i as int));
        }
        assert(out@ =~= copy@);
        out
    }
}

} // verus!
