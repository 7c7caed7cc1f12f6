use crate::types::NodeId;
use vstd::prelude::*;

verus! {

/// An ordered list of server ids.
#[derive(Clone, Debug, PartialEq)]
pub struct NodeCollection {
    ids: Vec<NodeId>,
}

impl View for NodeCollection {
    type V = Seq<NodeId>;

    closed spec fn view(&self) -> Seq<NodeId> {
        self.ids@
    }
}

/// The ids of `s` other than `id`, in order.
pub open spec fn without(s: Seq<NodeId>, id: NodeId) -> Seq<NodeId> {
    s.filter(other_than(id))
}

/// The predicate "is not `id`".
pub open spec fn other_than(id: NodeId) -> spec_fn(NodeId) -> bool {
    |x: NodeId| x != id
}

/// Removing `id` from a list extended by `x`.
pub proof fn lemma_without_push(s: Seq<NodeId>, x: NodeId, id: NodeId)
    ensures
        without(s.push(x), id) == (if x != id {
            without(s, id).push(x)
        } else {
            without(s, id)
        }),
{
    s.lemma_filter_push(x, other_than(id));
}

impl NodeCollection {
    pub fn new() -> (r: Self)
        ensures
            r@ == Seq::<NodeId>::empty(),
    {
        NodeCollection { ids: Vec::new() }
    }

    /// A collection holding `ids`, in order.
    pub fn from_slice(ids: &[NodeId]) -> (r: Self)
        ensures
            r@ == ids@,
    {
        let mut v: Vec<NodeId> = Vec::new();
        let mut i: usize = 0;
        while i < ids.len()
            invariant
                i <= ids@.len(),
                v@ == ids@.take(i as int),
            decreases ids@.len() - i,
        {
            v.push(ids[i]);
            i = i + 1;
            assert(v@ =~= ids@.take(i as int));
        }
        assert(v@ =~= ids@);
        NodeCollection { ids: v }
    }

    pub fn push(&mut self, node_id: NodeId)
        ensures
            final(self)@ == old(self)@.push(node_id),
    {
        self.ids.push(node_id);
    }

    /// Removes every occurrence of `node_id`.
    pub fn remove(&mut self, node_id: NodeId)
        ensures
            final(self)@ == without(old(self)@, node_id),
    {
        let mut kept: Vec<NodeId> = Vec::new();
        let mut i: usize = 0;
        let ghost s = self.ids@;
        while i < self.ids.len()
            invariant
                s == self.ids@,
                i <= s.len(),
                kept@ == without(s.take(i as int), node_id),
            decreases s.len() - i,
        {
            let id = self.ids[i];
            assert(s.take(i as int + 1) =~= s.take(i as int).push(id));
            proof {
                lemma_without_push(s.take(i as int), id, node_id);
            }
            if id != node_id {
                kept.push(id);
            }
            i = i + 1;
            assert(kept@ =~= without(s.take(i as int), node_id));
        }
        assert(s.take(s.len() as int) =~= s);
        self.ids = kept;
    }

    pub fn len(&self) -> (r: usize)
        ensures
            r == self@.len(),
    {
        self.ids.len()
    }

    pub fn is_empty(&self) -> (r: bool)
        ensures
            r == (self@.len() == 0),
    {
        self.ids.len() == 0
    }

    pub fn clear(&mut self)
        ensures
            final(self)@ == Seq::<NodeId>::empty(),
    {
        self.ids = Vec::new();
    }

    pub fn contains(&self, node_id: NodeId) -> (r: bool)
        ensures
            r == self@.contains(node_id),
    {
        let mut i: usize = 0;
        while i < self.ids.len()
            invariant
                i <= self.ids@.len(),
                forall|k: int| 0 <= k < i ==> self.ids@[k] != node_id,
            decreases self.ids@.len() - i,
        {
            if self.ids[i] == node_id {
                return true;
            }
            i = i + 1;
        }
        false
    }

    pub fn get(&self, i: usize) -> (r: NodeId)
        requires
            i < self@.len(),
        ensures
            r == self@[i as int],
    {
        self.ids[i]
    }

    /// The ids, in order.
    pub fn iter(&self) -> (r: &[NodeId])
        ensures
            r@ == self@,
    {
        self.ids.as_slice()
    }
}

} // verus!
