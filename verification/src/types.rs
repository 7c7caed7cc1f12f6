use vstd::prelude::*;

verus! {

/// Identifier of a server in the cluster.
pub type NodeId = u64;

/// A Raft term number.
pub type Term = u64;

/// Position of an entry in the replicated log; the first entry has index 1.
pub type LogIndex = u64;

} // verus!
