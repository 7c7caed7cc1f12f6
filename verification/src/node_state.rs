use vstd::prelude::*;

verus! {

/// The role a server currently plays in the Raft protocol.
#[derive(Debug, Clone, Copy, PartialEq, Eq, Structural)]
pub enum NodeState {
    Follower,
    Candidate,
    Leader,
}

} // verus!
