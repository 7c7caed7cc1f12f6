use crate::types::NodeId;
use vstd::prelude::*;

verus! {

/// Why a client request to the cluster failed.
#[derive(Debug, Clone, Copy, PartialEq, Eq, Structural)]
pub enum ClusterError {
    /// No leader currently elected
    NoLeader,
    /// Channel send failed
    ChannelFull,
    /// Timeout waiting for response
    Timeout,
}

/// One look at the cluster while a client waits for a leader: a known leader ends the
/// wait; with no leader the wait ends in `Timeout` once more than `timeout_millis`
/// have passed, and goes on (`None`) otherwise.
pub fn wait_for_leader_step(current_leader: Option<NodeId>, elapsed_millis: u64, timeout_millis: u64) -> (r: Option<
    Result<NodeId, ClusterError>,
>)
    ensures
        current_leader is Some ==> r == Some(Ok::<NodeId, ClusterError>(current_leader->0)),
        current_leader is None && elapsed_millis > timeout_millis ==> r == Some(
            Err::<NodeId, ClusterError>(ClusterError::Timeout),
        ),
        current_leader is None && elapsed_millis <= timeout_millis ==> r is None,
{
    if let Some(leader) = current_leader {
        return Some(Ok(leader));
    }
    if elapsed_millis > timeout_millis {
        return Some(Err(ClusterError::Timeout));
    }
    None
}

} // verus!
