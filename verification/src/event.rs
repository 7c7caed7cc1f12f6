use crate::log_entry::ConfigurationChange;
use crate::raft_messages::RaftMsg;
use crate::timer_service::TimerKind;
use crate::types::NodeId;
use vstd::prelude::*;

verus! {

/// Something that happens to a server: it is what drives a `RaftNode`.
pub enum Event<P> {
    Message { from: NodeId, msg: RaftMsg<P> },
    TimerFired(TimerKind),
    ClientCommand(P),
    ConfigChange(ConfigurationChange),
}

} // verus!
