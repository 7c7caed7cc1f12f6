use vstd::prelude::*;

pub mod clock;
pub mod collections;
pub mod components;
pub mod event;
pub mod in_memory;
pub mod log_entry;
pub mod node_state;
pub mod observer;
pub mod raft_messages;
pub mod raft_node;
pub mod raft_node_builder;
pub mod sim;
pub mod snapshot;
pub mod state_machine;
pub mod storage;
pub mod timer_service;
pub mod transport;
pub mod types;
pub mod wire;

verus! {

} // verus!
