use crate::node_state::NodeState;
use vstd::prelude::*;

verus! {

/// The colour of a server's status LED.
#[derive(Debug, Clone, Copy, PartialEq, Eq, Structural)]
pub enum LedColor {
    Green,
    Yellow,
    Red,
}

/// Green for a leader, yellow for a candidate, red for a follower.
pub open spec fn color_of(s: NodeState) -> LedColor {
    match s {
        NodeState::Leader => LedColor::Green,
        NodeState::Candidate => LedColor::Yellow,
        NodeState::Follower => LedColor::Red,
    }
}

/// The status LED of one server, showing its role.
pub struct LedState {
    node_id: u8,
    current_state: NodeState,
}

impl LedState {
    pub closed spec fn shown(&self) -> NodeState {
        self.current_state
    }

    pub closed spec fn node(&self) -> u8 {
        self.node_id
    }

    /// A server starts as follower.
    pub fn new(node_id: u8) -> (r: Self)
        ensures
            r.node() == node_id,
            r.shown() == NodeState::Follower,
    {
        LedState { node_id, current_state: NodeState::Follower }
    }

    /// Shows `new_state`. Returns whether it differs from what was shown, in which
    /// case the LED is to be redrawn.
    pub fn update(&mut self, new_state: &NodeState) -> (changed: bool)
        ensures
            changed == (old(self).shown() != *new_state),
            final(self).shown() == *new_state,
            final(self).node() == old(self).node(),
    {
        if self.current_state != *new_state {
            self.current_state = *new_state;
            true
        } else {
            false
        }
    }

    pub fn color(&self) -> (r: LedColor)
        ensures
            r == color_of(self.shown()),
    {
        match self.current_state {
            NodeState::Leader => LedColor::Green,
            NodeState::Candidate => LedColor::Yellow,
            NodeState::Follower => LedColor::Red,
        }
    }

    pub fn node_id(&self) -> (r: u8)
        ensures
            r == self.node(),
    {
        self.node_id
    }

    pub fn current_state(&self) -> (r: NodeState)
        ensures
            r == self.shown(),
    {
        self.current_state
    }
}

} // verus!
