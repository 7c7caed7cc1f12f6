use crate::log_entry::ConfigurationChange;
use crate::types::LogIndex;
use vstd::prelude::*;

verus! {

/// Committed membership changes, each with the index of its log entry, in log order.
#[derive(Clone, Debug, PartialEq)]
pub struct ConfigChangeCollection {
    changes: Vec<(LogIndex, ConfigurationChange)>,
}

impl View for ConfigChangeCollection {
    type V = Seq<(LogIndex, ConfigurationChange)>;

    closed spec fn view(&self) -> Seq<(LogIndex, ConfigurationChange)> {
        self.changes@
    }
}

impl ConfigChangeCollection {
    pub fn new() -> (r: Self)
        ensures
            r@ == Seq::<(LogIndex, ConfigurationChange)>::empty(),
    {
        ConfigChangeCollection { changes: Vec::new() }
    }

    pub fn push(&mut self, index: LogIndex, change: ConfigurationChange)
        ensures
            final(self)@ == old(self)@.push((index, change)),
    {
        self.changes.push((index, change));
    }

    pub fn len(&self) -> (r: usize)
        ensures
            r == self@.len(),
    {
        self.changes.len()
    }

    pub fn is_empty(&self) -> (r: bool)
        ensures
            r == (self@.len() == 0),
    {
        self.changes.len() == 0
    }

    pub fn clear(&mut self)
        ensures
            final(self)@ == Seq::<(LogIndex, ConfigurationChange)>::empty(),
    {
        self.changes = Vec::new();
    }

    pub fn get(&self, i: usize) -> (r: (LogIndex, ConfigurationChange))
        requires
            i < self@.len(),
        ensures
            r == self@[i as int],
    {
        self.changes[i]
    }

    /// The changes, in log order.
    pub fn iter(&self) -> (r: &[(LogIndex, ConfigurationChange)])
        ensures
            r@ == self@,
    {
        self.changes.as_slice()
    }
}

} // verus!
