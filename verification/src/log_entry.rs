use crate::types::{NodeId, Term};
use vstd::prelude::*;

verus! {

/// What a log entry carries: a client command, or a change of membership.
#[derive(Clone, Debug, PartialEq)]
pub enum EntryType<P> {
    Command(P),
    ConfigChange(ConfigurationChange),
}

/// A single-server change of the cluster membership.
#[derive(Clone, Copy, Debug, PartialEq, Eq, Structural)]
pub enum ConfigurationChange {
    AddServer(NodeId),
    RemoveServer(NodeId),
}

/// An entry of the replicated log.
#[derive(Clone, Debug, PartialEq)]
pub struct LogEntry<P> {
    pub term: Term,
    pub entry_type: EntryType<P>,
}

/// `b` is a copy of `a`: same term and kind, with the payload cloned.
pub open spec fn entry_cloned<P: Clone>(a: LogEntry<P>, b: LogEntry<P>) -> bool {
    &&& a.term == b.term
    &&& match (a.entry_type, b.entry_type) {
        (EntryType::Command(p), EntryType::Command(q)) => cloned(p, q),
        (EntryType::ConfigChange(c), EntryType::ConfigChange(d)) => c == d,
        _ => false,
    }
}

/// `b` holds copies of the entries of `a`, in the same order.
pub open spec fn entries_cloned<P: Clone>(a: Seq<LogEntry<P>>, b: Seq<LogEntry<P>>) -> bool {
    &&& a.len() == b.len()
    &&& forall|i: int| 0 <= i < a.len() ==> #[trigger] entry_cloned(a[i], b[i])
}

impl<P: Clone> LogEntry<P> {
    /// A copy of this entry.
    pub fn clone_entry(&self) -> (r: Self)
        ensures
            entry_cloned(*self, r),
    {
        let entry_type = match &self.entry_type {
            EntryType::Command(p) => EntryType::Command(p.clone()),
            EntryType::ConfigChange(c) => EntryType::ConfigChange(*c),
        };
        LogEntry { term: self.term, entry_type }
    }
}

/// Copies of all the entries of `entries`, in order.
pub fn clone_entries<P: Clone>(entries: &[LogEntry<P>]) -> (r: Vec<LogEntry<P>>)
    ensures
        entries_cloned(entries@, r@),
{
    let mut r: Vec<LogEntry<P>> = Vec::new();
    let mut i: usize = 0;
    while i < entries.len()
        invariant
            i <= entries@.len(),
            r@.len() == i,
            forall|k: int| 0 <= k < i ==> #[trigger] entry_cloned(entries@[k], r@[k]),
        decreases entries@.len() - i,
    {
        r.push(entries[i].clone_entry());
        i = i + 1;
    }
    r
}

} // verus!
