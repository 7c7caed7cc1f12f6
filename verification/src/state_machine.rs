use crate::snapshot::SnapshotError;
use vstd::prelude::*;

verus! {

/// The replicated application. Raft hands it the committed commands, in log order.
///
/// Its contracts speak of `applied`, the commands the state machine has taken in, in
/// order, and of `snapshot_history`, the commands that snapshot bytes stand for (`None`
/// for bytes that are no snapshot). An implementation must override both: with the
/// defaults (no commands, no snapshots) the contracts of `apply`, `create_snapshot`
/// and `restore_from_snapshot` cannot be met, so they say nothing true of an
/// implementation that keeps them (as one written outside Verus does).
pub trait StateMachine {
    type Payload;

    closed spec fn applied(&self) -> Seq<Self::Payload> {
        Seq::empty()
    }

    closed spec fn snapshot_history(data: Seq<u8>) -> Option<Seq<Self::Payload>> {
        None
    }

    fn apply(&mut self, payload: &Self::Payload)
        ensures
            final(self).applied() == old(self).applied().push(*payload),
    ;

    fn get(&self, key: &str) -> Option<&str>;

    fn create_snapshot(&self) -> (r: Vec<u8>)
        ensures
            Self::snapshot_history(r@) == Some(self.applied()),
    ;

    fn restore_from_snapshot(&mut self, data: &Vec<u8>) -> (r: Result<(), SnapshotError>)
        ensures
            r is Ok <==> Self::snapshot_history(data@) is Some,
            r is Ok ==> final(self).applied() == Self::snapshot_history(data@)->0,
    ;
}

} // verus!
