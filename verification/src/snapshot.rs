use crate::types::{LogIndex, Term};
use vstd::prelude::*;

verus! {

/// Where a snapshot ends: the last log entry that it covers.
#[derive(Clone, Copy, Debug, PartialEq, Eq, Structural)]
pub struct SnapshotMetadata {
    pub last_included_index: LogIndex,
    pub last_included_term: Term,
}

/// A snapshot of the state machine, as bytes, with the log position it covers.
#[derive(Clone, Debug)]
pub struct Snapshot {
    pub metadata: SnapshotMetadata,
    pub data: Vec<u8>,
}

/// A piece of a snapshot, for transfer to a follower.
#[derive(Clone, Debug)]
pub struct SnapshotChunk {
    pub offset: usize,
    pub data: Vec<u8>,
    pub done: bool,
}

#[derive(Debug, Clone, Copy, PartialEq, Eq, Structural)]
pub enum SnapshotBuildError {
    InvalidOffset,
    Incomplete,
    OutOfBounds,
}

#[derive(Debug, Clone, Copy, PartialEq, Eq, Structural)]
pub enum SnapshotError {
    CorruptData,
    IncompatibleVersion,
    DeserializationFailed,
    NoEntriesToSnapshot,
    EntryNotFound,
    NotLeader,
}

/// A copy of `bytes`.
pub fn copy_bytes(bytes: &Vec<u8>) -> (r: Vec<u8>)
    ensures
        r@ == bytes@,
{
    let r = bytes.clone();
    assert(r@ =~= bytes@);
    r
}

/// Assembles a snapshot from chunks that arrive in order.
pub struct SnapshotBuilder {
    buffer: Vec<u8>,
}

impl View for SnapshotBuilder {
    type V = Seq<u8>;

    closed spec fn view(&self) -> Seq<u8> {
        self.buffer@
    }
}

impl SnapshotBuilder {
    pub fn new() -> (r: Self)
        ensures
            r@ == Seq::<u8>::empty(),
    {
        SnapshotBuilder { buffer: Vec::new() }
    }

    /// Appends `data` at `offset`, which must be where the bytes received so far end.
    pub fn add_chunk(&mut self, offset: usize, data: Vec<u8>) -> (r: Result<(), SnapshotBuildError>)
        ensures
            offset == old(self)@.len() ==> r is Ok && final(self)@ == old(self)@ + data@,
            offset != old(self)@.len() ==> r == Err::<(), SnapshotBuildError>(SnapshotBuildError::InvalidOffset)
                && final(self)@ == old(self)@,
    {
        if offset != self.buffer.len() {
            return Err(SnapshotBuildError::InvalidOffset);
        }
        let mut data = data;
        self.buffer.append(&mut data);
        Ok(())
    }

    /// How many bytes have been received.
    pub fn len(&self) -> (r: usize)
        ensures
            r == self@.len(),
    {
        self.buffer.len()
    }

    /// Whether exactly `expected_size` bytes have been received.
    pub fn is_complete(&self, expected_size: usize) -> (r: bool)
        ensures
            r == (self@.len() == expected_size),
    {
        self.buffer.len() == expected_size
    }

    /// The bytes received so far.
    pub fn build(self) -> (r: Result<Vec<u8>, SnapshotBuildError>)
        ensures
            r is Ok && r->Ok_0@ == self@,
    {
        Ok(self.buffer)
    }
}

} // verus!
