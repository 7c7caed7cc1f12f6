# raft_core

A Raft consensus core whose behaviour is stated in `requires`/`ensures` contracts and
proved with Verus: leader election with pre-vote, log replication, commitment by
majority, log compaction with snapshots, single-server membership changes and a
leader lease for reads.

Layout:

- `src/collections`: the cluster configuration, node lists, the per-follower index
  map (with the majority index that decides commitment) and lists of committed
  membership changes.
- `src/components`: the election, replication, membership, snapshot and lease
  managers, and the message handler that runs the protocol on a server's whole
  state (`MessageHandlerContext`).
- `src/raft_node.rs`, `src/raft_node_builder.rs`: a server driven by events.
- `src/storage.rs`, `src/transport.rs`, `src/timer_service.rs`: the interfaces a
  server runs on, with their contracts; `src/in_memory` holds verified
  implementations of them.
- `src/state_machine.rs`, `src/observer.rs`: what a server hands its state machine
  (the commands applied, in order, and snapshots of them) and the notifications it
  gives its observer, each modelled as a sequence that the contracts speak of.
- `src/wire.rs`: the message shapes that go over the network.
- `src/sim`: the simulated cluster's own logic (frame routing, addresses, the
  observer-level configuration, the status LED, waiting for a leader).
- `app/`: serialization with serde and postcard, UDP sockets, console logging.
- `tests/`: the test suite.
