# bitvm2_core

Verified core of a BitVM2 bridge node, written in Verus.

- `src/graph_transition.rs`, `src/instance_bridge_in_transition.rs`,
  `src/instance_bridge_out_transition.rs`: the status machines of graphs and of
  bridge-in / bridge-out instances, their guarded setters, and proved laws
  (self-loops, absorbing terminal states, exclusive outcomes, no path that
  skips committee attestation, the unguarded writers' violation).
- `src/block_proving.rs`: block proving status labels and the proof-pruning
  decision.
- `src/persist_report.rs`: rows of the CSV execution report.
- `src/aggregation.rs`: chaining check and proof digests for aggregating two
  consecutive range proofs (SHA-256 through `sha2`).
- `app/`: database hooks, report file I/O and the zkVM guest entry point.
- `tests/`: runtime tests of the library.
