# garble_service

Verified core of a garbled-circuit toolkit for v5 boolean circuits.

- `src/format.rs` — v5 header detection, the default path of a v5c circuit,
  and the decision of whether a v5c circuit must be produced.
- `src/prealloc.rs`, `src/slab.rs` — v5a-to-v5c conversion: gate-output wires
  are placed in reusable slots, freed after their last use; proofs that no two
  live wires share a slot, that every slot is below the scratch space, and
  that the converted circuit computes the same function.
- `src/labels.rs` — free-XOR wire labels and the selection of the evaluator's
  input labels; free-XOR laws.
- `src/service.rs`, `src/error.rs` — header checks and task configurations for
  garbling, evaluation and plain execution.
- `src/eval.rs` — the privacy-free half-gates evaluator state, with the
  free-XOR and half-gates laws.
- `src/bits.rs` — bit vectors backed by the `bitvec` crate.
- `app/` — file and task plumbing around the library.
