# soroban_invariant_kit

Invariant checking for multi-contract financial flows (milestone escrow, payment
streaming, split payments), verified with Verus.

- `src/adapter.rs`: `ContractAdapter`, the bridge to a concrete contract deployment, and
  `ActionResult`.
- `src/invariants.rs`: `InvariantResult` and its model `Verdict`, the `Invariant` trait,
  `InvariantSet` and the laws on the violations it reports.
- `src/escrow.rs`, `src/streaming.rs`, `src/split.rs`: normalized snapshots, adapter traits,
  the invariant packs, the specification of every check and the laws that characterize
  when each check passes.
- `src/transition.rs`, `src/report.rs`: traces and violation reports.
- `src/runner.rs`: `InvariantRunner`, which runs an action sequence and stops at the first
  violation. For a run that ends without an adapter failure, its contract states the trace
  and the first violation it returns, and ties every recorded state to the snapshots of the
  adapter before and after each action; these ties hold for adapters and invariants whose
  specification functions match their code (see `ContractAdapter` and `Invariant`).
- `src/text.rs`: decimal rendering of diagnostic messages.
- `app/lib.rs`: harness glue that Verus does not check: the proptest `invariant_test!`
  macro, panicking runners, report formatting, fuzzing from bytes and a `thiserror` error
  type.
