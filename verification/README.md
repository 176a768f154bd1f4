# contracts-oracle

The match-result oracle of a chess escrow platform, written in Verus.

- `src/oracle.rs`: the oracle's ledger state (`OracleState`) and its entry
  points (`OracleContract`). Each entry point is specified by a transition
  function from state and arguments to next state and result; the state also
  records what the invocation asks of the ledger host (time-to-live
  extensions, authorization, storage writes, events), see `src/host.rs`.
- `src/laws.rs`: properties across entry points (a submitted result is read
  back, nothing is written while paused, initialization happens once, batches
  are all or nothing, recorded results are never overwritten, ...).
- `src/escrow.rs`: the escrow's match registry (match ids and match count).
- `app/lib.rs`: the Soroban contract, which loads the state an invocation
  reads, runs the verified entry point and performs its host requests.
