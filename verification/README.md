# mars_rover

A Stellar sandbox for Soroban contract tests: an in-memory ledger state with
time to live, account funding, transaction validation, submission and
simulation, and the records a Stellar RPC server answers with.

- `src/` is the library, verified with Verus. Outside values (XDR) are held
  as their canonical encoding; trusted wrappers in `xdr.rs`, `transaction.rs`,
  `crypto.rs` and `model.rs` call stellar-xdr, sha2, ed25519-dalek and hex.
  The Soroban host itself runs outside the library: the sandbox prepares a
  `HostInvocation` or a `SimulationRequest`, and applies the `HostOutcome` or
  `SimulationOutcome` it is handed back.
- `app/` is the Node.js binding (`MarsRover`, napi), which runs the host and
  turns the library's answers into JSON.
- `tests/` runs the library against the real outside crates.
