# sorosusu

The logic of the SoroSusu savings-circle contracts, written in Verus and
verified: every public function carries a `requires`/`ensures` contract, and
the properties that span several calls are stated and proved as `law_*`
proof functions.

## Layout

- `src/` — the verified library, one module per feature: deadlines, error
  codes, vault solvency checks, stealth payout order, soul-bound reputation
  credentials, adaptive quorums, vouching, aggregate credit, contribution
  transactions with Merkle inclusion proofs, yield vaults and the yield
  bridge, disputes and group clean-up, grant settlement and voting
  snapshots, reputation export, juror selection, default recovery, chat
  anchors, ordered transaction buffers, yearly summaries, batched yield
  distribution and the reserve auto-compounder.
- `src/bytes.rs` — byte encodings and the SHA-256 digest (through `sha2`),
  the one outside computation the library relies on.
- `app/` — Soroban glue: ledger time and randomness, account addresses,
  token transfers, calls into yield vaults and events. The library takes
  what these produce as arguments and returns what they must perform.
- `tests/` — tests of the library on concrete values.

Contract state lives in plain structs holding std `BTreeMap` and `Vec`
tables keyed by account numbers (`AccountId`), in place of Soroban's
`Map`, `Vec` and contract storage: those are handles into the host
environment (`Env`), whose contents Verus cannot see, so the library keeps
the same tables as ordinary values it can reason about, and `app/` maps
account numbers to `Address`es. The ledger time is passed in explicitly.

Inputs on which a contract call aborts are left out by the `requires` of
the library function. Where the condition takes more than a field or a
getter to test, a checking companion (`*_check`, with the spec function
`*_refusal`) tells the caller, before the call, which refusal applies. `app/` runs the check and aborts with the contract's
message. Refusals that a contract returns as errors stay `Err` results.
