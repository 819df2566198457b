# circuit_breaker

A graduated emergency stop for a supply-chain ledger, verified with Verus.

Guardians pause the guarded system at one of four levels (Advisory,
Partial, Full, Emergency), either at once or through a proposal that other
guardians approve; an administrator manages the guardians and lifts pauses;
pauses with a duration lapse by themselves.

Layout:

- `src/types.rs` — addresses, levels, reasons, errors, the live state, pause
  records, proposals and announcements, each with its mathematical view.
- `src/rules.rs` — the limits, input validation, deadlines, and what each
  level blocks.
- `src/model.rs` — the whole breaker as mathematical values, its invariant,
  what every call does to it (`apply`), and what a sequence of calls does
  (`run`).
- `src/contract.rs` — the breaker's state and operations, each proved to do
  what `model.rs` says and to keep the invariant.
- `src/laws.rs` — properties across operations, proved.
- `tests/` — scenario and edge-case tests.
- `app/lib.rs` — the Soroban contract around the library: storage,
  authentication, the ledger clock and event publishing.
