# admin_authority

Single-admin authority for LEZ programs, verified with Verus.

One account id per program is the admin; the all-zero id marks the
renounced state, which is terminal. The admin slot is 32 bytes, stored
either as the whole data of a dedicated Config PDA or as a window at a
byte offset inside a program's own account.

## Layout

- `src/account.rs`: plain-value models of accounts and account ids.
- `src/errors.rs`: `AdminError`, the slot-level `AuthorityError`, messages.
- `src/codec.rs`: borsh encoding of byte arrays and `u64`, through `borsh`.
- `src/slot.rs`: the slot (check, transfer, renounce, windowed read and
  splice) and the transfer candidate with its validation.
- `src/config.rs`: `AdminConfig` and its operations on accounts, with the
  spec functions their contracts are stated over.
- `src/gate.rs`: what the attribute macros decide, over strings and lists.
  renounce instructions.
- `src/gate.rs`: the attribute macros' decisions on plain values.
- `src/program.rs`: the program-level error.
- `src/sample_*.rs`: the three reference programs (dedicated, manual,
  embedded).
- `src/laws.rs`: proved laws: renounce is terminal, only the admin acts,
  the sentinel is never installed, one admin at a time, round trips,
  splices keep their neighbors, state discrimination.
- `app/lib.rs`: the SPEL framework boundary.
- `tests/`: scenario tests.
