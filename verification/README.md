# Confidential payments

A Token-2022 confidential payments program and its command line client. The logic is a
Verus library: `src/` is verified, and `app/` is ordinary Rust that loads accounts, talks to
the network and prints.

- `src/instructions/`: the on-chain program. `validate` checks the accounts of an
  instruction, `handler` says which calls to make.
- `src/client.rs`, `src/session.rs`: the client. Each request is a conversation of `Step`s;
  `resume` takes the answer to a step and returns the next one.
- `src/keys.rs`, `src/balance.rs`: encryption keys, balances and proofs.
- `src/calls.rs`, `src/token.rs`, `src/system.rs`, `src/zk.rs`: instructions.
- `src/laws.rs`, `src/promises.rs`, `src/outcomes.rs`: what holds of whole conversations, of
  balances, and of the accounts that a request which succeeds leaves behind.
- `tests/`: `payments.rs` runs the program and the client against Token-2022 itself on a
  small in-memory ledger; `client.rs` and `program.rs` test the parts.

Amounts are raw token units.
