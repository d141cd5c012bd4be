# pda_local

A movie review program for Solana: reviews, comment counters and comments
kept in program-derived accounts, with a token reward for each review and
comment.

- `src/` is the verified library (Verus). `state.rs` holds the account
  state and its byte layout, `encoding.rs` the primitive layouts,
  `instruction.rs` the instruction format, `processor.rs` the instruction
  handlers, whose steps `steps.rs` states as functions over the values of
  `model.rs`. `laws.rs` proves properties of every instruction, and
  `outside.rs` holds the calls into `solana_program`,
  `spl_associated_token_account`, `spl_token` and `std`, with the contracts
  they are trusted to meet.
- An instruction runs as a sequence of steps. Each step reads and overwrites
  account data and ends by asking for the rent of an account, for a
  cross-program invocation, or by finishing with a result.
- `app/` is the entry point: it snapshots the accounts, runs the steps,
  answers rent queries with the rent sysvar, performs the invocations, and
  copies written data back into the accounts.
- `tests/` checks the layouts against borsh and runs the handlers on
  concrete accounts.
