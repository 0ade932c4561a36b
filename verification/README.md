# amm

A constant-product AMM program (X/Y pool with an LP mint), with its
instruction logic verified in Verus.

- `src/` — the verified library. `instructions/` holds one module per
  instruction (`initialize`, `deposit`, `withdraw`, `swap`); each decides the
  ordered token movements it asks for (`moves.rs`) and states the balances
  after them. `laws.rs` proves the properties that span instructions.
- `app/` — the Anchor program around the library: account validation, the
  constant-product-curve calls, whose results it hands to the library, and
  the token-program calls that carry out the library's movements, signed with
  the seeds the library builds.
- `tests/` — tests of the library on concrete values.

The library states what the program's code does, including where that is
surprising:

- Deposits require the pool to be unlocked, while withdrawals and swaps
  require it to be locked; no instruction ever sets the lock, so a pool keeps
  the unlocked state that initialization gives it and accepts only deposits.
- A withdrawal signs its vault payouts for the config account with the config
  account's address as the second seed, where the config was derived from the
  pool's seed byte; the runtime refuses those calls, so no withdrawal is ever
  paid out.
- A swap deposits into and pays out of the vault of the same side.

The token movements are modelled by their effect on balances (insufficient
funds and overflow, as the token program checks them) and by whether the
program's signer seeds derive the config account; other checks of the token
program (frozen accounts, mismatched mints) are not modelled.
