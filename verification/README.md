# mines_game

Verified game logic of a Mines casino game on a 5x5 board: configuration,
starting a game, placing mines from oracle randomness with a seeded
Fisher-Yates shuffle, revealing tiles, cashing out with a house edge, and
house withdrawals.

- `src/` — the library, verified with Verus. `state.rs` holds the two
  accounts and their well-formedness; `instructions/` holds one module per
  instruction, each a function from the values the instruction reads to its
  result and new state; `laws.rs` holds the laws that relate instructions.
- `app/` — the on-chain program around the library: account validation,
  token transfers, the clock, events, logs, and the floating-point risk curve
  of the multiplier.
- `tests/` — tests of the library on concrete values.
