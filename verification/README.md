# craps_pinocchio

A verified core for an on-chain craps game on Solana, written in Verus.

- `src/` is the library. Every function in it is verified: the dice and bet
  rules, the packed bet encoding, payouts and claims, the account layouts, the
  randomness cycle, the treasury's circuit breaker, the events the program logs,
  the routing of instructions and the state transitions each instruction makes.
  `src/client/` holds the player's side: the model of the table, the statistics,
  the hotkeys, the key handling of the screens and the bytes the client reads and
  sends.
- `app/` is the program around the library: account loading, token transfers,
  logging and the entrypoint. It hands the library plain values and writes back
  what the library returns.
- `tests/` runs the library on concrete values.
