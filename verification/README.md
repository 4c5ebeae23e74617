# matching_pennies

Referee for a game of matching pennies between two bots.

- `src/` — the verified referee logic: reading picks (`picks`), scoring and
  the match winner (`scoring`), the outcome of a round (`status`), the status
  message characters (`wire`) and the referee's state between rounds
  (`server`).
- `app/` — the programs around it: the ZeroMQ transport, MessagePack
  encoding, the floating-point score formula, two simple bots and the
  transport benchmarks.
- `tests/` — tests of the library, including whole matches played with the
  score formula.
