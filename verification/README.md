# barter-python (verified core)

The logic behind the Python bindings of the Barter trading engine, written in
Verus and proved against its contracts.

- `src/` — the verified library:
  - `decimal` — exact decimals as `rust_decimal` stores them (96-bit magnitude,
    sign flag, scale) and their ordering.
  - `risk`, `config` — risk limits and their validation, the per-instrument
    overrides kept sorted by instrument index, and the system configuration.
  - `balance`, `exchange` — balances, initial balances and exchange labels.
  - `order`, `account`, `command` — order keys, requests and snapshots,
    account snapshot checks, instrument filters.
  - `parse`, `text` — the textual options (intervals, sides, feed modes,
    option kinds) and the character-level helpers they rest on.
  - `socket_error` — how socket errors are classified and described.
  - `sequence`, `instrument` — sequence counters and instrument specifications.
- `tests/` — tests run against the compiled library with the real outside crates.
- `app/` — the PyO3 module around the library: Python conversions, JSON
  configuration files, and what rests on floating point.
