# obird

A multi-venue trading core — Hyperliquid, Binance USD-M futures, Polymarket and
predict.fun — whose logic is written in Verus and proved against its contracts.

## Layout

- `src/` — the verified library.
  - `decimal.rs` — `Dec`, a decimal with the representation of `rust_decimal`;
    arithmetic goes through `rust_decimal` itself.
  - `types/` — instruments, orders, positions, events, actions, configuration.
  - `venues/` — message normalisation and order bookkeeping per venue, the
    incremental order books, request building and signing.
  - `engine/` — instrument-keyed tables, the market-data bus, nonces, the risk
    gate and action routing.
  - `backtest/` — the matching engine, the simulated connector, the replay
    steps and event ordering.
  - `cli/` — argument parsing, market discovery rules, config rendering and the
    liquidation pricing.
  - `fair_value.rs`, `text.rs`, `clock.rs` — small services and helpers.
- `tests/` — tests of the library on concrete values.
- `app/` — the command-line program: logging, configuration files, the venues'
  HTTP and websocket I/O, and the router loop.
