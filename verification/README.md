# polygo_engine

The rules of a trading engine for short-lived up/down prediction markets on the
price of bitcoin, written in Verus: executable Rust whose behaviour is stated in
contracts and proved.

The engine watches the trades of the underlying, turns a fast move into a signal,
checks the order book of the prediction market, opens one position at a time, and
closes it by rules for profit, loss, reversal and time. A control plane starts and
stops it under a lease. A fault keeps it from starting until it is stopped; a lost audit
event keeps it from starting for good.

## Layout

- `src/` is the library.
  - `binary64`: arithmetic, order and rounding of 64-bit floating-point numbers,
    stated over integers and proved against them.
  - `text`, `json`, `http`, `time`, `stats`: texts, JSON strings, HTTP requests and
    answers, the clock, percentiles.
  - `config`, `runtime_config`: settings, their validation and their publication.
  - `market`, `ws`: the market that is open now, the price feed, the order books.
  - `engine`: positions and the daily loss limit, the momentum strategy, the decision
    on each tick.
  - `executor`: checks before an entry, limit and market orders followed to their end,
    the exit decision, dry runs and live tasks as state machines.
  - `shadow`: exits simulated beside the real ones.
  - `health`, `control`: faults, the lease and the control commands.
  - `emitter`: audit events.
- `tests/` holds the tests of the library.
- `app/` is the program around it: sockets, files, the exchange client, timers.

The functions named `law_...` state what holds of several functions together.

## What is taken on trust

The contracts of a few outside functions are believed without proof, each beside the
code that calls it: `String::push`, `core::str::from_utf8`,
`serde_json::to_vec` of a text, `serde_json::from_str` to a list of texts and
`U256::from_str` (both by name only), and the system clock (nothing is promised of it).
