# ta — Wilder-style indicators with verified state machines

Wilder's smoothing (RMA), the true range, Wilder's average true range,
Wilder's RSI, the directional movement index with ADX, and VWAP.

* `src/` (verified): for each indicator with a period, the
  discrete part of its state — the period, and which warm-up phase it is in —
  and, for every new input, the update rule that applies to it. Constructors
  reject a zero period; `reset` returns exactly to the freshly constructed
  state; the directional movement index's warm-up (DM/TR sums over `period`
  bars, DX averaged over the next `period` bars, then smoothing) is stated as
  a function of the number of bars seen, with proofs of its phase laws in
  `src/indicators/directional_movement_index.rs`. Indicator names such as
  `RMA(14)` are built and proved digit by digit in `src/label.rs`.
* `app/` (ordinary Rust): the floating-point indicators. Each keeps its
  running `f64` values and asks the matching state machine which rule to
  apply; serde support goes through persisted forms that are read back into
  the state machines as saved (only directional-movement counters that would
  overflow on the next bar are refused). VWAP, whose every decision compares
  `f64` sums, lives entirely here.
* `tests/`: tests of the state machines and of the names.
