# mango_tcs

The decision and arithmetic core of a token-conditional-swap (tcs)
liquidator for mango v4, and of three mango v4 program instructions,
written in Verus.

Layout:

- `src/fixed_point.rs`: I80F48 fixed-point numbers held by their raw bits;
  products, quotients, rounding and conversions are done by the `fixed`
  crate behind small trusted wrappers, the rest is verified.
- `src/liqee.rs`: the liqee side of an execution: available net borrows,
  the maximal (buy, sell) execution, its quote volume, and the laws that
  net borrow limits only reduce an execution.
- `src/prepare.rs`: the liqor side: its limits, the quote volume, which
  jupiter quotes to ask for, and the resulting jobs.
- `src/schedule.rs`: the preparation phase as a state machine: when to pick
  a tcs (at random, weighted by volume, with `rand`), when to wait, when to
  stop.
- `src/selection.rs`: which tokens the liqor allows and which prepared jobs
  execute.
- `src/scan.rs`: which tcs of an account are reported.
- `src/program.rs`: `trigger_check`, the openbook v2 cancel-order checks and
  call, and oracle type detection.
- `app/`: configuration, the floating-point price checks and the async
  driver of the preparation and execution phases.
- `tests/`: tests of each module.
