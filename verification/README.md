# sol_trade_sdk

A Solana trading SDK for PumpFun and PumpSwap whose core is verified with Verus.

- `src/` is the verified library: bonding-curve and constant-product pricing,
  fee and slippage arithmetic, gas-fee strategy tables, landing-service (SWQOS)
  routing and request bodies, token-account and system instructions, transaction
  plans, the wSOL account setup policy, parallel submission planning and result
  collection, and the data structures of the performance layer (ring buffers,
  memory pools, packet queues, event dispatch, protocol framing, system-call
  batching). Every public function that returns a value or changes state carries a
  `requires`/`ensures` contract (the remaining few are hints and fences that
  change nothing the library can observe); the
  laws that relate several calls are public proof functions (`law_*`).
  Calls into outside crates go through small trusted wrappers whose doc comments
  say what is assumed of them.
- `tests/` runs the library on concrete values.
- `app/` is the program around the library: command line, configuration, RPC and
  HTTP I/O, signing, threads and system calls.
