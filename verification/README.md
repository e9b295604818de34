# tipjar

A tip jar contract, verified with Verus. Senders tip creators in
whitelisted tokens, the jar holds tips in escrow until the creator
withdraws, relayers bring tips from other chains, and private tips hide
the creator behind a SHA-256 commitment until withdrawal.

- `src/` — the verified library. `contract.rs` models the jar's ledger
  storage (`TipJarContract`, viewed as `TipJarState`) and holds the core
  operations; `bridge/` and `privacy/` hold the bridged and private tips;
  `integrations/swap.rs` plans a DEX swap; `keymap.rs` is the verified map
  behind every storage table; `laws.rs` proves the properties that span
  operations: escrow conservation along any run of tips, tips with a fee,
  bridged tips and withdrawals; totals that never go down; replay and
  double-spend guards that, once set, stay set and are set only by an
  accepted bridged tip or private withdrawal.
  Every operation is a transition that returns, in order, the token
  transfers, calls and events the host must carry out.
- `app/` — the Soroban contract around the library: authorisation, ledger
  storage, token transfers and events, contract interfaces, simulator
  helpers.
- `tests/` — the tests.
