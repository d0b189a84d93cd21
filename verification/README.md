# svs_vault

The verified core of an SVS-9 allocator vault on Solana.

- `src/guards.rs` — the reusable guard middleware: share math with virtual
  offsets, oracle freshness and confidence, the pool deviation band, the
  oracle-derived swap floor, caps and pause, the keeper check, and reads of the
  self-contained 24-byte price feed.
- `src/allocator/` — the vault program: its state (`state.rs`), errors, its own
  guard set (every feed read in either the self-contained layout or as a Pyth
  pull-oracle account, through `pyth-solana-receiver-sdk`), and each
  instruction (`initialize`, `deposit`,
  `withdraw`, `sync`, `rebalance_swap`, `set_paused`) as a state transition
  with an exact contract; `initialize` seeds dead shares and `rebalance_swap`
  checks the pool price against the oracle band. `laws.rs` proves properties across instructions.
- `src/math.rs`, `src/key.rs` — saturating arithmetic,
  little-endian decoding, and 32-byte account keys.
- `app/` — the Anchor program shell: account contexts, token CPIs, oracle
  account reads, the clock and events; it hands plain values to the library.
- `tests/` — the attack matrix and concrete runs of every guard and
  instruction.
