# solana_smart_stack

The decision logic of a Solana transaction stack that submits Jito bundles,
recovers from refused submissions with the help of a reasoning model, and waits
for confirmations on a Yellowstone Geyser stream, verified with Verus.

- `src/` is the verified library:
  - `tip` — the dynamic tip (75th percentile of recent fees, floored) and its laws;
  - `text` — whitespace trimming, prefix/suffix tests, decimal rendering;
  - `agent` — the question put to the model and the cleaning of its reply;
  - `jito` — tip accounts, the bundle's transfers and transaction, the engine's answer;
  - `geyser` — the subscription and how each stream message moves a wait along;
  - `cycle` — one execution cycle as a state machine, with its laws;
  - `wallet` — loading the signing keypair;
  - `chain` — the calls into the Solana SDK, base58, bincode and `rand`, each
    behind a stated contract.
- `app/` is the program: environment, HTTP and gRPC calls, JSON, the log file,
  the status portal, and the loop that feeds the cycle its events.
- `tests/` runs the library on concrete values.
