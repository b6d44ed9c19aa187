# Starkstream DNA

The decisions of the Starkstream DNA server as a verified library: what it
reads, writes and sends is decided here, and proved against the contracts that
stand with each function.

| Module | What it decides |
|---|---|
| `chain_view::sync` | How the chain view is built and kept in step with the ingestion state |
| `ingestion::state_client` | Which keys hold the ingestion state, and what their values and changes mean |
| `object_store` | Keys, checksums and compression of stored objects |
| `cloud_logging` | The structured log entries, error reports and the identity behind them |
| `provider` | The subscription to new Starknet heads, and their block hashes |
| `server::stream_with_heartbeat` | When a response stream sends a heartbeat |
| `data_stream::metrics` | The metrics of the data streams |
| `json`, `text` | JSON values held by `serde_json`, and text helpers |

A function that needs something from outside is split: one part says what to
ask for, another takes the answer. The program under `app/` asks.

Calls into other crates stand behind small trusted functions. The doc comment of
each says what is taken on trust.

Laws that relate several functions are public proof functions; their doc
comments start with `Law:`.
