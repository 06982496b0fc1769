# base-flashblocks

Pending-state logic of a Base node that follows Flashblocks, written in Verus. The library decides
what `eth_` requests are answered from pending blocks, which overrides turn the canonical state into
the pending one, and what to fetch and queue next. Its contracts and laws are proved.

- `src/` is the verified library.
  - `block_id`: block numbers, tags and identifiers of requests.
  - `overrides`, `collections`: account and block overrides, and the hash maps that hold them.
  - `merge`: a request's overrides laid over the pending ones.
  - `pending`, `simulate`: one pending snapshot, and requests that execute on it.
  - `eth`, `logs`, `receipts`, `rpc_error`, `text`: what each method answers or asks the chain.
  - `state_builder`: account changes of executed transactions, accumulated into overrides.
  - `state`: where the updates that the node receives are queued.
  - `prefetcher`: fetching source payloads in order, ahead of the insert loop.
- `tests/` runs the library, executing EVM code on the overrides that it prepares.
- `app/` is the ordinary Rust around it: the JSON-RPC server, channels, tasks and timers. It reaches
  the node through traits that the node implements.

The functions marked `external_body` are what is trusted: each makes one call into
`alloy_primitives` and its hash maps, `alloy_eips` or the standard library (for an entry of a map,
`entry` and `or_insert`), and says what is claimed of it.
