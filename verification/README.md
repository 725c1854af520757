# asm_runner

Verified core of the ASM runner's workers, written in Verus.

- `src/state.rs`: the Moho worker's state: resume or seed genesis, then a
  forward-only fold over committed L1 blocks (stale commits ignored, gaps
  rejected, failures leave the state as it was), with the laws of the fold.
- `src/traits.rs`: the storage context the Moho worker reads and writes through.
- `src/service.rs`: the worker's status report.
- `src/watcher.rs`: the block watcher's cursor, backfill decisions and failure
  reactions, with the law that submitted heights are contiguous.
- `src/btc.rs`: the height and commitment a Bitcoin block is submitted under.
- `src/anchor_store.rs`: the order of the anchor-state commit writes, with the
  law that a failed export append leaves the anchor state unwritten.
- `src/prover.rs`, `src/handle.rs`: the prover worker's builder and request handle.
- `src/proof_store.rs`: which table a proof is kept in, and under which key.
- `src/l1.rs`, `src/errors.rs`: identifiers and errors.

`app/` holds the I/O around it: the ZMQ/RPC block-watcher loop, Bitcoin RPC
lookups, the anchor-write executor, and copies of library types with `serde`
and `thiserror` derives.
