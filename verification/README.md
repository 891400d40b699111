# zebra

Verified pieces of a Zcash node.

- `src/serialization.rs`: `WriteZcashExt`, writing `CompactSize` integers,
  IP and socket addresses, strings and fixed byte arrays into a byte buffer,
  with the encoding stated and proved; `CompactSize` is proved canonical.
- `src/bytes.rs`: little/big-endian encodings (computed by `byteorder`).
- `src/block.rs`: blocks, headers and their double-SHA-256 hashes (`sha2`).
- `src/state.rs`: the in-memory block store; a block added is given back by
  its hash.
- `src/inbound.rs`: the decisions of the inbound peer-request service: the
  network-setup state, readiness, request routing (including block and
  transaction diffusion) and answer shaping.
- `app/`: the `io::Write` extension trait and the `tower` services that
  drive the verified code.
