# rgb_lightning_node (verified core)

The parts of an RGB Lightning node that decide things, written in Verus and
proved against their contracts:

- `src/hex.rs`, `src/text.rs`: lower-case hex and decimal text, with the
  hex round-trip law.
- `src/bootstrap.rs`: validation of the external signer's bootstrap record
  (the LDK auxiliary keys and the async payments root seed) and the seed
  derived from it.
- `src/signer.rs`: the node's side of the external signer protocol: the
  requests it sends, how each answer is read (and the fallbacks LDK gets
  when an answer is missing or malformed), and the local seed material.
- `src/native_signer.rs`: arguments and bootstrap answer of the in-process
  signer offered to SDK users.
- `src/vls_transport.rs`: message routing of the in-process VLS transport
  (init handler, cached `HsmdInit2` reply, root and per-channel handlers).
- `src/rgb_kv_store.rs`: where each RGB record lives in the key-value store,
  the payment records written for a new payment, and how settled HTLCs move
  RGB amounts within a channel.
- `src/ffi.rs`: how results and errors cross the C boundary (tags, texts,
  NUL-terminated strings).
- `src/fee_mock.rs`, `src/fixtures.rs`: the one-shot fee override and the
  swap string used by tests.

Calls into `bitcoin` (secp256k1 parsing, PSBTs, hashing, hex),
`lightning` (shutdown scripts, channel ids) and `serde_json` (the JSON
text of output descriptions, in `src/json.rs`) stand behind small trusted
wrappers whose contracts are documented next to them.

`app/` holds what Verus does not check: the C ABI (raw pointers, caught
panics, process-wide state), the key-value store I/O, the LDK side of
spending outputs and the VLS node that the transport routes to. `tests/`
exercises the library through its public API.
