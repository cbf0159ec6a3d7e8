# zebra_work

Proof-of-work pieces of a Zcash-family node, verified with Verus:

- `src/randomx.rs`: RandomX seed scheduling (`seed_height`, `get_seed_info`,
  `genesis_seed`), target checks (`hash_meets_target`) and the decision of a
  RandomX verification (`verify_randomx_hash`), with laws about epochs.
- `src/equihash.rs`: the `Solution` type (RandomX, Equihash, Regtest), reading
  it from bytes or hexadecimal, Equihash checking, nonce stepping.
- `src/equihash_verify.rs`, `src/hex_codec.rs`: the calls into the `equihash`
  and `hex` crates, with their contracts.
- `src/mining.rs`: what one mining attempt decides.
- `src/block.rs`, `src/difficulty.rs`, `src/bytes.rs`: heights, header bytes,
  256-bit thresholds, big-endian counters.

`app/` holds what runs outside the verified library: the RandomX virtual machine
(`randomx-rs`), the global cache, the mining loops, chain constants and the
serde, `thiserror` and `hex` trait impls.
