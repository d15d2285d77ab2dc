# rusty_chain

A small proof-of-work blockchain whose core is verified with Verus.

- `src/` is the library. Its functions are verified against their
  contracts, except the small wrappers around calls into hex, sha2,
  secp256k1, serde_json and the system clock, whose contracts are trusted:
  `encoding` (hex and the compact JSON that is hashed), `crypto` (SHA-256,
  the proof-of-work target), `wallet` (secp256k1 keys, addresses, ECDSA
  signatures), `transaction` (transactions, the pending pool), `block`
  (headers, Merkle root, nonce search), `blockchain` (mining, validation,
  statistics), `persistence` (rebuilding a saved chain), `clock`.
- `app/` is the demo program: it prints, reads and writes JSON files, and
  renders float amounts as JSON text.
- `tests/` exercises the library on concrete values.

Amounts are held as the bits of a binary64 number; the library takes the
amount's JSON rendering alongside it where a transaction id is computed.
