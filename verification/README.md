# carbon_ledger

Verified state machines for a carbon-credit market (registry, credit ledger,
marketplace, price oracle) and for a lending pool that takes livestock as
collateral.

- `src/` is the library. Every operation has a contract over a mathematical
  model of the contract's state, and `src/laws/` holds what is proved across
  operations.
- `app/` wraps the library as Soroban contracts: storage, authorization and
  calls between contracts.
- `tests/` runs the library with the real cryptography and XDR encoding.

Four small functions are trusted rather than verified. They call SHA-256 and the
XDR encoding of `soroban-sdk`, and the strict Ed25519 verification of
`ed25519-dalek`; see `src/crypto.rs` and `src/encoding.rs`.
