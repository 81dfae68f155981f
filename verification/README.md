# superinstance_protocol

The SuperInstance bottle protocol: a JSON envelope (id, version, source,
target, action, trits, encoding, TTL) carrying a base64-encoded MessagePack
payload, with ternary conservation — the sum of a bottle's trits is the
charge that every transformation must preserve.

Layout:

- `src/` — the verified library.
  - `bottle.rs` — the `Bottle` and `BottleHeader` types, construction,
    payload access, TTL validation.
  - `conservation.rs` — trit sums, `audit`, `audit_strict` and the laws of
    conservation.
  - `bottle_integration.rs` — envelope trits of a vote aggregate, and the
    conservation check between bottles of a chain.
  - `equality.rs` — field-wise equality of bottles.
  - `encoding.rs`, `clock.rs` — the calls into `base64`, `rmp_serde`,
    `uuid` and the system clock, each with the contract it is trusted for.
  - `error.rs` — `BottleError`.
- `app/` — the serde side: the JSON wire format (`encode`, `decode`,
  `decode_header`), an error type with messages, and the aggregate type,
  whose confidence and sentiment are floating point.
- `tests/` — tests of the library.
