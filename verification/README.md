# biscuit_format

Verified conversions between the datalog blocks and aggregated signatures of a
biscuit authorization token and the protobuf messages of its serialized format.

- `src/datalog.rs`: terms, predicates, facts, rules, caveats and constraints,
  each with a mathematical model (`View`).
- `src/token.rs`: a token block. `src/error.rs`: the format errors.
- `src/crypto.rs`: the signature, held as the byte encodings of its group
  elements, and the two checks made by `curve25519-dalek` (trusted wrappers).
- `src/format/schema.rs`: the protobuf messages.
- `src/format/convert.rs`, `convert/v0.rs`, `convert/v1.rs`: the conversions.
  Each encoder is specified by a relation `*_encoded(message, model)`, each
  decoder by a function `*_decoded(message)` giving the model or the error,
  and the `lemma_*_roundtrip` proofs state that decoding an encoded value
  gives the value back (with the exceptions of schema version 0 that they name).
