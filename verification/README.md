# qubit_metadata

A typed, ordered metadata model with composable filters and optional
schemas, verified with Verus.

- `Metadata` is an ordered key-value store of typed `Value`s. Its contracts
  speak of a mathematical map from keys to value models, and its entries are
  kept sorted by key (a type invariant).
- `MetadataFilter` and `MetadataFilterBuilder` build boolean expressions over
  conditions (`eq`, `ne`, `lt`, `le`, `gt`, `ge`, `in`, `not_in`, `exists`,
  `not_exists`); evaluation is specified by a recursive spec function, and
  numbers of different representations compare by numeric value, exactly
  wherever that is possible.
- `MetadataSchema` declares field types and requirements and validates
  metadata objects and filters, with each error stated exactly.
- The `wire` module holds the interchange forms of filters, with the law
  that a filter read back from its own interchange form matches the same
  metadata.

Layout:

- `src/` is the verified library; `src/laws.rs` states the laws that relate
  several operations.
- `tests/` holds the tests that run the compiled library.
- `app/` is ordinary Rust around the library: serde forms of the library's
  types, JSON conversions through `serde_json`, the mapping to
  `qubit_datatype`, and `Display` for errors.

Arbitrary-precision comparisons call `bigdecimal` and `num_bigint`, and big
numbers meet doubles through the scientific notation `bigdecimal` writes,
read back by std's parser; these calls stand behind trusted wrappers in
`src/big.rs`.
