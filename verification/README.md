# serde_dson

Reading DSON values into Rust data through serde, with the deserializer's
decisions specified and proved in Verus.

- `src/dson.rs` — the DSON data model and its mathematical views.
- `src/de.rs` — what each serde request is answered with, for a given value;
  the sequence, map and enum accessors.
- `src/laws.rs` — properties across the operations (wrappers are transparent,
  struct fields are the labeled members of a product, ...).
- `src/error.rs`, `src/hirgen.rs` — error types.
- `app/` — serde's traits over the verified decisions, `from_dson`, and the
  error types with their `Display` messages.
