# akzio-domain

The domain rules of a research and paper-trading system, written and proved in Verus: records
with their validity, the digests that bind them, and the decisions that follow from them. There
is no I/O in the library.

- `src/` holds the library. A record has a `verdict`, which says what is wrong with it first, and
  a `validate` that is proved to return it. A record under a digest has an `identity`, the digest
  of its JSON form. Properties that span several functions stand as public proof functions beside
  the records they speak of.
- `src/text.rs`, `src/time.rs`, `src/json.rs`, `src/ordered.rs`, `src/compound.rs` and
  `src/lists.rs` are what the records are built on. Calls into `chrono`, `chrono-tz`,
  `serde_json`, `sha2` and `uuid` stand in `time`, `json` and `foundation`, each behind an item
  whose comment says what is taken on trust.
- `tests/` runs the library on concrete values.
- `app/` turns JSON from outside into records, gives errors their texts, and converts times.
