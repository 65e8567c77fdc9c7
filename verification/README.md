# waldur_cli

A scriptable command-line client for Waldur MasterMind, with its logic
verified by Verus.

- `src/` is the verified library: configuration resolution and the
  credentials store, `--filter` parsing, request bodies (null stripping,
  skeletons), the `api` escape hatch's method and path handling, rendering
  (table, JSON, TSV, TOON, NDJSON, dry-run previews, errors), pagination,
  marketplace-order and `wait` polling decisions, batch UUID input, the
  `schema` command and the progress spinner. Calls into `serde_json`,
  `serde_yaml`, `serde_toon`, `jmespath`, `comfy-table` and `reqwest`'s
  method and status types stand behind small trusted wrappers whose
  contracts name what those crates compute.
- `app/` is the binary: argument parsing, the terminal, the credentials file
  on disk, and the network. It asks the library what to send and what to
  print.
- `tests/` exercises the library through its public API.

Verify with Verus from this directory (`verus src/lib.rs` with the outside
crates on the library path); build and test with Cargo.
