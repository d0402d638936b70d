# backend

The decision logic of a strategy tool server for Japanese equities: parameter checks of
its tools, buy-size limits from risk policies, request screening, reference terms, notes,
hypotheses and predictions, indicator input and output checks, and the reconciliation of
tasks watched on an agent service. Verus proves every function in `src/`; the public ones
carry contracts that state their results.

Layout:

- `src/` — the verified library, one module per concern (`risk`, `buyable`, `screening`,
  `request`, `watcher`, `notes`, `refs`, `indicator`, `schema`, ...). Calls into
  `rust_decimal`, `uuid`, `serde_json`, `jsonschema` and `percent-encoding` stand behind
  small trusted wrappers whose doc comments say what is assumed of them.
- `tests/` — tests that run the library with the real outside crates linked.
- `app/` — the unverified edge: HTTP middleware, settings read from the environment, the
  watcher's loop, serde copies of the library's types, and the figures computed in
  floating point.
