# cargo_cost_lint

A cost linter for Soroban smart contracts, with its decision logic verified
in Verus.

- `src/` is the verified library: lint-level configuration (`config`), cache
  keys, source-file selection and ordering, FNV-1a hashing (`cache`,
  `hasher`), changed-file selection for
  `--diff-only` (`paths`, `diff`), findings and their text, GitHub and SARIF
  renderings and the SARIF report (`findings`), the end-of-run summary (`summary`), the run's
  per-finding decisions and the reading of the compiler's JSON output (`run`),
  the decisions of the individual lint passes (`lints`), and the contract
  code the lints are exercised on (`fixtures`, against the inert SDK surface
  in `fixture_sdk`).
- `app/` is the command-line program: argument parsing, processes (`cargo
  dylint`, `git`, `rustc`), the workspace walk, files, and the JSON and TOML
  that are written or read into the library's types.
- `tests/` runs the library on concrete values.
