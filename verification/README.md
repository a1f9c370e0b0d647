# gxib

Build tool for gxi projects: builds a project for the desktop (`cargo run`)
or for the web (wasm via `cargo build`, `wasm-bindgen` and, for release
builds, `wasm-opt`), and serves web builds with hot reload.

## Layout

- `src/` — the verified library.
  - `utils/toml_value.rs`: TOML values, their model, and ordered-table
    operations; reading and writing TOML text through the `toml` crate.
  - `utils/toml_parser.rs`: the project's `Cargo.toml` brought into the shape
    the pipelines rely on, `add_features`, and the laws of normalisation
    (idempotence, the shape it gives, which entries it keeps, platform
    features added by a pipeline being taken out again).
  - `utils/hash.rs`: decimal text of the wasm file's hash.
  - `utils/exec.rs`: commands described as plain values.
  - `cli/`: the command-line model and its sub-command accessors.
  - `pipelines/`: the commands each pipeline runs, the page the web pipeline
    writes, its run and rebuild decisions, the server's request routing, and
    the web-socket actor's decisions.
- `app/` — the `gxib` program: argument parsing (clap), processes, files,
  file watching (notify), and the actix web server and web-socket actor.
- `tests/` — tests of the library.
