# ruster

Generates, from a WebAssembly module, the source of a Rust module that loads
the wasm file through `wasmi` and offers a method per exported function and a
getter per exported global.

- `src/` is the verified library. `wasm.rs` decodes a binary with
  `parity-wasm` into plain values; `interpreter.rs` collects the exports;
  `function.rs`, `global.rs`, `module.rs`, `generator.rs` and `generate.rs`
  build the source with `codegen`, whose builder calls `builder.rs` describes;
  `text.rs` holds decimal rendering and joining.
- `app/main.rs` is the command line program: it reads the file, calls the
  library and writes the result.
- `tests/` runs the library on small wasm binaries written out byte by byte.
