# wasm-bodge (verified core)

Builds an npm package from a wasm-bindgen crate. The decisions of the build
are verified with Verus:

- `src/build/wasm_bindgen.rs`: cargo profile directories, where cargo leaves
  the wasm, the order of the build steps, the arguments of cargo, wasm-opt
  and wasm-bindgen, how cargo's error output is read when a debug
  profile is missing, and the errors of a failed build; with the laws these
  obey.
- `src/build/manifest.rs`: the crate name from `Cargo.toml`, the package name
  from `package.json`, and the target directory from `cargo metadata`.
- `src/build/targets.rs`: the wasm-bindgen targets and the wasm variants.
- `src/build/mod.rs`: how the first phase obtains the bindings, the variants a
  configuration packages, and unpacking a prebuilt archive.
- `src/text.rs`: the string operations these need, stated over characters.
- `src/config.rs`: the build configuration.

`app/` runs the external tools and does the file I/O, and hands what it reads
to the library.
