# pixi_build_zig

The decision logic of a pixi build backend for Zig projects, verified with
Verus.

- `src/config.rs` — the backend configuration and its merge with a
  target-specific configuration (`merged_config`), with laws on the merge
  (variable precedence and order, associativity).
- `src/env.rs` — the build environment map (`indexmap::IndexMap`), seen as a
  sequence of entries; insertion and extension laws.
- `src/platform.rs`, `src/target.rs` — conda platforms, zig target triples,
  `-D` build args and C toolchain flags.
- `src/build_script.rs` — the generated bash / cmd.exe build script.
- `src/generator.rs` — the recipe decisions: build script, binary
  relocation, input globs.
- `src/zon.rs` — the `build.zig.zon` scanner, specified byte by byte
  (`zon_scan`), `parse_zon`, and the law that the last top-level assignment
  of a field wins.
- `src/metadata.rs` — the metadata provider backed by `build.zig.zon`.
- `src/path.rs` — filesystem paths, carried opaquely.

`app/` holds the backend executable: the pixi build backend protocol,
serde forms of the configuration, and the filesystem reads.
