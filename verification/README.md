# vagga_core

The decision logic of a container build tool, written in Verus and proved
against its contracts: which build steps run and in what order, what each
step hashes into the container's version, how paths are filtered while a
directory tree is walked, how archives are unpacked, how downloads are named
and checked, how package lists for Alpine, Ubuntu, npm, pip, gem and composer
are planned, and how a data container is pruned when the build ends.

Layout:

- `src/` is the verified library. Each module holds its types, the spec
  functions that model them, the executable functions with their contracts,
  and the laws that relate several functions. Calls into `regex`, `globset`,
  `sha2`, `url` and `rand` stand behind a few trusted wrappers, each with a
  doc comment that says what is assumed of it (see `matchers.rs`,
  `hashing.rs`, `fetch.rs`, `alpine.rs` and `text.rs`).
- `tests/` runs the library on concrete inputs.
- `app/` is the command-line front end: it reads files, walks directories and
  runs commands, and asks the library what to do at each step.
