# hdiffpatch-rs

Create and apply HDiffPatch diffs with zstd compression, for single files
in memory and for whole directories.

- `src/` is the verified library (Verus): the diff options, the engine's
  status words and the errors they stand for, error messages, the path
  checks of the directory operations, and the decisions taken around every
  call into the engine (buffer sizes, what a caller gets back).
- `app/` holds the engine bridge (a `cxx` bridge to the HDiffPatch/zstd C++
  glue, which is built beside the program), the entry points that make the
  engine calls, and the `hdiffpatch` command-line tool.
- `tests/` exercises the library.
