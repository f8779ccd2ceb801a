# tool_runtime

The verified core of a coding-tool runtime: the `git_log` tool, and the fences that tell
whether a validation of a project may be stale.

- `src/` is the library, verified with Verus. Its modules are listed in `src/lib.rs`.
- `tests/` runs it.
- `app/` is ordinary Rust around it: it runs processes, holds the registry behind a lock
  and converts between `serde_json` values and the library's own.
