# runtime_core

The decision core of a local agent runtime, written in Verus: each function
states in its contract what it returns, and Verus proves the code meets it.

- `src/` — the verified library: run events and checkpoints, context
  assembly and its policies, the tool catalog and capability reports, the
  answer cache, memory and knowledge governance, the unified-diff parser and
  patch planner, workspace path checks, search and listing reports, command
  and MCP call handling, and the answers built from all of these. Laws that
  relate several functions are public proof functions next to them.
- `tests/` — concrete scenarios run against the compiled library.
- `app/` — the host side: file system access, processes (commands, curl),
  and the on-disk answer cache, calling the library for every decision.

Outside crates: `regex` (search patterns, behind trusted wrappers in
`src/search.rs`), `serde_json` (JSON text of strings and MCP arguments,
behind trusted wrappers), and `serde` (the on-disk record in `app/`).
