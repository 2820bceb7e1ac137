# jereko

The verified core of an OpenCode-compatible coding-agent runtime, written in
Verus.

- `src/` is the library, every function verified against its contract:
  configuration layering and merge precedence (`config`, `layer`, `loader`),
  the provider registry and adapters' request/response handling (`providers`,
  `registry`), sessions and their store (`domain`, `session_store`), the v1/v2
  HTTP adapters over normalized types (`adapters`), the request handlers and
  application state (`handlers`, `state`), agent tools and their policy
  (`tools`, `policy`), MCP/LSP/PTY extension seams (`extensions`, `pty`), and
  the plugin system: hook rewriting and tiered dispatch (`plugins`), the Bun,
  native and wasm hosts (`hosts`), and the sidecar protocol (`sidecar`).
- `app/` is the `jerekode` program around it: command line, HTTP server,
  SQLite persistence, provider HTTP calls, filesystem and process work, the
  Bun sidecar process and native library loading.
- `tests/` exercises the library from outside.
