# moss

The configuration, skill-management and script-routing logic of the Moss
(Aries) agent gateway, written in Verus: every function in `src/` carries a
contract. All are verified except a few small trusted wrappers around calls
into std and outside crates (paths, lowercasing, URL parsing and encoding,
`~` expansion, random bytes and UUIDs, reading zip archives), whose contracts say what is
assumed of them.

- `src/config.rs`, `src/config_api/`: the configuration model; what may change
  at runtime, validation and application of changes, differences between two
  configurations, the sanitized view, the schema, and hot-reload decisions.
- `src/executor/`: script executors (Deno, Docker, Wasmtime, native) as the
  commands, flags, environments and mounts they are given, and the manager
  that routes a script to an executor by extension.
- `src/cli/`: the command-line grammar and its parser, skill sources,
  package layout and reading, the skillsmp.com marketplace decisions, and the requests
  and errors of the ClawHub marketplace client.
- `src/mcp.rs`, `src/mcp_handlers.rs`: MCP connection planning and the MCP
  management API's decisions.
- `src/laws.rs`: properties that relate several operations.
- `app/`: the program around the library (argument handling, configuration
  file loading, HTTP and archive work, file watching, and the process-wide
  executor manager).
