# mcp_router

The core of an MCP (Model Context Protocol) router — users and sessions, API
tokens, MCP servers and projects, the request log, and the router's side of
the JSON-RPC conversation with MCP servers — written in Verus and verified.

- `src/` is the verified library. Every statement that the router sends to
  its SQLite store (text and parameters) is computed there, and every row
  that comes back is read there; the modules also hold what each JSON-RPC
  reply means, how a server is reached, and the laws that tie the operations
  together (a login's session is found by its token and ends on logout, an
  issued token is valid until it expires, what is written to a table reads
  back as written, ...). The laws about the store are proved over the
  library's own models of what SQLite does with each of its statements
  (`run_session_statements`, `run_password_statements`,
  `run_token_statements`, `run_server_statement`, `run_server_update`,
  `run_project_statements`, `run_migrations`, and `log_count_answer` /
  `log_page_answer` for the log query), not over SQLite itself;
  `tests/store_tests.rs` runs the same statements against a real SQLite
  store. Password hashing, digests, encodings, randomness,
  the clock and JSON come from their crates through a few trusted wrappers
  in `crypto.rs`, `clock.rs`, `json.rs` and `text.rs`.
- `app/` is the program around it: it opens the store, runs the statements,
  spawns local MCP servers or speaks HTTP to remote ones, and serves the
  router's commands, one per line of standard input.
- `tests/` exercises the library, including against a real in-memory
  SQLite store.
