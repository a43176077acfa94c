# git_helper

A scheduler that pulls Git repositories on cron schedules, asks the Codex CLI
for code reviews and generated tests, writes the reports, hands them to the
commit authors' message boxes and pushes summaries to chat channels.

## Layout

- `src/` — the library, verified with Verus: cron normalisation and next-run
  computation, the run lifecycle (claiming, recovery, follow-up runs), the
  legacy-table migration plan, credential sealing and the choice of Git
  authentication, Codex command lines and output parsing, review and
  test-generation outputs, notification texts, MCP routing and tool answers,
  SQL for the filtered listings, and every decision of the web API.
- `tests/` — tests of the library on concrete values.
- `app/` — the program around it: command line, configuration files, SQLite,
  git2, the Codex process, HTTP (axum and reqwest), and the scheduler loop.

Calls into outside crates that only compute (cron, chrono, aes-gcm, base64,
hex, bcrypt) stand in `src/` behind small trusted wrappers whose contracts
say what the library relies on.
