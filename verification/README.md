# github-mcp-server-rs

A GitHub server for the Model Context Protocol, together with the client of the
auth worker's device flow. The logic is a library verified with Verus; the
program around it does the I/O.

## Layout

| Where | What |
|---|---|
| `src/config.rs` | environments, addresses, the configuration of a run, the order in which the shared secret is looked for |
| `src/cli.rs` | the commands `auth`, `whoami`, `logout` and `doctor`: their steps and what they show |
| `src/mcp_server.rs` | which tools the scope of a token gives; `whoami` and `list_repos` |
| `src/tools/` | branch protection and issues: requests to GitHub, and what is told of its answers |
| `src/admin_exec.rs` | calls of admin tools at the auth worker, and what its answers mean |
| `src/relay.rs` | the outbound relay: when to reconnect, the steps of a session, frames in and out |
| `src/json.rs`, `src/json_text.rs` | JSON values, read and written with `serde_json` |
| `src/text.rs`, `src/api.rs`, `src/status.rs`, `src/console.rs` | texts, requests, HTTP statuses, lines for the user |
| `app/` | the program: command line, files, HTTP, WebSocket, the rmcp server |
| `tests/` | tests of the library |

## What is trusted

`src/json_text.rs` wraps `serde_json` (reading a text, opening and closing one
layer of a value, printing) and `src/status.rs` wraps the reason phrases of
`http::StatusCode`. Everything else in `src/` is proved.

Who may be asked about (`RepoPolicy` in `app/github_api.rs`) and how frames look
on the wire (`Bridge` in `app/relay.rs`) are left to whoever runs the server.
