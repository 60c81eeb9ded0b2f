//! The logic of a GitHub MCP server: what it asks of the GitHub API and of its
//! auth worker, what it makes of the answers, and when its relay reconnects.
//!
//! Nothing here does I/O. Callers perform the requests that these functions
//! describe and hand the answers back.
pub mod admin_exec;
pub mod api;
pub mod cli;
pub mod config;
pub mod console;
pub mod json;
pub mod json_text;
pub mod mcp_server;
pub mod relay;
pub mod status;
pub mod text;
pub mod tools;
