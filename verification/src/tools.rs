//! The tools that an MCP client can call, by category.
pub mod branches;
pub mod issues;
