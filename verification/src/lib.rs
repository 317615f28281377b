//! The verified core of the MCP router: the rules that decide what the
//! router stores, what it answers and how it talks to MCP servers.
//!
//! The storage engine (SQLite), process spawning and HTTP transport are
//! driven by the application around this library; every statement that is
//! sent to the database, and every decision taken on what comes back, is
//! computed here.

pub mod text;
pub mod sql;
pub mod error;
pub mod crypto;
pub mod clock;
pub mod json;
pub mod models;
pub mod auth;
pub mod token;
pub mod logging;
pub mod server;
pub mod projects;
pub mod mcp;
pub mod router;
pub mod db;
