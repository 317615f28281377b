//! The router's error type.

use vstd::prelude::*;
use crate::text::text_of;

verus! {

/// Why an operation of the router failed.
#[derive(Debug, Clone, PartialEq, Eq)]
pub enum AppError {
    /// The store refused or failed a statement.
    Database(String),
    /// Authentication failed (wrong credentials, unusable password hash).
    Auth(String),
    /// The addressed record does not exist.
    NotFound(String),
    /// An API token is unknown or expired.
    Unauthorized,
    /// A value could not be serialized or deserialized.
    Serde(String),
    /// The MCP conversation with a server failed.
    Mcp(String),
    /// The addressed MCP server is in the wrong state.
    Server(String),
    /// The HTTP transport failed.
    Http(String),
}

/// The text by which an error is shown to users.
pub open spec fn error_text(e: AppError) -> Seq<char> {
    match e {
        AppError::Database(m) => "Database error: "@ + m@,
        AppError::Auth(m) => "Authentication error: "@ + m@,
        AppError::NotFound(m) => "Not found: "@ + m@,
        AppError::Unauthorized => "Unauthorized"@,
        AppError::Serde(m) => "Serialization error: "@ + m@,
        AppError::Mcp(m) => "MCP error: "@ + m@,
        AppError::Server(m) => "Server error: "@ + m@,
        AppError::Http(m) => "HTTP error: "@ + m@,
    }
}

impl AppError {
    /// The text by which this error is shown to users.
    pub fn to_string(&self) -> (r: String)
        ensures
            r@ == error_text(*self),
    {
        let (prefix, detail) = match self {
            AppError::Database(m) => ("Database error: ", m.as_str()),
            AppError::Auth(m) => ("Authentication error: ", m.as_str()),
            AppError::NotFound(m) => ("Not found: ", m.as_str()),
            AppError::Unauthorized => ("Unauthorized", ""),
            AppError::Serde(m) => ("Serialization error: ", m.as_str()),
            AppError::Mcp(m) => ("MCP error: ", m.as_str()),
            AppError::Server(m) => ("Server error: ", m.as_str()),
            AppError::Http(m) => ("HTTP error: ", m.as_str()),
        };
        let mut r = text_of(prefix);
        r.append(detail);
        proof {
            if self is Unauthorized {
                reveal_strlit("");
                assert(r@ =~= "Unauthorized"@);
            }
        }
        r
    }
}

/// An error that carries the text `prefix` followed by `detail`.
pub fn message(prefix: &str, detail: &str) -> (r: String)
    ensures
        r@ == prefix@ + detail@,
{
    let mut r = text_of(prefix);
    r.append(detail);
    r
}

} // verus!
