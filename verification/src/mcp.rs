//! The router's side of an MCP conversation (JSON-RPC 2.0): request ids,
//! message framing, and what each reply means.
//!
//! The transport (a child process's stdio, or HTTP) and the JSON encoding
//! of messages belong to the application; it hands every reply here, already
//! split into its error and its result.

use vstd::prelude::*;
use crate::error::{message, AppError};
use crate::models::{copy_tools, tools_view, McpTool};
use crate::text::{i64_text, int_text, text_of};

verus! {

/// The MCP protocol version the router speaks.
pub const MCP_PROTOCOL_VERSION: &'static str = "2025-11-25";

/// The error member of a JSON-RPC reply.
#[derive(Debug, Clone, PartialEq, Eq)]
pub struct RpcError {
    pub code: i64,
    pub message: String,
}

/// A JSON-RPC reply: its error, if any, and its result, if any. A result
/// that could not be read as the expected type is `Err` with the reason.
#[derive(Debug, PartialEq, Eq)]
pub struct RpcReply<T> {
    pub error: Option<RpcError>,
    pub result: Option<Result<T, String>>,
}

/// The message of a failed call: `<what> failed: <message> (code: <code>)`.
pub open spec fn failure_text(what: Seq<char>, e: RpcError) -> Seq<char> {
    what + " failed: "@ + e.message@ + " (code: "@ + int_text(e.code as int) + ")"@
}

/// The message of a result that could not be read.
pub open spec fn invalid_text(what: Seq<char>, reason: Seq<char>) -> Seq<char> {
    "Invalid "@ + what + " result: "@ + reason
}

/// An open connection to an MCP server, as far as the conversation goes:
/// which server it is, what it answered to `initialize`, its tools, and the
/// id of the next request.
#[derive(Debug, PartialEq, Eq)]
pub struct McpClient {
    pub server_id: String,
    pub server_name: String,
    /// The result of `initialize`, as JSON text.
    pub server_info: Option<String>,
    pub tools: Vec<McpTool>,
    /// The id that the next request will carry.
    pub request_id: i64,
}

/// `<what> failed: <message> (code: <code>)`.
fn failure(what: &str, e: &RpcError) -> (r: AppError)
    ensures
        r matches AppError::Mcp(m) && m@ == failure_text(what@, *e),
{
    let mut m = text_of(what);
    m.append(" failed: ");
    m.append(e.message.as_str());
    m.append(" (code: ");
    let c = i64_text(e.code);
    m.append(c.as_str());
    m.append(")");
    AppError::Mcp(m)
}

/// `Invalid <what> result: <reason>`.
fn invalid(what: &str, reason: &str) -> (r: AppError)
    ensures
        r matches AppError::Mcp(m) && m@ == invalid_text(what@, reason@),
{
    let mut m = text_of("Invalid ");
    m.append(what);
    m.append(" result: ");
    m.append(reason);
    AppError::Mcp(m)
}

impl McpClient {
    /// The conversation with a server that has just been reached: nothing
    /// answered yet, no tools, the first request id is 1.
    pub fn new(server_id: &str, server_name: &str) -> (c: McpClient)
        ensures
            c.server_id@ == server_id@,
            c.server_name@ == server_name@,
            c.server_info is None,
            c.tools@.len() == 0,
            c.request_id == 1,
    {
        McpClient {
            server_id: text_of(server_id),
            server_name: text_of(server_name),
            server_info: None,
            tools: Vec::new(),
            request_id: 1,
        }
    }

    /// The id for the next request; ids count up from 1, each used once.
    pub fn next_id(&mut self) -> (id: i64)
        requires
            old(self).request_id < i64::MAX,
        ensures
            id == old(self).request_id,
            final(self).request_id == id + 1,
            final(self).server_id == old(self).server_id,
            final(self).server_name == old(self).server_name,
            final(self).server_info == old(self).server_info,
            final(self).tools == old(self).tools,
    {
        let current = self.request_id;
        self.request_id = current + 1;
        current
    }

    /// The line that carries a JSON message over stdio: the message and a
    /// newline.
    pub fn request_line(json: &str) -> (r: String)
        ensures
            r@ == json@.push('\n'),
    {
        let mut r = text_of(json);
        crate::text::push_char(&mut r, '\n');
        r
    }

    /// The check of a line read from a server's stdout: an empty read means
    /// the server closed the connection.
    pub fn response_line(line: &str) -> (r: Result<(), AppError>)
        ensures
            line@.len() == 0 <==> (r matches Err(AppError::Mcp(m)) && m@ == "Server closed connection"@),
            r is Ok <==> line@.len() != 0,
    {
        if line.unicode_len() == 0 {
            return Err(AppError::Mcp(text_of("Server closed connection")));
        }
        Ok(())
    }

    /// The `Authorization` header value for a bearer token.
    pub fn bearer_header(token: &str) -> (r: String)
        ensures
            r@ == "Bearer "@ + token@,
    {
        message("Bearer ", token)
    }

    /// The error of an HTTP reply whose status is not a success:
    /// `HTTP <status> from MCP server: <body>`.
    pub fn http_failure(status: &str, body: &str) -> (r: AppError)
        ensures
            r matches AppError::Mcp(m) && m@ == "HTTP "@ + status@ + " from MCP server: "@ + body@,
    {
        let mut m = text_of("HTTP ");
        m.append(status);
        m.append(" from MCP server: ");
        m.append(body);
        AppError::Mcp(m)
    }

    /// The error of a reply that is not a JSON-RPC response:
    /// `Invalid JSON-RPC response: <reason>`, followed by ` (raw: <text>)`
    /// when the raw text of the reply is given.
    pub fn invalid_response(reason: &str, raw: Option<&str>) -> (r: AppError)
        ensures
            r matches AppError::Mcp(m) && m@ == "Invalid JSON-RPC response: "@ + reason@ + match raw {
                Some(t) => " (raw: "@ + t@ + ")"@,
                None => Seq::<char>::empty(),
            },
    {
        let mut m = text_of("Invalid JSON-RPC response: ");
        m.append(reason);
        match raw {
            Some(t) => {
                m.append(" (raw: ");
                m.append(t);
                m.append(")");
            },
            None => {
                proof {
                    assert(m@ =~= "Invalid JSON-RPC response: "@ + reason@ + Seq::<char>::empty());
                }
            },
        }
        AppError::Mcp(m)
    }

    /// The error of a failed step of the transport: `<what>: <reason>`.
    pub fn transport_failure(what: &str, reason: &str) -> (r: AppError)
        ensures
            r matches AppError::Mcp(m) && m@ == what@ + ": "@ + reason@,
    {
        let mut m = text_of(what);
        m.append(": ");
        m.append(reason);
        AppError::Mcp(m)
    }

    /// The error of a server process that could not be started:
    /// `Failed to spawn process '<command>': <reason>`.
    pub fn spawn_failure(command: &str, reason: &str) -> (r: AppError)
        ensures
            r matches AppError::Mcp(m) && m@ == "Failed to spawn process '"@ + command@ + "': "@ + reason@,
    {
        let mut m = text_of("Failed to spawn process '");
        m.append(command);
        m.append("': ");
        m.append(reason);
        AppError::Mcp(m)
    }

    /// The reply to `initialize`: an error fails the connection; a result is
    /// kept as the server's information.
    pub fn initialize_reply(&mut self, reply: RpcReply<String>) -> (r: Result<(), AppError>)
        ensures
            final(self).server_id == old(self).server_id,
            final(self).server_name == old(self).server_name,
            final(self).tools == old(self).tools,
            final(self).request_id == old(self).request_id,
            match reply.error {
                Some(e) => (r matches Err(AppError::Mcp(m)) && m@ == failure_text("Initialize"@, e))
                    && final(self).server_info == old(self).server_info,
                None => match reply.result {
                    Some(Ok(info)) => r is Ok && final(self).server_info.deep_view() == Some(info@),
                    Some(Err(reason)) => (r matches Err(AppError::Mcp(m))
                        && m@ == invalid_text("initialize"@, reason@))
                        && final(self).server_info == old(self).server_info,
                    None => r is Ok && final(self).server_info == old(self).server_info,
                },
            },
    {
        if let Some(e) = &reply.error {
            return Err(failure("Initialize", e));
        }
        match reply.result {
            Some(Ok(info)) => {
                self.server_info = Some(info);
                Ok(())
            },
            Some(Err(reason)) => Err(invalid("initialize", reason.as_str())),
            None => Ok(()),
        }
    }

    /// The reply to `tools/list`: the tools offered, which the client keeps;
    /// no result means no tools.
    pub fn list_tools_reply(&mut self, reply: RpcReply<Vec<McpTool>>) -> (r: Result<Vec<McpTool>, AppError>)
        ensures
            final(self).server_id == old(self).server_id,
            final(self).server_name == old(self).server_name,
            final(self).server_info == old(self).server_info,
            final(self).request_id == old(self).request_id,
            reply.error matches Some(e) ==> (r matches Err(AppError::Mcp(m)) && m@ == failure_text(
                "List tools"@,
                e,
            )) && final(self).tools == old(self).tools,
            reply.error is None ==> (reply.result matches Some(Ok(tools)) ==> (r matches Ok(v)
                && tools_view(v@) == tools_view(tools@)
                && tools_view(final(self).tools@) == tools_view(tools@))),
            reply.error is None ==> (reply.result matches Some(Err(reason)) ==> (r matches Err(
                AppError::Mcp(m),
            ) && m@ == invalid_text("list tools"@, reason@)) && final(self).tools == old(self).tools),
            reply.error is None ==> (reply.result is None ==> (r matches Ok(v) && v@.len() == 0
                && final(self).tools@.len() == 0)),
    {
        if let Some(e) = &reply.error {
            return Err(failure("List tools", e));
        }
        let tools = match reply.result {
            Some(Ok(tools)) => tools,
            Some(Err(reason)) => return Err(invalid("list tools", reason.as_str())),
            None => Vec::new(),
        };
        self.tools = copy_tools(&tools);
        Ok(tools)
    }

    /// The reply to `tools/call`: its result (as JSON text); a reply without
    /// result is a failure.
    pub fn call_tool_reply(reply: RpcReply<String>) -> (r: Result<String, AppError>)
        ensures
            match reply.error {
                Some(e) => r matches Err(AppError::Mcp(m)) && m@ == failure_text("Tool call"@, e),
                None => match reply.result {
                    Some(Ok(v)) => r matches Ok(w) && w@ == v@,
                    Some(Err(reason)) => r matches Err(AppError::Mcp(m))
                        && m@ == invalid_text("call tool"@, reason@),
                    None => r matches Err(AppError::Mcp(m)) && m@ == "No result from tool call"@,
                },
            },
    {
        if let Some(e) = &reply.error {
            return Err(failure("Tool call", e));
        }
        match reply.result {
            Some(Ok(v)) => Ok(v),
            Some(Err(reason)) => Err(invalid("call tool", reason.as_str())),
            None => Err(AppError::Mcp(text_of("No result from tool call"))),
        }
    }
}

} // verus!
