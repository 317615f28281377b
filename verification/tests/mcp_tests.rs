use mcp_router::error::AppError;
use mcp_router::mcp::{McpClient, RpcError, RpcReply, MCP_PROTOCOL_VERSION};
use mcp_router::models::McpTool;

fn tool(name: &str) -> McpTool {
    McpTool { name: name.to_string(), description: Some("d".to_string()), input_schema: Some("{}".to_string()) }
}

fn rpc_error(code: i64, message: &str) -> Option<RpcError> {
    Some(RpcError { code, message: message.to_string() })
}

#[test]
fn protocol_version() {
    assert_eq!(MCP_PROTOCOL_VERSION, "2025-11-25");
}

#[test]
fn request_ids_count_up() {
    let mut c = McpClient::new("s1", "Files");
    assert_eq!(c.server_id, "s1");
    assert_eq!(c.server_name, "Files");
    assert_eq!(c.server_info, None);
    assert!(c.tools.is_empty());
    assert_eq!(c.next_id(), 1);
    assert_eq!(c.next_id(), 2);
    assert_eq!(c.next_id(), 3);
    assert_eq!(c.request_id, 4);
}

#[test]
fn framing_and_headers() {
    assert_eq!(McpClient::request_line("{\"a\":1}"), "{\"a\":1}\n");
    assert_eq!(McpClient::response_line(""), Err(AppError::Mcp("Server closed connection".to_string())));
    assert_eq!(McpClient::response_line("{}\n"), Ok(()));
    assert_eq!(McpClient::bearer_header("tok"), "Bearer tok");
    assert_eq!(
        McpClient::http_failure("500 Internal Server Error", "oops"),
        AppError::Mcp("HTTP 500 Internal Server Error from MCP server: oops".to_string())
    );
}

#[test]
fn initialize_replies() {
    let mut c = McpClient::new("s", "n");
    let r = c.initialize_reply(RpcReply { error: rpc_error(-32601, "boom"), result: None });
    assert_eq!(r, Err(AppError::Mcp("Initialize failed: boom (code: -32601)".to_string())));
    assert_eq!(c.server_info, None);
    let r = c.initialize_reply(RpcReply { error: None, result: Some(Err("missing field".to_string())) });
    assert_eq!(r, Err(AppError::Mcp("Invalid initialize result: missing field".to_string())));
    let r = c.initialize_reply(RpcReply { error: None, result: Some(Ok("{\"v\":1}".to_string())) });
    assert_eq!(r, Ok(()));
    assert_eq!(c.server_info, Some("{\"v\":1}".to_string()));
    assert_eq!(c.initialize_reply(RpcReply { error: None, result: None }), Ok(()));
    assert_eq!(c.server_info, Some("{\"v\":1}".to_string()));
}

#[test]
fn list_tools_replies() {
    let mut c = McpClient::new("s", "n");
    let tools = vec![tool("read"), tool("write")];
    let r = c.list_tools_reply(RpcReply { error: None, result: Some(Ok(tools.clone())) });
    assert_eq!(r, Ok(tools.clone()));
    assert_eq!(c.tools, tools);
    let r = c.list_tools_reply(RpcReply { error: rpc_error(7, "no"), result: None });
    assert_eq!(r, Err(AppError::Mcp("List tools failed: no (code: 7)".to_string())));
    assert_eq!(c.tools, tools);
    let r = c.list_tools_reply(RpcReply { error: None, result: Some(Err("bad".to_string())) });
    assert_eq!(r, Err(AppError::Mcp("Invalid list tools result: bad".to_string())));
    let r = c.list_tools_reply(RpcReply { error: None, result: None });
    assert_eq!(r, Ok(vec![]));
    assert!(c.tools.is_empty());
}

#[test]
fn call_tool_replies() {
    assert_eq!(
        McpClient::call_tool_reply(RpcReply { error: None, result: Some(Ok("{\"content\":[]}".to_string())) }),
        Ok("{\"content\":[]}".to_string())
    );
    assert_eq!(
        McpClient::call_tool_reply(RpcReply { error: rpc_error(0, "x"), result: Some(Ok("y".to_string())) }),
        Err(AppError::Mcp("Tool call failed: x (code: 0)".to_string()))
    );
    assert_eq!(
        McpClient::call_tool_reply(RpcReply { error: None, result: None }),
        Err(AppError::Mcp("No result from tool call".to_string()))
    );
    assert_eq!(
        McpClient::call_tool_reply(RpcReply { error: None, result: Some(Err("r".to_string())) }),
        Err(AppError::Mcp("Invalid call tool result: r".to_string()))
    );
}

#[test]
fn transport_error_texts() {
    assert_eq!(
        McpClient::invalid_response("EOF while parsing", Some("{x")),
        AppError::Mcp("Invalid JSON-RPC response: EOF while parsing (raw: {x)".to_string())
    );
    assert_eq!(
        McpClient::invalid_response("EOF while parsing", None),
        AppError::Mcp("Invalid JSON-RPC response: EOF while parsing".to_string())
    );
    assert_eq!(
        McpClient::transport_failure("Failed to write to stdin", "broken pipe"),
        AppError::Mcp("Failed to write to stdin: broken pipe".to_string())
    );
    assert_eq!(
        McpClient::spawn_failure("npx", "not found"),
        AppError::Mcp("Failed to spawn process 'npx': not found".to_string())
    );
}
