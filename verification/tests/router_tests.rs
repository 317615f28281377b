use mcp_router::error::AppError;
use mcp_router::logging::INSERT_LOG_SQL;
use mcp_router::models::{McpServer, McpTool, ServerType};
use mcp_router::router::{ConnectPlan, Router};
use mcp_router::sql::SqlValue;

fn text(s: &str) -> SqlValue {
    SqlValue::Text(s.to_string())
}

fn server(id: &str, server_type: ServerType) -> McpServer {
    McpServer {
        id: id.to_string(),
        name: "Srv".to_string(),
        description: None,
        server_type,
        command: None,
        args: None,
        env: None,
        remote_url: None,
        bearer_token: None,
        project_id: None,
        tool_permissions: None,
        auto_start: false,
        disabled: false,
        created_at: "C".to_string(),
        updated_at: "U".to_string(),
    }
}

fn tool(name: &str) -> McpTool {
    McpTool { name: name.to_string(), description: None, input_schema: None }
}

#[test]
fn local_server_needs_command() {
    let s = server("a", ServerType::Local);
    assert_eq!(
        Router::connect_plan(&s),
        Err(AppError::Mcp("No command specified for local server".to_string()))
    );
}

#[test]
fn local_server_plan_reads_args_and_env() {
    let mut s = server("a", ServerType::Local);
    s.command = Some("npx".to_string());
    s.args = Some("[\"-y\",\"pkg\"]".to_string());
    s.env = Some("{\"Z\":\"1\",\"A\":\"2\"}".to_string());
    assert_eq!(
        Router::connect_plan(&s),
        Ok(ConnectPlan::Stdio {
            command: "npx".to_string(),
            args: vec!["-y".to_string(), "pkg".to_string()],
            env: vec![("A".to_string(), "2".to_string()), ("Z".to_string(), "1".to_string())],
        })
    );
}

#[test]
fn local_server_with_unreadable_args_gets_none() {
    let mut s = server("a", ServerType::Local);
    s.command = Some("run".to_string());
    s.args = Some("not json".to_string());
    s.env = Some("[1,2]".to_string());
    assert_eq!(
        Router::connect_plan(&s),
        Ok(ConnectPlan::Stdio { command: "run".to_string(), args: vec![], env: vec![] })
    );
}

#[test]
fn remote_server_needs_url() {
    let s = server("r", ServerType::Remote);
    assert_eq!(
        Router::connect_plan(&s),
        Err(AppError::Mcp("No URL specified for remote server".to_string()))
    );
    let mut s = server("r", ServerType::RemoteStreamable);
    s.remote_url = Some("https://example.test/mcp".to_string());
    s.bearer_token = Some("tok".to_string());
    s.command = Some("ignored".to_string());
    assert_eq!(
        Router::connect_plan(&s),
        Ok(ConnectPlan::Http { url: "https://example.test/mcp".to_string(), bearer_token: Some("tok".to_string()) })
    );
}

#[test]
fn statuses_of_servers() {
    let tools = vec![tool("t1"), tool("t2")];
    let running = vec![("b".to_string(), tools.clone())];
    assert_eq!(Router::find_running(&running, "b"), Some(&tools));
    assert_eq!(Router::find_running(&running, "a"), None);

    let servers = vec![server("a", ServerType::Local), server("b", ServerType::Remote)];
    let st = Router::all_server_statuses(&servers, &running);
    assert_eq!(st.len(), 2);
    assert_eq!(st[0].server_id, "a");
    assert!(!st[0].is_running);
    assert!(st[0].tools.is_empty());
    assert_eq!(st[0].error, None);
    assert_eq!(st[1].server_id, "b");
    assert!(st[1].is_running);
    assert_eq!(st[1].tools, tools);

    let one = Router::server_status("b", Some(&tools));
    assert!(one.is_running);
    assert_eq!(Router::stopped_status("x").tools.len(), 0);
}

#[test]
fn not_running_message() {
    assert_eq!(Router::not_running("s5"), AppError::Server("Server s5 is not running".to_string()));
}

#[test]
fn start_and_stop_logs() {
    let s = Router::start_log("s1", "Files");
    assert_eq!(s.sql, INSERT_LOG_SQL);
    assert_eq!(s.params[2], SqlValue::Null);
    assert_eq!(s.params[4], text("s1"));
    assert_eq!(s.params[5], text("Files"));
    assert_eq!(s.params[6], text("StartServer"));
    assert_eq!(s.params[8], text("success"));
    assert_eq!(s.params[9], SqlValue::Null);
    let s = Router::stop_log("s1", "Files");
    assert_eq!(s.params[6], text("StopServer"));
}

#[test]
fn call_tool_logs_outcome() {
    let ok: Result<String, AppError> = Ok("{}".to_string());
    let s = Router::call_tool_log("s1", "Files", "{\"name\":\"t\"}", 12, &ok);
    assert_eq!(s.params[6], text("CallTool"));
    assert_eq!(s.params[7], text("{\"name\":\"t\"}"));
    assert_eq!(s.params[8], text("success"));
    assert_eq!(s.params[9], SqlValue::Integer(12));
    assert_eq!(s.params[10], SqlValue::Null);

    let err: Result<String, AppError> = Err(AppError::Mcp("boom".to_string()));
    let s = Router::call_tool_log("s1", "Files", "{}", 3, &err);
    assert_eq!(s.params[8], text("error"));
    assert_eq!(s.params[10], text("MCP error: boom"));
}

#[test]
fn call_tool_outcome_wraps_errors() {
    assert_eq!(Router::call_tool_outcome(Ok("v".to_string())), Ok("v".to_string()));
    assert_eq!(
        Router::call_tool_outcome(Err(AppError::Http("down".to_string()))),
        Err(AppError::Mcp("HTTP error: down".to_string()))
    );
}
