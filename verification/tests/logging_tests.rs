use mcp_router::sql::{CellType, ColumnError, ColumnProblem};
use mcp_router::error::AppError;
use mcp_router::logging::{
    LoggingService, CLEAR_LOGS_SQL, COUNT_ACTIVE_SERVERS_SQL, COUNT_PROJECTS_SQL, COUNT_REQUESTS_SQL,
    COUNT_SERVERS_SQL, INSERT_LOG_SQL,
};
use mcp_router::models::LogQueryParams;
use mcp_router::sql::SqlValue;

fn text(s: &str) -> SqlValue {
    SqlValue::Text(s.to_string())
}

const HEAD: &str = "SELECT id, timestamp, client_id, client_name, server_id, server_name, request_type, request_params, response_status, duration, error_message\n             FROM request_logs ";

fn params(server: Option<&str>, kind: Option<&str>, status: Option<&str>) -> LogQueryParams {
    LogQueryParams {
        limit: None,
        offset: None,
        server_id: server.map(|s| s.to_string()),
        request_type: kind.map(|s| s.to_string()),
        response_status: status.map(|s| s.to_string()),
    }
}

#[test]
fn unfiltered_query_defaults() {
    let q = LoggingService::query_logs(&params(None, None, None));
    assert_eq!(q.limit, 50);
    assert_eq!(q.offset, 0);
    assert_eq!(q.count.sql, "SELECT COUNT(*) FROM request_logs ");
    assert!(q.count.params.is_empty());
    assert_eq!(q.page.sql, format!("{} ORDER BY timestamp DESC LIMIT 50 OFFSET 0", HEAD));
    assert!(q.page.params.is_empty());
}

#[test]
fn filters_are_numbered_in_order() {
    let mut p = params(Some("s1"), None, Some("error"));
    p.limit = Some(10);
    p.offset = Some(-3);
    let q = LoggingService::query_logs(&p);
    assert_eq!(q.count.sql, "SELECT COUNT(*) FROM request_logs WHERE server_id = ?1 AND response_status = ?2");
    assert_eq!(q.count.params, vec![text("s1"), text("error")]);
    assert_eq!(
        q.page.sql,
        format!("{}WHERE server_id = ?1 AND response_status = ?2 ORDER BY timestamp DESC LIMIT 10 OFFSET -3", HEAD)
    );
    assert_eq!(q.page.params, q.count.params);
    let all = LoggingService::query_logs(&params(Some("a"), Some("b"), Some("c")));
    assert_eq!(
        all.count.sql,
        "SELECT COUNT(*) FROM request_logs WHERE server_id = ?1 AND request_type = ?2 AND response_status = ?3"
    );
    let kind = LoggingService::query_logs(&params(None, Some("CallTool"), None));
    assert_eq!(kind.count.sql, "SELECT COUNT(*) FROM request_logs WHERE request_type = ?1");
}

fn log_row(id: &str) -> Vec<SqlValue> {
    vec![
        text(id),
        SqlValue::Integer(1_000),
        SqlValue::Null,
        SqlValue::Null,
        text("s1"),
        text("server one"),
        text("CallTool"),
        text("{}"),
        text("success"),
        SqlValue::Integer(12),
        SqlValue::Null,
    ]
}

#[test]
fn pages_know_whether_more_follow() {
    let q = LoggingService::query_logs(&params(None, None, None));
    let page = LoggingService::logs_page(&q, 51, &vec![log_row("a"), log_row("b")]).unwrap();
    assert!(page.has_more);
    assert_eq!(page.total, 51);
    assert_eq!(page.items.len(), 2);
    assert_eq!(page.items[0].id, "a");
    assert_eq!(page.items[0].duration, Some(12));
    assert_eq!(page.items[0].client_id, None);
    let page = LoggingService::logs_page(&q, 50, &vec![]).unwrap();
    assert!(!page.has_more);
    let mut bad = log_row("c");
    bad[1] = text("late");
    assert_eq!(
        LoggingService::logs_page(&q, 1, &vec![log_row("ok"), bad]),
        Err(ColumnError { index: 1, problem: ColumnProblem::WrongType(CellType::Text) })
    );
}

#[test]
fn log_entry_statement_orders_columns() {
    let s = LoggingService::log_entry_statement(
        "id-1".to_string(),
        77,
        Some("srv"),
        Some("Server"),
        None,
        Some("client"),
        "StartServer",
        None,
        "success",
        Some(5),
        None,
    );
    assert_eq!(s.sql, INSERT_LOG_SQL);
    assert_eq!(
        s.params,
        vec![
            text("id-1"),
            SqlValue::Integer(77),
            SqlValue::Null,
            text("client"),
            text("srv"),
            text("Server"),
            text("StartServer"),
            SqlValue::Null,
            text("success"),
            SqlValue::Integer(5),
            SqlValue::Null,
        ]
    );
}

#[test]
fn log_request_stamps_id_and_time() {
    let s = LoggingService::log_request(Some("s"), None, None, None, "X", None, "success", None, Some("e"));
    match (&s.params[0], &s.params[1]) {
        (SqlValue::Text(id), SqlValue::Integer(ms)) => {
            assert_eq!(id.len(), 36);
            assert!(*ms > 1_600_000_000_000);
        }
        other => panic!("unexpected {:?}", other),
    }
    assert_eq!(s.params[10], text("e"));
}

#[test]
fn clear_and_stats() {
    assert_eq!(LoggingService::clear_logs().sql, CLEAR_LOGS_SQL);
    let st = LoggingService::stats_statements();
    let sqls: Vec<&str> = st.iter().map(|s| s.sql.as_str()).collect();
    assert_eq!(sqls, vec![COUNT_SERVERS_SQL, COUNT_ACTIVE_SERVERS_SQL, COUNT_REQUESTS_SQL, COUNT_PROJECTS_SQL]);
    let stats = LoggingService::get_stats(4, 3, 100, 2);
    assert_eq!(stats.total_servers, 4);
    assert_eq!(stats.active_servers, 3);
    assert_eq!(stats.total_requests, 100);
    assert_eq!(stats.total_projects, 2);
}
