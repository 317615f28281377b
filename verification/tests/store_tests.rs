use rusqlite::types::{Value, ValueRef};
use rusqlite::{params_from_iter, Connection};

use mcp_router::auth::AuthService;
use mcp_router::clock::Instant;
use mcp_router::db::{migration_applied_statement, migration_step, migrations, CONNECTION_SETUP_SQL, MIGRATIONS_TABLE_SQL};
use mcp_router::error::AppError;
use mcp_router::logging::LoggingService;
use mcp_router::models::{
    CreateProjectRequest, CreateServerRequest, GenerateTokenRequest, LogQueryParams, ServerType, UpdateServerRequest,
};
use mcp_router::projects::ProjectService;
use mcp_router::server::ServerService;
use mcp_router::sql::{column_text, CellType, ColumnError, ColumnProblem, SqlStatement, SqlValue};
use mcp_router::token::TokenService;

fn to_value(v: &SqlValue) -> Value {
    match v {
        SqlValue::Null | SqlValue::Real | SqlValue::Blob => Value::Null,
        SqlValue::InvalidText(b) => Value::Blob(b.clone()),
        SqlValue::Integer(i) => Value::Integer(*i),
        SqlValue::Text(s) => Value::Text(s.clone()),
    }
}

fn from_ref(v: ValueRef<'_>) -> SqlValue {
    match v {
        ValueRef::Null => SqlValue::Null,
        ValueRef::Integer(i) => SqlValue::Integer(i),
        ValueRef::Text(t) => match String::from_utf8(t.to_vec()) {
            Ok(s) => SqlValue::Text(s),
            Err(_) => SqlValue::InvalidText(t.to_vec()),
        },
        ValueRef::Real(_) => SqlValue::Real,
        ValueRef::Blob(_) => SqlValue::Blob,
    }
}

fn exec(conn: &Connection, s: &SqlStatement) -> usize {
    conn.execute(&s.sql, params_from_iter(s.params.iter().map(to_value))).unwrap()
}

fn try_exec(conn: &Connection, s: &SqlStatement) -> Result<usize, rusqlite::Error> {
    conn.execute(&s.sql, params_from_iter(s.params.iter().map(to_value)))
}

fn rows(conn: &Connection, s: &SqlStatement) -> Vec<Vec<SqlValue>> {
    let mut stmt = conn.prepare(&s.sql).unwrap();
    let n = stmt.column_count();
    let mut rs = stmt.query(params_from_iter(s.params.iter().map(to_value))).unwrap();
    let mut out = Vec::new();
    while let Some(r) = rs.next().unwrap() {
        out.push((0..n).map(|i| from_ref(r.get_ref(i).unwrap())).collect());
    }
    out
}

fn first(conn: &Connection, s: &SqlStatement) -> Option<Vec<SqlValue>> {
    rows(conn, s).into_iter().next()
}

fn count(conn: &Connection, s: &SqlStatement) -> i64 {
    match first(conn, s).unwrap()[0] {
        SqlValue::Integer(n) => n,
        ref other => panic!("unexpected {:?}", other),
    }
}

fn open_store() -> Connection {
    let conn = Connection::open_in_memory().unwrap();
    conn.execute_batch(CONNECTION_SETUP_SQL).unwrap();
    migrate(&conn);
    conn
}

fn migrate(conn: &Connection) -> usize {
    conn.execute_batch(MIGRATIONS_TABLE_SQL).unwrap();
    let mut ran = 0;
    for m in migrations() {
        let applied = count(conn, &migration_applied_statement(&m.id)) != 0;
        if let Some(step) = migration_step(&m, applied) {
            conn.execute_batch(&step.batch).unwrap();
            exec(conn, &step.record);
            ran += 1;
        }
    }
    ran
}

fn login(conn: &Connection, username: &str, password: &str) -> Result<String, AppError> {
    let user = first(conn, &AuthService::find_user_statement(username)).and_then(|r| AuthService::user_from_row(&r));
    let plan = AuthService::login(user, password)?;
    for s in &plan.statements {
        exec(conn, s);
    }
    Ok(plan.response.token)
}

fn session_valid(conn: &Connection, token: &str) -> (bool, Option<String>) {
    let found = first(conn, &AuthService::find_session_statement(token)).and_then(|r| AuthService::session_from_row(&r));
    let check = AuthService::validate_session(token, found);
    if let Some(c) = &check.cleanup {
        exec(conn, c);
    }
    (check.response.valid, check.response.username)
}

fn server_request(name: &str, project_id: Option<String>) -> CreateServerRequest {
    CreateServerRequest {
        name: name.to_string(),
        description: None,
        server_type: ServerType::Local,
        command: Some("npx".to_string()),
        args: None,
        env: None,
        remote_url: None,
        bearer_token: None,
        project_id,
        auto_start: Some(true),
    }
}

fn get_server(conn: &Connection, id: &str) -> Result<mcp_router::models::McpServer, AppError> {
    ServerService::get_server(id, first(conn, &ServerService::find_server_statement(id)))
}

#[test]
fn migrations_run_once_on_a_store() {
    let conn = open_store();
    assert_eq!(migrate(&conn), 0);
}

#[test]
fn default_user_logs_in_once_at_a_time() {
    let conn = open_store();
    let insert = AuthService::setup_default_user(count(&conn, &AuthService::count_users_statement())).unwrap().unwrap();
    exec(&conn, &insert);
    assert_eq!(AuthService::setup_default_user(count(&conn, &AuthService::count_users_statement())), Ok(None));
    assert!(AuthService::has_users(count(&conn, &AuthService::count_users_statement())));

    assert_eq!(login(&conn, "admin", "wrong"), Err(AppError::Auth("Invalid username or password".to_string())));
    assert_eq!(login(&conn, "nobody", "admin"), Err(AppError::Auth("Invalid username or password".to_string())));

    let first_token = login(&conn, "admin", "admin").unwrap();
    assert!(first_token.starts_with("mcpr_"));
    assert_eq!(first_token.len(), 48);
    assert!(first_token[5..].chars().all(|c| c.is_ascii_alphanumeric() || c == '-' || c == '_'));
    assert_eq!(session_valid(&conn, &first_token), (true, Some("admin".to_string())));
    let second_token = login(&conn, "admin", "admin").unwrap();
    assert_ne!(first_token, second_token);
    // one session per user: the first is gone
    assert_eq!(session_valid(&conn, &first_token), (false, None));
    assert_eq!(session_valid(&conn, &second_token), (true, Some("admin".to_string())));

    exec(&conn, &AuthService::logout(&second_token));
    assert_eq!(session_valid(&conn, &second_token), (false, None));
}

#[test]
fn expired_session_is_removed_from_the_store() {
    let conn = open_store();
    exec(&conn, &AuthService::setup_default_user(0).unwrap().unwrap());
    let user = AuthService::user_from_row(&first(&conn, &AuthService::find_user_statement("admin")).unwrap()).unwrap();
    let plan = AuthService::start_session(&user, &[1u8; 32], "2000-01-01T00:00:00+00:00");
    for s in &plan.statements {
        exec(&conn, s);
    }
    let token = plan.response.token;
    let found = first(&conn, &AuthService::find_session_statement(&token)).and_then(|r| AuthService::session_from_row(&r));
    let check = AuthService::check_session(&token, found, Instant { secs: 1_700_000_000, nanos: 0 });
    assert!(!check.response.valid);
    exec(&conn, &check.cleanup.unwrap());
    assert_eq!(first(&conn, &AuthService::find_session_statement(&token)), None);
}

#[test]
fn password_change_ends_sessions() {
    let conn = open_store();
    exec(&conn, &AuthService::setup_default_user(0).unwrap().unwrap());
    let token = login(&conn, "admin", "admin").unwrap();
    let stored = first(&conn, &AuthService::find_password_statement("admin")).and_then(|r| column_text(&r, 0));
    for s in &AuthService::change_password("admin", "admin", "n3w", stored).unwrap() {
        exec(&conn, s);
    }
    assert_eq!(session_valid(&conn, &token), (false, None));
    assert!(login(&conn, "admin", "admin").is_err());
    let token = login(&conn, "admin", "n3w").unwrap();
    assert_eq!(session_valid(&conn, &token), (true, Some("admin".to_string())));
}

#[test]
fn servers_read_back_what_was_written() {
    let conn = open_store();
    let plan = ServerService::create_server(&server_request("files", None));
    exec(&conn, &plan.statement);
    let id = plan.server.id.clone();
    assert_eq!(get_server(&conn, &id), Ok(plan.server.clone()));

    let update = UpdateServerRequest {
        id: id.clone(),
        name: Some("renamed".to_string()),
        description: Some("d".to_string()),
        command: None,
        args: Some("[\"a\"]".to_string()),
        env: None,
        remote_url: None,
        bearer_token: None,
        project_id: None,
        tool_permissions: None,
        auto_start: Some(false),
        disabled: None,
    };
    exec(&conn, &ServerService::update_statement(&update, "T9".to_string()));
    let s = get_server(&conn, &id).unwrap();
    assert_eq!(s.name, "renamed");
    assert_eq!(s.description, Some("d".to_string()));
    assert_eq!(s.command, Some("npx".to_string()));
    assert_eq!(s.args, Some("[\"a\"]".to_string()));
    assert!(!s.auto_start);
    assert_eq!(s.updated_at, "T9");
    assert_eq!(s.created_at, plan.server.created_at);

    exec(&conn, &ServerService::toggle_server(&id, true));
    assert!(get_server(&conn, &id).unwrap().disabled);
    let affected = exec(&conn, &ServerService::tool_permissions_statement(&id, "{\"t\":true}"));
    assert_eq!(ServerService::update_tool_permissions(&id, affected), Ok(()));
    assert_eq!(get_server(&conn, &id).unwrap().tool_permissions, Some("{\"t\":true}".to_string()));
    let listed = ServerService::list_servers(&rows(&conn, &ServerService::list_servers_statement())).unwrap();
    assert_eq!(listed.len(), 1);

    let affected = exec(&conn, &ServerService::delete_server_statement(&id));
    assert_eq!(ServerService::delete_server(&id, affected), Ok(()));
    assert_eq!(get_server(&conn, &id), Err(AppError::NotFound(format!("Server {} not found", id))));
    let affected = exec(&conn, &ServerService::delete_server_statement(&id));
    assert!(ServerService::delete_server(&id, affected).is_err());
}

#[test]
fn deleting_a_project_unassigns_its_servers() {
    let conn = open_store();
    let project = ProjectService::create_project(&CreateProjectRequest { name: "P".to_string(), optimization: None });
    exec(&conn, &project.statement);
    let pid = project.project.id.clone();
    let found = ProjectService::get_project(&pid, first(&conn, &ProjectService::find_project_statement(&pid)));
    assert_eq!(found, Ok(project.project.clone()));

    let srv = ServerService::create_server(&server_request("in-project", Some(pid.clone())));
    exec(&conn, &srv.statement);
    // a server cannot name a project that does not exist
    let orphan = ServerService::create_server(&server_request("orphan", Some("no-such".to_string())));
    assert!(try_exec(&conn, &orphan.statement).is_err());

    for s in &ProjectService::update_project(&pid, &Some("Q".to_string()), &Some("fast".to_string())) {
        exec(&conn, s);
    }
    let p = ProjectService::get_project(&pid, first(&conn, &ProjectService::find_project_statement(&pid))).unwrap();
    assert_eq!(p.name, "Q");
    assert_eq!(p.optimization, Some("fast".to_string()));

    let stmts = ProjectService::delete_project_statements(&pid);
    exec(&conn, &stmts[0]);
    let affected = exec(&conn, &stmts[1]);
    assert_eq!(ProjectService::delete_project(&pid, affected), Ok(()));
    assert_eq!(get_server(&conn, &srv.server.id).unwrap().project_id, None);
    assert!(ProjectService::get_project(&pid, first(&conn, &ProjectService::find_project_statement(&pid))).is_err());
    assert!(ProjectService::list_projects(&rows(&conn, &ProjectService::list_projects_statement())).unwrap().is_empty());
}

#[test]
fn tokens_replace_validate_and_revoke() {
    let conn = open_store();
    let req = GenerateTokenRequest {
        client_id: "cline".to_string(),
        server_access: vec![("s1".to_string(), true)],
        expires_in_seconds: None,
    };
    let first_plan = TokenService::generate_token(&req).unwrap();
    for s in &first_plan.statements {
        exec(&conn, s);
    }
    let second_plan = TokenService::generate_token(&req).unwrap();
    for s in &second_plan.statements {
        exec(&conn, s);
    }
    let listed = TokenService::list_tokens(&rows(&conn, &TokenService::list_tokens_statement())).unwrap();
    assert_eq!(listed, vec![second_plan.token.clone()]);

    let lookup = |id: &str| {
        first(&conn, &TokenService::find_token_statement(id)).and_then(|r| TokenService::token_from_row(&r))
    };
    assert_eq!(TokenService::validate_token(lookup(&second_plan.token.id)), Ok(second_plan.token.clone()));
    assert_eq!(TokenService::validate_token(lookup(&first_plan.token.id)), Err(AppError::Unauthorized));

    let affected = exec(&conn, &TokenService::revoke_token_statement(&second_plan.token.id));
    assert_eq!(TokenService::revoke_token(affected), Ok(()));
    assert_eq!(TokenService::validate_token(lookup(&second_plan.token.id)), Err(AppError::Unauthorized));
    let affected = exec(&conn, &TokenService::revoke_token_statement(&second_plan.token.id));
    assert_eq!(TokenService::revoke_token(affected), Err(AppError::NotFound("Token not found".to_string())));
}

#[test]
fn logs_are_paged_and_filtered() {
    let conn = open_store();
    for i in 0..5 {
        let status = if i % 2 == 0 { "success" } else { "error" };
        exec(&conn, &LoggingService::log_entry_statement(
            format!("log-{}", i),
            1000 + i,
            Some("srv"),
            Some("Srv"),
            None,
            None,
            "CallTool",
            None,
            status,
            Some(i),
            None,
        ));
    }
    exec(&conn, &LoggingService::log_request(Some("other"), None, None, None, "StartServer", None, "success", None, None));

    let run = |p: LogQueryParams| {
        let q = LoggingService::query_logs(&p);
        let total = count(&conn, &q.count);
        LoggingService::logs_page(&q, total, &rows(&conn, &q.page)).unwrap()
    };
    let all = run(LogQueryParams { limit: None, offset: None, server_id: None, request_type: None, response_status: None });
    assert_eq!(all.total, 6);
    assert!(!all.has_more);
    assert_eq!(all.items[0].server_id, Some("other".to_string()));

    let page = run(LogQueryParams {
        limit: Some(2),
        offset: Some(0),
        server_id: Some("srv".to_string()),
        request_type: Some("CallTool".to_string()),
        response_status: Some("success".to_string()),
    });
    assert_eq!(page.total, 3);
    assert!(page.has_more);
    let ids: Vec<&str> = page.items.iter().map(|e| e.id.as_str()).collect();
    assert_eq!(ids, vec!["log-4", "log-2"]);
    assert_eq!(page.items[0].duration, Some(4));

    let stats = LoggingService::stats_statements();
    let counts: Vec<i64> = stats.iter().map(|s| count(&conn, s)).collect();
    assert_eq!(LoggingService::get_stats(counts[0], counts[1], counts[2], counts[3]).total_requests, 6);
    exec(&conn, &LoggingService::clear_logs());
    assert_eq!(count(&conn, &LoggingService::stats_statements()[2]), 0);
}

fn store_message(e: ColumnError, names: &[String]) -> String {
    let ty = |t: CellType| match t {
        CellType::Null => rusqlite::types::Type::Null,
        CellType::Integer => rusqlite::types::Type::Integer,
        CellType::Real => rusqlite::types::Type::Real,
        CellType::Text => rusqlite::types::Type::Text,
        CellType::Blob => rusqlite::types::Type::Blob,
    };
    match e.problem {
        ColumnProblem::WrongType(t) => rusqlite::Error::InvalidColumnType(e.index, names[e.index].clone(), ty(t)),
        ColumnProblem::OutOfRange(v) => rusqlite::Error::IntegralValueOutOfRange(e.index, v),
        ColumnProblem::NotUtf8(b) => rusqlite::Error::FromSqlConversionFailure(
            e.index,
            rusqlite::types::Type::Text,
            Box::new(std::str::from_utf8(&b).unwrap_err()),
        ),
        ColumnProblem::Missing => rusqlite::Error::InvalidColumnIndex(e.index),
    }
    .to_string()
}

#[test]
fn unreadable_rows_fail_as_the_store_reads_them() {
    let conn = open_store();
    let plan = ServerService::create_server(&server_request("files", None));
    exec(&conn, &plan.statement);
    let sql = ServerService::list_servers_statement().sql;
    let names: Vec<String> = conn.prepare(&sql).unwrap().column_names().into_iter().map(|n| n.to_string()).collect();
    let typed_read = |conn: &Connection| -> String {
        let mut stmt = conn.prepare(&sql).unwrap();
        let mut rs = stmt.query([]).unwrap();
        let row = rs.next().unwrap().unwrap();
        let r: rusqlite::Result<()> = (|| {
            let _t: String = row.get(3)?;
            let _a: String = row.get(0)?;
            let _b: String = row.get(1)?;
            let _c: Option<String> = row.get(2)?;
            for i in 4..=10 {
                let _o: Option<String> = row.get(i)?;
            }
            let _f: i32 = row.get(11)?;
            let _g: i32 = row.get(12)?;
            let _h: String = row.get(13)?;
            let _k: String = row.get(14)?;
            Ok(())
        })();
        r.unwrap_err().to_string()
    };
    let cases = [
        "UPDATE servers SET server_type = X'00'",
        "UPDATE servers SET server_type = 'local', auto_start = 99999999999",
        "UPDATE servers SET auto_start = 0, command = CAST(X'FF' AS TEXT)",
        "UPDATE servers SET command = NULL, disabled = 1.5",
    ];
    for case in cases {
        conn.execute_batch(case).unwrap();
        let err = ServerService::list_servers(&rows(&conn, &ServerService::list_servers_statement())).unwrap_err();
        assert_eq!(store_message(err, &names), typed_read(&conn));
    }
}

#[test]
fn a_login_session_expires_seven_days_later() {
    let conn = open_store();
    exec(&conn, &AuthService::setup_default_user(0).unwrap().unwrap());
    let before = chrono::Utc::now();
    login(&conn, "admin", "admin").unwrap();
    let after = chrono::Utc::now();
    let expires: String = conn.query_row("SELECT expires_at FROM sessions", [], |r| r.get(0)).unwrap();
    let expires = chrono::DateTime::parse_from_rfc3339(&expires).unwrap();
    let week = chrono::Duration::seconds(7 * 24 * 60 * 60);
    assert!(expires >= before + week && expires <= after + week);
}
