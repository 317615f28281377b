use mcp_router::sql::{CellType, ColumnError, ColumnProblem};
use mcp_router::error::AppError;
use mcp_router::models::{CreateServerRequest, McpServer, ServerType, UpdateServerRequest};
use mcp_router::server::{
    ServerService, DELETE_SERVER_SQL, FIND_SERVER_SQL, INSERT_SERVER_SQL, LIST_SERVERS_SQL,
    SET_TOOL_PERMISSIONS_SQL, TOGGLE_SERVER_SQL,
};
use mcp_router::sql::SqlValue;

fn text(s: &str) -> SqlValue {
    SqlValue::Text(s.to_string())
}

fn create_request() -> CreateServerRequest {
    CreateServerRequest {
        name: "files".to_string(),
        description: Some("local files".to_string()),
        server_type: ServerType::Local,
        command: Some("npx".to_string()),
        args: Some("[\"-y\",\"pkg\"]".to_string()),
        env: None,
        remote_url: None,
        bearer_token: None,
        project_id: None,
        auto_start: None,
    }
}

fn empty_update(id: &str) -> UpdateServerRequest {
    UpdateServerRequest {
        id: id.to_string(),
        name: None,
        description: None,
        command: None,
        args: None,
        env: None,
        remote_url: None,
        bearer_token: None,
        project_id: None,
        tool_permissions: None,
        auto_start: None,
        disabled: None,
    }
}

fn server_row(id: &str, stored_type: &str, auto_start: i64, disabled: i64) -> Vec<SqlValue> {
    vec![
        text(id),
        text("files"),
        SqlValue::Null,
        text(stored_type),
        text("npx"),
        SqlValue::Null,
        SqlValue::Null,
        SqlValue::Null,
        SqlValue::Null,
        text("p1"),
        text("{\"read\":true}"),
        SqlValue::Integer(auto_start),
        SqlValue::Integer(disabled),
        text("2024-01-01T00:00:00+00:00"),
        text("2024-01-02T00:00:00+00:00"),
    ]
}

#[test]
fn new_server_statement_and_record() {
    let req = create_request();
    let plan = ServerService::new_server(&req, "id-1".to_string(), "T0".to_string());
    assert_eq!(plan.statement.sql, INSERT_SERVER_SQL);
    assert_eq!(
        plan.statement.params,
        vec![
            text("id-1"),
            text("files"),
            text("local files"),
            text("local"),
            text("npx"),
            text("[\"-y\",\"pkg\"]"),
            SqlValue::Null,
            SqlValue::Null,
            SqlValue::Null,
            SqlValue::Null,
            SqlValue::Integer(0),
            text("T0"),
            text("T0"),
        ]
    );
    assert_eq!(plan.server.id, "id-1");
    assert_eq!(plan.server.tool_permissions, None);
    assert!(!plan.server.auto_start);
    assert!(!plan.server.disabled);
    assert_eq!(plan.server.created_at, "T0");
    assert_eq!(plan.server.updated_at, "T0");
}

#[test]
fn new_server_auto_start_and_remote_type() {
    let mut req = create_request();
    req.server_type = ServerType::RemoteStreamable;
    req.auto_start = Some(true);
    let plan = ServerService::new_server(&req, "id-2".to_string(), "T1".to_string());
    assert_eq!(plan.statement.params[3], text("remote-streamable"));
    assert_eq!(plan.statement.params[10], SqlValue::Integer(1));
    assert!(plan.server.auto_start);
}

#[test]
fn created_server_reads_back() {
    let req = create_request();
    let plan = ServerService::new_server(&req, "id-3".to_string(), "T2".to_string());
    let p = &plan.statement.params;
    let row = vec![
        p[0].clone(),
        p[1].clone(),
        p[2].clone(),
        p[3].clone(),
        p[4].clone(),
        p[5].clone(),
        p[6].clone(),
        p[7].clone(),
        p[8].clone(),
        p[9].clone(),
        SqlValue::Null,
        p[10].clone(),
        SqlValue::Integer(0),
        p[11].clone(),
        p[12].clone(),
    ];
    assert_eq!(ServerService::server_from_row(&row), Some(plan.server.clone()));
}

#[test]
fn create_server_uses_fresh_id() {
    let req = create_request();
    let a = ServerService::create_server(&req);
    let b = ServerService::create_server(&req);
    assert_eq!(a.server.id.len(), 36);
    assert_ne!(a.server.id, b.server.id);
    assert_eq!(a.server.created_at, a.server.updated_at);
    assert_eq!(a.statement.params[0], SqlValue::Text(a.server.id.clone()));
}

#[test]
fn server_rows_decode() {
    let s: McpServer = ServerService::server_from_row(&server_row("s1", "remote_streamable", 1, 0)).unwrap();
    assert_eq!(s.server_type, ServerType::RemoteStreamable);
    assert!(s.auto_start);
    assert!(!s.disabled);
    assert_eq!(s.project_id, Some("p1".to_string()));
    assert_eq!(s.tool_permissions, Some("{\"read\":true}".to_string()));
    assert_eq!(s.description, None);
    // an unknown stored type reads as a local server
    let s = ServerService::server_from_row(&server_row("s2", "weird", 0, 7)).unwrap();
    assert_eq!(s.server_type, ServerType::Local);
    assert!(s.disabled);
    // a flag outside 32 bits does not read
    assert_eq!(ServerService::server_from_row(&server_row("s3", "local", 1 << 40, 0)), None);
    // a short row does not read
    let mut short = server_row("s4", "local", 0, 0);
    short.pop();
    assert_eq!(ServerService::server_from_row(&short), None);
}

#[test]
fn list_and_get_servers() {
    assert_eq!(ServerService::list_servers_statement().sql, LIST_SERVERS_SQL);
    let rows = vec![server_row("a", "local", 0, 0), server_row("b", "remote", 0, 1)];
    let servers = ServerService::list_servers(&rows).unwrap();
    assert_eq!(servers.len(), 2);
    assert_eq!(servers[1].id, "b");
    assert_eq!(servers[1].server_type, ServerType::Remote);
    let mut bad = rows.clone();
    bad[1][0] = SqlValue::Integer(3);
    assert_eq!(
        ServerService::list_servers(&bad),
        Err(ColumnError { index: 0, problem: ColumnProblem::WrongType(CellType::Integer) })
    );
    // the type column is read first
    bad[1][3] = SqlValue::Blob;
    assert_eq!(
        ServerService::list_servers(&bad),
        Err(ColumnError { index: 3, problem: ColumnProblem::WrongType(CellType::Blob) })
    );
    let mut wide = rows.clone();
    wide[0][12] = SqlValue::Integer(1 << 40);
    assert_eq!(
        ServerService::list_servers(&wide),
        Err(ColumnError { index: 12, problem: ColumnProblem::OutOfRange(1 << 40) })
    );
    let mut garbled = rows.clone();
    garbled[0][4] = SqlValue::InvalidText(vec![0xff]);
    assert_eq!(
        ServerService::list_servers(&garbled),
        Err(ColumnError { index: 4, problem: ColumnProblem::NotUtf8(vec![0xff]) })
    );

    let find = ServerService::find_server_statement("a");
    assert_eq!(find.sql, FIND_SERVER_SQL);
    assert_eq!(find.params, vec![text("a")]);
    assert_eq!(ServerService::get_server("a", Some(server_row("a", "local", 0, 0))).unwrap().id, "a");
    assert_eq!(
        ServerService::get_server("zz", None),
        Err(AppError::NotFound("Server zz not found".to_string()))
    );
}

#[test]
fn update_statement_sets_only_given_fields() {
    let mut req = empty_update("srv");
    req.name = Some("renamed".to_string());
    req.disabled = Some(true);
    let s = ServerService::update_statement(&req, "NOW".to_string());
    assert_eq!(s.sql, "UPDATE servers SET updated_at = ?1, name = ?2, disabled = ?3 WHERE id = ?4");
    assert_eq!(s.params, vec![text("NOW"), text("renamed"), SqlValue::Integer(1), text("srv")]);

    let s = ServerService::update_statement(&empty_update("x"), "N".to_string());
    assert_eq!(s.sql, "UPDATE servers SET updated_at = ?1 WHERE id = ?2");
    assert_eq!(s.params, vec![text("N"), text("x")]);
}

#[test]
fn update_statement_with_every_field() {
    let req = UpdateServerRequest {
        id: "all".to_string(),
        name: Some("n".to_string()),
        description: Some("d".to_string()),
        command: Some("c".to_string()),
        args: Some("[]".to_string()),
        env: Some("{}".to_string()),
        remote_url: Some("u".to_string()),
        bearer_token: Some("b".to_string()),
        project_id: Some("p".to_string()),
        tool_permissions: Some("t".to_string()),
        auto_start: Some(false),
        disabled: Some(false),
    };
    let s = ServerService::update_statement(&req, "T".to_string());
    assert_eq!(
        s.sql,
        "UPDATE servers SET updated_at = ?1, name = ?2, description = ?3, command = ?4, args = ?5, env = ?6, \
         remote_url = ?7, bearer_token = ?8, project_id = ?9, tool_permissions = ?10, auto_start = ?11, \
         disabled = ?12 WHERE id = ?13"
    );
    assert_eq!(s.params.len(), 13);
    assert_eq!(s.params[10], SqlValue::Integer(0));
    assert_eq!(s.params[12], text("all"));
}

#[test]
fn update_server_stamps_now() {
    let mut req = empty_update("srv");
    req.command = Some("node".to_string());
    let s = ServerService::update_server(&req);
    assert_eq!(s.sql, "UPDATE servers SET updated_at = ?1, command = ?2 WHERE id = ?3");
    match &s.params[0] {
        SqlValue::Text(t) => assert!(t.contains('T')),
        other => panic!("unexpected {:?}", other),
    }
    assert_eq!(s.params[1], text("node"));
}

#[test]
fn delete_toggle_and_permissions() {
    let d = ServerService::delete_server_statement("s9");
    assert_eq!(d.sql, DELETE_SERVER_SQL);
    assert_eq!(d.params, vec![text("s9")]);
    assert_eq!(ServerService::delete_server("s9", 1), Ok(()));
    assert_eq!(
        ServerService::delete_server("s9", 0),
        Err(AppError::NotFound("Server s9 not found".to_string()))
    );

    let t = ServerService::toggle_server("s9", true);
    assert_eq!(t.sql, TOGGLE_SERVER_SQL);
    assert_eq!(t.params, vec![SqlValue::Integer(1), text("s9")]);
    assert_eq!(ServerService::toggle_server("s9", false).params[0], SqlValue::Integer(0));

    let p = ServerService::tool_permissions_statement("s9", "{\"a\":false}");
    assert_eq!(p.sql, SET_TOOL_PERMISSIONS_SQL);
    assert_eq!(p.params, vec![text("{\"a\":false}"), text("s9")]);
    assert_eq!(ServerService::update_tool_permissions("s9", 2), Ok(()));
    assert_eq!(
        ServerService::update_tool_permissions("s9", 0),
        Err(AppError::NotFound("Server s9 not found".to_string()))
    );
}

#[test]
fn new_ids_are_version_4_uuids() {
    let id = ServerService::create_server(&create_request()).server.id;
    let chars: Vec<char> = id.chars().collect();
    assert_eq!(chars.len(), 36);
    for (i, c) in chars.iter().enumerate() {
        if [8, 13, 18, 23].contains(&i) {
            assert_eq!(*c, '-');
        } else {
            assert!(c.is_ascii_digit() || ('a'..='f').contains(c));
        }
    }
    assert_eq!(chars[14], '4');
    assert!(['8', '9', 'a', 'b'].contains(&chars[19]));
}
