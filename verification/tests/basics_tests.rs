use mcp_router::clock::{now_rfc3339, text_of_instant, timestamp_millis, Instant};
use mcp_router::db::{
    migration_applied_statement, migration_step, migrations, INITIAL_MIGRATION_ID, INITIAL_SCHEMA_SQL,
    MIGRATION_APPLIED_SQL, RECORD_MIGRATION_SQL,
};
use mcp_router::error::{message, AppError};
use mcp_router::models::ServerType;
use mcp_router::sql::{
    assignment_texts, column_int, column_opt_int, column_opt_text, column_text, placeholder_text, SqlValue,
};
use mcp_router::text::{hex_lower, i64_text, join, str_eq, text_of, u64_text};

#[test]
fn decimal_texts() {
    assert_eq!(u64_text(0), "0");
    assert_eq!(u64_text(1234567890), "1234567890");
    assert_eq!(u64_text(u64::MAX), "18446744073709551615");
    assert_eq!(i64_text(-42), "-42");
    assert_eq!(i64_text(0), "0");
    assert_eq!(i64_text(i64::MIN), "-9223372036854775808");
    assert_eq!(i64_text(i64::MAX), "9223372036854775807");
}

#[test]
fn hex_join_and_compare() {
    assert_eq!(hex_lower(&[0x00, 0x0f, 0xa0, 0xff]), "000fa0ff");
    assert_eq!(hex_lower(&[]), "");
    let parts = vec!["a".to_string(), "bc".to_string(), "".to_string()];
    assert_eq!(join(&parts, ", "), "a, bc, ");
    assert_eq!(join(&vec![], ", "), "");
    assert_eq!(join(&vec!["x".to_string()], "-"), "x");
    assert!(str_eq("héllo", "héllo"));
    assert!(!str_eq("abc", "abd"));
    assert!(!str_eq("ab", "abc"));
    assert_eq!(text_of("same"), "same");
}

#[test]
fn placeholders_and_assignments() {
    assert_eq!(placeholder_text(1), "?1");
    assert_eq!(placeholder_text(12), "?12");
    let cols = vec!["name".to_string(), "env".to_string()];
    assert_eq!(assignment_texts(&cols, 3), vec!["name = ?3".to_string(), "env = ?4".to_string()]);
}

#[test]
fn columns_of_rows() {
    let row = vec![SqlValue::Text("t".to_string()), SqlValue::Integer(9), SqlValue::Null, SqlValue::Real];
    assert_eq!(column_text(&row, 0), Some("t".to_string()));
    assert_eq!(column_text(&row, 1), None);
    assert_eq!(column_text(&row, 7), None);
    assert_eq!(column_opt_text(&row, 2), Some(None));
    assert_eq!(column_opt_text(&row, 3), None);
    assert_eq!(column_int(&row, 1), Some(9));
    assert_eq!(column_int(&row, 0), None);
    assert_eq!(column_opt_int(&row, 2), Some(None));
    assert_eq!(column_opt_int(&row, 1), Some(Some(9)));
}

#[test]
fn error_texts() {
    assert_eq!(AppError::Database("x".to_string()).to_string(), "Database error: x");
    assert_eq!(AppError::Auth("x".to_string()).to_string(), "Authentication error: x");
    assert_eq!(AppError::NotFound("x".to_string()).to_string(), "Not found: x");
    assert_eq!(AppError::Unauthorized.to_string(), "Unauthorized");
    assert_eq!(AppError::Serde("x".to_string()).to_string(), "Serialization error: x");
    assert_eq!(AppError::Mcp("x".to_string()).to_string(), "MCP error: x");
    assert_eq!(AppError::Server("x".to_string()).to_string(), "Server error: x");
    assert_eq!(AppError::Http("x".to_string()).to_string(), "HTTP error: x");
    assert_eq!(message("a: ", "b"), "a: b");
}

#[test]
fn server_type_names() {
    assert_eq!(ServerType::Local.to_string(), "local");
    assert_eq!(ServerType::Remote.to_string(), "remote");
    assert_eq!(ServerType::RemoteStreamable.to_string(), "remote-streamable");
    for t in [ServerType::Local, ServerType::Remote, ServerType::RemoteStreamable] {
        assert_eq!(ServerType::from_str(&t.to_string()), Ok(t));
    }
    assert_eq!(ServerType::from_str("remote_streamable"), Ok(ServerType::RemoteStreamable));
    assert_eq!(ServerType::from_str("ftp"), Err("Unknown server type: ftp".to_string()));
    assert_eq!(ServerType::from_str("Local"), Err("Unknown server type: Local".to_string()));
}

#[test]
fn clock_texts() {
    let epoch = Instant { secs: 0, nanos: 0 };
    assert_eq!(text_of_instant(epoch), "1970-01-01T00:00:00+00:00");
    assert_eq!(text_of_instant(Instant { secs: 86_400, nanos: 5_000_000 }), "1970-01-02T00:00:00.005+00:00");
    assert_eq!(timestamp_millis(Instant { secs: 2, nanos: 345_999_999 }), 2345);
    let now = now_rfc3339();
    assert!(now.ends_with("+00:00"));
    assert!(now.starts_with("20"));
}

#[test]
fn migrations_run_once() {
    let ms = migrations();
    assert_eq!(ms.len(), 1);
    assert_eq!(ms[0].id, INITIAL_MIGRATION_ID);
    assert_eq!(ms[0].sql, INITIAL_SCHEMA_SQL);
    let q = migration_applied_statement("001_initial");
    assert_eq!(q.sql, MIGRATION_APPLIED_SQL);
    assert_eq!(q.params, vec![SqlValue::Text("001_initial".to_string())]);
    assert_eq!(migration_step(&ms[0], true), None);
    let step = migration_step(&ms[0], false).unwrap();
    assert_eq!(step.batch, INITIAL_SCHEMA_SQL);
    assert_eq!(step.record.sql, RECORD_MIGRATION_SQL);
    assert_eq!(step.record.params, vec![SqlValue::Text("001_initial".to_string())]);
}
