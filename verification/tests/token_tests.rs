use mcp_router::sql::{CellType, ColumnError, ColumnProblem};
use mcp_router::auth::token_from_bytes;
use mcp_router::error::AppError;
use mcp_router::models::{ApiToken, GenerateTokenRequest};
use mcp_router::sql::SqlValue;
use mcp_router::token::{
    latest_access, TokenService, DEFAULT_TOKEN_TTL_SECONDS, DELETE_CLIENT_TOKENS_SQL, DELETE_TOKEN_SQL, FIND_TOKEN_SQL,
    INSERT_TOKEN_SQL, LIST_TOKENS_SQL,
};

fn text(s: &str) -> SqlValue {
    SqlValue::Text(s.to_string())
}

fn request(ttl: Option<i64>) -> GenerateTokenRequest {
    GenerateTokenRequest {
        client_id: "cursor".to_string(),
        server_access: vec![("srv-b".to_string(), false), ("srv-a".to_string(), true)],
        expires_in_seconds: ttl,
    }
}

fn token(expires_at: Option<i64>) -> ApiToken {
    ApiToken {
        id: "mcpr_x".to_string(),
        client_id: "c".to_string(),
        server_access: "{}".to_string(),
        issued_at: 100,
        expires_at,
    }
}

#[test]
fn issue_token_is_exact() {
    let req = request(None);
    let plan = TokenService::issue_token(&req, &[0u8; 24], 1_000, "{\"x\":true}".to_string());
    assert_eq!(plan.token.id, token_from_bytes(&[0u8; 24]));
    assert_eq!(plan.token.id, format!("mcpr_{}", "A".repeat(32)));
    assert_eq!(plan.token.client_id, "cursor");
    assert_eq!(plan.token.issued_at, 1_000);
    assert_eq!(plan.token.expires_at, Some(1_000 + DEFAULT_TOKEN_TTL_SECONDS));
    assert_eq!(DEFAULT_TOKEN_TTL_SECONDS, 90 * 24 * 60 * 60);
    assert_eq!(plan.statements.len(), 2);
    assert_eq!(plan.statements[0].sql, DELETE_CLIENT_TOKENS_SQL);
    assert_eq!(plan.statements[0].params, vec![text("cursor")]);
    assert_eq!(plan.statements[1].sql, INSERT_TOKEN_SQL);
    assert_eq!(
        plan.statements[1].params,
        vec![
            SqlValue::Text(plan.token.id.clone()),
            text("cursor"),
            text("{\"x\":true}"),
            SqlValue::Integer(1_000),
            SqlValue::Integer(1_000 + DEFAULT_TOKEN_TTL_SECONDS),
        ]
    );
}

#[test]
fn generate_token_uses_requested_lifetime() {
    let plan = TokenService::generate_token(&request(Some(60))).unwrap();
    assert_eq!(plan.token.expires_at, Some(plan.token.issued_at + 60));
    assert_eq!(plan.token.server_access, "{\"srv-b\":false,\"srv-a\":true}");
    assert_eq!(plan.token.id.len(), 37);
    assert!(plan.token.id[5..].chars().all(|c| c.is_ascii_alphanumeric() || c == '-' || c == '_'));
    assert!(plan.token.id.starts_with("mcpr_"));
    assert_eq!(plan.token.id.len(), 5 + 32);
    let plan = TokenService::generate_token(&request(None)).unwrap();
    assert_eq!(plan.token.expires_at, Some(plan.token.issued_at + DEFAULT_TOKEN_TTL_SECONDS));
    let other = TokenService::generate_token(&request(None)).unwrap();
    assert_ne!(plan.token.id, other.token.id);
}

#[test]
fn token_rows() {
    let row = vec![text("mcpr_a"), text("c"), text("{}"), SqlValue::Integer(5), SqlValue::Null];
    let t = TokenService::token_from_row(&row).unwrap();
    assert_eq!(t.expires_at, None);
    assert_eq!(t.issued_at, 5);
    let row2 = vec![text("mcpr_b"), text("c"), text("{}"), SqlValue::Integer(5), SqlValue::Integer(9)];
    assert_eq!(TokenService::token_from_row(&row2).unwrap().expires_at, Some(9));
    let bad = vec![text("mcpr_b"), text("c"), text("{}"), text("5"), SqlValue::Integer(9)];
    assert_eq!(TokenService::token_from_row(&bad), None);
    assert_eq!(TokenService::list_tokens(&vec![row.clone(), row2.clone()]).unwrap().len(), 2);
    assert_eq!(
        TokenService::list_tokens(&vec![row, bad]),
        Err(ColumnError { index: 3, problem: ColumnProblem::WrongType(CellType::Text) })
    );
    assert_eq!(TokenService::list_tokens_statement().sql, LIST_TOKENS_SQL);
}

#[test]
fn revoke_token_needs_a_row() {
    let s = TokenService::revoke_token_statement("mcpr_a");
    assert_eq!(s.sql, DELETE_TOKEN_SQL);
    assert_eq!(s.params, vec![text("mcpr_a")]);
    assert_eq!(TokenService::revoke_token(0), Err(AppError::NotFound("Token not found".to_string())));
    assert_eq!(TokenService::revoke_token(1), Ok(()));
}

#[test]
fn check_token_enforces_expiry() {
    assert_eq!(TokenService::check_token(None, 0), Err(AppError::Unauthorized));
    assert_eq!(TokenService::check_token(Some(token(Some(200))), 200), Ok(token(Some(200))));
    assert_eq!(TokenService::check_token(Some(token(Some(200))), 201), Err(AppError::Unauthorized));
    assert_eq!(TokenService::check_token(Some(token(None)), i64::MAX), Ok(token(None)));
    assert_eq!(TokenService::find_token_statement("mcpr_a").sql, FIND_TOKEN_SQL);
}

#[test]
fn validate_token_now() {
    assert_eq!(TokenService::validate_token(Some(token(Some(i64::MAX)))), Ok(token(Some(i64::MAX))));
    assert_eq!(TokenService::validate_token(Some(token(Some(0)))), Err(AppError::Unauthorized));
    assert_eq!(TokenService::validate_token(None), Err(AppError::Unauthorized));
}

#[test]
fn access_entries_keep_the_last_per_server() {
    let entries = vec![
        ("a".to_string(), true),
        ("b".to_string(), true),
        ("a".to_string(), false),
        ("c \"q\"".to_string(), true),
    ];
    let kept = latest_access(&entries);
    assert_eq!(kept, vec![("b".to_string(), true), ("a".to_string(), false), ("c \"q\"".to_string(), true)]);
    let plan = TokenService::generate_token(&GenerateTokenRequest {
        client_id: "c".to_string(),
        server_access: entries,
        expires_in_seconds: Some(1),
    })
    .unwrap();
    assert_eq!(plan.token.server_access, "{\"b\":true,\"a\":false,\"c \\\"q\\\"\":true}");
    let empty = TokenService::generate_token(&GenerateTokenRequest {
        client_id: "c".to_string(),
        server_access: vec![],
        expires_in_seconds: None,
    })
    .unwrap();
    assert_eq!(empty.token.server_access, "{}");
}

#[test]
fn lifetimes_past_the_clock_range_are_refused() {
    let mut req = request(Some(i64::MAX));
    assert_eq!(
        TokenService::generate_token(&req),
        Err(AppError::Server("Token lifetime is too long".to_string()))
    );
    // longer than the bound that fits every clock reading, but still room at today's clock
    req.expires_in_seconds = Some(i64::MAX - 4_000_000_000);
    let plan = TokenService::generate_token(&req).unwrap();
    assert_eq!(plan.token.expires_at, Some(plan.token.issued_at + i64::MAX - 4_000_000_000));
}
