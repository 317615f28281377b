use mcp_router::auth::{
    sha256_hex, token_from_bytes, AuthService, SessionRow, DELETE_NAMED_SESSIONS_SQL, DELETE_SESSION_SQL,
    DELETE_USER_SESSIONS_SQL, FIND_SESSION_SQL, FIND_USER_SQL, INSERT_SESSION_SQL, INSERT_USER_SQL,
    UPDATE_PASSWORD_SQL,
};
use mcp_router::clock::Instant;
use mcp_router::error::AppError;
use mcp_router::models::User;
use mcp_router::sql::SqlValue;

fn text(s: &str) -> SqlValue {
    SqlValue::Text(s.to_string())
}

fn user_with_password(password: &str) -> User {
    User {
        id: "user-1".to_string(),
        username: "alice".to_string(),
        password_hash: AuthService::hash_password(password).unwrap(),
        created_at: "2024-01-01".to_string(),
        updated_at: "2024-01-01".to_string(),
    }
}

#[test]
fn sha256_hex_of_known_inputs() {
    assert_eq!(sha256_hex("abc"), "ba7816bf8f01cfea414140de5dae2223b00361a396177a9cb410ff61f20015ad");
    assert_eq!(sha256_hex(""), "e3b0c44298fc1c149afbf4c8996fb92427ae41e4649b934ca495991b7852b855");
    assert_eq!(sha256_hex("mcpr_token").len(), 64);
}

#[test]
fn token_is_prefix_and_url_safe_base64() {
    assert_eq!(token_from_bytes(&[0u8; 32]), format!("mcpr_{}", "A".repeat(43)));
    assert_eq!(token_from_bytes(&[0xfb, 0xff]), "mcpr_-_8");
    assert_eq!(token_from_bytes(&[]), "mcpr_");
}

#[test]
fn hashed_password_verifies_and_others_do_not() {
    let hash = AuthService::hash_password("s3cret").unwrap();
    assert!(hash.starts_with("$argon2id$"));
    assert_eq!(AuthService::verify_password("s3cret", &hash), Ok(true));
    assert_eq!(AuthService::verify_password("wrong", &hash), Ok(false));
    // a fresh salt each time
    let again = AuthService::hash_password("s3cret").unwrap();
    assert_ne!(hash, again);
    assert_eq!(AuthService::verify_password("s3cret", &again), Ok(true));
}

#[test]
fn verify_password_refuses_unparseable_hash() {
    match AuthService::verify_password("x", "not a hash") {
        Err(AppError::Auth(m)) => assert!(m.starts_with("Invalid hash: ")),
        other => panic!("unexpected {:?}", other),
    }
}

#[test]
fn setup_default_user_only_without_users() {
    assert_eq!(AuthService::setup_default_user(3), Ok(None));
    let stmt = AuthService::setup_default_user(0).unwrap().unwrap();
    assert_eq!(stmt.sql, INSERT_USER_SQL);
    assert_eq!(stmt.params.len(), 3);
    match &stmt.params[0] {
        SqlValue::Text(id) => assert_eq!(id.len(), 36),
        other => panic!("unexpected {:?}", other),
    }
    assert_eq!(stmt.params[1], text("admin"));
    match &stmt.params[2] {
        SqlValue::Text(h) => assert_eq!(AuthService::verify_password("admin", h), Ok(true)),
        other => panic!("unexpected {:?}", other),
    }
}

#[test]
fn has_users_counts() {
    assert!(!AuthService::has_users(0));
    assert!(AuthService::has_users(1));
}

#[test]
fn find_user_statement_and_row() {
    let s = AuthService::find_user_statement("alice");
    assert_eq!(s.sql, FIND_USER_SQL);
    assert_eq!(s.params, vec![text("alice")]);
    let row = vec![text("u1"), text("alice"), text("$h"), text("c"), text("u")];
    let u = AuthService::user_from_row(&row).unwrap();
    assert_eq!(u.id, "u1");
    assert_eq!(u.password_hash, "$h");
    assert_eq!(AuthService::user_from_row(&vec![text("u1"), SqlValue::Null]), None);
}

#[test]
fn login_unknown_user_is_refused() {
    match AuthService::login(None, "pw") {
        Err(AppError::Auth(m)) => assert_eq!(m, "Invalid username or password"),
        other => panic!("unexpected {:?}", other),
    }
}

#[test]
fn login_wrong_password_is_refused() {
    let u = user_with_password("right");
    match AuthService::login(Some(u), "wrong") {
        Err(AppError::Auth(m)) => assert_eq!(m, "Invalid username or password"),
        other => panic!("unexpected {:?}", other),
    }
}

#[test]
fn login_opens_single_session() {
    let u = user_with_password("right");
    let plan = AuthService::login(Some(u), "right").unwrap();
    assert_eq!(plan.response.username, "alice");
    assert!(plan.response.token.starts_with("mcpr_"));
    assert_eq!(plan.response.token.len(), 5 + 43);
    assert_eq!(plan.statements.len(), 2);
    assert_eq!(plan.statements[0].sql, DELETE_USER_SESSIONS_SQL);
    assert_eq!(plan.statements[0].params, vec![text("user-1")]);
    assert_eq!(plan.statements[1].sql, INSERT_SESSION_SQL);
    assert_eq!(plan.statements[1].params[0], SqlValue::Text(sha256_hex(&plan.response.token)));
    assert_eq!(plan.statements[1].params[1], text("user-1"));
    assert_eq!(plan.statements[1].params[2], text("alice"));
    // the lookup of the token uses the stored key
    let lookup = AuthService::find_session_statement(&plan.response.token);
    assert_eq!(lookup.sql, FIND_SESSION_SQL);
    assert_eq!(lookup.params[0], plan.statements[1].params[0]);
    // logout removes the same session
    let out = AuthService::logout(&plan.response.token);
    assert_eq!(out.sql, DELETE_SESSION_SQL);
    assert_eq!(out.params[0], plan.statements[1].params[0]);
    // the stored session is valid now
    let expires = match &plan.statements[1].params[3] {
        SqlValue::Text(t) => t.clone(),
        other => panic!("unexpected {:?}", other),
    };
    let check = AuthService::validate_session(
        &plan.response.token,
        Some(SessionRow { username: "alice".to_string(), expires_at: expires }),
    );
    assert!(check.response.valid);
    assert_eq!(check.response.username, Some("alice".to_string()));
    assert!(check.cleanup.is_none());
}

#[test]
fn start_session_is_deterministic() {
    let u = user_with_password("pw");
    let plan = AuthService::start_session(&u, &[7u8; 32], "2030-01-01T00:00:00+00:00");
    let token = token_from_bytes(&[7u8; 32]);
    assert_eq!(plan.response.token, token);
    assert_eq!(
        plan.statements[1].params,
        vec![
            SqlValue::Text(sha256_hex(&token)),
            text("user-1"),
            text("alice"),
            text("2030-01-01T00:00:00+00:00"),
        ]
    );
}

#[test]
fn session_expiry_is_seven_days_later() {
    assert_eq!(
        AuthService::session_expiry(Instant { secs: 0, nanos: 0 }),
        Some("1970-01-08T00:00:00+00:00".to_string())
    );
    assert_eq!(
        AuthService::session_expiry(Instant { secs: 1_700_000_000, nanos: 500_000_000 }),
        Some("2023-11-21T22:13:20.500+00:00".to_string())
    );
}

#[test]
fn check_session_cases() {
    let row = |e: &str| Some(SessionRow { username: "bob".to_string(), expires_at: e.to_string() });
    let at = Instant { secs: 86_400, nanos: 0 };
    // not expired yet (expiry equal to now is still valid)
    let c = AuthService::check_session("t", row("1970-01-02T00:00:00+00:00"), at);
    assert!(c.response.valid);
    assert_eq!(c.response.username, Some("bob".to_string()));
    // expired: refused and removed
    let c = AuthService::check_session("t", row("1970-01-01T23:59:59+00:00"), at);
    assert!(!c.response.valid);
    assert_eq!(c.response.username, None);
    let cleanup = c.cleanup.unwrap();
    assert_eq!(cleanup.sql, DELETE_SESSION_SQL);
    assert_eq!(cleanup.params, vec![SqlValue::Text(sha256_hex("t"))]);
    // an expiry that does not parse does not expire
    let c = AuthService::check_session("t", row("whenever"), at);
    assert!(c.response.valid);
    // unknown session
    let c = AuthService::check_session("t", None, at);
    assert!(!c.response.valid);
    assert!(c.cleanup.is_none());
    // offsets are honoured
    let c = AuthService::check_session("t", row("1970-01-02T01:00:00+02:00"), at);
    assert!(!c.response.valid);
}

#[test]
fn session_row_decoding() {
    let r = AuthService::session_from_row(&vec![text("bob"), text("2030")]).unwrap();
    assert_eq!(r.username, "bob");
    assert_eq!(AuthService::session_from_row(&vec![text("bob")]), None);
}

#[test]
fn change_password_paths() {
    match AuthService::change_password("alice", "a", "b", None) {
        Err(AppError::Auth(m)) => assert_eq!(m, "User not found"),
        other => panic!("unexpected {:?}", other),
    }
    let hash = AuthService::hash_password("old").unwrap();
    match AuthService::change_password("alice", "nope", "b", Some(hash.clone())) {
        Err(AppError::Auth(m)) => assert_eq!(m, "Invalid old password"),
        other => panic!("unexpected {:?}", other),
    }
    let stmts = AuthService::change_password("alice", "old", "new", Some(hash)).unwrap();
    assert_eq!(stmts.len(), 2);
    assert_eq!(stmts[0].sql, UPDATE_PASSWORD_SQL);
    assert_eq!(stmts[0].params[1], text("alice"));
    match &stmts[0].params[0] {
        SqlValue::Text(h) => {
            assert_eq!(AuthService::verify_password("new", h), Ok(true));
            assert_eq!(AuthService::verify_password("old", h), Ok(false));
        }
        other => panic!("unexpected {:?}", other),
    }
    assert_eq!(stmts[1].sql, DELETE_NAMED_SESSIONS_SQL);
    assert_eq!(stmts[1].params, vec![text("alice")]);
}

#[test]
fn hashing_succeeds_for_any_ordinary_password() {
    for pw in ["", "a", "pässwörd ✓", &"x".repeat(1000)] {
        let h = AuthService::hash_password(pw).unwrap();
        assert_eq!(AuthService::verify_password(pw, &h), Ok(true));
    }
}
