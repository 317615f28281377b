//! Users, passwords and login sessions.
//!
//! Passwords are kept as Argon2 PHC strings. A login issues a random session
//! token `mcpr_<base64url>`; only the SHA-256 of the token is stored, with
//! the user and an expiry seven days ahead. A user has at most one session.

use vstd::prelude::*;
use crate::crypto::uuid_v4_text;
use vstd::string::StringSliceAdditionalSpecFns;
use crate::clock::{
    before, format_rfc3339, now, rfc3339_instant, rfc3339_text, text_of_instant, parse_rfc3339,
    Instant, CHRONO_MAX_SECS, RFC3339_MAX_SECS,
};
use crate::crypto::{
    argon2_hash, argon2_verify, base64_url_encode, base64_url_nopad, hash_error_text, lemma_base64_url_shape,
    new_salt, url_safe_char,
    new_uuid, phc_parses, phc_verifies, random_bytes, sha256, sha256_digest,
};
use crate::error::{message, AppError};
use crate::models::{LoginResponse, User, ValidateSessionResponse};
use crate::sql::{
    bare_statement, cells, column_text, statement, statements, text_statement, text_value, Cell,
    SqlStatement, SqlValue, StatementView,
};
use crate::text::{hex_lower, hex_text, text_of};

verus! {

/// How long a session lasts: seven days, in seconds.
pub const SESSION_EXPIRY_SECS: i64 = 604_800;

/// How many random bytes a session token carries.
pub const SESSION_TOKEN_BYTES: usize = 32;

pub const COUNT_USERS_SQL: &'static str = "SELECT COUNT(*) FROM users";

pub const INSERT_USER_SQL: &'static str = "INSERT INTO users (id, username, password_hash) VALUES (?1, ?2, ?3)";

pub const FIND_USER_SQL: &'static str =
    "SELECT id, username, password_hash, created_at, updated_at FROM users WHERE username = ?1";

pub const DELETE_USER_SESSIONS_SQL: &'static str = "DELETE FROM sessions WHERE user_id = ?1";

pub const INSERT_SESSION_SQL: &'static str =
    "INSERT INTO sessions (token_hash, user_id, username, expires_at) VALUES (?1, ?2, ?3, ?4)";

pub const FIND_SESSION_SQL: &'static str = "SELECT username, expires_at FROM sessions WHERE token_hash = ?1";

pub const DELETE_SESSION_SQL: &'static str = "DELETE FROM sessions WHERE token_hash = ?1";

pub const FIND_PASSWORD_SQL: &'static str = "SELECT password_hash FROM users WHERE username = ?1";

pub const UPDATE_PASSWORD_SQL: &'static str =
    "UPDATE users SET password_hash = ?1, updated_at = datetime('now') WHERE username = ?2";

pub const DELETE_NAMED_SESSIONS_SQL: &'static str = "DELETE FROM sessions WHERE username = ?1";

/// The lower-case hexadecimal SHA-256 of the UTF-8 bytes of `s`.
pub open spec fn sha256_hex_of(s: Seq<char>) -> Seq<char> {
    hex_text(sha256(vstd::utf8::encode_utf8(s)))
}

/// The token made of `random`: `mcpr_` followed by its URL-safe Base64.
pub open spec fn token_text(random: Seq<u8>) -> Seq<char> {
    "mcpr_"@ + base64_url_nopad(random)
}

/// Whether `t` is `mcpr_` followed by `n` characters of the URL-safe Base64
/// alphabet.
pub open spec fn mcpr_token(t: Seq<char>, n: int) -> bool {
    &&& t.len() == 5 + n
    &&& t.subrange(0, 5) == "mcpr_"@
    &&& forall|i: int| 5 <= i < t.len() ==> url_safe_char(#[trigger] t[i])
}

/// A token made of `k` random bytes is `mcpr_` followed by `(4k + 2) / 3`
/// URL-safe characters: 43 for a session's 32 bytes, 32 for an API token's
/// 24.
pub proof fn lemma_token_text_shape(random: Seq<u8>)
    ensures
        mcpr_token(token_text(random), ((4 * random.len() + 2) / 3) as int),
{
    reveal_strlit("mcpr_");
    lemma_base64_url_shape(random);
    let t = token_text(random);
    assert(t.subrange(0, 5) =~= "mcpr_"@);
    assert forall|i: int| 5 <= i < t.len() implies url_safe_char(#[trigger] t[i]) by {
        assert(t[i] == base64_url_nopad(random)[i - 5]);
    }
}

/// What `verify_password` answers: `None` for a hash that does not parse,
/// otherwise whether the password matches it.
pub open spec fn verify_outcome(password: Seq<char>, hash: Seq<char>) -> Option<bool> {
    if phc_parses(hash) {
        Some(phc_verifies(password, hash))
    } else {
        None
    }
}

/// Whether `m` is the text `prefix` followed by some detail.
pub open spec fn starts_with(m: Seq<char>, prefix: Seq<char>) -> bool {
    prefix.len() <= m.len() && m.subrange(0, prefix.len() as int) == prefix
}

/// The statements that open a session for a user: remove the user's
/// sessions, then store the token's hash with the user and the expiry.
pub open spec fn session_statements(
    user_id: Seq<char>,
    username: Seq<char>,
    token: Seq<char>,
    expires_at: Seq<char>,
) -> Seq<StatementView> {
    seq![
        StatementView { sql: DELETE_USER_SESSIONS_SQL@, params: seq![Cell::Text(user_id)] },
        StatementView {
            sql: INSERT_SESSION_SQL@,
            params: seq![
                Cell::Text(sha256_hex_of(token)),
                Cell::Text(user_id),
                Cell::Text(username),
                Cell::Text(expires_at),
            ],
        },
    ]
}

/// The expiry text of a session opened at `at`: the RFC 3339 text of seven
/// days later, when chrono can represent that instant.
pub open spec fn expiry_text(at: Instant) -> Option<Seq<char>> {
    rfc3339_text(at.secs + SESSION_EXPIRY_SECS, at.nanos as int)
}

/// Whether `t` is the expiry that a login writes when the clock read `at`:
/// the RFC 3339 text of seven days later, which parses back to that instant
/// whenever its year has four digits; or, where chrono cannot represent
/// that instant, the text of a second reading of the clock (which parses
/// back likewise).
pub open spec fn login_expiry(t: Seq<char>, at: Instant) -> bool {
    match expiry_text(at) {
        Some(e) => t == e && (at.secs + SESSION_EXPIRY_SECS <= RFC3339_MAX_SECS ==> rfc3339_instant(t) == Some(
            ((at.secs + SESSION_EXPIRY_SECS) as int, at.nanos as int),
        )),
        None => (at.secs + SESSION_EXPIRY_SECS > CHRONO_MAX_SECS || at.nanos >= 1_000_000_000) && exists|
            secs: int,
            nanos: int,
        |
            #![trigger rfc3339_text(secs, nanos)]
            0 <= secs <= CHRONO_MAX_SECS && 0 <= nanos < 1_000_000_000 && rfc3339_text(secs, nanos) == Some(t)
                && (secs <= RFC3339_MAX_SECS ==> rfc3339_instant(t) == Some((secs, nanos))),
    }
}

/// Whether `stmts` change the password of `username` to `new_password`:
/// the first stores a hash that the new password verifies against, the
/// second removes every session of the user.
pub open spec fn password_change_for(stmts: Seq<StatementView>, username: Seq<char>, new_password: Seq<char>) -> bool {
    &&& stmts.len() == 2
    &&& stmts[0].sql == UPDATE_PASSWORD_SQL@
    &&& stmts[0].params.len() == 2
    &&& (stmts[0].params[0] matches Cell::Text(nh) && verify_outcome(new_password, nh) == Some(true))
    &&& stmts[0].params[1] == Cell::Text(username)
    &&& stmts[1] == (StatementView { sql: DELETE_NAMED_SESSIONS_SQL@, params: seq![Cell::Text(username)] })
}

/// A session as stored: whose it is and when it expires.
#[derive(Debug, Clone, PartialEq, Eq)]
pub struct SessionRow {
    pub username: String,
    pub expires_at: String,
}

/// A login that succeeded: the answer, and the statements that store the
/// session, to be run in order.
#[derive(Debug, PartialEq, Eq)]
pub struct LoginPlan {
    pub response: LoginResponse,
    pub statements: Vec<SqlStatement>,
}

/// Whether a login answered `plan` for `user`, with `random` as the token's
/// random part and `expires_at` as the expiry.
pub open spec fn login_plan_for(plan: LoginPlan, user: User, random: Seq<u8>, expires_at: Seq<char>) -> bool {
    &&& plan.response.token@ == token_text(random)
    &&& plan.response.username@ == user.username@
    &&& statements(plan.statements@) == session_statements(
        user.id@,
        user.username@,
        plan.response.token@,
        expires_at,
    )
}

/// The outcome of checking a session token: the answer, and a statement
/// that removes an expired session.
#[derive(Debug, PartialEq, Eq)]
pub struct SessionCheck {
    pub response: ValidateSessionResponse,
    pub cleanup: Option<SqlStatement>,
}

/// The content of a session check: validity, user, and the cleanup.
pub struct SessionCheckView {
    pub valid: bool,
    pub username: Option<Seq<char>>,
    pub cleanup: Option<StatementView>,
}

impl View for SessionCheck {
    type V = SessionCheckView;

    open spec fn view(&self) -> SessionCheckView {
        SessionCheckView {
            valid: self.response.valid,
            username: self.response.username.deep_view(),
            cleanup: match self.cleanup {
                Some(s) => Some(s@),
                None => None,
            },
        }
    }
}

/// The statement that removes the session of `token`.
pub open spec fn delete_session_statement(token: Seq<char>) -> StatementView {
    StatementView { sql: DELETE_SESSION_SQL@, params: seq![Cell::Text(sha256_hex_of(token))] }
}

/// The check of `token` at `now`, given the session stored under its hash,
/// if any. An expiry that does not parse as RFC 3339 does not expire.
pub open spec fn session_check(
    token: Seq<char>,
    found: Option<(Seq<char>, Seq<char>)>,
    now: (int, int),
) -> SessionCheckView {
    match found {
        None => SessionCheckView { valid: false, username: None, cleanup: None },
        Some((username, expires_at)) => match rfc3339_instant(expires_at) {
            Some(expiry) if before(expiry, now) => SessionCheckView {
                valid: false,
                username: None,
                cleanup: Some(delete_session_statement(token)),
            },
            _ => SessionCheckView { valid: true, username: Some(username), cleanup: None },
        },
    }
}

/// The content of an optional session row.
pub open spec fn session_found(found: Option<SessionRow>) -> Option<(Seq<char>, Seq<char>)> {
    match found {
        Some(r) => Some((r.username@, r.expires_at@)),
        None => None,
    }
}

/// The lower-case hexadecimal SHA-256 of the UTF-8 bytes of `input`.
pub fn sha256_hex(input: &str) -> (r: String)
    ensures
        r@ == sha256_hex_of(input@),
        r@.len() == 64,
{
    let digest = sha256_digest(input.as_bytes());
    hex_lower(digest.as_slice())
}

/// The token made of `random`: `mcpr_` followed by its URL-safe Base64.
pub fn token_from_bytes(random: &[u8]) -> (r: String)
    ensures
        r@ == token_text(random@),
{
    let mut r = text_of("mcpr_");
    let encoded = base64_url_encode(random);
    r.append(encoded.as_str());
    r
}

/// The users of the router and their sessions.
pub struct AuthService;

impl AuthService {
    /// The Argon2 PHC string of `password`, with a fresh random salt; it
    /// succeeds for every password of at most `0xFFFF_FFFF` bytes.
    pub fn hash_password(password: &str) -> (r: Result<String, AppError>)
        ensures
            match r {
                Ok(h) => verify_outcome(password@, h@) == Some(true),
                Err(e) => e matches AppError::Auth(m) && starts_with(m@, "Failed to hash password: "@),
            },
            password.spec_bytes().len() <= 0xFFFF_FFFF ==> r is Ok,
    {
        let salt = new_salt();
        match argon2_hash(password, salt.as_str()) {
            Ok(h) => Ok(h),
            Err(e) => {
                let detail = hash_error_text(&e);
                let m = message("Failed to hash password: ", detail.as_str());
                proof {
                    assert(m@.subrange(0, "Failed to hash password: "@.len() as int)
                        =~= "Failed to hash password: "@);
                }
                Err(AppError::Auth(m))
            },
        }
    }

    /// Whether `password` matches the PHC string `hash`; a hash that does not
    /// parse is refused with `Invalid hash: <reason>`.
    pub fn verify_password(password: &str, hash: &str) -> (r: Result<bool, AppError>)
        ensures
            match r {
                Ok(b) => verify_outcome(password@, hash@) == Some(b),
                Err(e) => verify_outcome(password@, hash@) is None
                    && (e matches AppError::Auth(m) && starts_with(m@, "Invalid hash: "@)),
            },
    {
        match argon2_verify(password, hash) {
            Ok(b) => Ok(b),
            Err(e) => {
                let detail = hash_error_text(&e);
                let m = message("Invalid hash: ", detail.as_str());
                proof {
                    assert(m@.subrange(0, "Invalid hash: "@.len() as int) =~= "Invalid hash: "@);
                }
                Err(AppError::Auth(m))
            },
        }
    }

    /// The statement that counts the users.
    pub fn count_users_statement() -> (s: SqlStatement)
        ensures
            s@.sql == COUNT_USERS_SQL@,
            s@.params == Seq::<Cell>::empty(),
    {
        bare_statement(COUNT_USERS_SQL)
    }

    /// What to do at start-up, given the number of users: with none, create
    /// `admin` with password `admin` (the statement returned, which is
    /// always made); otherwise nothing.
    pub fn setup_default_user(user_count: i64) -> (r: Result<Option<SqlStatement>, AppError>)
        ensures
            user_count != 0 ==> r matches Ok(None),
            user_count == 0 ==> (r matches Ok(Some(s)) && s@.sql == INSERT_USER_SQL@ && s@.params.len() == 3
                && (s@.params[0] matches Cell::Text(id) && uuid_v4_text(id))
                && s@.params[1] == Cell::Text("admin"@)
                && (s@.params[2] matches Cell::Text(h) && verify_outcome("admin"@, h) == Some(true))),
    {
        if user_count != 0 {
            return Ok(None);
        }
        proof {
            reveal_strlit("admin");
            vstd::string::is_ascii_spec_bytes("admin");
            assert("admin".spec_bytes().len() == 5);
        }
        let hash = Self::hash_password("admin")?;
        let id = new_uuid();
        let mut params: Vec<SqlValue> = Vec::new();
        params.push(SqlValue::Text(id));
        params.push(text_value("admin"));
        params.push(SqlValue::Text(hash));
        Ok(Some(statement(INSERT_USER_SQL, params)))
    }

    /// Whether the router has any user, given the number of users.
    pub fn has_users(user_count: i64) -> (r: bool)
        ensures
            r == (user_count > 0),
    {
        user_count > 0
    }

    /// The statement that looks up a user by name.
    pub fn find_user_statement(username: &str) -> (s: SqlStatement)
        ensures
            s@.sql == FIND_USER_SQL@,
            s@.params == seq![Cell::Text(username@)],
    {
        text_statement(FIND_USER_SQL, username)
    }

    /// The user in a row of `FIND_USER_SQL`: five text columns.
    pub fn user_from_row(row: &Vec<SqlValue>) -> (r: Option<User>)
        ensures
            match r {
                Some(u) => row@.len() >= 5
                    && row@[0]@ == Cell::Text(u.id@)
                    && row@[1]@ == Cell::Text(u.username@)
                    && row@[2]@ == Cell::Text(u.password_hash@)
                    && row@[3]@ == Cell::Text(u.created_at@)
                    && row@[4]@ == Cell::Text(u.updated_at@),
                None => !(row@.len() >= 5 && row@[0]@ is Text && row@[1]@ is Text
                    && row@[2]@ is Text && row@[3]@ is Text && row@[4]@ is Text),
            },
    {
        let id = column_text(row, 0)?;
        let username = column_text(row, 1)?;
        let password_hash = column_text(row, 2)?;
        let created_at = column_text(row, 3)?;
        let updated_at = column_text(row, 4)?;
        Some(User { id, username, password_hash, created_at, updated_at })
    }

    /// The session of `user`: the token made of `random` and the statements
    /// that replace the user's sessions by this one, expiring at
    /// `expires_at`.
    pub fn start_session(user: &User, random: &[u8], expires_at: &str) -> (p: LoginPlan)
        ensures
            login_plan_for(p, *user, random@, expires_at@),
    {
        let token = token_from_bytes(random);
        let token_hash = sha256_hex(token.as_str());
        let mut remove: Vec<SqlValue> = Vec::new();
        remove.push(SqlValue::Text(user.id.clone()));
        let mut insert: Vec<SqlValue> = Vec::new();
        insert.push(SqlValue::Text(token_hash));
        insert.push(SqlValue::Text(user.id.clone()));
        insert.push(SqlValue::Text(user.username.clone()));
        insert.push(text_value(expires_at));
        proof {
            assert(cells(remove@) =~= seq![Cell::Text(user.id@)]);
            assert(cells(insert@) =~= seq![
                Cell::Text(sha256_hex_of(token@)),
                Cell::Text(user.id@),
                Cell::Text(user.username@),
                Cell::Text(expires_at@),
            ]);
        }
        let mut stmts: Vec<SqlStatement> = Vec::new();
        stmts.push(statement(DELETE_USER_SESSIONS_SQL, remove));
        stmts.push(statement(INSERT_SESSION_SQL, insert));
        let p = LoginPlan {
            response: LoginResponse { token, username: user.username.clone() },
            statements: stmts,
        };
        proof {
            assert(statements(p.statements@) =~~= session_statements(
                user.id@,
                user.username@,
                p.response.token@,
                expires_at@,
            ));
        }
        p
    }

    /// The expiry of a session opened at `at`: seven days later, as RFC 3339
    /// text, when chrono can represent that instant.
    pub fn session_expiry(at: Instant) -> (r: Option<String>)
        requires
            0 <= at.secs <= CHRONO_MAX_SECS,
        ensures
            r.deep_view() == expiry_text(at),
            r is None ==> at.secs + SESSION_EXPIRY_SECS > CHRONO_MAX_SECS || at.nanos >= 1_000_000_000,
            r matches Some(t) ==> (at.secs + SESSION_EXPIRY_SECS <= RFC3339_MAX_SECS && at.nanos
                < 1_000_000_000 ==> rfc3339_instant(t@) == Some(
                ((at.secs + SESSION_EXPIRY_SECS) as int, at.nanos as int),
            )),
    {
        match at.secs.checked_add(SESSION_EXPIRY_SECS) {
            Some(secs) => format_rfc3339(Instant { secs, nanos: at.nanos }),
            None => {
                proof {
                    assert(false);
                }
                None
            },
        }
    }

    /// A login with `password` for the user found under the given name, if
    /// any. On success a new session replaces the user's sessions.
    pub fn login(user: Option<User>, password: &str) -> (r: Result<LoginPlan, AppError>)
        ensures
            user is None ==> (r matches Err(AppError::Auth(m)) && m@ == "Invalid username or password"@),
            user matches Some(u) ==> (verify_outcome(password@, u.password_hash@) is None ==> (
                r matches Err(AppError::Auth(m)) && starts_with(m@, "Invalid hash: "@))),
            user matches Some(u) ==> (verify_outcome(password@, u.password_hash@) == Some(false) ==> (
                r matches Err(AppError::Auth(m)) && m@ == "Invalid username or password"@)),
            user matches Some(u) ==> (verify_outcome(password@, u.password_hash@) == Some(true) ==> (
                r matches Ok(p) && exists|random: Seq<u8>, expires_at: Seq<char>, at: Instant|
                    #![trigger login_plan_for(p, u, random, expires_at), login_expiry(expires_at, at)]
                    random.len() == SESSION_TOKEN_BYTES && 0 <= at.secs <= CHRONO_MAX_SECS && at.nanos
                        < 1_000_000_000 && login_plan_for(p, u, random, expires_at) && login_expiry(
                        expires_at,
                        at,
                    ))),
            r matches Ok(p) ==> mcpr_token(p.response.token@, 43) && p.response.token@.len() == 48,
    {
        let u = match user {
            Some(u) => u,
            None => return Err(AppError::Auth(text_of("Invalid username or password"))),
        };
        if !Self::verify_password(password, u.password_hash.as_str())? {
            return Err(AppError::Auth(text_of("Invalid username or password")));
        }
        let random = random_bytes(SESSION_TOKEN_BYTES);
        let at = now();
        let expires_at = match Self::session_expiry(at) {
            Some(t) => t,
            None => {
                let later = now();
                let t = text_of_instant(later);
                proof {
                    assert(rfc3339_text(later.secs as int, later.nanos as int) == Some(t@));
                }
                t
            },
        };
        assert(login_expiry(expires_at@, at));
        let p = Self::start_session(&u, random.as_slice(), expires_at.as_str());
        proof {
            lemma_token_text_shape(random@);
        }
        let r: Result<LoginPlan, AppError> = Ok(p);
        assert(r matches Ok(pp) && random@.len() == SESSION_TOKEN_BYTES && 0 <= at.secs <= CHRONO_MAX_SECS
            && at.nanos < 1_000_000_000 && login_plan_for(pp, u, random@, expires_at@) && login_expiry(
            expires_at@,
            at,
        ));
        r
    }

    /// The statement that looks up the session of `token` (by its hash).
    pub fn find_session_statement(token: &str) -> (s: SqlStatement)
        ensures
            s@.sql == FIND_SESSION_SQL@,
            s@.params == seq![Cell::Text(sha256_hex_of(token@))],
    {
        let h = sha256_hex(token);
        text_statement(FIND_SESSION_SQL, h.as_str())
    }

    /// The session in a row of `FIND_SESSION_SQL`: two text columns.
    pub fn session_from_row(row: &Vec<SqlValue>) -> (r: Option<SessionRow>)
        ensures
            match r {
                Some(s) => row@.len() >= 2 && row@[0]@ == Cell::Text(s.username@)
                    && row@[1]@ == Cell::Text(s.expires_at@),
                None => !(row@.len() >= 2 && row@[0]@ is Text && row@[1]@ is Text),
            },
    {
        let username = column_text(row, 0)?;
        let expires_at = column_text(row, 1)?;
        Some(SessionRow { username, expires_at })
    }

    /// The check of `token` at `at`, given the session found under its hash.
    pub fn check_session(token: &str, found: Option<SessionRow>, at: Instant) -> (c: SessionCheck)
        ensures
            c@ == session_check(token@, session_found(found), (at.secs as int, at.nanos as int)),
    {
        match found {
            None => SessionCheck {
                response: ValidateSessionResponse { valid: false, username: None },
                cleanup: None,
            },
            Some(row) => {
                let expired = match parse_rfc3339(row.expires_at.as_str()) {
                    Some(expiry) => expiry.secs < at.secs || (expiry.secs == at.secs
                        && expiry.nanos < at.nanos),
                    None => false,
                };
                if expired {
                    let h = sha256_hex(token);
                    SessionCheck {
                        response: ValidateSessionResponse { valid: false, username: None },
                        cleanup: Some(text_statement(DELETE_SESSION_SQL, h.as_str())),
                    }
                } else {
                    SessionCheck {
                        response: ValidateSessionResponse { valid: true, username: Some(row.username) },
                        cleanup: None,
                    }
                }
            },
        }
    }

    /// Whether the session of `token` is valid now, given the session found
    /// under its hash; an expired session is to be removed.
    pub fn validate_session(token: &str, found: Option<SessionRow>) -> (c: SessionCheck)
        ensures
            exists|secs: int, nanos: int|
                #![trigger session_check(token@, session_found(found), (secs, nanos))]
                0 <= secs <= CHRONO_MAX_SECS && 0 <= nanos < 1_000_000_000
                    && c@ == session_check(token@, session_found(found), (secs, nanos)),
    {
        let at = now();
        Self::check_session(token, found, at)
    }

    /// The statement that ends the session of `token`.
    pub fn logout(token: &str) -> (s: SqlStatement)
        ensures
            s@ == delete_session_statement(token@),
    {
        let h = sha256_hex(token);
        text_statement(DELETE_SESSION_SQL, h.as_str())
    }

    /// The statement that looks up the password hash of a user.
    pub fn find_password_statement(username: &str) -> (s: SqlStatement)
        ensures
            s@.sql == FIND_PASSWORD_SQL@,
            s@.params == seq![Cell::Text(username@)],
    {
        text_statement(FIND_PASSWORD_SQL, username)
    }

    /// A change of `username`'s password from `old_password` to
    /// `new_password`, given the stored hash if the user exists: the
    /// statements that store the new hash and end all the user's sessions.
    /// It succeeds whenever the old password matches and the new one is at
    /// most `0xFFFF_FFFF` bytes long.
    pub fn change_password(
        username: &str,
        old_password: &str,
        new_password: &str,
        stored_hash: Option<String>,
    ) -> (r: Result<Vec<SqlStatement>, AppError>)
        ensures
            match stored_hash {
                None => r matches Err(AppError::Auth(m)) && m@ == "User not found"@,
                Some(h) => match verify_outcome(old_password@, h@) {
                    None => r matches Err(AppError::Auth(m)) && starts_with(m@, "Invalid hash: "@),
                    Some(false) => r matches Err(AppError::Auth(m)) && m@ == "Invalid old password"@,
                    Some(true) => match r {
                        Ok(stmts) => password_change_for(statements(stmts@), username@, new_password@),
                        Err(e) => (e matches AppError::Auth(m)
                            && starts_with(m@, "Failed to hash password: "@)),
                    },
                },
            },
            stored_hash matches Some(h) && verify_outcome(old_password@, h@) == Some(true)
                && new_password.spec_bytes().len() <= 0xFFFF_FFFF ==> r is Ok,
    {
        let h = match stored_hash {
            Some(h) => h,
            None => return Err(AppError::Auth(text_of("User not found"))),
        };
        if !Self::verify_password(old_password, h.as_str())? {
            return Err(AppError::Auth(text_of("Invalid old password")));
        }
        let new_hash = Self::hash_password(new_password)?;
        let mut update: Vec<SqlValue> = Vec::new();
        update.push(SqlValue::Text(new_hash));
        update.push(text_value(username));
        let mut stmts: Vec<SqlStatement> = Vec::new();
        stmts.push(statement(UPDATE_PASSWORD_SQL, update));
        stmts.push(text_statement(DELETE_NAMED_SESSIONS_SQL, username));
        proof {
            assert(stmts@[1]@.params =~= seq![Cell::Text(username@)]);
            assert(statements(stmts@)[0] == stmts@[0]@);
            assert(statements(stmts@)[1] == stmts@[1]@);
        }
        Ok(stmts)
    }
}

/// A login's session is found by the token it hands out and stays valid
/// until it expires: the session is stored under the hash by which the token
/// is looked up, with the user's name, and a check at any instant not after
/// its expiry accepts it for that user.
pub proof fn law_login_session_validates(
    plan: LoginPlan,
    user: User,
    random: Seq<u8>,
    expires_at: Seq<char>,
    expiry: (int, int),
    now: (int, int),
)
    requires
        login_plan_for(plan, user, random, expires_at),
        rfc3339_instant(expires_at) == Some(expiry),
        !before(expiry, now),
    ensures
        statements(plan.statements@)[1].params[0] == Cell::Text(sha256_hex_of(plan.response.token@)),
        statements(plan.statements@)[1].params[2] == Cell::Text(user.username@),
        statements(plan.statements@)[1].params[3] == Cell::Text(expires_at),
        session_check(plan.response.token@, Some((user.username@, expires_at)), now)
            == (SessionCheckView { valid: true, username: Some(user.username@), cleanup: None }),
{
}

/// A session past its expiry is refused, and the statement that removes it
/// is the one that removes the session stored for that token.
pub proof fn law_expired_session_is_removed(
    token: Seq<char>,
    username: Seq<char>,
    expires_at: Seq<char>,
    expiry: (int, int),
    now: (int, int),
)
    requires
        rfc3339_instant(expires_at) == Some(expiry),
        before(expiry, now),
    ensures
        session_check(token, Some((username, expires_at)), now) == (SessionCheckView {
            valid: false,
            username: None,
            cleanup: Some(delete_session_statement(token)),
        }),
        delete_session_statement(token).params[0] == session_statements(
            username,
            username,
            token,
            expires_at,
        )[1].params[0],
{
}

/// Logging out removes exactly the session that the login stored: the
/// statement's key is the hash under which the login's token was stored.
pub proof fn law_logout_ends_login_session(plan: LoginPlan, user: User, random: Seq<u8>, expires_at: Seq<char>)
    requires
        login_plan_for(plan, user, random, expires_at),
    ensures
        delete_session_statement(plan.response.token@).params == seq![
            statements(plan.statements@)[1].params[0],
        ],
{
}

/// A session as the `sessions` table holds it under its token's hash.
pub struct StoredSession {
    pub user_id: Seq<char>,
    pub username: Seq<char>,
    pub expires_at: Seq<char>,
}

/// The sessions of `t` for which `keep` holds.
pub open spec fn sessions_where(
    t: Map<Seq<char>, StoredSession>,
    keep: spec_fn(StoredSession) -> bool,
) -> Map<Seq<char>, StoredSession> {
    Map::new(|h: Seq<char>| t.dom().contains(h) && keep(t[h]), |h: Seq<char>| t[h])
}

/// What SQLite makes of the `sessions` table `t` (keyed by token hash) when
/// it runs one of the router's statements: the deletes remove the matching
/// sessions, the insert adds one (and fails, changing nothing, where the
/// hash is already stored), and any other statement leaves the table alone.
pub open spec fn run_session_statement(
    t: Map<Seq<char>, StoredSession>,
    s: StatementView,
) -> Map<Seq<char>, StoredSession> {
    if s.sql == DELETE_USER_SESSIONS_SQL@ && s.params.len() == 1 {
        match s.params[0] {
            Cell::Text(user_id) => sessions_where(t, |e: StoredSession| e.user_id != user_id),
            _ => t,
        }
    } else if s.sql == DELETE_NAMED_SESSIONS_SQL@ && s.params.len() == 1 {
        match s.params[0] {
            Cell::Text(username) => sessions_where(t, |e: StoredSession| e.username != username),
            _ => t,
        }
    } else if s.sql == DELETE_SESSION_SQL@ && s.params.len() == 1 {
        match s.params[0] {
            Cell::Text(h) => t.remove(h),
            _ => t,
        }
    } else if s.sql == INSERT_SESSION_SQL@ && s.params.len() == 4 {
        match (s.params[0], s.params[1], s.params[2], s.params[3]) {
            (Cell::Text(h), Cell::Text(user_id), Cell::Text(username), Cell::Text(expires_at)) =>
                if t.dom().contains(h) {
                t
            } else {
                t.insert(h, StoredSession { user_id, username, expires_at })
            },
            _ => t,
        }
    } else {
        t
    }
}

/// The table after running statements in order.
pub open spec fn run_session_statements(
    t: Map<Seq<char>, StoredSession>,
    stmts: Seq<StatementView>,
) -> Map<Seq<char>, StoredSession>
    decreases stmts.len(),
{
    if stmts.len() == 0 {
        t
    } else {
        run_session_statements(run_session_statement(t, stmts[0]), stmts.drop_first())
    }
}

/// What `FIND_SESSION_SQL` reads from the table for a token hash: the
/// session's user name and expiry.
pub open spec fn find_session(t: Map<Seq<char>, StoredSession>, h: Seq<char>) -> Option<(Seq<char>, Seq<char>)> {
    if t.dom().contains(h) {
        Some((t[h].username, t[h].expires_at))
    } else {
        None
    }
}

/// The texts of the session statements are pairwise distinct.
proof fn lemma_session_sql_distinct()
    ensures
        DELETE_USER_SESSIONS_SQL@ != INSERT_SESSION_SQL@,
        DELETE_USER_SESSIONS_SQL@ != DELETE_SESSION_SQL@,
        DELETE_USER_SESSIONS_SQL@ != DELETE_NAMED_SESSIONS_SQL@,
        DELETE_NAMED_SESSIONS_SQL@ != DELETE_SESSION_SQL@,
        DELETE_NAMED_SESSIONS_SQL@ != INSERT_SESSION_SQL@,
        DELETE_SESSION_SQL@ != INSERT_SESSION_SQL@,
        UPDATE_PASSWORD_SQL@ != DELETE_USER_SESSIONS_SQL@,
        UPDATE_PASSWORD_SQL@ != DELETE_NAMED_SESSIONS_SQL@,
        UPDATE_PASSWORD_SQL@ != DELETE_SESSION_SQL@,
        UPDATE_PASSWORD_SQL@ != INSERT_SESSION_SQL@,
{
    reveal_strlit("DELETE FROM sessions WHERE user_id = ?1");
    reveal_strlit("DELETE FROM sessions WHERE username = ?1");
    reveal_strlit("DELETE FROM sessions WHERE token_hash = ?1");
    reveal_strlit("INSERT INTO sessions (token_hash, user_id, username, expires_at) VALUES (?1, ?2, ?3, ?4)");
    reveal_strlit("UPDATE users SET password_hash = ?1, updated_at = datetime('now') WHERE username = ?2");
    assert(DELETE_USER_SESSIONS_SQL@.len() == 39);
    assert(DELETE_NAMED_SESSIONS_SQL@.len() == 40);
    assert(DELETE_SESSION_SQL@.len() == 42);
    assert(INSERT_SESSION_SQL@[0] == 'I');
    assert(UPDATE_PASSWORD_SQL@[0] == 'U');
    assert(DELETE_SESSION_SQL@[0] == 'D');
}

/// A login leaves its user exactly one session, the new one, found by the
/// token it hands out with the user's name and the expiry; the sessions of
/// other users stay as they were. (The insert needs the token's hash not to
/// be held already by another user's session.)
pub proof fn law_login_leaves_one_session(
    plan: LoginPlan,
    user: User,
    random: Seq<u8>,
    expires_at: Seq<char>,
    t: Map<Seq<char>, StoredSession>,
)
    requires
        login_plan_for(plan, user, random, expires_at),
        t.dom().contains(sha256_hex_of(plan.response.token@)) ==> t[sha256_hex_of(
            plan.response.token@,
        )].user_id == user.id@,
    ensures
        ({
            let h = sha256_hex_of(plan.response.token@);
            let after = run_session_statements(t, statements(plan.statements@));
            &&& find_session(after, h) == Some((user.username@, expires_at))
            &&& forall|k: Seq<char>|
                #![trigger after.dom().contains(k)]
                after.dom().contains(k) && after[k].user_id == user.id@ ==> k == h
            &&& forall|k: Seq<char>|
                #![trigger t.dom().contains(k)]
                t.dom().contains(k) && t[k].user_id != user.id@ ==> after.dom().contains(k) && after[k]
                    == t[k]
        }),
{
    lemma_session_sql_distinct();
    let h = sha256_hex_of(plan.response.token@);
    let stmts = statements(plan.statements@);
    let t1 = run_session_statement(t, stmts[0]);
    assert(t1 == sessions_where(t, |e: StoredSession| e.user_id != user.id@));
    assert(!t1.dom().contains(h));
    let t2 = run_session_statement(t1, stmts[1]);
    assert(t2 == t1.insert(h, StoredSession { user_id: user.id@, username: user.username@, expires_at }));
    assert(stmts.drop_first()[0] == stmts[1]);
    assert(stmts.drop_first().drop_first().len() == 0);
    assert(run_session_statements(t, stmts) == t2) by {
        reveal_with_fuel(run_session_statements, 3);
    }
}

/// Logging out removes the session of the token, so that checking the token
/// afterwards refuses it; every other session stays as it was.
pub proof fn law_logout_refuses_token(token: Seq<char>, t: Map<Seq<char>, StoredSession>, now: (int, int))
    ensures
        ({
            let after = run_session_statements(t, seq![delete_session_statement(token)]);
            &&& find_session(after, sha256_hex_of(token)) is None
            &&& session_check(token, find_session(after, sha256_hex_of(token)), now) == (SessionCheckView {
                valid: false,
                username: None,
                cleanup: None,
            })
            &&& forall|k: Seq<char>|
                #![trigger t.dom().contains(k)]
                t.dom().contains(k) && k != sha256_hex_of(token) ==> after.dom().contains(k) && after[k]
                    == t[k]
        }),
{
    lemma_session_sql_distinct();
    let stmts = seq![delete_session_statement(token)];
    assert(stmts.drop_first().len() == 0);
    assert(run_session_statements(t, stmts) == t.remove(sha256_hex_of(token))) by {
        reveal_with_fuel(run_session_statements, 2);
    }
}

/// A change of password ends every session of the user: after the
/// statements it returns (the password update, then the removal of the
/// user's sessions), no session of that user name remains, and no session
/// of another user is touched.
pub proof fn law_password_change_ends_sessions(
    username: Seq<char>,
    update: StatementView,
    t: Map<Seq<char>, StoredSession>,
)
    requires
        update.sql == UPDATE_PASSWORD_SQL@,
    ensures
        ({
            let after = run_session_statements(
                t,
                seq![update, StatementView { sql: DELETE_NAMED_SESSIONS_SQL@, params: seq![Cell::Text(username)] }],
            );
            &&& forall|k: Seq<char>| #![trigger after.dom().contains(k)] after.dom().contains(k) ==> after[k].username != username
            &&& forall|k: Seq<char>|
                #![trigger t.dom().contains(k)]
                t.dom().contains(k) && t[k].username != username ==> after.dom().contains(k) && after[k] == t[k]
        }),
{
    lemma_session_sql_distinct();
    let del = StatementView { sql: DELETE_NAMED_SESSIONS_SQL@, params: seq![Cell::Text(username)] };
    let stmts = seq![update, del];
    assert(run_session_statement(t, update) == t);
    assert(stmts.drop_first() == seq![del]);
    assert(seq![del].drop_first().len() == 0);
    assert(run_session_statements(t, stmts) == sessions_where(t, |e: StoredSession| e.username != username))
        by {
        reveal_with_fuel(run_session_statements, 3);
    }
}

/// What SQLite makes of the users' password hashes `users` (by user name)
/// when it runs one of the router's statements: `UPDATE_PASSWORD_SQL` sets
/// the hash of the named user, if there is one; any other statement leaves
/// them alone.
pub open spec fn run_password_statement(users: Map<Seq<char>, Seq<char>>, s: StatementView) -> Map<Seq<char>, Seq<char>> {
    if s.sql == UPDATE_PASSWORD_SQL@ && s.params.len() == 2 {
        match (s.params[0], s.params[1]) {
            (Cell::Text(hash), Cell::Text(username)) => if users.dom().contains(username) {
                users.insert(username, hash)
            } else {
                users
            },
            _ => users,
        }
    } else {
        users
    }
}

/// The password hashes after running statements in order.
pub open spec fn run_password_statements(users: Map<Seq<char>, Seq<char>>, stmts: Seq<StatementView>) -> Map<
    Seq<char>,
    Seq<char>,
>
    decreases stmts.len(),
{
    if stmts.len() == 0 {
        users
    } else {
        run_password_statements(run_password_statement(users, stmts[0]), stmts.drop_first())
    }
}

/// After a change of password, logging in with the new password succeeds
/// and every earlier session is gone: the user's stored hash is one that
/// the new password verifies against (so `login` answers `Ok` for the user
/// read back), no session of the user remains, and other users' hashes and
/// sessions are untouched.
pub proof fn law_password_change_then_login(
    stmts: Seq<StatementView>,
    username: Seq<char>,
    new_password: Seq<char>,
    users: Map<Seq<char>, Seq<char>>,
    sessions: Map<Seq<char>, StoredSession>,
)
    requires
        password_change_for(stmts, username, new_password),
        users.dom().contains(username),
    ensures
        ({
            let users_after = run_password_statements(users, stmts);
            let sessions_after = run_session_statements(sessions, stmts);
            &&& users_after.dom().contains(username)
            &&& verify_outcome(new_password, users_after[username]) == Some(true)
            &&& users_after.remove(username) == users.remove(username)
            &&& forall|k: Seq<char>|
                #![trigger sessions_after.dom().contains(k)]
                sessions_after.dom().contains(k) ==> sessions_after[k].username != username
            &&& forall|k: Seq<char>|
                #![trigger sessions.dom().contains(k)]
                sessions.dom().contains(k) && sessions[k].username != username ==> sessions_after.dom().contains(k)
                    && sessions_after[k] == sessions[k]
        }),
{
    lemma_session_sql_distinct();
    law_password_change_ends_sessions(username, stmts[0], sessions);
    assert(stmts =~= seq![stmts[0], StatementView { sql: DELETE_NAMED_SESSIONS_SQL@, params: seq![Cell::Text(username)] }]);
    let nh = stmts[0].params[0]->Text_0;
    let u1 = run_password_statement(users, stmts[0]);
    assert(u1 == users.insert(username, nh));
    assert(run_password_statement(u1, stmts[1]) == u1);
    assert(stmts.drop_first()[0] == stmts[1]);
    assert(stmts.drop_first().drop_first().len() == 0);
    assert(run_password_statements(users, stmts) == u1) by {
        reveal_with_fuel(run_password_statements, 3);
    }
    assert(u1.remove(username) =~= users.remove(username));
}

/// A login's session validates until it expires: after the login's
/// statements run, looking its token up finds the session, and a check at
/// any instant not after the expiry accepts it for the user. (The insert
/// needs the token's hash not to be held already by another user's
/// session.)
pub proof fn law_login_then_validate(
    plan: LoginPlan,
    user: User,
    random: Seq<u8>,
    expires_at: Seq<char>,
    t: Map<Seq<char>, StoredSession>,
    expiry: (int, int),
    now: (int, int),
)
    requires
        login_plan_for(plan, user, random, expires_at),
        t.dom().contains(sha256_hex_of(plan.response.token@)) ==> t[sha256_hex_of(
            plan.response.token@,
        )].user_id == user.id@,
        rfc3339_instant(expires_at) == Some(expiry),
        !before(expiry, now),
    ensures
        ({
            let after = run_session_statements(t, statements(plan.statements@));
            session_check(plan.response.token@, find_session(after, sha256_hex_of(plan.response.token@)), now)
                == (SessionCheckView { valid: true, username: Some(user.username@), cleanup: None })
        }),
{
    law_login_leaves_one_session(plan, user, random, expires_at, t);
}

/// A session lasts seven days: after a login whose clock read `at`, the
/// session found by its token is accepted by a check at any instant up to
/// seven days after `at`. (The expiry must be one that RFC 3339 writes with
/// a four-digit year, and the token's hash must not be held already by
/// another user's session, where the insert fails.)
pub proof fn law_session_lasts_seven_days(
    plan: LoginPlan,
    user: User,
    random: Seq<u8>,
    expires_at: Seq<char>,
    at: Instant,
    t: Map<Seq<char>, StoredSession>,
    now: (int, int),
)
    requires
        login_plan_for(plan, user, random, expires_at),
        login_expiry(expires_at, at),
        0 <= at.secs,
        at.nanos < 1_000_000_000,
        at.secs + SESSION_EXPIRY_SECS <= RFC3339_MAX_SECS,
        !before(((at.secs + SESSION_EXPIRY_SECS) as int, at.nanos as int), now),
        t.dom().contains(sha256_hex_of(plan.response.token@)) ==> t[sha256_hex_of(
            plan.response.token@,
        )].user_id == user.id@,
    ensures
        ({
            let after = run_session_statements(t, statements(plan.statements@));
            session_check(plan.response.token@, find_session(after, sha256_hex_of(plan.response.token@)), now)
                == (SessionCheckView { valid: true, username: Some(user.username@), cleanup: None })
        }),
{
    assert(expiry_text(at) is Some);
    law_login_then_validate(
        plan,
        user,
        random,
        expires_at,
        t,
        ((at.secs + SESSION_EXPIRY_SECS) as int, at.nanos as int),
        now,
    );
}

/// A token that no session is stored under is refused.
pub proof fn law_unknown_session_is_refused(token: Seq<char>, now: (int, int))
    ensures
        session_check(token, None, now) == (SessionCheckView { valid: false, username: None, cleanup: None }),
{
}

} // verus!
