//! API tokens for MCP clients.
//!
//! A token is `mcpr_` followed by 24 random bytes in URL-safe Base64. It
//! records which servers its client may use and expires after its lifetime
//! (90 days unless the request says otherwise). A client holds at most one
//! token.

use vstd::prelude::*;
use crate::auth::{lemma_token_text_shape, mcpr_token, token_from_bytes, token_text};
use crate::clock::{now, CHRONO_MAX_SECS};
use crate::crypto::random_bytes;
use crate::error::AppError;
use crate::json::{flag_entries, flags_to_json, json_error_text, json_flag_object};
use crate::models::{ApiToken, GenerateTokenRequest};
use crate::sql::{
    order_view, row_problem, row_problem_of, error_view, ColumnError, ColumnKind, ColumnProblem,
    bare_statement, cells, column_int, column_opt_int, column_text, opt_int_cell, statement,
    statements, text_statement, Cell, SqlStatement, SqlValue, StatementView,
};
use crate::text::text_of;

verus! {

/// The lifetime of a token whose request names none: 90 days, in seconds.
pub const DEFAULT_TOKEN_TTL_SECONDS: i64 = 7_776_000;

/// How many random bytes a token carries.
pub const API_TOKEN_BYTES: usize = 24;

/// The longest lifetime that cannot overflow when added to any instant of
/// the clock; longer ones are accepted only where the actual clock reading
/// leaves room.
pub const MAX_TOKEN_TTL_SECONDS: i64 = 9_223_363_826_587_899_008;

pub const DELETE_CLIENT_TOKENS_SQL: &'static str = "DELETE FROM api_tokens WHERE client_id = ?1";

pub const INSERT_TOKEN_SQL: &'static str =
    "INSERT INTO api_tokens (id, client_id, server_access, issued_at, expires_at) VALUES (?1, ?2, ?3, ?4, ?5)";

pub const LIST_TOKENS_SQL: &'static str =
    "SELECT id, client_id, server_access, issued_at, expires_at FROM api_tokens ORDER BY issued_at DESC";

pub const DELETE_TOKEN_SQL: &'static str = "DELETE FROM api_tokens WHERE id = ?1";

pub const FIND_TOKEN_SQL: &'static str =
    "SELECT id, client_id, server_access, issued_at, expires_at FROM api_tokens WHERE id = ?1";

/// The lifetime that a request asks for, or the default.
pub open spec fn token_ttl(req: GenerateTokenRequest) -> int {
    match req.expires_in_seconds {
        Some(t) => t as int,
        None => DEFAULT_TOKEN_TTL_SECONDS as int,
    }
}

/// Whether a request's lifetime fits every reading of the clock.
pub open spec fn ttl_in_range(req: GenerateTokenRequest) -> bool {
    match req.expires_in_seconds {
        Some(t) => t <= MAX_TOKEN_TTL_SECONDS,
        None => true,
    }
}

/// A token just issued, and the statements that store it in place of the
/// client's earlier tokens.
#[derive(Debug, PartialEq, Eq)]
pub struct TokenPlan {
    pub token: ApiToken,
    pub statements: Vec<SqlStatement>,
}

/// Whether `plan` issues, for `req`, the token made of `random` at second
/// `issued_at`, with `server_access` as the text of its access flags.
pub open spec fn token_plan_for(
    plan: TokenPlan,
    req: GenerateTokenRequest,
    random: Seq<u8>,
    issued_at: int,
    server_access: Seq<char>,
) -> bool {
    let t = plan.token;
    &&& t.id@ == token_text(random)
    &&& t.client_id@ == req.client_id@
    &&& t.server_access@ == server_access
    &&& t.issued_at == issued_at
    &&& t.expires_at == Some((issued_at + token_ttl(req)) as i64)
    &&& statements(plan.statements@) == seq![
        StatementView { sql: DELETE_CLIENT_TOKENS_SQL@, params: seq![Cell::Text(req.client_id@)] },
        StatementView {
            sql: INSERT_TOKEN_SQL@,
            params: seq![
                Cell::Text(t.id@),
                Cell::Text(req.client_id@),
                Cell::Text(server_access),
                Cell::Int(issued_at),
                Cell::Int(issued_at + token_ttl(req)),
            ],
        },
    ]
}

/// Whether a row has the columns of a token: three texts, an integer, and
/// an integer or NULL.
pub open spec fn token_shape(row: Seq<SqlValue>) -> bool {
    &&& row.len() >= 5
    &&& row[0]@ is Text
    &&& row[1]@ is Text
    &&& row[2]@ is Text
    &&& row[3]@ is Int
    &&& (row[4]@ is Int || row[4]@ is Null)
}

/// The order in which the columns of a token row are read, and how: from
/// left to right.
pub open spec fn token_order() -> Seq<(int, ColumnKind)> {
    seq![
        (0, ColumnKind::Text),
        (1, ColumnKind::Text),
        (2, ColumnKind::Text),
        (3, ColumnKind::Int),
        (4, ColumnKind::OptInt),
    ]
}

/// The order in which the columns of a token row are read (`token_order`).
pub fn token_reading_order() -> (r: Vec<(usize, ColumnKind)>)
    ensures
        order_view(r@) == token_order(),
{
    let r: Vec<(usize, ColumnKind)> = vec![
        (0, ColumnKind::Text),
        (1, ColumnKind::Text),
        (2, ColumnKind::Text),
        (3, ColumnKind::Int),
        (4, ColumnKind::OptInt),
    ];
    assert(order_view(r@) =~= token_order());
    r
}

/// A row whose columns all read is a token.
proof fn lemma_token_row_reads(row: Seq<SqlValue>)
    requires
        row_problem(cells(row), token_order()) is None,
    ensures
        token_shape(row),
{
    reveal_with_fuel(row_problem, 6);
}

/// Whether `t` is the token that the row holds.
pub open spec fn token_in_row(t: ApiToken, row: Seq<SqlValue>) -> bool {
    &&& row.len() >= 5
    &&& row[0]@ == Cell::Text(t.id@)
    &&& row[1]@ == Cell::Text(t.client_id@)
    &&& row[2]@ == Cell::Text(t.server_access@)
    &&& row[3]@ == Cell::Int(t.issued_at as int)
    &&& row[4]@ == opt_int_cell(t.expires_at)
}

/// Whether a token is refused at second `now`: it has expired.
pub open spec fn token_expired(t: ApiToken, now: int) -> bool {
    match t.expires_at {
        Some(e) => now > e,
        None => false,
    }
}

/// The names of access entries.
pub open spec fn entry_names(e: Seq<(Seq<char>, bool)>) -> Seq<Seq<char>> {
    e.map_values(|x: (Seq<char>, bool)| x.0)
}

/// The access entries that count: of the entries for one server, the last
/// one; in the order given.
pub open spec fn latest_entries(e: Seq<(Seq<char>, bool)>) -> Seq<(Seq<char>, bool)>
    decreases e.len(),
{
    if e.len() == 0 {
        seq![]
    } else if entry_names(e.drop_first()).contains(e[0].0) {
        latest_entries(e.drop_first())
    } else {
        seq![e[0]] + latest_entries(e.drop_first())
    }
}

/// The access entries that count (`latest_entries`).
pub fn latest_access(entries: &Vec<(String, bool)>) -> (r: Vec<(String, bool)>)
    ensures
        flag_entries(r@) == latest_entries(flag_entries(entries@)),
{
    let ghost all = flag_entries(entries@);
    let n = entries.len();
    let mut r: Vec<(String, bool)> = Vec::new();
    let mut i: usize = n;
    assert(all.subrange(n as int, n as int) =~= Seq::<(Seq<char>, bool)>::empty());
    assert(flag_entries(r@) =~= Seq::<(Seq<char>, bool)>::empty());
    while i > 0
        invariant
            n == entries@.len(),
            all == flag_entries(entries@),
            all.len() == n,
            i <= n,
            flag_entries(r@) == latest_entries(all.subrange(i as int, n as int)),
        decreases i,
    {
        let k = i - 1;
        let mut later = false;
        let mut j: usize = i;
        while j < n
            invariant
                n == entries@.len(),
                all == flag_entries(entries@),
                all.len() == n,
                k + 1 == i,
                i <= j <= n,
                later == exists|m: int| i <= m < j && #[trigger] all[m].0 == all[k as int].0,
            decreases n - j,
        {
            assert(all[j as int].0 == entries@[j as int].0@);
            assert(all[k as int].0 == entries@[k as int].0@);
            if crate::text::str_eq(entries[j].0.as_str(), entries[k].0.as_str()) {
                later = true;
            }
            j = j + 1;
        }
        let ghost sub = all.subrange(k as int, n as int);
        assert(sub.drop_first() =~= all.subrange(i as int, n as int));
        assert(sub[0] == all[k as int]);
        assert(later == entry_names(sub.drop_first()).contains(sub[0].0)) by {
            if later {
                let m = choose|m: int| i <= m < n && #[trigger] all[m].0 == all[k as int].0;
                assert(entry_names(sub.drop_first())[m - i] == all[m].0);
            }
            if entry_names(sub.drop_first()).contains(sub[0].0) {
                let q = choose|q: int| 0 <= q < entry_names(sub.drop_first()).len() && entry_names(sub.drop_first())[q] == sub[0].0;
                assert(all[q + i].0 == all[k as int].0);
            }
        }
        if !later {
            let ghost before = r@;
            let item = (entries[k].0.clone(), entries[k].1);
            r.insert(0, item);
            assert(flag_entries(r@) =~= seq![all[k as int]] + flag_entries(before));
        }
        i = k;
    }
    assert(all.subrange(0, n as int) =~= all);
    r
}

/// Whether `r` is what issuing a token for `req` answers when the random
/// bytes are `random` and the clock reads `issued_at` seconds: the token and
/// its statements, when the expiry fits in 64 bits; otherwise the refusal
/// `Token lifetime is too long`.
pub open spec fn token_outcome(
    r: Result<TokenPlan, AppError>,
    req: GenerateTokenRequest,
    random: Seq<u8>,
    issued_at: int,
) -> bool {
    if i64::MIN <= issued_at + token_ttl(req) <= i64::MAX {
        r matches Ok(p) && token_plan_for(
            p,
            req,
            random,
            issued_at,
            json_flag_object(latest_entries(flag_entries(req.server_access@))),
        )
    } else {
        r matches Err(AppError::Server(m)) && m@ == "Token lifetime is too long"@
    }
}

/// The API tokens of MCP clients.
pub struct TokenService;

impl TokenService {
    /// The token issued for `req` from the random bytes `random` at second
    /// `issued_at`, its access flags written as `server_access`.
    pub fn issue_token(
        req: &GenerateTokenRequest,
        random: &[u8],
        issued_at: i64,
        server_access: String,
    ) -> (p: TokenPlan)
        requires
            i64::MIN <= issued_at + token_ttl(*req) <= i64::MAX,
        ensures
            token_plan_for(p, *req, random@, issued_at as int, server_access@),
    {
        let id = token_from_bytes(random);
        let ttl = match req.expires_in_seconds {
            Some(t) => t,
            None => DEFAULT_TOKEN_TTL_SECONDS,
        };
        let expires_at = issued_at + ttl;
        let mut remove: Vec<SqlValue> = Vec::new();
        remove.push(SqlValue::Text(req.client_id.clone()));
        let mut insert: Vec<SqlValue> = Vec::new();
        insert.push(SqlValue::Text(id.clone()));
        insert.push(SqlValue::Text(req.client_id.clone()));
        insert.push(SqlValue::Text(server_access.clone()));
        insert.push(SqlValue::Integer(issued_at));
        insert.push(SqlValue::Integer(expires_at));
        proof {
            assert(cells(remove@) =~= seq![Cell::Text(req.client_id@)]);
            assert(cells(insert@) =~= seq![
                Cell::Text(id@),
                Cell::Text(req.client_id@),
                Cell::Text(server_access@),
                Cell::Int(issued_at as int),
                Cell::Int(issued_at + token_ttl(*req)),
            ]);
        }
        let mut stmts: Vec<SqlStatement> = Vec::new();
        stmts.push(statement(DELETE_CLIENT_TOKENS_SQL, remove));
        stmts.push(statement(INSERT_TOKEN_SQL, insert));
        let p = TokenPlan {
            token: ApiToken {
                id,
                client_id: req.client_id.clone(),
                server_access,
                issued_at,
                expires_at: Some(expires_at),
            },
            statements: stmts,
        };
        proof {
            assert(statements(p.statements@) =~~= seq![
                StatementView { sql: DELETE_CLIENT_TOKENS_SQL@, params: seq![Cell::Text(req.client_id@)] },
                StatementView {
                    sql: INSERT_TOKEN_SQL@,
                    params: seq![
                        Cell::Text(p.token.id@),
                        Cell::Text(req.client_id@),
                        Cell::Text(server_access@),
                        Cell::Int(issued_at as int),
                        Cell::Int(issued_at + token_ttl(*req)),
                    ],
                },
            ]);
        }
        p
    }

    /// A new token for the client of `req`, replacing the client's earlier
    /// tokens; its access flags are stored as a JSON object, one entry per
    /// server (the last one given for it), in the order given. A lifetime
    /// that, added to the clock reading, would pass the largest 64-bit time
    /// is refused with `Token lifetime is too long`; no lifetime of at most
    /// `MAX_TOKEN_TTL_SECONDS` is.
    pub fn generate_token(req: &GenerateTokenRequest) -> (r: Result<TokenPlan, AppError>)
        ensures
            exists|random: Seq<u8>, issued_at: int|
                #![trigger token_outcome(r, *req, random, issued_at)]
                random.len() == API_TOKEN_BYTES && 0 <= issued_at <= CHRONO_MAX_SECS
                && token_outcome(r, *req, random, issued_at),
            ttl_in_range(*req) ==> r is Ok,
            r matches Ok(p) ==> mcpr_token(p.token.id@, 32),
    {
        let random = random_bytes(API_TOKEN_BYTES);
        let at = now();
        let access = latest_access(&req.server_access);
        let server_access = match flags_to_json(&access) {
            Ok(t) => t,
            Err(e) => return Err(AppError::Serde(json_error_text(&e))),
        };
        let ttl = match req.expires_in_seconds {
            Some(t) => t,
            None => DEFAULT_TOKEN_TTL_SECONDS,
        };
        if at.secs.checked_add(ttl).is_none() {
            let r: Result<TokenPlan, AppError> = Err(AppError::Server(text_of("Token lifetime is too long")));
            assert(token_outcome(r, *req, random@, at.secs as int));
            return r;
        }
        let p = Self::issue_token(req, random.as_slice(), at.secs, server_access);
        proof {
            lemma_token_text_shape(random@);
        }
        let r: Result<TokenPlan, AppError> = Ok(p);
        assert(token_outcome(r, *req, random@, at.secs as int));
        r
    }

    /// The statement that lists all tokens, newest first.
    pub fn list_tokens_statement() -> (s: SqlStatement)
        ensures
            s@.sql == LIST_TOKENS_SQL@,
            s@.params == Seq::<Cell>::empty(),
    {
        bare_statement(LIST_TOKENS_SQL)
    }

    /// The token in a row of `LIST_TOKENS_SQL` or `FIND_TOKEN_SQL`.
    pub fn token_from_row(row: &Vec<SqlValue>) -> (r: Option<ApiToken>)
        ensures
            match r {
                Some(t) => token_in_row(t, row@),
                None => !token_shape(row@),
            },
    {
        let id = column_text(row, 0)?;
        let client_id = column_text(row, 1)?;
        let server_access = column_text(row, 2)?;
        let issued_at = column_int(row, 3)?;
        let expires_at = column_opt_int(row, 4)?;
        Some(ApiToken { id, client_id, server_access, issued_at, expires_at })
    }

    /// The tokens in the rows of `LIST_TOKENS_SQL`, in order. The rows are
    /// read in order, each column in `token_order`; the first column that
    /// cannot be read fails the whole listing, and is returned.
    pub fn list_tokens(rows: &Vec<Vec<SqlValue>>) -> (r: Result<Vec<ApiToken>, ColumnError>)
        ensures
            r is Ok <==> forall|i: int|
                0 <= i < rows@.len() ==> (#[trigger] row_problem(cells(rows@[i]@), token_order())) is None,
            r matches Ok(v) ==> v@.len() == rows@.len()
                && forall|i: int| 0 <= i < v@.len() ==> token_in_row(#[trigger] v@[i], rows@[i]@),
            r matches Err(e) ==> exists|k: int|
                0 <= k < rows@.len() && (forall|j: int| 0 <= j < k ==> (#[trigger] row_problem(cells(rows@[j]@), token_order())) is None)
                    && #[trigger] row_problem(cells(rows@[k]@), token_order()) == Some(error_view(e)),
    {
        let order = token_reading_order();
        let mut out: Vec<ApiToken> = Vec::new();
        let n = rows.len();
        let mut i: usize = 0;
        while i < n
            invariant
                n == rows@.len(),
                order_view(order@) == token_order(),
                i <= n,
                out@.len() == i,
                forall|j: int| 0 <= j < i ==> (#[trigger] row_problem(cells(rows@[j]@), token_order())) is None,
                forall|j: int| 0 <= j < i ==> token_in_row(#[trigger] out@[j], rows@[j]@),
            decreases n - i,
        {
            if let Some(e) = row_problem_of(&rows[i], &order) {
                assert(row_problem(cells(rows@[i as int]@), token_order()) == Some(error_view(e)));
                return Err(e);
            }
            proof {
                lemma_token_row_reads(rows@[i as int]@);
            }
            match Self::token_from_row(&rows[i]) {
                Some(t) => out.push(t),
                None => {
                    proof {
                        assert(false);
                    }
                    return Err(ColumnError { index: 0, problem: ColumnProblem::Missing });
                },
            }
            i = i + 1;
        }
        Ok(out)
    }

    /// The statement that revokes the token `token_id`.
    pub fn revoke_token_statement(token_id: &str) -> (s: SqlStatement)
        ensures
            s@.sql == DELETE_TOKEN_SQL@,
            s@.params == seq![Cell::Text(token_id@)],
    {
        text_statement(DELETE_TOKEN_SQL, token_id)
    }

    /// The outcome of revoking a token, given how many rows were removed:
    /// none means the token did not exist.
    pub fn revoke_token(affected: usize) -> (r: Result<(), AppError>)
        ensures
            affected == 0 <==> (r matches Err(AppError::NotFound(m)) && m@ == "Token not found"@),
            r is Ok <==> affected != 0,
    {
        if affected == 0 {
            return Err(AppError::NotFound(text_of("Token not found")));
        }
        Ok(())
    }

    /// The statement that looks up the token `token_id`.
    pub fn find_token_statement(token_id: &str) -> (s: SqlStatement)
        ensures
            s@.sql == FIND_TOKEN_SQL@,
            s@.params == seq![Cell::Text(token_id@)],
    {
        text_statement(FIND_TOKEN_SQL, token_id)
    }

    /// The check of a token at second `now`, given the token found under its
    /// id: unknown and expired tokens are refused.
    pub fn check_token(found: Option<ApiToken>, now: i64) -> (r: Result<ApiToken, AppError>)
        ensures
            token_check(found, now as int, r),
    {
        let token = match found {
            Some(t) => t,
            None => return Err(AppError::Unauthorized),
        };
        if let Some(expires_at) = token.expires_at {
            if now > expires_at {
                return Err(AppError::Unauthorized);
            }
        }
        Ok(token)
    }

    /// Whether the token found under an id is usable now.
    pub fn validate_token(found: Option<ApiToken>) -> (r: Result<ApiToken, AppError>)
        ensures
            exists|now: int|
                #![trigger token_check(found, now, r)]
                0 <= now <= CHRONO_MAX_SECS && token_check(found, now, r),
    {
        let at = now();
        let r = Self::check_token(found, at.secs);
        assert(token_check(found, at.secs as int, r));
        r
    }
}

/// A token just issued is accepted from its issue until its expiry and
/// refused after it, and it is found by its own id.
pub proof fn law_issued_token_valid_until_expiry(
    plan: TokenPlan,
    req: GenerateTokenRequest,
    random: Seq<u8>,
    issued_at: int,
    server_access: Seq<char>,
    now: int,
)
    requires
        token_plan_for(plan, req, random, issued_at, server_access),
        i64::MIN <= issued_at + token_ttl(req) <= i64::MAX,
    ensures
        token_expired(plan.token, now) <==> now > issued_at + token_ttl(req),
        statements(plan.statements@)[1].params[0] == Cell::Text(plan.token.id@),
{
}

/// A token as the `api_tokens` table holds it under its id.
pub struct StoredToken {
    pub client_id: Seq<char>,
    pub server_access: Seq<char>,
    pub issued_at: Cell,
    pub expires_at: Cell,
}

/// The tokens of `t` for which `keep` holds.
pub open spec fn tokens_where(
    t: Map<Seq<char>, StoredToken>,
    keep: spec_fn(StoredToken) -> bool,
) -> Map<Seq<char>, StoredToken> {
    Map::new(|id: Seq<char>| t.dom().contains(id) && keep(t[id]), |id: Seq<char>| t[id])
}

/// What SQLite makes of the `api_tokens` table `t` (keyed by token id) when
/// it runs one of the router's statements: the deletes remove the matching
/// tokens, the insert adds one (and fails, changing nothing, where the id is
/// already stored), and any other statement leaves the table alone.
pub open spec fn run_token_statement(t: Map<Seq<char>, StoredToken>, s: StatementView) -> Map<
    Seq<char>,
    StoredToken,
> {
    if s.sql == DELETE_CLIENT_TOKENS_SQL@ && s.params.len() == 1 {
        match s.params[0] {
            Cell::Text(client_id) => tokens_where(t, |e: StoredToken| e.client_id != client_id),
            _ => t,
        }
    } else if s.sql == DELETE_TOKEN_SQL@ && s.params.len() == 1 {
        match s.params[0] {
            Cell::Text(id) => t.remove(id),
            _ => t,
        }
    } else if s.sql == INSERT_TOKEN_SQL@ && s.params.len() == 5 {
        match (s.params[0], s.params[1], s.params[2]) {
            (Cell::Text(id), Cell::Text(client_id), Cell::Text(server_access)) => if t.dom().contains(id) {
                t
            } else {
                t.insert(
                    id,
                    StoredToken { client_id, server_access, issued_at: s.params[3], expires_at: s.params[4] },
                )
            },
            _ => t,
        }
    } else {
        t
    }
}

/// The table after running statements in order.
pub open spec fn run_token_statements(t: Map<Seq<char>, StoredToken>, stmts: Seq<StatementView>) -> Map<
    Seq<char>,
    StoredToken,
>
    decreases stmts.len(),
{
    if stmts.len() == 0 {
        t
    } else {
        run_token_statements(run_token_statement(t, stmts[0]), stmts.drop_first())
    }
}

/// The texts of the token statements are pairwise distinct.
proof fn lemma_token_sql_distinct()
    ensures
        DELETE_CLIENT_TOKENS_SQL@ != DELETE_TOKEN_SQL@,
        DELETE_CLIENT_TOKENS_SQL@ != INSERT_TOKEN_SQL@,
        DELETE_TOKEN_SQL@ != INSERT_TOKEN_SQL@,
{
    reveal_strlit("DELETE FROM api_tokens WHERE client_id = ?1");
    reveal_strlit("DELETE FROM api_tokens WHERE id = ?1");
    reveal_strlit(
        "INSERT INTO api_tokens (id, client_id, server_access, issued_at, expires_at) VALUES (?1, ?2, ?3, ?4, ?5)",
    );
    assert(DELETE_CLIENT_TOKENS_SQL@.len() == 43);
    assert(DELETE_TOKEN_SQL@.len() == 36);
    assert(INSERT_TOKEN_SQL@[0] == 'I');
    assert(DELETE_TOKEN_SQL@[0] == 'D');
}

/// Issuing a token leaves its client exactly one token, the new one, stored
/// under its id with its access, its issue and its expiry, so that reading
/// it back finds it; the tokens of other clients stay as they were. (The
/// insert needs the new id not to be held already by another client's
/// token.)
pub proof fn law_issued_token_replaces_client_tokens(
    plan: TokenPlan,
    req: GenerateTokenRequest,
    random: Seq<u8>,
    issued_at: int,
    server_access: Seq<char>,
    t: Map<Seq<char>, StoredToken>,
)
    requires
        token_plan_for(plan, req, random, issued_at, server_access),
        t.dom().contains(plan.token.id@) ==> t[plan.token.id@].client_id == req.client_id@,
    ensures
        ({
            let id = plan.token.id@;
            let after = run_token_statements(t, statements(plan.statements@));
            &&& after.dom().contains(id)
            &&& after[id] == (StoredToken {
                client_id: req.client_id@,
                server_access,
                issued_at: Cell::Int(issued_at),
                expires_at: Cell::Int(issued_at + token_ttl(req)),
            })
            &&& forall|k: Seq<char>|
                #![trigger after.dom().contains(k)]
                after.dom().contains(k) && after[k].client_id == req.client_id@ ==> k == id
            &&& forall|k: Seq<char>|
                #![trigger t.dom().contains(k)]
                t.dom().contains(k) && t[k].client_id != req.client_id@ ==> after.dom().contains(k) && after[k]
                    == t[k]
        }),
{
    lemma_token_sql_distinct();
    let id = plan.token.id@;
    let stmts = statements(plan.statements@);
    let t1 = run_token_statement(t, stmts[0]);
    assert(t1 == tokens_where(t, |e: StoredToken| e.client_id != req.client_id@));
    assert(!t1.dom().contains(id));
    let t2 = run_token_statement(t1, stmts[1]);
    assert(t2 == t1.insert(
        id,
        StoredToken {
            client_id: req.client_id@,
            server_access,
            issued_at: Cell::Int(issued_at),
            expires_at: Cell::Int(issued_at + token_ttl(req)),
        },
    ));
    assert(stmts.drop_first()[0] == stmts[1]);
    assert(stmts.drop_first().drop_first().len() == 0);
    assert(run_token_statements(t, stmts) == t2) by {
        reveal_with_fuel(run_token_statements, 3);
    }
}

/// A token just issued reads back as itself: the row that its insert
/// stores (its columns are those of `FIND_TOKEN_SQL`, in the same order)
/// has the columns of a token, and the token read from it is the one
/// issued.
pub proof fn law_issued_token_reads_back(
    plan: TokenPlan,
    req: GenerateTokenRequest,
    random: Seq<u8>,
    issued_at: int,
    server_access: Seq<char>,
    row: Seq<SqlValue>,
    t: ApiToken,
)
    requires
        token_plan_for(plan, req, random, issued_at, server_access),
        i64::MIN <= issued_at + token_ttl(req) <= i64::MAX,
        cells(row) == statements(plan.statements@)[1].params,
    ensures
        token_shape(row),
        token_in_row(t, row) ==> t@ == plan.token@,
{
    assert(cells(row).len() == row.len());
    assert forall|i: int| 0 <= i < row.len() implies cells(row)[i] == #[trigger] row[i]@ by {}
}

/// The row that `FIND_TOKEN_SQL` reads for a stored token.
pub open spec fn stored_token_row(id: Seq<char>, e: StoredToken) -> Seq<Cell> {
    seq![Cell::Text(id), Cell::Text(e.client_id), Cell::Text(e.server_access), e.issued_at, e.expires_at]
}

/// A token just issued validates until it expires: after its statements
/// run, looking its id up reads back the token as issued, and a check at any
/// second up to its expiry hands it back. (The insert needs the new id not
/// to be held already by another client's token.)
pub proof fn law_issued_token_validates(
    plan: TokenPlan,
    req: GenerateTokenRequest,
    random: Seq<u8>,
    issued_at: int,
    server_access: Seq<char>,
    t: Map<Seq<char>, StoredToken>,
    row: Seq<SqlValue>,
    found: ApiToken,
    now: int,
    r: Result<ApiToken, AppError>,
)
    requires
        token_plan_for(plan, req, random, issued_at, server_access),
        i64::MIN <= issued_at + token_ttl(req) <= i64::MAX,
        t.dom().contains(plan.token.id@) ==> t[plan.token.id@].client_id == req.client_id@,
        cells(row) == stored_token_row(
            plan.token.id@,
            run_token_statements(t, statements(plan.statements@))[plan.token.id@],
        ),
        token_in_row(found, row),
        now <= issued_at + token_ttl(req),
        token_check(Some(found), now, r),
    ensures
        r matches Ok(v) && v@ == plan.token@,
{
    law_issued_token_replaces_client_tokens(plan, req, random, issued_at, server_access, t);
    law_issued_token_reads_back(plan, req, random, issued_at, server_access, row, found);
    law_issued_token_valid_until_expiry(plan, req, random, issued_at, server_access, now);
}

/// Revoking a token removes it, so that it is no longer found and a check
/// of its id refuses it; every other token stays as it was.
pub proof fn law_revoked_token_is_refused(
    token_id: Seq<char>,
    t: Map<Seq<char>, StoredToken>,
    now: int,
    r: Result<ApiToken, AppError>,
)
    requires
        token_check(None, now, r),
    ensures
        ({
            let after = run_token_statements(
                t,
                seq![StatementView { sql: DELETE_TOKEN_SQL@, params: seq![Cell::Text(token_id)] }],
            );
            &&& !after.dom().contains(token_id)
            &&& r matches Err(AppError::Unauthorized)
            &&& forall|k: Seq<char>|
                #![trigger t.dom().contains(k)]
                t.dom().contains(k) && k != token_id ==> after.dom().contains(k) && after[k] == t[k]
        }),
{
    lemma_token_sql_distinct();
    let stmts = seq![StatementView { sql: DELETE_TOKEN_SQL@, params: seq![Cell::Text(token_id)] }];
    assert(stmts.drop_first().len() == 0);
    assert(run_token_statements(t, stmts) == t.remove(token_id)) by {
        reveal_with_fuel(run_token_statements, 2);
    }
}

/// A check refuses a token whose expiry is before the time of the check,
/// and hands back any other token that was found, unchanged.
pub proof fn law_check_refuses_expired_tokens(t: ApiToken, now: int, r: Result<ApiToken, AppError>)
    requires
        token_check(Some(t), now, r),
    ensures
        (t.expires_at matches Some(e) && e < now) ==> r matches Err(AppError::Unauthorized),
        (t.expires_at is None || (t.expires_at matches Some(e) && now <= e)) ==> (r matches Ok(u) && u@ == t@),
{
}

/// Whether `r` is the outcome of checking, at second `now`, the token found
/// under an id: unknown and expired tokens are refused, any other is handed
/// back.
pub open spec fn token_check(found: Option<ApiToken>, now: int, r: Result<ApiToken, AppError>) -> bool {
    match found {
        None => r matches Err(AppError::Unauthorized),
        Some(t) => if token_expired(t, now) {
            r matches Err(AppError::Unauthorized)
        } else {
            r matches Ok(u) && u@ == t@
        },
    }
}

} // verus!
