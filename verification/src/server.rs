//! The MCP servers known to the router.

use vstd::prelude::*;
use crate::crypto::uuid_v4_text;
use crate::clock::{now_rfc3339, rfc3339_text, CHRONO_MAX_SECS};
use crate::crypto::new_uuid;
use crate::error::{message, AppError};
use crate::models::{
    server_type_named, server_type_text, CreateServerRequest, McpServer, McpServerView, ServerType,
    UpdateServerRequest,
};
use crate::sql::{
    assignment_texts, assignments, bare_statement, cells, order_view, row_problem, row_problem_of, error_view,
    ColumnError, ColumnKind, ColumnProblem, column_int, column_opt_text, column_text,
    flag_int, opt_text_cell, opt_text_value, placeholder, placeholder_text, statement,
    text_statement, text_value, Cell, SqlStatement, SqlValue, StatementView,
};
use crate::text::{join, seq_join, text_of};

verus! {

pub const INSERT_SERVER_SQL: &'static str = "INSERT INTO servers (id, name, description, server_type, command, args, env, remote_url, bearer_token, project_id, auto_start, created_at, updated_at)
             VALUES (?1, ?2, ?3, ?4, ?5, ?6, ?7, ?8, ?9, ?10, ?11, ?12, ?13)";

pub const LIST_SERVERS_SQL: &'static str = "SELECT id, name, description, server_type, command, args, env, remote_url, bearer_token, project_id, tool_permissions, auto_start, disabled, created_at, updated_at
             FROM servers ORDER BY created_at DESC";

pub const FIND_SERVER_SQL: &'static str = "SELECT id, name, description, server_type, command, args, env, remote_url, bearer_token, project_id, tool_permissions, auto_start, disabled, created_at, updated_at
             FROM servers WHERE id = ?1";

pub const DELETE_SERVER_SQL: &'static str = "DELETE FROM servers WHERE id = ?1";

pub const TOGGLE_SERVER_SQL: &'static str =
    "UPDATE servers SET disabled = ?1, updated_at = datetime('now') WHERE id = ?2";

pub const SET_TOOL_PERMISSIONS_SQL: &'static str =
    "UPDATE servers SET tool_permissions = ?1, updated_at = datetime('now') WHERE id = ?2";

/// The text of a column, where it holds text.
pub open spec fn cell_text(c: Cell) -> Option<Seq<char>> {
    match c {
        Cell::Text(s) => Some(s),
        _ => None,
    }
}

/// The column of an optional text: `Some(None)` for NULL, `None` for a
/// column that is neither text nor NULL.
pub open spec fn cell_opt_text(c: Cell) -> Option<Option<Seq<char>>> {
    match c {
        Cell::Text(s) => Some(Some(s)),
        Cell::Null => Some(None),
        _ => None,
    }
}

/// The flag in a column read as a 32-bit integer: non-zero is true.
pub open spec fn cell_flag(c: Cell) -> Option<bool> {
    match c {
        Cell::Int(v) => if i32::MIN <= v <= i32::MAX { Some(v != 0) } else { None },
        _ => None,
    }
}

/// The server in a row of `LIST_SERVERS_SQL` or `FIND_SERVER_SQL`, if the
/// row has a server's columns. A stored type that names no server type
/// reads as `Local`.
pub open spec fn decode_server(row: Seq<Cell>) -> Option<McpServerView> {
    if row.len() >= 15 && cell_text(row[0]) is Some && cell_text(row[1]) is Some
        && cell_opt_text(row[2]) is Some && cell_text(row[3]) is Some
        && cell_opt_text(row[4]) is Some && cell_opt_text(row[5]) is Some
        && cell_opt_text(row[6]) is Some && cell_opt_text(row[7]) is Some
        && cell_opt_text(row[8]) is Some && cell_opt_text(row[9]) is Some
        && cell_opt_text(row[10]) is Some && cell_flag(row[11]) is Some
        && cell_flag(row[12]) is Some && cell_text(row[13]) is Some && cell_text(row[14]) is Some {
        Some(McpServerView {
            id: cell_text(row[0])->0,
            name: cell_text(row[1])->0,
            description: cell_opt_text(row[2])->0,
            server_type: match server_type_named(cell_text(row[3])->0) {
                Some(t) => t,
                None => ServerType::Local,
            },
            command: cell_opt_text(row[4])->0,
            args: cell_opt_text(row[5])->0,
            env: cell_opt_text(row[6])->0,
            remote_url: cell_opt_text(row[7])->0,
            bearer_token: cell_opt_text(row[8])->0,
            project_id: cell_opt_text(row[9])->0,
            tool_permissions: cell_opt_text(row[10])->0,
            auto_start: cell_flag(row[11])->0,
            disabled: cell_flag(row[12])->0,
            created_at: cell_text(row[13])->0,
            updated_at: cell_text(row[14])->0,
        })
    } else {
        None
    }
}

/// The order in which a server's columns are read, and how: the type
/// first, then the others from left to right.
pub open spec fn server_order() -> Seq<(int, ColumnKind)> {
    seq![
        (3, ColumnKind::Text),
        (0, ColumnKind::Text),
        (1, ColumnKind::Text),
        (2, ColumnKind::OptText),
        (4, ColumnKind::OptText),
        (5, ColumnKind::OptText),
        (6, ColumnKind::OptText),
        (7, ColumnKind::OptText),
        (8, ColumnKind::OptText),
        (9, ColumnKind::OptText),
        (10, ColumnKind::OptText),
        (11, ColumnKind::Int32),
        (12, ColumnKind::Int32),
        (13, ColumnKind::Text),
        (14, ColumnKind::Text),
    ]
}

/// The order in which a server's columns are read (`server_order`).
pub fn server_reading_order() -> (r: Vec<(usize, ColumnKind)>)
    ensures
        order_view(r@) == server_order(),
{
    let r: Vec<(usize, ColumnKind)> = vec![
        (3, ColumnKind::Text),
        (0, ColumnKind::Text),
        (1, ColumnKind::Text),
        (2, ColumnKind::OptText),
        (4, ColumnKind::OptText),
        (5, ColumnKind::OptText),
        (6, ColumnKind::OptText),
        (7, ColumnKind::OptText),
        (8, ColumnKind::OptText),
        (9, ColumnKind::OptText),
        (10, ColumnKind::OptText),
        (11, ColumnKind::Int32),
        (12, ColumnKind::Int32),
        (13, ColumnKind::Text),
        (14, ColumnKind::Text),
    ];
    assert(order_view(r@) =~= server_order());
    r
}

/// A row whose columns all read is a server.
proof fn lemma_server_row_reads(row: Seq<Cell>)
    requires
        row_problem(row, server_order()) is None,
    ensures
        decode_server(row) is Some,
{
    reveal_with_fuel(row_problem, 16);
}

/// The server that a creation request makes, with id `id` at time `now`:
/// enabled, without tool permissions, started automatically only when the
/// request says so.
pub open spec fn server_from_request(req: CreateServerRequest, id: Seq<char>, now: Seq<char>) -> McpServerView {
    McpServerView {
        id,
        name: req.name@,
        description: req.description.deep_view(),
        server_type: req.server_type,
        command: req.command.deep_view(),
        args: req.args.deep_view(),
        env: req.env.deep_view(),
        remote_url: req.remote_url.deep_view(),
        bearer_token: req.bearer_token.deep_view(),
        project_id: req.project_id.deep_view(),
        tool_permissions: None,
        auto_start: match req.auto_start {
            Some(b) => b,
            None => false,
        },
        disabled: false,
        created_at: now,
        updated_at: now,
    }
}

/// Whether `s` is a server made from `req` with id `id` at time `now`:
/// each field of the request is carried unchanged into the field of the
/// same name, the server is enabled and has no tool permissions, and it
/// starts automatically only when the request says so.
pub open spec fn created_server_keeps_request(s: McpServerView, req: CreateServerRequest, id: Seq<char>, now: Seq<char>) -> bool {
    &&& s.id == id
    &&& s.name == req.name@
    &&& s.description == req.description.deep_view()
    &&& s.server_type == req.server_type
    &&& s.command == req.command.deep_view()
    &&& s.args == req.args.deep_view()
    &&& s.env == req.env.deep_view()
    &&& s.remote_url == req.remote_url.deep_view()
    &&& s.bearer_token == req.bearer_token.deep_view()
    &&& s.project_id == req.project_id.deep_view()
    &&& s.tool_permissions is None
    &&& s.auto_start == (req.auto_start == Some(true))
    &&& !s.disabled
    &&& s.created_at == now
    &&& s.updated_at == now
}

/// A created server carries its request unchanged, and the insert binds each
/// request field to the placeholder of its own column: `?1` the id, `?2` the
/// name, `?3` the description, `?4` the type's name, `?5` the command, `?6`
/// the arguments, `?7` the environment, `?8` the remote URL, `?9` the bearer
/// token, `?10` the project, `?11` the auto-start flag, `?12` and `?13` the
/// time.
pub proof fn law_created_server_keeps_request(req: CreateServerRequest, id: Seq<char>, now: Seq<char>)
    ensures
        created_server_keeps_request(server_from_request(req, id, now), req, id, now),
        insert_server_cells(server_from_request(req, id, now)) == seq![
            Cell::Text(id),
            Cell::Text(req.name@),
            opt_text_cell(req.description.deep_view()),
            Cell::Text(server_type_text(req.server_type)),
            opt_text_cell(req.command.deep_view()),
            opt_text_cell(req.args.deep_view()),
            opt_text_cell(req.env.deep_view()),
            opt_text_cell(req.remote_url.deep_view()),
            opt_text_cell(req.bearer_token.deep_view()),
            opt_text_cell(req.project_id.deep_view()),
            Cell::Int(if req.auto_start == Some(true) { 1 } else { 0 }),
            Cell::Text(now),
            Cell::Text(now),
        ],
{
}

/// The parameters of `INSERT_SERVER_SQL` for a server.
pub open spec fn insert_server_cells(s: McpServerView) -> Seq<Cell> {
    seq![
        Cell::Text(s.id),
        Cell::Text(s.name),
        opt_text_cell(s.description),
        Cell::Text(server_type_text(s.server_type)),
        opt_text_cell(s.command),
        opt_text_cell(s.args),
        opt_text_cell(s.env),
        opt_text_cell(s.remote_url),
        opt_text_cell(s.bearer_token),
        opt_text_cell(s.project_id),
        Cell::Int(flag_int(s.auto_start)),
        Cell::Text(s.created_at),
        Cell::Text(s.updated_at),
    ]
}

/// The row, in the column order of `FIND_SERVER_SQL`, that
/// `INSERT_SERVER_SQL` stores for its parameters `p`: the columns it does
/// not name take the schema's defaults (no tool permissions, not
/// disabled).
pub open spec fn stored_server_row(p: Seq<Cell>) -> Seq<Cell> {
    seq![p[0], p[1], p[2], p[3], p[4], p[5], p[6], p[7], p[8], p[9], Cell::Null, p[10], Cell::Int(0), p[11], p[12]]
}

/// A server just created, and the statement that stores it.
#[derive(Debug, PartialEq, Eq)]
pub struct ServerPlan {
    pub server: McpServer,
    pub statement: SqlStatement,
}

/// An optional text field of an update: the column and its new value, if
/// the request sets it.
pub open spec fn text_field(col: Seq<char>, v: Option<Seq<char>>) -> Seq<(Seq<char>, Cell)> {
    match v {
        Some(s) => seq![(col, Cell::Text(s))],
        None => seq![],
    }
}

/// An optional flag field of an update.
pub open spec fn flag_field(col: Seq<char>, v: Option<bool>) -> Seq<(Seq<char>, Cell)> {
    match v {
        Some(b) => seq![(col, Cell::Int(flag_int(b)))],
        None => seq![],
    }
}

/// The columns that an update sets, with their values, in order: the time
/// of the update first, then each field that the request sets.
pub open spec fn update_fields(req: UpdateServerRequest, now: Seq<char>) -> Seq<(Seq<char>, Cell)> {
    seq![("updated_at"@, Cell::Text(now))]
        + text_field("name"@, req.name.deep_view())
        + text_field("description"@, req.description.deep_view())
        + text_field("command"@, req.command.deep_view())
        + text_field("args"@, req.args.deep_view())
        + text_field("env"@, req.env.deep_view())
        + text_field("remote_url"@, req.remote_url.deep_view())
        + text_field("bearer_token"@, req.bearer_token.deep_view())
        + text_field("project_id"@, req.project_id.deep_view())
        + text_field("tool_permissions"@, req.tool_permissions.deep_view())
        + flag_field("auto_start"@, req.auto_start)
        + flag_field("disabled"@, req.disabled)
}

/// The columns of fields.
pub open spec fn field_columns(f: Seq<(Seq<char>, Cell)>) -> Seq<Seq<char>> {
    f.map_values(|x: (Seq<char>, Cell)| x.0)
}

/// The values of fields.
pub open spec fn field_values(f: Seq<(Seq<char>, Cell)>) -> Seq<Cell> {
    f.map_values(|x: (Seq<char>, Cell)| x.1)
}

/// The statement of an update at time `now`: each set column assigned its
/// placeholder in order, the server's id bound to the placeholder after
/// them.
pub open spec fn update_statement_for(req: UpdateServerRequest, now: Seq<char>) -> StatementView {
    let f = update_fields(req, now);
    StatementView {
        sql: "UPDATE servers SET "@ + seq_join(assignments(field_columns(f), 1), ", "@) + " WHERE id = "@
            + placeholder((f.len() + 1) as nat),
        params: field_values(f).push(Cell::Text(req.id@)),
    }
}

/// The message of a server that does not exist.
pub open spec fn server_not_found(id: Seq<char>) -> Seq<char> {
    "Server "@ + id + " not found"@
}

/// The invariant of building an update: the columns and values built so far
/// are those of `f`.
pub open spec fn built(cols: Seq<Seq<char>>, vals: Seq<SqlValue>, f: Seq<(Seq<char>, Cell)>) -> bool {
    cols == field_columns(f) && cells(vals) == field_values(f)
}

/// One more field added to an update under construction.
proof fn lemma_built_step(
    cols: Seq<Seq<char>>,
    vals: Seq<SqlValue>,
    f: Seq<(Seq<char>, Cell)>,
    col: Seq<char>,
    x: SqlValue,
)
    requires
        built(cols, vals, f),
    ensures
        built(cols.push(col), vals.push(x), f + seq![(col, x@)]),
{
    assert(cols.push(col) =~= field_columns(f + seq![(col, x@)]));
    assert(cells(vals.push(x)) =~= cells(vals).push(x@));
    assert(field_values(f + seq![(col, x@)]) =~= field_values(f).push(x@));
}

/// Adding no field keeps an update under construction as it is.
proof fn lemma_built_empty(cols: Seq<Seq<char>>, vals: Seq<SqlValue>, f: Seq<(Seq<char>, Cell)>)
    requires
        built(cols, vals, f),
    ensures
        built(cols, vals, f + Seq::<(Seq<char>, Cell)>::empty()),
{
    assert(f + Seq::<(Seq<char>, Cell)>::empty() =~= f);
}

/// An update sets at most twelve columns.
proof fn lemma_update_fields_len(req: UpdateServerRequest, now: Seq<char>)
    ensures
        update_fields(req, now).len() <= 12,
{
    assert forall|col: Seq<char>, v: Option<Seq<char>>| #[trigger] text_field(col, v).len() <= 1 by {}
    assert forall|col: Seq<char>, v: Option<bool>| #[trigger] flag_field(col, v).len() <= 1 by {}
}

/// The servers known to the router.
pub struct ServerService;

impl ServerService {
    /// The server that `req` creates, with id `id` at time `now`, and the
    /// statement that stores it.
    pub fn new_server(req: &CreateServerRequest, id: String, now: String) -> (p: ServerPlan)
        ensures
            p.server@ == server_from_request(*req, id@, now@),
            p.statement@ == (StatementView {
                sql: INSERT_SERVER_SQL@,
                params: insert_server_cells(server_from_request(*req, id@, now@)),
            }),
            created_server_keeps_request(p.server@, *req, id@, now@),
            p.statement@.params.len() == 13,
            p.statement@.params[7] == opt_text_cell(req.remote_url.deep_view()),
            p.statement@.params[8] == opt_text_cell(req.bearer_token.deep_view()),
    {
        let auto_start = match req.auto_start {
            Some(b) => b,
            None => false,
        };
        let mut params: Vec<SqlValue> = Vec::new();
        params.push(SqlValue::Text(id.clone()));
        params.push(SqlValue::Text(req.name.clone()));
        params.push(opt_text_value(&req.description));
        params.push(SqlValue::Text(req.server_type.to_string()));
        params.push(opt_text_value(&req.command));
        params.push(opt_text_value(&req.args));
        params.push(opt_text_value(&req.env));
        params.push(opt_text_value(&req.remote_url));
        params.push(opt_text_value(&req.bearer_token));
        params.push(opt_text_value(&req.project_id));
        params.push(SqlValue::Integer(if auto_start { 1 } else { 0 }));
        params.push(SqlValue::Text(now.clone()));
        params.push(SqlValue::Text(now.clone()));
        let stmt = statement(INSERT_SERVER_SQL, params);
        let server = McpServer {
            id,
            name: req.name.clone(),
            description: req.description.clone(),
            server_type: req.server_type,
            command: req.command.clone(),
            args: req.args.clone(),
            env: req.env.clone(),
            remote_url: req.remote_url.clone(),
            bearer_token: req.bearer_token.clone(),
            project_id: req.project_id.clone(),
            tool_permissions: None,
            auto_start,
            disabled: false,
            created_at: now.clone(),
            updated_at: now,
        };
        proof {
            assert(server@ == server_from_request(*req, server.id@, server.created_at@));
            assert(stmt@.params =~= insert_server_cells(server@));
        }
        ServerPlan { server, statement: stmt }
    }

    /// A new server from `req`, with a fresh random id, created now.
    pub fn create_server(req: &CreateServerRequest) -> (p: ServerPlan)
        ensures
            exists|id: Seq<char>, now: Seq<char>|
                #![trigger server_from_request(*req, id, now)]
                uuid_v4_text(id) && (exists|secs: int, nanos: int|
                    #![trigger rfc3339_text(secs, nanos)]
                    0 <= secs <= CHRONO_MAX_SECS && 0 <= nanos < 1_000_000_000
                        && rfc3339_text(secs, nanos) == Some(now))
                    && p.server@ == server_from_request(*req, id, now)
                    && p.statement@ == (StatementView {
                        sql: INSERT_SERVER_SQL@,
                        params: insert_server_cells(server_from_request(*req, id, now)),
                    }),
    {
        let id = new_uuid();
        let now = now_rfc3339();
        let ghost idv = id@;
        let ghost nowv = now@;
        let p = Self::new_server(req, id, now);
        assert(p.server@ == server_from_request(*req, idv, nowv));
        p
    }

    /// The statement that lists all servers, newest first.
    pub fn list_servers_statement() -> (s: SqlStatement)
        ensures
            s@.sql == LIST_SERVERS_SQL@,
            s@.params == Seq::<Cell>::empty(),
    {
        bare_statement(LIST_SERVERS_SQL)
    }

    /// The statement that looks up the server `server_id`.
    pub fn find_server_statement(server_id: &str) -> (s: SqlStatement)
        ensures
            s@.sql == FIND_SERVER_SQL@,
            s@.params == seq![Cell::Text(server_id@)],
    {
        text_statement(FIND_SERVER_SQL, server_id)
    }

    /// A flag column read as a 32-bit integer.
    fn column_flag(row: &Vec<SqlValue>, i: usize) -> (r: Option<bool>)
        ensures
            r == (if i < row@.len() { cell_flag(row@[i as int]@) } else { None }),
    {
        let v = column_int(row, i)?;
        if v < -2147483648 || v > 2147483647 {
            None
        } else {
            Some(v != 0)
        }
    }

    /// The server in a row of `LIST_SERVERS_SQL` or `FIND_SERVER_SQL`.
    pub fn server_from_row(row: &Vec<SqlValue>) -> (r: Option<McpServer>)
        ensures
            match r {
                Some(s) => decode_server(cells(row@)) == Some(s@),
                None => decode_server(cells(row@)) is None,
            },
    {
        proof {
            if row@.len() >= 15 {
                assert forall|i: int| 0 <= i < 15 implies cells(row@)[i] == row@[i]@ by {}
            }
        }
        let id = column_text(row, 0)?;
        let name = column_text(row, 1)?;
        let description = column_opt_text(row, 2)?;
        let type_text = column_text(row, 3)?;
        let command = column_opt_text(row, 4)?;
        let args = column_opt_text(row, 5)?;
        let env = column_opt_text(row, 6)?;
        let remote_url = column_opt_text(row, 7)?;
        let bearer_token = column_opt_text(row, 8)?;
        let project_id = column_opt_text(row, 9)?;
        let tool_permissions = column_opt_text(row, 10)?;
        let auto_start = Self::column_flag(row, 11)?;
        let disabled = Self::column_flag(row, 12)?;
        let created_at = column_text(row, 13)?;
        let updated_at = column_text(row, 14)?;
        let server_type = match ServerType::from_str(type_text.as_str()) {
            Ok(t) => t,
            Err(_) => ServerType::Local,
        };
        Some(McpServer {
            id,
            name,
            description,
            server_type,
            command,
            args,
            env,
            remote_url,
            bearer_token,
            project_id,
            tool_permissions,
            auto_start,
            disabled,
            created_at,
            updated_at,
        })
    }

    /// The servers in the rows of `LIST_SERVERS_SQL`, in order. The rows are
    /// read in order, each column in `server_order`; the first column that
    /// cannot be read fails the whole listing, and is returned.
    pub fn list_servers(rows: &Vec<Vec<SqlValue>>) -> (r: Result<Vec<McpServer>, ColumnError>)
        ensures
            r is Ok <==> forall|i: int|
                0 <= i < rows@.len() ==> (#[trigger] row_problem(cells(rows@[i]@), server_order())) is None,
            r matches Ok(v) ==> v@.len() == rows@.len() && forall|i: int| 0 <= i < v@.len()
                ==> decode_server(cells(rows@[i]@)) == Some(#[trigger] v@[i]@),
            r matches Err(e) ==> exists|k: int|
                0 <= k < rows@.len() && (forall|j: int| 0 <= j < k ==> (#[trigger] row_problem(cells(rows@[j]@), server_order())) is None)
                    && #[trigger] row_problem(cells(rows@[k]@), server_order()) == Some(error_view(e)),
    {
        let order = server_reading_order();
        let mut out: Vec<McpServer> = Vec::new();
        let n = rows.len();
        let mut i: usize = 0;
        while i < n
            invariant
                n == rows@.len(),
                order_view(order@) == server_order(),
                i <= n,
                out@.len() == i,
                forall|j: int| 0 <= j < i ==> (#[trigger] row_problem(cells(rows@[j]@), server_order())) is None,
                forall|j: int| 0 <= j < i ==> decode_server(cells(rows@[j]@)) == Some(#[trigger] out@[j]@),
            decreases n - i,
        {
            if let Some(e) = row_problem_of(&rows[i], &order) {
                assert(row_problem(cells(rows@[i as int]@), server_order()) == Some(error_view(e)));
                return Err(e);
            }
            proof {
                lemma_server_row_reads(cells(rows@[i as int]@));
            }
            match Self::server_from_row(&rows[i]) {
                Some(s) => out.push(s),
                None => {
                    proof {
                        assert(false);
                    }
                    return Err(ColumnError { index: 0, problem: ColumnProblem::Missing });
                },
            }
            i = i + 1;
        }
        Ok(out)
    }

    /// The server found under `server_id`, given the row found, if any; a
    /// missing or unreadable row is refused with `Server <id> not found`.
    pub fn get_server(server_id: &str, row: Option<Vec<SqlValue>>) -> (r: Result<McpServer, AppError>)
        ensures
            match row {
                Some(cols) if decode_server(cells(cols@)) is Some => r matches Ok(s)
                    && decode_server(cells(cols@)) == Some(s@),
                _ => r matches Err(AppError::NotFound(m)) && m@ == server_not_found(server_id@),
            },
    {
        let found = match &row {
            Some(cols) => Self::server_from_row(cols),
            None => None,
        };
        match found {
            Some(s) => Ok(s),
            None => {
                let mut m = text_of("Server ");
                m.append(server_id);
                m.append(" not found");
                Err(AppError::NotFound(m))
            },
        }
    }

    /// The statement that applies `req` at time `now`.
    pub fn update_statement(req: &UpdateServerRequest, now: String) -> (s: SqlStatement)
        ensures
            s@ == update_statement_for(*req, now@),
    {
        let mut cols: Vec<String> = Vec::new();
        let mut vals: Vec<SqlValue> = Vec::new();
        let ghost nowv = now@;
        cols.push(text_of("updated_at"));
        vals.push(SqlValue::Text(now));
        let ghost f: Seq<(Seq<char>, Cell)> = seq![("updated_at"@, Cell::Text(nowv))];
        proof {
            assert(cols.deep_view() =~= field_columns(f));
            assert(cells(vals@) =~= field_values(f));
        }
        add_text(&mut cols, &mut vals, "name", &req.name, Ghost(f));
        let ghost f = f + text_field("name"@, req.name.deep_view());
        add_text(&mut cols, &mut vals, "description", &req.description, Ghost(f));
        let ghost f = f + text_field("description"@, req.description.deep_view());
        add_text(&mut cols, &mut vals, "command", &req.command, Ghost(f));
        let ghost f = f + text_field("command"@, req.command.deep_view());
        add_text(&mut cols, &mut vals, "args", &req.args, Ghost(f));
        let ghost f = f + text_field("args"@, req.args.deep_view());
        add_text(&mut cols, &mut vals, "env", &req.env, Ghost(f));
        let ghost f = f + text_field("env"@, req.env.deep_view());
        add_text(&mut cols, &mut vals, "remote_url", &req.remote_url, Ghost(f));
        let ghost f = f + text_field("remote_url"@, req.remote_url.deep_view());
        add_text(&mut cols, &mut vals, "bearer_token", &req.bearer_token, Ghost(f));
        let ghost f = f + text_field("bearer_token"@, req.bearer_token.deep_view());
        add_text(&mut cols, &mut vals, "project_id", &req.project_id, Ghost(f));
        let ghost f = f + text_field("project_id"@, req.project_id.deep_view());
        add_text(&mut cols, &mut vals, "tool_permissions", &req.tool_permissions, Ghost(f));
        let ghost f = f + text_field("tool_permissions"@, req.tool_permissions.deep_view());
        add_flag(&mut cols, &mut vals, "auto_start", req.auto_start, Ghost(f));
        let ghost f = f + flag_field("auto_start"@, req.auto_start);
        add_flag(&mut cols, &mut vals, "disabled", req.disabled, Ghost(f));
        let ghost f = f + flag_field("disabled"@, req.disabled);
        assert(f == update_fields(*req, nowv));
        proof {
            lemma_update_fields_len(*req, nowv);
            assert(cols@.len() == cols.deep_view().len());
            assert(cells(vals@).len() == vals@.len());
        }
        let assigns = assignment_texts(&cols, 1);
        let mut sql = text_of("UPDATE servers SET ");
        let joined = join(&assigns, ", ");
        sql.append(joined.as_str());
        sql.append(" WHERE id = ");
        let ph = placeholder_text(vals.len() as u64 + 1);
        sql.append(ph.as_str());
        let ghost before = vals@;
        vals.push(SqlValue::Text(req.id.clone()));
        proof {
            assert(cells(vals@) =~= cells(before).push(Cell::Text(req.id@)));
            assert(field_values(f).len() == f.len());
        }
        SqlStatement { sql, params: vals }
    }

    /// The statement that applies `req` now; the server is then read back
    /// with `find_server_statement` and `get_server`.
    pub fn update_server(req: &UpdateServerRequest) -> (s: SqlStatement)
        ensures
            exists|now: Seq<char>|
                #![trigger update_statement_for(*req, now)]
                (exists|secs: int, nanos: int|
                    #![trigger rfc3339_text(secs, nanos)]
                    0 <= secs <= CHRONO_MAX_SECS && 0 <= nanos < 1_000_000_000
                        && rfc3339_text(secs, nanos) == Some(now))
                    && s@ == update_statement_for(*req, now),
    {
        let now = now_rfc3339();
        let ghost nowv = now@;
        let s = Self::update_statement(req, now);
        assert(s@ == update_statement_for(*req, nowv));
        s
    }

    /// The statement that deletes the server `server_id`.
    pub fn delete_server_statement(server_id: &str) -> (s: SqlStatement)
        ensures
            s@.sql == DELETE_SERVER_SQL@,
            s@.params == seq![Cell::Text(server_id@)],
    {
        text_statement(DELETE_SERVER_SQL, server_id)
    }

    /// The outcome of deleting `server_id`, given how many rows were
    /// removed: none means the server did not exist.
    pub fn delete_server(server_id: &str, affected: usize) -> (r: Result<(), AppError>)
        ensures
            affected == 0 ==> (r matches Err(AppError::NotFound(m)) && m@ == server_not_found(server_id@)),
            affected != 0 ==> r is Ok,
    {
        if affected == 0 {
            return Err(AppError::NotFound(not_found_message(server_id)));
        }
        Ok(())
    }

    /// The statement that disables or enables the server `server_id`; the
    /// server is then read back with `find_server_statement`.
    pub fn toggle_server(server_id: &str, disabled: bool) -> (s: SqlStatement)
        ensures
            s@.sql == TOGGLE_SERVER_SQL@,
            s@.params == seq![Cell::Int(flag_int(disabled)), Cell::Text(server_id@)],
    {
        let mut params: Vec<SqlValue> = Vec::new();
        params.push(SqlValue::Integer(if disabled { 1 } else { 0 }));
        params.push(text_value(server_id));
        proof {
            assert(cells(params@) =~= seq![Cell::Int(flag_int(disabled)), Cell::Text(server_id@)]);
        }
        statement(TOGGLE_SERVER_SQL, params)
    }

    /// The statement that sets the tool permissions of `server_id`.
    pub fn tool_permissions_statement(server_id: &str, permissions: &str) -> (s: SqlStatement)
        ensures
            s@.sql == SET_TOOL_PERMISSIONS_SQL@,
            s@.params == seq![Cell::Text(permissions@), Cell::Text(server_id@)],
    {
        let mut params: Vec<SqlValue> = Vec::new();
        params.push(text_value(permissions));
        params.push(text_value(server_id));
        proof {
            assert(cells(params@) =~= seq![Cell::Text(permissions@), Cell::Text(server_id@)]);
        }
        statement(SET_TOOL_PERMISSIONS_SQL, params)
    }

    /// The outcome of setting the tool permissions of `server_id`, given how
    /// many rows changed: none means the server did not exist.
    pub fn update_tool_permissions(server_id: &str, affected: usize) -> (r: Result<(), AppError>)
        ensures
            affected == 0 ==> (r matches Err(AppError::NotFound(m)) && m@ == server_not_found(server_id@)),
            affected != 0 ==> r is Ok,
    {
        if affected == 0 {
            return Err(AppError::NotFound(not_found_message(server_id)));
        }
        Ok(())
    }
}

/// A server just created is what reading it back gives: the row that its
/// insert statement stores decodes to the server itself.
pub proof fn law_created_server_reads_back(req: CreateServerRequest, id: Seq<char>, now: Seq<char>)
    ensures
        decode_server(stored_server_row(insert_server_cells(server_from_request(req, id, now))))
            == Some(server_from_request(req, id, now)),
{
    crate::models::lemma_server_type_round_trip(req.server_type);
}

/// An update binds each placeholder to its value: the `k`-th assignment is
/// `col = ?k` for the `k`-th set column and `?k` is bound to its value, the
/// time of the update comes first, and the server's id is bound to the
/// placeholder right after the assignments, the last one.
pub proof fn law_update_binds_placeholders(req: UpdateServerRequest, now: Seq<char>)
    ensures
        ({
            let f = update_fields(req, now);
            let st = update_statement_for(req, now);
            &&& st.params.len() == f.len() + 1
            &&& st.params.last() == Cell::Text(req.id@)
            &&& f[0] == ("updated_at"@, Cell::Text(now))
            &&& forall|k: int|
                0 <= k < f.len() ==> #[trigger] assignments(field_columns(f), 1)[k] == crate::sql::assignment(
                    f[k].0,
                    (k + 1) as nat,
                ) && st.params[k] == f[k].1
        }),
{
    let f = update_fields(req, now);
    assert(f[0] == ("updated_at"@, Cell::Text(now)));
}

/// Whether a project reference may be stored: none, or a project that
/// exists.
pub open spec fn project_ref_ok(c: Cell, projects: Set<Seq<char>>) -> bool {
    match c {
        Cell::Null => true,
        Cell::Text(p) => projects.contains(p),
        _ => false,
    }
}

/// What SQLite makes of the `servers` table `t` (rows keyed by id, in the
/// column order of `FIND_SERVER_SQL`) when it runs one of the router's
/// server statements, `db_now` being the text of `datetime('now')` and
/// `projects` the ids of the existing projects. An insert fails, changing
/// nothing, where the id is taken or the project does not exist; an update
/// of a missing id changes nothing; any other statement leaves the table
/// alone.
pub open spec fn run_server_statement(
    t: Map<Seq<char>, Seq<Cell>>,
    s: StatementView,
    db_now: Seq<char>,
    projects: Set<Seq<char>>,
) -> Map<Seq<char>, Seq<Cell>> {
    if s.sql == INSERT_SERVER_SQL@ && s.params.len() == 13 {
        match s.params[0] {
            Cell::Text(id) => if t.dom().contains(id) || !project_ref_ok(s.params[9], projects) {
                t
            } else {
                t.insert(id, stored_server_row(s.params))
            },
            _ => t,
        }
    } else if s.sql == DELETE_SERVER_SQL@ && s.params.len() == 1 {
        match s.params[0] {
            Cell::Text(id) => t.remove(id),
            _ => t,
        }
    } else if s.sql == TOGGLE_SERVER_SQL@ && s.params.len() == 2 {
        match s.params[1] {
            Cell::Text(id) => if t.dom().contains(id) {
                t.insert(id, t[id].update(12, s.params[0]).update(14, Cell::Text(db_now)))
            } else {
                t
            },
            _ => t,
        }
    } else if s.sql == SET_TOOL_PERMISSIONS_SQL@ && s.params.len() == 2 {
        match s.params[1] {
            Cell::Text(id) => if t.dom().contains(id) {
                t.insert(id, t[id].update(10, s.params[0]).update(14, Cell::Text(db_now)))
            } else {
                t
            },
            _ => t,
        }
    } else {
        t
    }
}

/// The texts of the server statements are pairwise distinct.
proof fn lemma_server_sql_distinct()
    ensures
        INSERT_SERVER_SQL@ != DELETE_SERVER_SQL@,
        INSERT_SERVER_SQL@ != TOGGLE_SERVER_SQL@,
        INSERT_SERVER_SQL@ != SET_TOOL_PERMISSIONS_SQL@,
        DELETE_SERVER_SQL@ != TOGGLE_SERVER_SQL@,
        DELETE_SERVER_SQL@ != SET_TOOL_PERMISSIONS_SQL@,
        TOGGLE_SERVER_SQL@ != SET_TOOL_PERMISSIONS_SQL@,
{
    reveal_strlit("DELETE FROM servers WHERE id = ?1");
    reveal_strlit("UPDATE servers SET disabled = ?1, updated_at = datetime('now') WHERE id = ?2");
    reveal_strlit("UPDATE servers SET tool_permissions = ?1, updated_at = datetime('now') WHERE id = ?2");
    assert(INSERT_SERVER_SQL@ == "INSERT INTO servers (id, name, description, server_type, command, args, env, remote_url, bearer_token, project_id, auto_start, created_at, updated_at)
             VALUES (?1, ?2, ?3, ?4, ?5, ?6, ?7, ?8, ?9, ?10, ?11, ?12, ?13)"@);
    reveal_strlit("INSERT INTO servers (id, name, description, server_type, command, args, env, remote_url, bearer_token, project_id, auto_start, created_at, updated_at)
             VALUES (?1, ?2, ?3, ?4, ?5, ?6, ?7, ?8, ?9, ?10, ?11, ?12, ?13)");
    assert(INSERT_SERVER_SQL@[0] == 'I');
    assert(DELETE_SERVER_SQL@[0] == 'D');
    assert(TOGGLE_SERVER_SQL@[0] == 'U');
    assert(TOGGLE_SERVER_SQL@[19] == 'd');
    assert(SET_TOOL_PERMISSIONS_SQL@[19] == 't');
}

/// A server just created is found under its id and reads back as itself,
/// when the id is new and its project, if any, exists.
pub proof fn law_created_server_is_found(
    req: CreateServerRequest,
    id: Seq<char>,
    now: Seq<char>,
    t: Map<Seq<char>, Seq<Cell>>,
    db_now: Seq<char>,
    projects: Set<Seq<char>>,
)
    requires
        !t.dom().contains(id),
        req.project_id.deep_view() matches Some(p) ==> projects.contains(p),
    ensures
        ({
            let server = server_from_request(req, id, now);
            let after = run_server_statement(
                t,
                StatementView { sql: INSERT_SERVER_SQL@, params: insert_server_cells(server) },
                db_now,
                projects,
            );
            &&& after.dom().contains(id)
            &&& decode_server(after[id]) == Some(server)
            &&& forall|k: Seq<char>| #![trigger t.dom().contains(k)] t.dom().contains(k) ==> after.dom().contains(k) && after[k] == t[k]
        }),
{
    law_created_server_reads_back(req, id, now);
}

/// Disabling or enabling a server is what reading it back gives: the
/// server reads back with the new flag and the database's time of the
/// change, everything else as it was.
pub proof fn law_toggled_server_reads_back(
    server_id: Seq<char>,
    disabled: bool,
    t: Map<Seq<char>, Seq<Cell>>,
    db_now: Seq<char>,
    projects: Set<Seq<char>>,
)
    requires
        t.dom().contains(server_id),
        decode_server(t[server_id]) is Some,
    ensures
        ({
            let before = decode_server(t[server_id])->0;
            let after = run_server_statement(
                t,
                StatementView {
                    sql: TOGGLE_SERVER_SQL@,
                    params: seq![Cell::Int(flag_int(disabled)), Cell::Text(server_id)],
                },
                db_now,
                projects,
            );
            &&& after.dom().contains(server_id)
            &&& decode_server(after[server_id]) == Some(McpServerView { disabled, updated_at: db_now, ..before })
        }),
{
    lemma_server_sql_distinct();
}

/// Setting a server's tool permissions is what reading it back gives.
pub proof fn law_tool_permissions_read_back(
    server_id: Seq<char>,
    permissions: Seq<char>,
    t: Map<Seq<char>, Seq<Cell>>,
    db_now: Seq<char>,
    projects: Set<Seq<char>>,
)
    requires
        t.dom().contains(server_id),
        decode_server(t[server_id]) is Some,
    ensures
        ({
            let before = decode_server(t[server_id])->0;
            let after = run_server_statement(
                t,
                StatementView {
                    sql: SET_TOOL_PERMISSIONS_SQL@,
                    params: seq![Cell::Text(permissions), Cell::Text(server_id)],
                },
                db_now,
                projects,
            );
            &&& after.dom().contains(server_id)
            &&& decode_server(after[server_id]) == Some(McpServerView {
                tool_permissions: Some(permissions),
                updated_at: db_now,
                ..before
            })
        }),
{
    lemma_server_sql_distinct();
}

/// The position of a column of the `servers` table in the column order of
/// `FIND_SERVER_SQL`, for the columns an update may set; -1 for any other
/// name.
pub open spec fn server_column(col: Seq<char>) -> int {
    if col == "name"@ {
        1
    } else if col == "description"@ {
        2
    } else if col == "command"@ {
        4
    } else if col == "args"@ {
        5
    } else if col == "env"@ {
        6
    } else if col == "remote_url"@ {
        7
    } else if col == "bearer_token"@ {
        8
    } else if col == "project_id"@ {
        9
    } else if col == "tool_permissions"@ {
        10
    } else if col == "auto_start"@ {
        11
    } else if col == "disabled"@ {
        12
    } else if col == "updated_at"@ {
        14
    } else {
        -1
    }
}

/// A row with each of the `(column, value)` pairs of `f` written into it,
/// in order.
pub open spec fn set_columns(row: Seq<Cell>, f: Seq<(Seq<char>, Cell)>) -> Seq<Cell>
    decreases f.len(),
{
    if f.len() == 0 {
        row
    } else {
        set_columns(row, f.drop_last()).update(server_column(f.last().0), f.last().1)
    }
}

/// The text of an update of the `servers` table that sets the columns
/// `cols`, in order, to the parameters `?1`, `?2`, ... and picks the server
/// by the parameter after them.
pub open spec fn server_update_text(cols: Seq<Seq<char>>) -> Seq<char> {
    "UPDATE servers SET "@ + seq_join(assignments(cols, 1), ", "@) + " WHERE id = "@ + placeholder(
        (cols.len() + 1) as nat,
    )
}

/// What SQLite makes of the `servers` table `t` when it runs
/// `server_update_text(cols)` with the parameters `params`: the server whose
/// id is the last parameter gets each column set to its parameter. It fails,
/// changing nothing, on a column the table lacks, and on a project that does
/// not exist; a missing id changes nothing.
pub open spec fn run_server_update(
    t: Map<Seq<char>, Seq<Cell>>,
    cols: Seq<Seq<char>>,
    params: Seq<Cell>,
    projects: Set<Seq<char>>,
) -> Map<Seq<char>, Seq<Cell>> {
    let n = cols.len();
    if params.len() == n + 1 && (forall|i: int| 0 <= i < n ==> #[trigger] server_column(cols[i]) >= 0)
        && (forall|i: int| 0 <= i < n && cols[i] == "project_id"@ ==> project_ref_ok(#[trigger] params[i], projects)) {
        match params[n as int] {
            Cell::Text(id) => if t.dom().contains(id) {
                t.insert(id, set_columns(t[id], Seq::new(n, |i: int| (cols[i], params[i]))))
            } else {
                t
            },
            _ => t,
        }
    } else {
        t
    }
}

/// The server as an update at time `now` leaves it: each field the request
/// sets takes its new value, the time of the update is `now`, and every
/// other field stays.
pub open spec fn updated_server(v: McpServerView, req: UpdateServerRequest, now: Seq<char>) -> McpServerView {
    McpServerView {
        name: match req.name.deep_view() {
            Some(n) => n,
            None => v.name,
        },
        description: match req.description.deep_view() {
            Some(d) => Some(d),
            None => v.description,
        },
        command: match req.command.deep_view() {
            Some(c) => Some(c),
            None => v.command,
        },
        args: match req.args.deep_view() {
            Some(a) => Some(a),
            None => v.args,
        },
        env: match req.env.deep_view() {
            Some(e) => Some(e),
            None => v.env,
        },
        remote_url: match req.remote_url.deep_view() {
            Some(u) => Some(u),
            None => v.remote_url,
        },
        bearer_token: match req.bearer_token.deep_view() {
            Some(b) => Some(b),
            None => v.bearer_token,
        },
        project_id: match req.project_id.deep_view() {
            Some(p) => Some(p),
            None => v.project_id,
        },
        tool_permissions: match req.tool_permissions.deep_view() {
            Some(p) => Some(p),
            None => v.tool_permissions,
        },
        auto_start: match req.auto_start {
            Some(b) => b,
            None => v.auto_start,
        },
        disabled: match req.disabled {
            Some(b) => b,
            None => v.disabled,
        },
        updated_at: now,
        ..v
    }
}

/// The positions of the columns that an update may set.
proof fn lemma_server_columns()
    ensures
        server_column("name"@) == 1,
        server_column("description"@) == 2,
        server_column("command"@) == 4,
        server_column("args"@) == 5,
        server_column("env"@) == 6,
        server_column("remote_url"@) == 7,
        server_column("bearer_token"@) == 8,
        server_column("project_id"@) == 9,
        server_column("tool_permissions"@) == 10,
        server_column("auto_start"@) == 11,
        server_column("disabled"@) == 12,
        server_column("updated_at"@) == 14,
{
    reveal_strlit("name");
    reveal_strlit("description");
    reveal_strlit("command");
    reveal_strlit("args");
    reveal_strlit("env");
    reveal_strlit("remote_url");
    reveal_strlit("bearer_token");
    reveal_strlit("project_id");
    reveal_strlit("tool_permissions");
    reveal_strlit("auto_start");
    reveal_strlit("disabled");
    reveal_strlit("updated_at");
    assert("name"@.len() == 4 && "name"@[0] == 'n');
    assert("description"@.len() == 11);
    assert("command"@.len() == 7);
    assert("args"@.len() == 4 && "args"@[0] == 'a');
    assert("env"@.len() == 3);
    assert("remote_url"@.len() == 10 && "remote_url"@[0] == 'r');
    assert("bearer_token"@.len() == 12);
    assert("project_id"@.len() == 10 && "project_id"@[0] == 'p');
    assert("tool_permissions"@.len() == 16);
    assert("auto_start"@.len() == 10 && "auto_start"@[0] == 'a');
    assert("disabled"@.len() == 8);
    assert("updated_at"@.len() == 10 && "updated_at"@[0] == 'u');
}

/// Writing a list of at most one more field is writing it after the others.
proof fn lemma_set_columns_append(row: Seq<Cell>, f: Seq<(Seq<char>, Cell)>, g: Seq<(Seq<char>, Cell)>)
    requires
        g.len() <= 1,
    ensures
        set_columns(row, f + g) == if g.len() == 0 {
            set_columns(row, f)
        } else {
            set_columns(row, f).update(server_column(g[0].0), g[0].1)
        },
{
    if g.len() == 0 {
        assert(f + g =~= f);
    } else {
        assert((f + g).drop_last() =~= f);
    }
}

/// The server `v` with the text `s` in the column at position `i` (a text
/// column that an update may set).
pub open spec fn with_text_column(v: McpServerView, i: int, s: Seq<char>) -> McpServerView {
    if i == 1 {
        McpServerView { name: s, ..v }
    } else if i == 2 {
        McpServerView { description: Some(s), ..v }
    } else if i == 4 {
        McpServerView { command: Some(s), ..v }
    } else if i == 5 {
        McpServerView { args: Some(s), ..v }
    } else if i == 6 {
        McpServerView { env: Some(s), ..v }
    } else if i == 7 {
        McpServerView { remote_url: Some(s), ..v }
    } else if i == 8 {
        McpServerView { bearer_token: Some(s), ..v }
    } else if i == 9 {
        McpServerView { project_id: Some(s), ..v }
    } else if i == 10 {
        McpServerView { tool_permissions: Some(s), ..v }
    } else if i == 14 {
        McpServerView { updated_at: s, ..v }
    } else {
        v
    }
}

/// The server `v` with the flag `b` in the column at position `i` (a flag
/// column that an update may set).
pub open spec fn with_flag_column(v: McpServerView, i: int, b: bool) -> McpServerView {
    if i == 11 {
        McpServerView { auto_start: b, ..v }
    } else if i == 12 {
        McpServerView { disabled: b, ..v }
    } else {
        v
    }
}

/// The server `v` with the column at position `i` set to the text, if any.
pub open spec fn with_opt_text(v: McpServerView, i: int, val: Option<Seq<char>>) -> McpServerView {
    match val {
        Some(s) => with_text_column(v, i, s),
        None => v,
    }
}

/// The server `v` with the column at position `i` set to the flag, if any.
pub open spec fn with_opt_flag(v: McpServerView, i: int, val: Option<bool>) -> McpServerView {
    match val {
        Some(b) => with_flag_column(v, i, b),
        None => v,
    }
}

/// Whether the row reads as the server `v`.
#[verifier::opaque]
pub open spec fn reads_as(row: Seq<Cell>, v: McpServerView) -> bool {
    decode_server(row) == Some(v)
}

/// Writing a text into a text column of a row that reads as a server.
proof fn lemma_text_step(
    row: Seq<Cell>,
    f: Seq<(Seq<char>, Cell)>,
    col: Seq<char>,
    val: Option<Seq<char>>,
    v: McpServerView,
)
    requires
        reads_as(set_columns(row, f), v),
        ({
            let i = server_column(col);
            i == 1 || i == 2 || (4 <= i <= 10)
        }),
    ensures
        reads_as(set_columns(row, f + text_field(col, val)), with_opt_text(v, server_column(col), val)),
{
    reveal(reads_as);
    lemma_set_columns_append(row, f, text_field(col, val));
}

/// Writing a flag into a flag column of a row that reads as a server.
proof fn lemma_flag_step(row: Seq<Cell>, f: Seq<(Seq<char>, Cell)>, col: Seq<char>, val: Option<bool>, v: McpServerView)
    requires
        reads_as(set_columns(row, f), v),
        server_column(col) == 11 || server_column(col) == 12,
    ensures
        reads_as(set_columns(row, f + flag_field(col, val)), with_opt_flag(v, server_column(col), val)),
{
    reveal(reads_as);
    lemma_set_columns_append(row, f, flag_field(col, val));
}

/// The server `v` with the time and then each field that an update sets
/// written into it, one after the other, in the order of `update_fields`.
pub open spec fn stepwise_update(v: McpServerView, req: UpdateServerRequest, now: Seq<char>) -> McpServerView {
    let v0 = McpServerView { updated_at: now, ..v };
    let v1 = with_opt_text(v0, 1, req.name.deep_view());
    let v2 = with_opt_text(v1, 2, req.description.deep_view());
    let v3 = with_opt_text(v2, 4, req.command.deep_view());
    let v4 = with_opt_text(v3, 5, req.args.deep_view());
    let v5 = with_opt_text(v4, 6, req.env.deep_view());
    let v6 = with_opt_text(v5, 7, req.remote_url.deep_view());
    let v7 = with_opt_text(v6, 8, req.bearer_token.deep_view());
    let v8 = with_opt_text(v7, 9, req.project_id.deep_view());
    let v9 = with_opt_text(v8, 10, req.tool_permissions.deep_view());
    let v10 = with_opt_flag(v9, 11, req.auto_start);
    with_opt_flag(v10, 12, req.disabled)
}

/// Writing the fields one after the other gives the server that the update
/// leaves.
proof fn lemma_update_view(v: McpServerView, req: UpdateServerRequest, now: Seq<char>)
    ensures
        stepwise_update(v, req, now) == updated_server(v, req, now),
{
    let v0 = McpServerView { updated_at: now, ..v };
    let v1 = with_opt_text(v0, 1, req.name.deep_view());
    let v2 = with_opt_text(v1, 2, req.description.deep_view());
    let v3 = with_opt_text(v2, 4, req.command.deep_view());
    let v4 = with_opt_text(v3, 5, req.args.deep_view());
    let v5 = with_opt_text(v4, 6, req.env.deep_view());
    let v6 = with_opt_text(v5, 7, req.remote_url.deep_view());
    let v7 = with_opt_text(v6, 8, req.bearer_token.deep_view());
    let v8 = with_opt_text(v7, 9, req.project_id.deep_view());
    let v9 = with_opt_text(v8, 10, req.tool_permissions.deep_view());
    let v10 = with_opt_flag(v9, 11, req.auto_start);
    let v11 = with_opt_flag(v10, 12, req.disabled);
    assert(v1 == McpServerView { name: updated_server(v, req, now).name, ..v0 });
    assert(v2 == McpServerView { description: updated_server(v, req, now).description, ..v1 });
    assert(v3 == McpServerView { command: updated_server(v, req, now).command, ..v2 });
    assert(v4 == McpServerView { args: updated_server(v, req, now).args, ..v3 });
    assert(v5 == McpServerView { env: updated_server(v, req, now).env, ..v4 });
    assert(v6 == McpServerView { remote_url: updated_server(v, req, now).remote_url, ..v5 });
    assert(v7 == McpServerView { bearer_token: updated_server(v, req, now).bearer_token, ..v6 });
    assert(v8 == McpServerView { project_id: updated_server(v, req, now).project_id, ..v7 });
    assert(v9 == McpServerView { tool_permissions: updated_server(v, req, now).tool_permissions, ..v8 });
    assert(v10 == McpServerView { auto_start: updated_server(v, req, now).auto_start, ..v9 });
    assert(v11 == McpServerView { disabled: updated_server(v, req, now).disabled, ..v10 });
}

/// A row that reads as a server, with an update's fields written into it,
/// reads as the server that the update leaves.
proof fn lemma_update_row(row: Seq<Cell>, req: UpdateServerRequest, now: Seq<char>)
    requires
        decode_server(row) is Some,
    ensures
        decode_server(set_columns(row, update_fields(req, now))) == Some(
            updated_server(decode_server(row)->0, req, now),
        ),
{
    lemma_server_columns();
    let v = decode_server(row)->0;
    let f0: Seq<(Seq<char>, Cell)> = seq![("updated_at"@, Cell::Text(now))];
    let v0 = McpServerView { updated_at: now, ..v };
    assert(reads_as(set_columns(row, f0), v0)) by {
        reveal(reads_as);
        assert(f0.drop_last() =~= Seq::<(Seq<char>, Cell)>::empty());
        reveal_with_fuel(set_columns, 2);
    }
    let f1 = f0 + text_field("name"@, req.name.deep_view());
    lemma_text_step(row, f0, "name"@, req.name.deep_view(), v0);
    let v1 = with_opt_text(v0, 1, req.name.deep_view());
    let f2 = f1 + text_field("description"@, req.description.deep_view());
    lemma_text_step(row, f1, "description"@, req.description.deep_view(), v1);
    let v2 = with_opt_text(v1, 2, req.description.deep_view());
    let f3 = f2 + text_field("command"@, req.command.deep_view());
    lemma_text_step(row, f2, "command"@, req.command.deep_view(), v2);
    let v3 = with_opt_text(v2, 4, req.command.deep_view());
    let f4 = f3 + text_field("args"@, req.args.deep_view());
    lemma_text_step(row, f3, "args"@, req.args.deep_view(), v3);
    let v4 = with_opt_text(v3, 5, req.args.deep_view());
    let f5 = f4 + text_field("env"@, req.env.deep_view());
    lemma_text_step(row, f4, "env"@, req.env.deep_view(), v4);
    let v5 = with_opt_text(v4, 6, req.env.deep_view());
    let f6 = f5 + text_field("remote_url"@, req.remote_url.deep_view());
    lemma_text_step(row, f5, "remote_url"@, req.remote_url.deep_view(), v5);
    let v6 = with_opt_text(v5, 7, req.remote_url.deep_view());
    let f7 = f6 + text_field("bearer_token"@, req.bearer_token.deep_view());
    lemma_text_step(row, f6, "bearer_token"@, req.bearer_token.deep_view(), v6);
    let v7 = with_opt_text(v6, 8, req.bearer_token.deep_view());
    let f8 = f7 + text_field("project_id"@, req.project_id.deep_view());
    lemma_text_step(row, f7, "project_id"@, req.project_id.deep_view(), v7);
    let v8 = with_opt_text(v7, 9, req.project_id.deep_view());
    let f9 = f8 + text_field("tool_permissions"@, req.tool_permissions.deep_view());
    lemma_text_step(row, f8, "tool_permissions"@, req.tool_permissions.deep_view(), v8);
    let v9 = with_opt_text(v8, 10, req.tool_permissions.deep_view());
    let f10 = f9 + flag_field("auto_start"@, req.auto_start);
    lemma_flag_step(row, f9, "auto_start"@, req.auto_start, v9);
    let v10 = with_opt_flag(v9, 11, req.auto_start);
    let f11 = f10 + flag_field("disabled"@, req.disabled);
    lemma_flag_step(row, f10, "disabled"@, req.disabled, v10);
    let v11 = with_opt_flag(v10, 12, req.disabled);
    assert(f11 == update_fields(req, now));
    lemma_update_view(v, req, now);
    reveal(reads_as);
}

/// An update is what reading the server back gives: the statement is the
/// update of exactly the columns the request sets (and the time), bound to
/// their values and to the server's id, and running it turns the server
/// into `updated_server`. (The server must exist and read as one, and a
/// project the request names must exist.)
#[verifier::rlimit(50)]
pub proof fn law_updated_server_reads_back(
    req: UpdateServerRequest,
    now: Seq<char>,
    t: Map<Seq<char>, Seq<Cell>>,
    projects: Set<Seq<char>>,
)
    requires
        t.dom().contains(req.id@),
        decode_server(t[req.id@]) is Some,
        req.project_id.deep_view() matches Some(p) ==> projects.contains(p),
    ensures
        ({
            let f = update_fields(req, now);
            let st = update_statement_for(req, now);
            let after = run_server_update(t, field_columns(f), st.params, projects);
            &&& st.sql == server_update_text(field_columns(f))
            &&& after.dom().contains(req.id@)
            &&& decode_server(after[req.id@]) == Some(updated_server(decode_server(t[req.id@])->0, req, now))
            &&& forall|k: Seq<char>|
                #![trigger t.dom().contains(k)]
                t.dom().contains(k) && k != req.id@ ==> after.dom().contains(k) && after[k] == t[k]
        }),
{
    lemma_server_columns();
    lemma_update_fields_len(req, now);
    let f = update_fields(req, now);
    let st = update_statement_for(req, now);
    let cols = field_columns(f);
    let n = cols.len();
    assert(n == f.len());
    assert(field_values(f).len() == f.len());
    assert(st.params.len() == n + 1);
    assert(st.params[n as int] == Cell::Text(req.id@));
    assert(Seq::new(n, |i: int| (cols[i], st.params[i])) =~= f);
    lemma_update_row(t[req.id@], req, now);
    assert forall|i: int| 0 <= i < n implies #[trigger] server_column(cols[i]) >= 0 by {
        assert(cols[i] == f[i].0);
    }
    assert forall|i: int| 0 <= i < n && cols[i] == "project_id"@ implies project_ref_ok(#[trigger] st.params[i], projects) by {
        assert(cols[i] == f[i].0);
        assert(st.params[i] == f[i].1);
    }
}

/// A deleted server is no longer found, and the other servers stay as they
/// were.
pub proof fn law_deleted_server_is_gone(
    server_id: Seq<char>,
    t: Map<Seq<char>, Seq<Cell>>,
    db_now: Seq<char>,
    projects: Set<Seq<char>>,
)
    ensures
        ({
            let after = run_server_statement(
                t,
                StatementView { sql: DELETE_SERVER_SQL@, params: seq![Cell::Text(server_id)] },
                db_now,
                projects,
            );
            &&& !after.dom().contains(server_id)
            &&& forall|k: Seq<char>|
                #![trigger t.dom().contains(k)]
                t.dom().contains(k) && k != server_id ==> after.dom().contains(k) && after[k] == t[k]
        }),
{
    lemma_server_sql_distinct();
}

/// `Server <id> not found`.
fn not_found_message(server_id: &str) -> (m: String)
    ensures
        m@ == server_not_found(server_id@),
{
    let mut m = text_of("Server ");
    m.append(server_id);
    m.append(" not found");
    m
}

/// Adds a text field to an update under construction, if the request sets
/// it.
fn add_text(
    cols: &mut Vec<String>,
    vals: &mut Vec<SqlValue>,
    col: &str,
    v: &Option<String>,
    Ghost(f): Ghost<Seq<(Seq<char>, Cell)>>,
)
    requires
        built(old(cols).deep_view(), old(vals)@, f),
    ensures
        built(final(cols).deep_view(), final(vals)@, f + text_field(col@, v.deep_view())),
{
    match v {
        Some(s) => {
            let ghost c0 = cols.deep_view();
            let ghost v0 = vals@;
            cols.push(text_of(col));
            vals.push(SqlValue::Text(s.clone()));
            proof {
                assert(cols.deep_view() =~= c0.push(col@));
                lemma_built_step(c0, v0, f, col@, vals@[v0.len() as int]);
                assert(vals@ == v0.push(vals@[v0.len() as int]));
            }
        },
        None => {
            proof {
                lemma_built_empty(cols.deep_view(), vals@, f);
            }
        },
    }
}

/// Adds a flag field to an update under construction, if the request sets
/// it.
fn add_flag(
    cols: &mut Vec<String>,
    vals: &mut Vec<SqlValue>,
    col: &str,
    v: Option<bool>,
    Ghost(f): Ghost<Seq<(Seq<char>, Cell)>>,
)
    requires
        built(old(cols).deep_view(), old(vals)@, f),
    ensures
        built(final(cols).deep_view(), final(vals)@, f + flag_field(col@, v)),
{
    match v {
        Some(b) => {
            let ghost c0 = cols.deep_view();
            let ghost v0 = vals@;
            cols.push(text_of(col));
            vals.push(SqlValue::Integer(if b { 1 } else { 0 }));
            proof {
                assert(cols.deep_view() =~= c0.push(col@));
                lemma_built_step(c0, v0, f, col@, vals@[v0.len() as int]);
                assert(vals@ == v0.push(vals@[v0.len() as int]));
            }
        },
        None => {
            proof {
                lemma_built_empty(cols.deep_view(), vals@, f);
            }
        },
    }
}

} // verus!
