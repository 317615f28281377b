//! Projects: named groups of servers.

use vstd::prelude::*;
use crate::crypto::uuid_v4_text;
use crate::clock::{now_rfc3339, rfc3339_text, CHRONO_MAX_SECS};
use crate::crypto::new_uuid;
use crate::error::AppError;
use crate::models::{CreateProjectRequest, Project, ProjectView};
use crate::server::{cell_opt_text, cell_text};
use crate::sql::{
    order_view, row_problem, row_problem_of, error_view, ColumnError, ColumnKind, ColumnProblem,
    bare_statement, cells, column_opt_text, column_text, opt_text_cell, opt_text_value, statement,
    text_statement, text_value, Cell, SqlStatement, SqlValue, StatementView,
};
use crate::text::text_of;

verus! {

pub const INSERT_PROJECT_SQL: &'static str =
    "INSERT INTO projects (id, name, optimization, created_at, updated_at) VALUES (?1, ?2, ?3, ?4, ?5)";

pub const LIST_PROJECTS_SQL: &'static str =
    "SELECT id, name, optimization, created_at, updated_at FROM projects ORDER BY created_at DESC";

pub const FIND_PROJECT_SQL: &'static str =
    "SELECT id, name, optimization, created_at, updated_at FROM projects WHERE id = ?1";

pub const UNASSIGN_PROJECT_SQL: &'static str = "UPDATE servers SET project_id = NULL WHERE project_id = ?1";

pub const DELETE_PROJECT_SQL: &'static str = "DELETE FROM projects WHERE id = ?1";

pub const RENAME_PROJECT_SQL: &'static str =
    "UPDATE projects SET name = ?1, updated_at = datetime('now') WHERE id = ?2";

pub const SET_OPTIMIZATION_SQL: &'static str =
    "UPDATE projects SET optimization = ?1, updated_at = datetime('now') WHERE id = ?2";

/// The project in a row of `LIST_PROJECTS_SQL` or `FIND_PROJECT_SQL`, if the
/// row has a project's columns.
pub open spec fn decode_project(row: Seq<Cell>) -> Option<ProjectView> {
    if row.len() >= 5 && cell_text(row[0]) is Some && cell_text(row[1]) is Some
        && cell_opt_text(row[2]) is Some && cell_text(row[3]) is Some && cell_text(row[4]) is Some {
        Some(ProjectView {
            id: cell_text(row[0])->0,
            name: cell_text(row[1])->0,
            optimization: cell_opt_text(row[2])->0,
            created_at: cell_text(row[3])->0,
            updated_at: cell_text(row[4])->0,
        })
    } else {
        None
    }
}

/// The order in which the columns of a project row are read, and how: from
/// left to right.
pub open spec fn project_order() -> Seq<(int, ColumnKind)> {
    seq![
        (0, ColumnKind::Text),
        (1, ColumnKind::Text),
        (2, ColumnKind::OptText),
        (3, ColumnKind::Text),
        (4, ColumnKind::Text),
    ]
}

/// The order in which the columns of a project row are read (`project_order`).
pub fn project_reading_order() -> (r: Vec<(usize, ColumnKind)>)
    ensures
        order_view(r@) == project_order(),
{
    let r: Vec<(usize, ColumnKind)> = vec![
        (0, ColumnKind::Text),
        (1, ColumnKind::Text),
        (2, ColumnKind::OptText),
        (3, ColumnKind::Text),
        (4, ColumnKind::Text),
    ];
    assert(order_view(r@) =~= project_order());
    r
}

/// A row whose columns all read is a project.
proof fn lemma_project_row_reads(row: Seq<Cell>)
    requires
        row_problem(row, project_order()) is None,
    ensures
        decode_project(row) is Some,
{
    reveal_with_fuel(row_problem, 6);
}

/// The project that a creation request makes, with id `id` at time `now`.
pub open spec fn project_from_request(req: CreateProjectRequest, id: Seq<char>, now: Seq<char>) -> ProjectView {
    ProjectView {
        id,
        name: req.name@,
        optimization: req.optimization.deep_view(),
        created_at: now,
        updated_at: now,
    }
}

/// The parameters of `INSERT_PROJECT_SQL` for a project; they are also the
/// row that it stores, in the column order of `FIND_PROJECT_SQL`.
pub open spec fn insert_project_cells(p: ProjectView) -> Seq<Cell> {
    seq![
        Cell::Text(p.id),
        Cell::Text(p.name),
        opt_text_cell(p.optimization),
        Cell::Text(p.created_at),
        Cell::Text(p.updated_at),
    ]
}

/// The message of a project that does not exist.
pub open spec fn project_not_found(id: Seq<char>) -> Seq<char> {
    "Project "@ + id + " not found"@
}

/// The statements of an edit of a project: a rename if a name is given,
/// then a new optimization if one is given.
pub open spec fn edit_statements(
    project_id: Seq<char>,
    name: Option<Seq<char>>,
    optimization: Option<Seq<char>>,
) -> Seq<StatementView> {
    (match name {
        Some(n) => seq![StatementView {
            sql: RENAME_PROJECT_SQL@,
            params: seq![Cell::Text(n), Cell::Text(project_id)],
        }],
        None => seq![],
    }) + (match optimization {
        Some(o) => seq![StatementView {
            sql: SET_OPTIMIZATION_SQL@,
            params: seq![Cell::Text(o), Cell::Text(project_id)],
        }],
        None => seq![],
    })
}

/// A project just created, and the statement that stores it.
#[derive(Debug, PartialEq, Eq)]
pub struct ProjectPlan {
    pub project: Project,
    pub statement: SqlStatement,
}

/// The projects of the router.
pub struct ProjectService;

impl ProjectService {
    /// The project that `req` creates, with id `id` at time `now`, and the
    /// statement that stores it.
    pub fn new_project(req: &CreateProjectRequest, id: String, now: String) -> (p: ProjectPlan)
        ensures
            p.project@ == project_from_request(*req, id@, now@),
            p.statement@ == (StatementView {
                sql: INSERT_PROJECT_SQL@,
                params: insert_project_cells(project_from_request(*req, id@, now@)),
            }),
    {
        let mut params: Vec<SqlValue> = Vec::new();
        params.push(SqlValue::Text(id.clone()));
        params.push(SqlValue::Text(req.name.clone()));
        params.push(opt_text_value(&req.optimization));
        params.push(SqlValue::Text(now.clone()));
        params.push(SqlValue::Text(now.clone()));
        let stmt = statement(INSERT_PROJECT_SQL, params);
        let project = Project {
            id,
            name: req.name.clone(),
            optimization: req.optimization.clone(),
            created_at: now.clone(),
            updated_at: now,
        };
        proof {
            assert(stmt@.params =~= insert_project_cells(project@));
        }
        ProjectPlan { project, statement: stmt }
    }

    /// A new project from `req`, with a fresh random id, created now.
    pub fn create_project(req: &CreateProjectRequest) -> (p: ProjectPlan)
        ensures
            exists|id: Seq<char>, now: Seq<char>|
                #![trigger project_from_request(*req, id, now)]
                uuid_v4_text(id) && (exists|secs: int, nanos: int|
                    #![trigger rfc3339_text(secs, nanos)]
                    0 <= secs <= CHRONO_MAX_SECS && 0 <= nanos < 1_000_000_000
                        && rfc3339_text(secs, nanos) == Some(now))
                    && p.project@ == project_from_request(*req, id, now)
                    && p.statement@ == (StatementView {
                        sql: INSERT_PROJECT_SQL@,
                        params: insert_project_cells(project_from_request(*req, id, now)),
                    }),
    {
        let id = new_uuid();
        let now = now_rfc3339();
        let ghost idv = id@;
        let ghost nowv = now@;
        let p = Self::new_project(req, id, now);
        assert(p.project@ == project_from_request(*req, idv, nowv));
        p
    }

    /// The statement that lists all projects, newest first.
    pub fn list_projects_statement() -> (s: SqlStatement)
        ensures
            s@.sql == LIST_PROJECTS_SQL@,
            s@.params == Seq::<Cell>::empty(),
    {
        bare_statement(LIST_PROJECTS_SQL)
    }

    /// The statement that looks up the project `project_id`.
    pub fn find_project_statement(project_id: &str) -> (s: SqlStatement)
        ensures
            s@.sql == FIND_PROJECT_SQL@,
            s@.params == seq![Cell::Text(project_id@)],
    {
        text_statement(FIND_PROJECT_SQL, project_id)
    }

    /// The project in a row of `LIST_PROJECTS_SQL` or `FIND_PROJECT_SQL`.
    pub fn project_from_row(row: &Vec<SqlValue>) -> (r: Option<Project>)
        ensures
            match r {
                Some(p) => decode_project(cells(row@)) == Some(p@),
                None => decode_project(cells(row@)) is None,
            },
    {
        proof {
            if row@.len() >= 5 {
                assert forall|i: int| 0 <= i < 5 implies cells(row@)[i] == row@[i]@ by {}
            }
        }
        let id = column_text(row, 0)?;
        let name = column_text(row, 1)?;
        let optimization = column_opt_text(row, 2)?;
        let created_at = column_text(row, 3)?;
        let updated_at = column_text(row, 4)?;
        Some(Project { id, name, optimization, created_at, updated_at })
    }

    /// The projects in the rows of `LIST_PROJECTS_SQL`, in order. The rows
    /// are read in order, each column in `project_order`; the first column
    /// that cannot be read fails the whole listing, and is returned.
    pub fn list_projects(rows: &Vec<Vec<SqlValue>>) -> (r: Result<Vec<Project>, ColumnError>)
        ensures
            r is Ok <==> forall|i: int|
                0 <= i < rows@.len() ==> (#[trigger] row_problem(cells(rows@[i]@), project_order())) is None,
            r matches Ok(v) ==> v@.len() == rows@.len() && forall|i: int| 0 <= i < v@.len()
                ==> decode_project(cells(rows@[i]@)) == Some(#[trigger] v@[i]@),
            r matches Err(e) ==> exists|k: int|
                0 <= k < rows@.len() && (forall|j: int| 0 <= j < k ==> (#[trigger] row_problem(cells(rows@[j]@), project_order())) is None)
                    && #[trigger] row_problem(cells(rows@[k]@), project_order()) == Some(error_view(e)),
    {
        let order = project_reading_order();
        let mut out: Vec<Project> = Vec::new();
        let n = rows.len();
        let mut i: usize = 0;
        while i < n
            invariant
                n == rows@.len(),
                order_view(order@) == project_order(),
                i <= n,
                out@.len() == i,
                forall|j: int| 0 <= j < i ==> (#[trigger] row_problem(cells(rows@[j]@), project_order())) is None,
                forall|j: int| 0 <= j < i ==> decode_project(cells(rows@[j]@)) == Some(#[trigger] out@[j]@),
            decreases n - i,
        {
            if let Some(e) = row_problem_of(&rows[i], &order) {
                assert(row_problem(cells(rows@[i as int]@), project_order()) == Some(error_view(e)));
                return Err(e);
            }
            proof {
                lemma_project_row_reads(cells(rows@[i as int]@));
            }
            match Self::project_from_row(&rows[i]) {
                Some(p) => out.push(p),
                None => {
                    proof {
                        assert(false);
                    }
                    return Err(ColumnError { index: 0, problem: ColumnProblem::Missing });
                },
            }
            i = i + 1;
        }
        Ok(out)
    }

    /// The project found under `project_id`, given the row found, if any; a
    /// missing or unreadable row is refused with `Project <id> not found`.
    pub fn get_project(project_id: &str, row: Option<Vec<SqlValue>>) -> (r: Result<Project, AppError>)
        ensures
            match row {
                Some(cols) if decode_project(cells(cols@)) is Some => r matches Ok(p)
                    && decode_project(cells(cols@)) == Some(p@),
                _ => r matches Err(AppError::NotFound(m)) && m@ == project_not_found(project_id@),
            },
    {
        let found = match &row {
            Some(cols) => Self::project_from_row(cols),
            None => None,
        };
        match found {
            Some(p) => Ok(p),
            None => Err(AppError::NotFound(not_found_message(project_id))),
        }
    }

    /// The statements that delete a project, run in one transaction: its
    /// servers are unassigned from it, then it is removed.
    pub fn delete_project_statements(project_id: &str) -> (r: Vec<SqlStatement>)
        ensures
            r@.len() == 2,
            r@[0]@ == (StatementView { sql: UNASSIGN_PROJECT_SQL@, params: seq![Cell::Text(project_id@)] }),
            r@[1]@ == (StatementView { sql: DELETE_PROJECT_SQL@, params: seq![Cell::Text(project_id@)] }),
    {
        let mut r: Vec<SqlStatement> = Vec::new();
        r.push(text_statement(UNASSIGN_PROJECT_SQL, project_id));
        r.push(text_statement(DELETE_PROJECT_SQL, project_id));
        r
    }

    /// The outcome of deleting `project_id`, given how many projects the
    /// delete removed: none means the project did not exist, and the
    /// transaction is rolled back.
    pub fn delete_project(project_id: &str, affected: usize) -> (r: Result<(), AppError>)
        ensures
            affected == 0 ==> (r matches Err(AppError::NotFound(m)) && m@ == project_not_found(project_id@)),
            affected != 0 ==> r is Ok,
    {
        if affected == 0 {
            return Err(AppError::NotFound(not_found_message(project_id)));
        }
        Ok(())
    }

    /// The statements that rename a project and set its optimization, each
    /// only when given; the project is then read back with
    /// `find_project_statement`.
    pub fn update_project(project_id: &str, name: &Option<String>, optimization: &Option<String>) -> (r: Vec<SqlStatement>)
        ensures
            r@.map_values(|s: SqlStatement| s@) == edit_statements(
                project_id@,
                name.deep_view(),
                optimization.deep_view(),
            ),
    {
        let mut r: Vec<SqlStatement> = Vec::new();
        if let Some(n) = name {
            let mut params: Vec<SqlValue> = Vec::new();
            params.push(SqlValue::Text(n.clone()));
            params.push(text_value(project_id));
            proof {
                assert(cells(params@) =~= seq![Cell::Text(n@), Cell::Text(project_id@)]);
            }
            r.push(statement(RENAME_PROJECT_SQL, params));
        }
        if let Some(o) = optimization {
            let mut params: Vec<SqlValue> = Vec::new();
            params.push(SqlValue::Text(o.clone()));
            params.push(text_value(project_id));
            proof {
                assert(cells(params@) =~= seq![Cell::Text(o@), Cell::Text(project_id@)]);
            }
            r.push(statement(SET_OPTIMIZATION_SQL, params));
        }
        proof {
            assert(r@.map_values(|s: SqlStatement| s@) =~~= edit_statements(
                project_id@,
                name.deep_view(),
                optimization.deep_view(),
            ));
        }
        r
    }
}

/// The two tables that the project statements touch, each keyed by id with
/// its rows in the column order of its `FIND_` statement.
pub struct ProjectStore {
    pub projects: Map<Seq<char>, Seq<Cell>>,
    pub servers: Map<Seq<char>, Seq<Cell>>,
}

/// Whether a server row is assigned to the project `project_id`.
pub open spec fn assigned_to(row: Seq<Cell>, project_id: Seq<char>) -> bool {
    row.len() > 9 && row[9] == Cell::Text(project_id)
}

/// What SQLite makes of the store when it runs one of the router's project
/// statements, `db_now` being the text of `datetime('now')`. An insert of a
/// taken id fails, a project that a server is still assigned to cannot be
/// deleted (the servers' foreign key), an update of a missing id changes
/// nothing, and any other statement leaves the store alone.
pub open spec fn run_project_statement(st: ProjectStore, s: StatementView, db_now: Seq<char>) -> ProjectStore {
    if s.sql == INSERT_PROJECT_SQL@ && s.params.len() == 5 {
        match s.params[0] {
            Cell::Text(id) => if st.projects.dom().contains(id) {
                st
            } else {
                ProjectStore { projects: st.projects.insert(id, s.params), servers: st.servers }
            },
            _ => st,
        }
    } else if s.sql == UNASSIGN_PROJECT_SQL@ && s.params.len() == 1 {
        match s.params[0] {
            Cell::Text(pid) => ProjectStore {
                projects: st.projects,
                servers: Map::new(
                    |k: Seq<char>| st.servers.dom().contains(k),
                    |k: Seq<char>| if assigned_to(st.servers[k], pid) {
                        st.servers[k].update(9, Cell::Null)
                    } else {
                        st.servers[k]
                    },
                ),
            },
            _ => st,
        }
    } else if s.sql == DELETE_PROJECT_SQL@ && s.params.len() == 1 {
        match s.params[0] {
            Cell::Text(pid) => if exists|k: Seq<char>| #[trigger] st.servers.dom().contains(k) && assigned_to(st.servers[k], pid) {
                st
            } else {
                ProjectStore { projects: st.projects.remove(pid), servers: st.servers }
            },
            _ => st,
        }
    } else if s.sql == RENAME_PROJECT_SQL@ && s.params.len() == 2 {
        match s.params[1] {
            Cell::Text(id) => if st.projects.dom().contains(id) {
                ProjectStore {
                    projects: st.projects.insert(id, st.projects[id].update(1, s.params[0]).update(4, Cell::Text(db_now))),
                    servers: st.servers,
                }
            } else {
                st
            },
            _ => st,
        }
    } else if s.sql == SET_OPTIMIZATION_SQL@ && s.params.len() == 2 {
        match s.params[1] {
            Cell::Text(id) => if st.projects.dom().contains(id) {
                ProjectStore {
                    projects: st.projects.insert(id, st.projects[id].update(2, s.params[0]).update(4, Cell::Text(db_now))),
                    servers: st.servers,
                }
            } else {
                st
            },
            _ => st,
        }
    } else {
        st
    }
}

/// The store after running statements in order.
pub open spec fn run_project_statements(st: ProjectStore, stmts: Seq<StatementView>, db_now: Seq<char>) -> ProjectStore
    decreases stmts.len(),
{
    if stmts.len() == 0 {
        st
    } else {
        run_project_statements(run_project_statement(st, stmts[0], db_now), stmts.drop_first(), db_now)
    }
}

/// The texts of the project statements are pairwise distinct.
proof fn lemma_project_sql_distinct()
    ensures
        INSERT_PROJECT_SQL@ != UNASSIGN_PROJECT_SQL@,
        INSERT_PROJECT_SQL@ != DELETE_PROJECT_SQL@,
        INSERT_PROJECT_SQL@ != RENAME_PROJECT_SQL@,
        INSERT_PROJECT_SQL@ != SET_OPTIMIZATION_SQL@,
        UNASSIGN_PROJECT_SQL@ != DELETE_PROJECT_SQL@,
        UNASSIGN_PROJECT_SQL@ != RENAME_PROJECT_SQL@,
        UNASSIGN_PROJECT_SQL@ != SET_OPTIMIZATION_SQL@,
        DELETE_PROJECT_SQL@ != RENAME_PROJECT_SQL@,
        DELETE_PROJECT_SQL@ != SET_OPTIMIZATION_SQL@,
        RENAME_PROJECT_SQL@ != SET_OPTIMIZATION_SQL@,
{
    reveal_strlit("INSERT INTO projects (id, name, optimization, created_at, updated_at) VALUES (?1, ?2, ?3, ?4, ?5)");
    reveal_strlit("UPDATE servers SET project_id = NULL WHERE project_id = ?1");
    reveal_strlit("DELETE FROM projects WHERE id = ?1");
    reveal_strlit("UPDATE projects SET name = ?1, updated_at = datetime('now') WHERE id = ?2");
    reveal_strlit("UPDATE projects SET optimization = ?1, updated_at = datetime('now') WHERE id = ?2");
    assert(INSERT_PROJECT_SQL@[0] == 'I');
    assert(DELETE_PROJECT_SQL@[0] == 'D');
    assert(UNASSIGN_PROJECT_SQL@[7] == 's');
    assert(RENAME_PROJECT_SQL@[7] == 'p');
    assert(SET_OPTIMIZATION_SQL@[7] == 'p');
    assert(RENAME_PROJECT_SQL@[20] == 'n');
    assert(SET_OPTIMIZATION_SQL@[20] == 'o');
}

/// A project just created is found under its id and reads back as itself,
/// when the id is new; the servers are untouched.
pub proof fn law_created_project_is_found(
    req: CreateProjectRequest,
    id: Seq<char>,
    now: Seq<char>,
    st: ProjectStore,
    db_now: Seq<char>,
)
    requires
        !st.projects.dom().contains(id),
    ensures
        ({
            let project = project_from_request(req, id, now);
            let after = run_project_statement(
                st,
                StatementView { sql: INSERT_PROJECT_SQL@, params: insert_project_cells(project) },
                db_now,
            );
            &&& after.projects.dom().contains(id)
            &&& decode_project(after.projects[id]) == Some(project)
            &&& after.servers == st.servers
        }),
{
}

/// Deleting a project removes it and leaves no server assigned to it: the
/// servers that were are kept, with no project, and every other row stays
/// as it was.
pub proof fn law_deleted_project_leaves_no_server_assigned(project_id: Seq<char>, st: ProjectStore, db_now: Seq<char>)
    ensures
        ({
            let stmts = seq![
                StatementView { sql: UNASSIGN_PROJECT_SQL@, params: seq![Cell::Text(project_id)] },
                StatementView { sql: DELETE_PROJECT_SQL@, params: seq![Cell::Text(project_id)] },
            ];
            let after = run_project_statements(st, stmts, db_now);
            &&& !after.projects.dom().contains(project_id)
            &&& after.servers.dom() == st.servers.dom()
            &&& forall|k: Seq<char>|
                #![trigger after.servers.dom().contains(k)]
                after.servers.dom().contains(k) ==> !assigned_to(after.servers[k], project_id)
            &&& forall|k: Seq<char>|
                #![trigger st.servers.dom().contains(k)]
                st.servers.dom().contains(k) && !assigned_to(st.servers[k], project_id) ==> after.servers[k]
                    == st.servers[k]
            &&& forall|k: Seq<char>|
                #![trigger st.projects.dom().contains(k)]
                st.projects.dom().contains(k) && k != project_id ==> after.projects.dom().contains(k)
                    && after.projects[k] == st.projects[k]
        }),
{
    lemma_project_sql_distinct();
    let unassign = StatementView { sql: UNASSIGN_PROJECT_SQL@, params: seq![Cell::Text(project_id)] };
    let delete = StatementView { sql: DELETE_PROJECT_SQL@, params: seq![Cell::Text(project_id)] };
    let stmts = seq![unassign, delete];
    let st1 = run_project_statement(st, unassign, db_now);
    assert forall|k: Seq<char>| st1.servers.dom().contains(k) implies !assigned_to(st1.servers[k], project_id) by {
        if assigned_to(st.servers[k], project_id) {
            assert(st1.servers[k] == st.servers[k].update(9, Cell::Null));
        }
    }
    assert(!(exists|k: Seq<char>| #[trigger] st1.servers.dom().contains(k) && assigned_to(st1.servers[k], project_id)));
    let st2 = run_project_statement(st1, delete, db_now);
    assert(st2.projects == st1.projects.remove(project_id));
    assert(st1.servers.dom() =~= st.servers.dom());
    assert(stmts.drop_first()[0] == delete);
    assert(stmts.drop_first().drop_first().len() == 0);
    assert(run_project_statements(st, stmts, db_now) == st2) by {
        reveal_with_fuel(run_project_statements, 3);
    }
}

/// Editing a project is what reading it back gives: the name and the
/// optimization given replace the old ones, the others stay, and the time
/// of the change is the database's when anything was given.
pub proof fn law_edited_project_reads_back(
    project_id: Seq<char>,
    name: Option<Seq<char>>,
    optimization: Option<Seq<char>>,
    st: ProjectStore,
    db_now: Seq<char>,
)
    requires
        st.projects.dom().contains(project_id),
        decode_project(st.projects[project_id]) is Some,
    ensures
        ({
            let before = decode_project(st.projects[project_id])->0;
            let after = run_project_statements(st, edit_statements(project_id, name, optimization), db_now);
            &&& after.projects.dom().contains(project_id)
            &&& decode_project(after.projects[project_id]) == Some(ProjectView {
                name: match name {
                    Some(n) => n,
                    None => before.name,
                },
                optimization: match optimization {
                    Some(o) => Some(o),
                    None => before.optimization,
                },
                updated_at: if name is Some || optimization is Some {
                    db_now
                } else {
                    before.updated_at
                },
                ..before
            })
            &&& after.servers == st.servers
        }),
{
    lemma_project_sql_distinct();
    let stmts = edit_statements(project_id, name, optimization);
    let rename = |n: Seq<char>| StatementView { sql: RENAME_PROJECT_SQL@, params: seq![Cell::Text(n), Cell::Text(project_id)] };
    let set_opt = |o: Seq<char>| StatementView { sql: SET_OPTIMIZATION_SQL@, params: seq![Cell::Text(o), Cell::Text(project_id)] };
    match (name, optimization) {
        (Some(n), Some(o)) => {
            assert(stmts =~= seq![rename(n), set_opt(o)]);
            assert(stmts.drop_first()[0] == set_opt(o));
            assert(stmts.drop_first().drop_first().len() == 0);
            reveal_with_fuel(run_project_statements, 3);
        },
        (Some(n), None) => {
            assert(stmts =~= seq![rename(n)]);
            assert(stmts.drop_first().len() == 0);
            reveal_with_fuel(run_project_statements, 2);
        },
        (None, Some(o)) => {
            assert(stmts =~= seq![set_opt(o)]);
            assert(stmts.drop_first().len() == 0);
            reveal_with_fuel(run_project_statements, 2);
        },
        (None, None) => {
            assert(stmts =~= Seq::<StatementView>::empty());
        },
    }
}

/// `Project <id> not found`.
fn not_found_message(project_id: &str) -> (m: String)
    ensures
        m@ == project_not_found(project_id@),
{
    let mut m = text_of("Project ");
    m.append(project_id);
    m.append(" not found");
    m
}

/// A project just created is what reading it back gives: the row that its
/// insert statement stores decodes to the project itself.
pub proof fn law_created_project_reads_back(req: CreateProjectRequest, id: Seq<char>, now: Seq<char>)
    ensures
        decode_project(insert_project_cells(project_from_request(req, id, now)))
            == Some(project_from_request(req, id, now)),
{
}

} // verus!
