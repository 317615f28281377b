//! The request log: what the router did for whom, and the dashboard counts.

use vstd::prelude::*;
use crate::crypto::uuid_v4_text;
use crate::clock::{millis_of, now, timestamp_millis, Instant, CHRONO_MAX_SECS};
use crate::crypto::new_uuid;
use crate::error::AppError;
use crate::models::{AppStats, LogQueryParams, LogQueryResult, RequestLog, RequestLogView};
use crate::sql::{
    order_view, row_problem, row_problem_of, error_view, ColumnError, ColumnKind, ColumnProblem,
    assignment_texts, assignments, bare_statement, cells, column_int, column_opt_int,
    column_opt_text, column_text, opt_int_cell, opt_int_value, opt_str, opt_str_value,
    opt_text_cell, statement, text_value, Cell, SqlStatement, SqlValue, StatementView,
};
use crate::text::{i64_text, int_text, join, seq_join, text_of};

verus! {

/// The page size of a log query that names none.
pub const DEFAULT_LOG_LIMIT: i64 = 50;

pub const INSERT_LOG_SQL: &'static str = "INSERT INTO request_logs (id, timestamp, client_id, client_name, server_id, server_name, request_type, request_params, response_status, duration, error_message)
             VALUES (?1, ?2, ?3, ?4, ?5, ?6, ?7, ?8, ?9, ?10, ?11)";

pub const COUNT_LOGS_SQL: &'static str = "SELECT COUNT(*) FROM request_logs ";

pub const SELECT_LOGS_SQL: &'static str = "SELECT id, timestamp, client_id, client_name, server_id, server_name, request_type, request_params, response_status, duration, error_message
             FROM request_logs ";

pub const CLEAR_LOGS_SQL: &'static str = "DELETE FROM request_logs";

pub const COUNT_SERVERS_SQL: &'static str = "SELECT COUNT(*) FROM servers";

pub const COUNT_ACTIVE_SERVERS_SQL: &'static str = "SELECT COUNT(*) FROM servers WHERE disabled = 0";

pub const COUNT_REQUESTS_SQL: &'static str = "SELECT COUNT(*) FROM request_logs";

pub const COUNT_PROJECTS_SQL: &'static str = "SELECT COUNT(*) FROM projects";

/// The fields of a log entry, in the order of `INSERT_LOG_SQL`.
pub open spec fn log_entry_cells(
    id: Seq<char>,
    timestamp: int,
    server_id: Option<Seq<char>>,
    server_name: Option<Seq<char>>,
    client_id: Option<Seq<char>>,
    client_name: Option<Seq<char>>,
    request_type: Seq<char>,
    request_params: Option<Seq<char>>,
    response_status: Seq<char>,
    duration: Option<i64>,
    error_message: Option<Seq<char>>,
) -> Seq<Cell> {
    seq![
        Cell::Text(id),
        Cell::Int(timestamp),
        opt_text_cell(client_id),
        opt_text_cell(client_name),
        opt_text_cell(server_id),
        opt_text_cell(server_name),
        Cell::Text(request_type),
        opt_text_cell(request_params),
        Cell::Text(response_status),
        opt_int_cell(duration),
        opt_text_cell(error_message),
    ]
}

/// The filters of a log query that are set, as (column, value), in the
/// order server, request type, response status.
pub open spec fn log_filters(q: LogQueryParams) -> Seq<(Seq<char>, Seq<char>)> {
    filter_of("server_id"@, q.server_id.deep_view()) + filter_of("request_type"@,
        q.request_type.deep_view()) + filter_of("response_status"@, q.response_status.deep_view())
}

/// The filter on `col`, if `value` is set.
pub open spec fn filter_of(col: Seq<char>, value: Option<Seq<char>>) -> Seq<(Seq<char>, Seq<char>)> {
    match value {
        Some(v) => seq![(col, v)],
        None => seq![],
    }
}

/// The `WHERE` clause of filters: empty without filters, otherwise
/// `WHERE c1 = ?1 AND c2 = ?2 ...`.
pub open spec fn where_text(filters: Seq<(Seq<char>, Seq<char>)>) -> Seq<char> {
    if filters.len() == 0 {
        seq![]
    } else {
        "WHERE "@ + seq_join(
            assignments(filters.map_values(|f: (Seq<char>, Seq<char>)| f.0), 1),
            " AND "@,
        )
    }
}

/// The parameters of filters: their values, in order.
pub open spec fn filter_cells(filters: Seq<(Seq<char>, Seq<char>)>) -> Seq<Cell> {
    filters.map_values(|f: (Seq<char>, Seq<char>)| Cell::Text(f.1))
}

/// The page size of a query.
pub open spec fn log_limit(q: LogQueryParams) -> i64 {
    match q.limit {
        Some(l) => l,
        None => DEFAULT_LOG_LIMIT,
    }
}

/// The offset of a query.
pub open spec fn log_offset(q: LogQueryParams) -> i64 {
    match q.offset {
        Some(o) => o,
        None => 0,
    }
}

/// The statement that counts the entries a query selects.
pub open spec fn count_statement(q: LogQueryParams) -> StatementView {
    StatementView {
        sql: COUNT_LOGS_SQL@ + where_text(log_filters(q)),
        params: filter_cells(log_filters(q)),
    }
}

/// The statement that reads the page of entries a query selects, newest
/// first.
pub open spec fn page_statement(q: LogQueryParams) -> StatementView {
    StatementView {
        sql: SELECT_LOGS_SQL@ + where_text(log_filters(q)) + " ORDER BY timestamp DESC LIMIT "@
            + int_text(log_limit(q) as int) + " OFFSET "@ + int_text(log_offset(q) as int),
        params: filter_cells(log_filters(q)),
    }
}

/// A log query: the statement that counts the selected entries, the one
/// that reads the page, and the page's size and offset.
#[derive(Debug, PartialEq, Eq)]
pub struct LogQuery {
    pub count: SqlStatement,
    pub page: SqlStatement,
    pub limit: i64,
    pub offset: i64,
}

/// Whether a row has the columns of a log entry.
pub open spec fn log_shape(row: Seq<SqlValue>) -> bool {
    &&& row.len() >= 11
    &&& row[0]@ is Text
    &&& row[1]@ is Int
    &&& (row[2]@ is Text || row[2]@ is Null)
    &&& (row[3]@ is Text || row[3]@ is Null)
    &&& (row[4]@ is Text || row[4]@ is Null)
    &&& (row[5]@ is Text || row[5]@ is Null)
    &&& row[6]@ is Text
    &&& (row[7]@ is Text || row[7]@ is Null)
    &&& row[8]@ is Text
    &&& (row[9]@ is Int || row[9]@ is Null)
    &&& (row[10]@ is Text || row[10]@ is Null)
}

/// The order in which the columns of a log row are read, and how: from
/// left to right.
pub open spec fn log_order() -> Seq<(int, ColumnKind)> {
    seq![
        (0, ColumnKind::Text),
        (1, ColumnKind::Int),
        (2, ColumnKind::OptText),
        (3, ColumnKind::OptText),
        (4, ColumnKind::OptText),
        (5, ColumnKind::OptText),
        (6, ColumnKind::Text),
        (7, ColumnKind::OptText),
        (8, ColumnKind::Text),
        (9, ColumnKind::OptInt),
        (10, ColumnKind::OptText),
    ]
}

/// The order in which the columns of a log row are read (`log_order`).
pub fn log_reading_order() -> (r: Vec<(usize, ColumnKind)>)
    ensures
        order_view(r@) == log_order(),
{
    let r: Vec<(usize, ColumnKind)> = vec![
        (0, ColumnKind::Text),
        (1, ColumnKind::Int),
        (2, ColumnKind::OptText),
        (3, ColumnKind::OptText),
        (4, ColumnKind::OptText),
        (5, ColumnKind::OptText),
        (6, ColumnKind::Text),
        (7, ColumnKind::OptText),
        (8, ColumnKind::Text),
        (9, ColumnKind::OptInt),
        (10, ColumnKind::OptText),
    ];
    assert(order_view(r@) =~= log_order());
    r
}

/// A row whose columns all read is a log.
proof fn lemma_log_row_reads(row: Seq<SqlValue>)
    requires
        row_problem(cells(row), log_order()) is None,
    ensures
        log_shape(row),
{
    reveal_with_fuel(row_problem, 12);
}

/// Whether `e` is the log entry that the row holds.
pub open spec fn log_in_row(e: RequestLog, row: Seq<SqlValue>) -> bool {
    &&& row.len() >= 11
    &&& row[0]@ == Cell::Text(e.id@)
    &&& row[1]@ == Cell::Int(e.timestamp as int)
    &&& row[2]@ == opt_text_cell(e.client_id.deep_view())
    &&& row[3]@ == opt_text_cell(e.client_name.deep_view())
    &&& row[4]@ == opt_text_cell(e.server_id.deep_view())
    &&& row[5]@ == opt_text_cell(e.server_name.deep_view())
    &&& row[6]@ == Cell::Text(e.request_type@)
    &&& row[7]@ == opt_text_cell(e.request_params.deep_view())
    &&& row[8]@ == Cell::Text(e.response_status@)
    &&& row[9]@ == opt_int_cell(e.duration)
    &&& row[10]@ == opt_text_cell(e.error_message.deep_view())
}

/// The request log.
pub struct LoggingService;

impl LoggingService {
    /// The statement that records an entry with id `id` at `timestamp`
    /// (milliseconds since the epoch).
    pub fn log_entry_statement(
        id: String,
        timestamp: i64,
        server_id: Option<&str>,
        server_name: Option<&str>,
        client_id: Option<&str>,
        client_name: Option<&str>,
        request_type: &str,
        request_params: Option<&str>,
        response_status: &str,
        duration: Option<i64>,
        error_message: Option<&str>,
    ) -> (s: SqlStatement)
        ensures
            s@ == (StatementView {
                sql: INSERT_LOG_SQL@,
                params: log_entry_cells(
                    id@,
                    timestamp as int,
                    opt_str(server_id),
                    opt_str(server_name),
                    opt_str(client_id),
                    opt_str(client_name),
                    request_type@,
                    opt_str(request_params),
                    response_status@,
                    duration,
                    opt_str(error_message),
                ),
            }),
    {
        let mut params: Vec<SqlValue> = Vec::new();
        params.push(SqlValue::Text(id));
        params.push(SqlValue::Integer(timestamp));
        params.push(opt_str_value(client_id));
        params.push(opt_str_value(client_name));
        params.push(opt_str_value(server_id));
        params.push(opt_str_value(server_name));
        params.push(text_value(request_type));
        params.push(opt_str_value(request_params));
        params.push(text_value(response_status));
        params.push(opt_int_value(duration));
        params.push(opt_str_value(error_message));
        let s = statement(INSERT_LOG_SQL, params);
        proof {
            assert(s@.params =~= log_entry_cells(
                s.params@[0]@->Text_0,
                timestamp as int,
                opt_str(server_id),
                opt_str(server_name),
                opt_str(client_id),
                opt_str(client_name),
                request_type@,
                opt_str(request_params),
                response_status@,
                duration,
                opt_str(error_message),
            ));
        }
        s
    }

    /// The statement that records a request now, under a fresh random id.
    pub fn log_request(
        server_id: Option<&str>,
        server_name: Option<&str>,
        client_id: Option<&str>,
        client_name: Option<&str>,
        request_type: &str,
        request_params: Option<&str>,
        response_status: &str,
        duration: Option<i64>,
        error_message: Option<&str>,
    ) -> (s: SqlStatement)
        ensures
            exists|id: Seq<char>, at: Instant|
                #![trigger log_entry_cells(id, millis_of(at), opt_str(server_id), opt_str(server_name),
                    opt_str(client_id), opt_str(client_name), request_type@, opt_str(request_params),
                    response_status@, duration, opt_str(error_message))]
                uuid_v4_text(id) && 0 <= at.secs <= CHRONO_MAX_SECS && s@ == (StatementView {
                    sql: INSERT_LOG_SQL@,
                    params: log_entry_cells(
                        id,
                        millis_of(at),
                        opt_str(server_id),
                        opt_str(server_name),
                        opt_str(client_id),
                        opt_str(client_name),
                        request_type@,
                        opt_str(request_params),
                        response_status@,
                        duration,
                        opt_str(error_message),
                    ),
                }),
    {
        let id = new_uuid();
        let ghost idv = id@;
        let at = now();
        let timestamp = timestamp_millis(at);
        let s = Self::log_entry_statement(
            id,
            timestamp,
            server_id,
            server_name,
            client_id,
            client_name,
            request_type,
            request_params,
            response_status,
            duration,
            error_message,
        );
        assert(s@.params == log_entry_cells(
            idv,
            millis_of(at),
            opt_str(server_id),
            opt_str(server_name),
            opt_str(client_id),
            opt_str(client_name),
            request_type@,
            opt_str(request_params),
            response_status@,
            duration,
            opt_str(error_message),
        ));
        s
    }

    /// The statements of a log query: the count of the selected entries and
    /// the page of them, newest first.
    pub fn query_logs(q: &LogQueryParams) -> (r: LogQuery)
        ensures
            r.count@ == count_statement(*q),
            r.page@ == page_statement(*q),
            r.limit == log_limit(*q),
            r.offset == log_offset(*q),
            q.limit matches Some(l) ==> r.limit == l,
            q.limit is None ==> r.limit == DEFAULT_LOG_LIMIT,
            q.offset matches Some(o) ==> r.offset == o,
            q.offset is None ==> r.offset == 0,
    {
        let limit = match q.limit {
            Some(l) => l,
            None => DEFAULT_LOG_LIMIT,
        };
        let offset = match q.offset {
            Some(o) => o,
            None => 0,
        };
        let mut cols: Vec<String> = Vec::new();
        let mut values: Vec<String> = Vec::new();
        let ghost filters = log_filters(*q);
        if let Some(v) = &q.server_id {
            cols.push(text_of("server_id"));
            values.push(v.clone());
        }
        if let Some(v) = &q.request_type {
            cols.push(text_of("request_type"));
            values.push(v.clone());
        }
        if let Some(v) = &q.response_status {
            cols.push(text_of("response_status"));
            values.push(v.clone());
        }
        proof {
            assert(cols.deep_view() =~= filters.map_values(|f: (Seq<char>, Seq<char>)| f.0));
            assert(values.deep_view() =~= filters.map_values(|f: (Seq<char>, Seq<char>)| f.1));
        }
        let clauses = assignment_texts(&cols, 1);
        let mut where_sql = String::new();
        if cols.len() != 0 {
            where_sql.append("WHERE ");
            let joined = join(&clauses, " AND ");
            where_sql.append(joined.as_str());
        }
        proof {
            assert(where_sql@ =~= where_text(filters));
        }
        let mut params: Vec<SqlValue> = Vec::new();
        let mut params2: Vec<SqlValue> = Vec::new();
        let n = values.len();
        let mut i: usize = 0;
        while i < n
            invariant
                n == values@.len(),
                values.deep_view() == filters.map_values(|f: (Seq<char>, Seq<char>)| f.1),
                filters.len() == n,
                i <= n,
                params@.len() == i,
                params2@.len() == i,
                cells(params@) =~= filter_cells(filters).take(i as int),
                cells(params2@) =~= filter_cells(filters).take(i as int),
            decreases n - i,
        {
            assert(values.deep_view()[i as int] == values@[i as int]@);
            assert(filter_cells(filters)[i as int] == Cell::Text(values@[i as int]@));
            let ghost before = params@;
            let ghost before2 = params2@;
            params.push(SqlValue::Text(values[i].clone()));
            params2.push(SqlValue::Text(values[i].clone()));
            proof {
                assert(cells(params@) =~= cells(before).push(Cell::Text(values@[i as int]@)));
                assert(cells(params2@) =~= cells(before2).push(Cell::Text(values@[i as int]@)));
                assert(filter_cells(filters).take(i + 1) =~= filter_cells(filters).take(i as int).push(
                    Cell::Text(values@[i as int]@)));
            }
            i = i + 1;
        }
        proof {
            assert(filter_cells(filters).take(n as int) =~= filter_cells(filters));
        }
        let mut count_sql = text_of(COUNT_LOGS_SQL);
        count_sql.append(where_sql.as_str());
        let mut page_sql = text_of(SELECT_LOGS_SQL);
        page_sql.append(where_sql.as_str());
        page_sql.append(" ORDER BY timestamp DESC LIMIT ");
        let lt = i64_text(limit);
        page_sql.append(lt.as_str());
        page_sql.append(" OFFSET ");
        let ot = i64_text(offset);
        page_sql.append(ot.as_str());
        LogQuery {
            count: SqlStatement { sql: count_sql, params },
            page: SqlStatement { sql: page_sql, params: params2 },
            limit,
            offset,
        }
    }

    /// The entry in a row of the page statement.
    pub fn log_from_row(row: &Vec<SqlValue>) -> (r: Option<RequestLog>)
        ensures
            match r {
                Some(e) => log_in_row(e, row@),
                None => !log_shape(row@),
            },
    {
        let id = column_text(row, 0)?;
        let timestamp = column_int(row, 1)?;
        let client_id = column_opt_text(row, 2)?;
        let client_name = column_opt_text(row, 3)?;
        let server_id = column_opt_text(row, 4)?;
        let server_name = column_opt_text(row, 5)?;
        let request_type = column_text(row, 6)?;
        let request_params = column_opt_text(row, 7)?;
        let response_status = column_text(row, 8)?;
        let duration = column_opt_int(row, 9)?;
        let error_message = column_opt_text(row, 10)?;
        Some(RequestLog {
            id,
            timestamp,
            client_id,
            client_name,
            server_id,
            server_name,
            request_type,
            request_params,
            response_status,
            duration,
            error_message,
        })
    }

    /// The page of a log query, given the number of selected entries and the
    /// rows of the page: more entries follow when the page ends before the
    /// total. The rows are read in order, each column in `log_order`; the
    /// first column that cannot be read fails the page, and is returned.
    pub fn logs_page(query: &LogQuery, total: i64, rows: &Vec<Vec<SqlValue>>) -> (r: Result<
        LogQueryResult,
        ColumnError,
    >)
        requires
            i64::MIN <= query.offset + query.limit <= i64::MAX,
        ensures
            r is Ok <==> forall|i: int|
                0 <= i < rows@.len() ==> (#[trigger] row_problem(cells(rows@[i]@), log_order())) is None,
            r matches Ok(p) ==> p.total == total && p.has_more == (query.offset + query.limit < total)
                && p.items@.len() == rows@.len()
                && forall|i: int| 0 <= i < rows@.len() ==> log_in_row(#[trigger] p.items@[i], rows@[i]@),
            r matches Err(e) ==> exists|k: int|
                0 <= k < rows@.len() && (forall|j: int| 0 <= j < k ==> (#[trigger] row_problem(cells(rows@[j]@), log_order())) is None)
                    && #[trigger] row_problem(cells(rows@[k]@), log_order()) == Some(error_view(e)),
    {
        let order = log_reading_order();
        let mut items: Vec<RequestLog> = Vec::new();
        let n = rows.len();
        let mut i: usize = 0;
        while i < n
            invariant
                n == rows@.len(),
                order_view(order@) == log_order(),
                i <= n,
                items@.len() == i,
                forall|j: int| 0 <= j < i ==> (#[trigger] row_problem(cells(rows@[j]@), log_order())) is None,
                forall|j: int| 0 <= j < i ==> log_in_row(#[trigger] items@[j], rows@[j]@),
            decreases n - i,
        {
            if let Some(e) = row_problem_of(&rows[i], &order) {
                assert(row_problem(cells(rows@[i as int]@), log_order()) == Some(error_view(e)));
                return Err(e);
            }
            proof {
                lemma_log_row_reads(rows@[i as int]@);
            }
            match Self::log_from_row(&rows[i]) {
                Some(e) => items.push(e),
                None => {
                    proof {
                        assert(false);
                    }
                    return Err(ColumnError { index: 0, problem: ColumnProblem::Missing });
                },
            }
            i = i + 1;
        }
        Ok(LogQueryResult { has_more: (query.offset + query.limit) < total, items, total })
    }

    /// The statement that clears the log.
    pub fn clear_logs() -> (s: SqlStatement)
        ensures
            s@.sql == CLEAR_LOGS_SQL@,
            s@.params == Seq::<Cell>::empty(),
    {
        bare_statement(CLEAR_LOGS_SQL)
    }

    /// The statements that count, in order, the servers, the servers that
    /// are not disabled, the logged requests and the projects.
    pub fn stats_statements() -> (r: Vec<SqlStatement>)
        ensures
            r@.len() == 4,
            r@[0]@ == (StatementView { sql: COUNT_SERVERS_SQL@, params: Seq::<Cell>::empty() }),
            r@[1]@ == (StatementView { sql: COUNT_ACTIVE_SERVERS_SQL@, params: Seq::<Cell>::empty() }),
            r@[2]@ == (StatementView { sql: COUNT_REQUESTS_SQL@, params: Seq::<Cell>::empty() }),
            r@[3]@ == (StatementView { sql: COUNT_PROJECTS_SQL@, params: Seq::<Cell>::empty() }),
    {
        let mut r: Vec<SqlStatement> = Vec::new();
        r.push(bare_statement(COUNT_SERVERS_SQL));
        r.push(bare_statement(COUNT_ACTIVE_SERVERS_SQL));
        r.push(bare_statement(COUNT_REQUESTS_SQL));
        r.push(bare_statement(COUNT_PROJECTS_SQL));
        r
    }

    /// The dashboard counts, from the answers to the statements of
    /// `stats_statements`.
    pub fn get_stats(total_servers: i64, active_servers: i64, total_requests: i64, total_projects: i64) -> (r: AppStats)
        ensures
            r.total_servers == total_servers,
            r.active_servers == active_servers,
            r.total_requests == total_requests,
            r.total_projects == total_projects,
    {
        AppStats { total_servers, active_servers, total_requests, total_projects }
    }
}

/// A logged request reads back as itself: the row that `INSERT_LOG_SQL`
/// stores for an entry's parameters (its columns are those of the page
/// statement, in the same order) has the columns of a log entry, and the
/// entry read from it carries exactly the logged fields.
pub proof fn law_logged_request_reads_back(
    row: Seq<SqlValue>,
    id: Seq<char>,
    timestamp: int,
    server_id: Option<Seq<char>>,
    server_name: Option<Seq<char>>,
    client_id: Option<Seq<char>>,
    client_name: Option<Seq<char>>,
    request_type: Seq<char>,
    request_params: Option<Seq<char>>,
    response_status: Seq<char>,
    duration: Option<i64>,
    error_message: Option<Seq<char>>,
    e: RequestLog,
)
    requires
        cells(row) == log_entry_cells(
            id,
            timestamp,
            server_id,
            server_name,
            client_id,
            client_name,
            request_type,
            request_params,
            response_status,
            duration,
            error_message,
        ),
    ensures
        log_shape(row),
        log_in_row(e, row) ==> e@ == (RequestLogView {
            id,
            timestamp,
            client_id,
            client_name,
            server_id,
            server_name,
            request_type,
            request_params,
            response_status,
            duration,
            error_message,
        }),
{
    assert(cells(row).len() == row.len());
    assert forall|i: int| 0 <= i < row.len() implies cells(row)[i] == #[trigger] row[i]@ by {}
}

/// The position, in the column order of the page statement, of the column
/// that a filter compares.
pub open spec fn log_filter_column(col: Seq<char>) -> int {
    if col == "server_id"@ {
        4
    } else if col == "request_type"@ {
        6
    } else if col == "response_status"@ {
        8
    } else {
        -1
    }
}

/// Whether a stored entry (in the column order of the page statement)
/// passes the filters: each compares its column with its value.
pub open spec fn passes_filters(row: Seq<Cell>, filters: Seq<(Seq<char>, Seq<char>)>) -> bool {
    forall|k: int|
        0 <= k < filters.len() ==> {
            let c = log_filter_column(#[trigger] filters[k].0);
            0 <= c < row.len() && row[c] == Cell::Text(filters[k].1)
        }
}

/// The entries of the log table that a query selects: those passing its
/// filters (`WHERE c1 = ?1 AND ...`).
pub open spec fn selected_logs(table: Seq<Seq<Cell>>, q: LogQueryParams) -> Seq<Seq<Cell>> {
    table.filter(|row: Seq<Cell>| passes_filters(row, log_filters(q)))
}

/// The timestamp of a stored entry.
pub open spec fn entry_time(row: Seq<Cell>) -> int {
    match row[1] {
        Cell::Int(t) => t,
        _ => 0,
    }
}

/// The window `LIMIT limit OFFSET offset` of a sequence: from the offset on
/// (a negative offset counting as none), at most `limit` entries (a
/// negative limit meaning no bound).
pub open spec fn log_window(s: Seq<Seq<Cell>>, offset: int, limit: int) -> Seq<Seq<Cell>> {
    let start = if offset < 0 {
        0
    } else if offset > s.len() {
        s.len() as int
    } else {
        offset
    };
    let end = if limit < 0 || start + limit > s.len() {
        s.len() as int
    } else {
        start + limit
    };
    s.subrange(start, end)
}

/// What SQLite answers to a query's count statement over the log table
/// `table`: the number of selected entries, whatever the page.
pub open spec fn log_count_answer(table: Seq<Seq<Cell>>, q: LogQueryParams) -> int {
    selected_logs(table, q).len() as int
}

/// Whether `page` is what SQLite may answer to a query's page statement over
/// the log table `table`: the selected entries newest first (entries of the
/// same time in any order), then the window of the query's offset and
/// limit.
pub open spec fn log_page_answer(table: Seq<Seq<Cell>>, q: LogQueryParams, page: Seq<Seq<Cell>>) -> bool {
    exists|sorted: Seq<Seq<Cell>>|
        #![trigger sorted.to_multiset()]
        sorted.to_multiset() == selected_logs(table, q).to_multiset()
            && (forall|i: int, j: int| 0 <= i < j < sorted.len() ==> entry_time(#[trigger] sorted[i]) >= entry_time(#[trigger] sorted[j]))
            && page == log_window(sorted, log_offset(q) as int, log_limit(q) as int)
}

/// A log page holds only entries that pass every filter of the query, newest
/// first, no more than the limit (when it is not negative) and no more than
/// the total that the count statement gives.
pub proof fn law_log_page_is_filtered_and_newest_first(
    table: Seq<Seq<Cell>>,
    q: LogQueryParams,
    page: Seq<Seq<Cell>>,
)
    requires
        log_page_answer(table, q, page),
    ensures
        forall|i: int| 0 <= i < page.len() ==> passes_filters(#[trigger] page[i], log_filters(q)),
        forall|i: int, j: int| 0 <= i < j < page.len() ==> entry_time(#[trigger] page[i]) >= entry_time(#[trigger] page[j]),
        log_limit(q) >= 0 ==> page.len() <= log_limit(q),
        page.len() <= log_count_answer(table, q),
{
    broadcast use vstd::seq_lib::group_seq_properties;
    let sel = selected_logs(table, q);
    let pred = |row: Seq<Cell>| passes_filters(row, log_filters(q));
    let sorted = choose|sorted: Seq<Seq<Cell>>|
        #![trigger sorted.to_multiset()]
        sorted.to_multiset() == sel.to_multiset()
            && (forall|i: int, j: int| 0 <= i < j < sorted.len() ==> entry_time(#[trigger] sorted[i]) >= entry_time(#[trigger] sorted[j]))
            && page == log_window(sorted, log_offset(q) as int, log_limit(q) as int);
    sorted.to_multiset_ensures();
    sel.to_multiset_ensures();
    assert(sorted.len() == sel.len());
    let start = if log_offset(q) < 0 {
        0
    } else if log_offset(q) > sorted.len() {
        sorted.len() as int
    } else {
        log_offset(q) as int
    };
    assert forall|i: int| 0 <= i < page.len() implies passes_filters(#[trigger] page[i], log_filters(q)) by {
        let x = page[i];
        assert(x == sorted[start + i]);
        assert(sorted.contains(x));
        assert(sorted.to_multiset().count(x) > 0);
        assert(sel.contains(x));
        let j = choose|j: int| 0 <= j < sel.len() && sel[j] == x;
        table.lemma_filter_pred(pred, j);
    }
    assert forall|i: int, j: int| 0 <= i < j < page.len() implies entry_time(#[trigger] page[i]) >= entry_time(#[trigger] page[j]) by {
        assert(page[i] == sorted[start + i]);
        assert(page[j] == sorted[start + j]);
    }
}

/// A log page is the page that was asked for: its size is the requested
/// limit (50 when none is given) and it starts at the requested offset (0
/// when none is given), written as the last clauses of the page statement;
/// the count statement carries no paging at all.
pub proof fn law_page_is_the_requested_one(q: LogQueryParams)
    ensures
        ({
            let limit: i64 = match q.limit {
                Some(l) => l,
                None => 50,
            };
            let offset: i64 = match q.offset {
                Some(o) => o,
                None => 0,
            };
            let tail = " ORDER BY timestamp DESC LIMIT "@ + int_text(limit as int) + " OFFSET "@ + int_text(
                offset as int,
            );
            &&& log_limit(q) == limit
            &&& log_offset(q) == offset
            &&& page_statement(q).sql.len() >= tail.len()
            &&& page_statement(q).sql.subrange(
                page_statement(q).sql.len() - tail.len(),
                page_statement(q).sql.len() as int,
            ) == tail
            &&& page_statement(q).sql == SELECT_LOGS_SQL@ + where_text(log_filters(q)) + tail
            &&& count_statement(q).sql == COUNT_LOGS_SQL@ + where_text(log_filters(q))
        }),
{
    let limit: i64 = match q.limit {
        Some(l) => l,
        None => 50,
    };
    let offset: i64 = match q.offset {
        Some(o) => o,
        None => 0,
    };
    let tail = " ORDER BY timestamp DESC LIMIT "@ + int_text(limit as int) + " OFFSET "@ + int_text(offset as int);
    let head = SELECT_LOGS_SQL@ + where_text(log_filters(q));
    assert(page_statement(q).sql =~= head + tail);
    assert((head + tail).subrange(head.len() as int, (head + tail).len() as int) =~= tail);
}

/// A log query binds each filter to its placeholder: with `n` filters set,
/// both statements carry `n` parameters, the `k`-th being the `k`-th
/// filter's value, compared with its column as `col = ?k`.
pub proof fn law_log_query_binds_filters(q: LogQueryParams)
    ensures
        ({
            let f = log_filters(q);
            &&& count_statement(q).params.len() == f.len()
            &&& page_statement(q).params == count_statement(q).params
            &&& forall|k: int|
                0 <= k < f.len() ==> #[trigger] count_statement(q).params[k] == Cell::Text(f[k].1)
                    && assignments(f.map_values(|x: (Seq<char>, Seq<char>)| x.0), 1)[k]
                    == crate::sql::assignment(f[k].0, (k + 1) as nat)
        }),
{
}

/// A query without filters selects every entry: its statements have no
/// `WHERE` clause and no parameters.
pub proof fn law_unfiltered_query_selects_all(q: LogQueryParams)
    requires
        q.server_id is None,
        q.request_type is None,
        q.response_status is None,
    ensures
        count_statement(q) == (StatementView { sql: COUNT_LOGS_SQL@, params: Seq::<Cell>::empty() }),
{
    assert(log_filters(q) =~= Seq::<(Seq<char>, Seq<char>)>::empty());
    assert(COUNT_LOGS_SQL@ + where_text(log_filters(q)) =~= COUNT_LOGS_SQL@);
    assert(filter_cells(log_filters(q)) =~= Seq::<Cell>::empty());
}

} // verus!
