//! Statements for the router's SQLite store, as plain values.
//!
//! The library decides every statement (its text and its positional
//! parameters) and every reading of a result row; the application hands
//! statements to SQLite unchanged and hands rows back as `SqlValue`s.

use vstd::prelude::*;
use crate::text::{nat_text, text_of, u64_text};

verus! {

/// One SQLite value: a parameter of a statement or a column of a row.
#[derive(Debug, Clone, PartialEq, Eq)]
pub enum SqlValue {
    Null,
    Integer(i64),
    Text(String),
    /// A real number (the router's tables hold none; its value is not kept).
    Real,
    /// A blob (the router's tables hold none; its bytes are not kept).
    Blob,
    /// A text whose bytes are not UTF-8, with those bytes.
    InvalidText(Vec<u8>),
}

/// The mathematical content of a `SqlValue`.
pub enum Cell {
    Null,
    Int(int),
    Text(Seq<char>),
    Real,
    Blob,
    InvalidText(Seq<u8>),
}

impl View for SqlValue {
    type V = Cell;

    open spec fn view(&self) -> Cell {
        match self {
            SqlValue::Null => Cell::Null,
            SqlValue::Integer(i) => Cell::Int(*i as int),
            SqlValue::Text(s) => Cell::Text(s@),
            SqlValue::Real => Cell::Real,
            SqlValue::Blob => Cell::Blob,
            SqlValue::InvalidText(b) => Cell::InvalidText(b@),
        }
    }
}

/// A statement: SQL text with `?n` placeholders and the values bound to them,
/// `params[n - 1]` to `?n`.
#[derive(Debug, PartialEq, Eq)]
pub struct SqlStatement {
    pub sql: String,
    pub params: Vec<SqlValue>,
}

/// The content of a statement: its text and its parameters.
pub struct StatementView {
    pub sql: Seq<char>,
    pub params: Seq<Cell>,
}

/// The contents of a sequence of values.
pub open spec fn cells(values: Seq<SqlValue>) -> Seq<Cell> {
    values.map_values(|v: SqlValue| v@)
}

impl View for SqlStatement {
    type V = StatementView;

    open spec fn view(&self) -> StatementView {
        StatementView { sql: self.sql@, params: cells(self.params@) }
    }
}

/// The contents of a sequence of statements.
pub open spec fn statements(stmts: Seq<SqlStatement>) -> Seq<StatementView> {
    stmts.map_values(|s: SqlStatement| s@)
}

/// The cell of an optional text: its characters, or NULL.
pub open spec fn opt_text_cell(o: Option<Seq<char>>) -> Cell {
    match o {
        Some(s) => Cell::Text(s),
        None => Cell::Null,
    }
}

/// The cell of an optional integer: the integer, or NULL.
pub open spec fn opt_int_cell(o: Option<i64>) -> Cell {
    match o {
        Some(i) => Cell::Int(i as int),
        None => Cell::Null,
    }
}

/// The text `?n`, the placeholder of the `n`th parameter.
pub open spec fn placeholder(n: nat) -> Seq<char> {
    seq!['?'] + nat_text(n)
}

/// A text parameter holding the characters of `s`.
pub fn text_value(s: &str) -> (v: SqlValue)
    ensures
        v@ == Cell::Text(s@),
{
    SqlValue::Text(text_of(s))
}

/// A text parameter holding `s`, or NULL.
pub fn opt_text_value(s: &Option<String>) -> (v: SqlValue)
    ensures
        v@ == opt_text_cell(s.deep_view()),
{
    match s {
        Some(t) => SqlValue::Text(t.clone()),
        None => SqlValue::Null,
    }
}

/// A text parameter holding `s`, or NULL, for a borrowed text.
pub fn opt_str_value(s: Option<&str>) -> (v: SqlValue)
    ensures
        v@ == opt_text_cell(opt_str(s)),
{
    match s {
        Some(t) => SqlValue::Text(text_of(t)),
        None => SqlValue::Null,
    }
}

/// The characters of an optional borrowed text.
pub open spec fn opt_str(s: Option<&str>) -> Option<Seq<char>> {
    match s {
        Some(t) => Some(t@),
        None => None,
    }
}

/// An integer parameter holding `i`, or NULL.
pub fn opt_int_value(i: Option<i64>) -> (v: SqlValue)
    ensures
        v@ == opt_int_cell(i),
{
    match i {
        Some(x) => SqlValue::Integer(x),
        None => SqlValue::Null,
    }
}

/// The flag as SQLite stores it: 1 for true, 0 for false.
pub open spec fn flag_int(b: bool) -> int {
    if b { 1 } else { 0 }
}

/// A statement with the given text and parameters.
pub fn statement(sql: &str, params: Vec<SqlValue>) -> (s: SqlStatement)
    ensures
        s@.sql == sql@,
        s@.params == cells(params@),
{
    SqlStatement { sql: text_of(sql), params }
}

/// A statement with the given text and no parameters.
pub fn bare_statement(sql: &str) -> (s: SqlStatement)
    ensures
        s@.sql == sql@,
        s@.params == Seq::<Cell>::empty(),
{
    let params: Vec<SqlValue> = Vec::new();
    proof {
        assert(cells(params@) =~= Seq::<Cell>::empty());
    }
    statement(sql, params)
}

/// A statement with the given text and a single text parameter.
pub fn text_statement(sql: &str, value: &str) -> (s: SqlStatement)
    ensures
        s@.sql == sql@,
        s@.params == seq![Cell::Text(value@)],
{
    let mut params: Vec<SqlValue> = Vec::new();
    params.push(text_value(value));
    proof {
        assert(cells(params@) =~= seq![Cell::Text(value@)]);
    }
    statement(sql, params)
}

/// The text in column `i` of a row, where it holds text.
pub fn column_text(row: &Vec<SqlValue>, i: usize) -> (r: Option<String>)
    ensures
        r.deep_view() == (if i < row@.len() { match row@[i as int]@ {
            Cell::Text(s) => Some(s),
            _ => None,
        } } else { None }),
{
    if i < row.len() {
        match &row[i] {
            SqlValue::Text(s) => Some(s.clone()),
            _ => None,
        }
    } else {
        None
    }
}

/// The column of an optional text, read as SQLite's `Option<String>`
/// conversion reads it: NULL is `None`, text is `Some`, anything else fails.
pub fn column_opt_text(row: &Vec<SqlValue>, i: usize) -> (r: Option<Option<String>>)
    ensures
        r.deep_view() == (if i < row@.len() { match row@[i as int]@ {
            Cell::Text(s) => Some(Some(s)),
            Cell::Null => Some(None),
            _ => None,
        } } else { None }),
{
    if i < row.len() {
        match &row[i] {
            SqlValue::Text(s) => Some(Some(s.clone())),
            SqlValue::Null => Some(None),
            _ => None,
        }
    } else {
        None
    }
}

/// The integer in column `i` of a row, where it holds one.
pub fn column_int(row: &Vec<SqlValue>, i: usize) -> (r: Option<i64>)
    ensures
        r == (if i < row@.len() { match row@[i as int]@ {
            Cell::Int(v) => Some(v as i64),
            _ => None,
        } } else { None }),
{
    if i < row.len() {
        match &row[i] {
            SqlValue::Integer(v) => Some(*v),
            _ => None,
        }
    } else {
        None
    }
}

/// The optional integer in column `i`: NULL is `None`.
pub fn column_opt_int(row: &Vec<SqlValue>, i: usize) -> (r: Option<Option<i64>>)
    ensures
        r == (if i < row@.len() { match row@[i as int]@ {
            Cell::Int(v) => Some(Some(v as i64)),
            Cell::Null => Some(None),
            _ => None,
        } } else { None }),
{
    if i < row.len() {
        match &row[i] {
            SqlValue::Integer(v) => Some(Some(*v)),
            SqlValue::Null => Some(None),
            _ => None,
        }
    } else {
        None
    }
}

/// The assignment (or comparison) `col = ?n`.
pub open spec fn assignment(col: Seq<char>, n: nat) -> Seq<char> {
    col + " = "@ + placeholder(n)
}

/// `col = ?n` for each column, numbered from `first` on.
pub open spec fn assignments(cols: Seq<Seq<char>>, first: nat) -> Seq<Seq<char>> {
    Seq::new(cols.len(), |i: int| assignment(cols[i], (first + i) as nat))
}

/// The placeholder `?n`.
pub fn placeholder_text(n: u64) -> (r: String)
    ensures
        r@ == placeholder(n as nat),
{
    let mut r = text_of("?");
    let digits = u64_text(n);
    r.append(digits.as_str());
    proof {
        reveal_strlit("?");
    }
    r
}

/// `col = ?n` for each of `cols`, numbered from `first` on.
pub fn assignment_texts(cols: &Vec<String>, first: u64) -> (r: Vec<String>)
    requires
        first + cols@.len() <= u64::MAX,
    ensures
        r.deep_view() == assignments(cols.deep_view(), first as nat),
{
    let mut r: Vec<String> = Vec::new();
    let n = cols.len();
    let mut i: usize = 0;
    while i < n
        invariant
            n == cols@.len(),
            first + n <= u64::MAX,
            i <= n,
            r@.len() == i,
            forall|j: int| 0 <= j < i ==> #[trigger] r@[j]@ == assignment(cols@[j]@, (first + j) as nat),
        decreases n - i,
    {
        let mut a = cols[i].clone();
        a.append(" = ");
        let p = placeholder_text(first + i as u64);
        a.append(p.as_str());
        r.push(a);
        i = i + 1;
    }
    proof {
        assert(r.deep_view() =~= assignments(cols.deep_view(), first as nat));
    }
    r
}

/// The storage class of a value, as SQLite reports it.
#[derive(Debug, Clone, Copy, PartialEq, Eq, Structural)]
pub enum CellType {
    Null,
    Integer,
    Real,
    Text,
    Blob,
}

/// The storage class of a cell.
pub open spec fn cell_type(c: Cell) -> CellType {
    match c {
        Cell::Null => CellType::Null,
        Cell::Int(_) => CellType::Integer,
        Cell::Real => CellType::Real,
        Cell::Blob => CellType::Blob,
        Cell::Text(_) | Cell::InvalidText(_) => CellType::Text,
    }
}

/// How a column of a result row is read: as a text, a text or NULL, an
/// integer, an integer or NULL, or a 32-bit integer.
#[derive(Debug, Clone, Copy, PartialEq, Eq, Structural)]
pub enum ColumnKind {
    Text,
    OptText,
    Int,
    OptInt,
    Int32,
}

/// Why a column could not be read.
#[derive(Debug, Clone, PartialEq, Eq)]
pub enum ColumnProblem {
    /// The value has a storage class that the column's reading refuses.
    WrongType(CellType),
    /// The integer does not fit in 32 bits.
    OutOfRange(i64),
    /// The text is not UTF-8; these are its bytes.
    NotUtf8(Vec<u8>),
    /// The row has no such column.
    Missing,
}

/// The content of a `ColumnProblem`.
pub enum ProblemView {
    WrongType(CellType),
    OutOfRange(i64),
    NotUtf8(Seq<u8>),
    Missing,
}

impl View for ColumnProblem {
    type V = ProblemView;

    open spec fn view(&self) -> ProblemView {
        match self {
            ColumnProblem::WrongType(t) => ProblemView::WrongType(*t),
            ColumnProblem::OutOfRange(v) => ProblemView::OutOfRange(*v),
            ColumnProblem::NotUtf8(b) => ProblemView::NotUtf8(b@),
            ColumnProblem::Missing => ProblemView::Missing,
        }
    }
}

/// A result row that could not be read: the first column, in the order of
/// reading, that failed, and why.
#[derive(Debug, Clone, PartialEq, Eq)]
pub struct ColumnError {
    pub index: usize,
    pub problem: ColumnProblem,
}

/// Why a cell cannot be read as `kind`, if it cannot (as SQLite's Rust
/// bindings read a column into `String`, `Option<String>`, `i64`,
/// `Option<i64>` and `i32`).
pub open spec fn column_problem(c: Cell, kind: ColumnKind) -> Option<ProblemView> {
    match (kind, c) {
        (ColumnKind::OptText, Cell::Null) => None,
        (ColumnKind::OptInt, Cell::Null) => None,
        (ColumnKind::Text, Cell::Text(_)) => None,
        (ColumnKind::OptText, Cell::Text(_)) => None,
        (ColumnKind::Text, Cell::InvalidText(b)) => Some(ProblemView::NotUtf8(b)),
        (ColumnKind::OptText, Cell::InvalidText(b)) => Some(ProblemView::NotUtf8(b)),
        (ColumnKind::Int, Cell::Int(_)) => None,
        (ColumnKind::OptInt, Cell::Int(_)) => None,
        (ColumnKind::Int32, Cell::Int(v)) => if i32::MIN <= v <= i32::MAX {
            None
        } else {
            Some(ProblemView::OutOfRange(v as i64))
        },
        _ => Some(ProblemView::WrongType(cell_type(c))),
    }
}

/// The first column, in the reading order `order` (column positions and how
/// each is read), that cannot be read, and why.
pub open spec fn row_problem(row: Seq<Cell>, order: Seq<(int, ColumnKind)>) -> Option<(int, ProblemView)>
    decreases order.len(),
{
    if order.len() == 0 {
        None
    } else {
        let i = order[0].0;
        let p = if 0 <= i < row.len() {
            column_problem(row[i], order[0].1)
        } else {
            Some(ProblemView::Missing)
        };
        match p {
            Some(q) => Some((i, q)),
            None => row_problem(row, order.drop_first()),
        }
    }
}

/// The content of a reading order.
pub open spec fn order_view(order: Seq<(usize, ColumnKind)>) -> Seq<(int, ColumnKind)> {
    order.map_values(|x: (usize, ColumnKind)| (x.0 as int, x.1))
}

/// The content of a column error.
pub open spec fn error_view(e: ColumnError) -> (int, ProblemView) {
    (e.index as int, e.problem@)
}

/// Why the value cannot be read as `kind`, if it cannot.
pub fn value_problem(v: &SqlValue, kind: ColumnKind) -> (r: Option<ColumnProblem>)
    ensures
        match r {
            Some(p) => column_problem(v@, kind) == Some(p@),
            None => column_problem(v@, kind) is None,
        },
{
    match (kind, v) {
        (ColumnKind::OptText, SqlValue::Null) => None,
        (ColumnKind::OptInt, SqlValue::Null) => None,
        (ColumnKind::Text, SqlValue::Text(_)) => None,
        (ColumnKind::OptText, SqlValue::Text(_)) => None,
        (ColumnKind::Text, SqlValue::InvalidText(b)) => Some(ColumnProblem::NotUtf8(b.clone())),
        (ColumnKind::OptText, SqlValue::InvalidText(b)) => Some(ColumnProblem::NotUtf8(b.clone())),
        (ColumnKind::Int, SqlValue::Integer(_)) => None,
        (ColumnKind::OptInt, SqlValue::Integer(_)) => None,
        (ColumnKind::Int32, SqlValue::Integer(x)) => if -2147483648 <= *x && *x <= 2147483647 {
            None
        } else {
            Some(ColumnProblem::OutOfRange(*x))
        },
        _ => {
            let t = match v {
                SqlValue::Null => CellType::Null,
                SqlValue::Integer(_) => CellType::Integer,
                SqlValue::Real => CellType::Real,
                SqlValue::Blob => CellType::Blob,
                SqlValue::Text(_) => CellType::Text,
                SqlValue::InvalidText(_) => CellType::Text,
            };
            Some(ColumnProblem::WrongType(t))
        },
    }
}

/// The first column of `row`, in the reading order `order`, that cannot be
/// read, and why.
pub fn row_problem_of(row: &Vec<SqlValue>, order: &Vec<(usize, ColumnKind)>) -> (r: Option<ColumnError>)
    ensures
        match r {
            Some(e) => row_problem(cells(row@), order_view(order@)) == Some(error_view(e)),
            None => row_problem(cells(row@), order_view(order@)) is None,
        },
{
    let ghost rc = cells(row@);
    let ghost ov = order_view(order@);
    let n = order.len();
    let mut i: usize = 0;
    assert(ov.subrange(0, n as int) =~= ov);
    while i < n
        invariant
            n == order@.len(),
            ov == order_view(order@),
            rc == cells(row@),
            rc.len() == row@.len(),
            i <= n,
            row_problem(rc, ov) == row_problem(rc, ov.subrange(i as int, n as int)),
        decreases n - i,
    {
        let ghost rest = ov.subrange(i as int, n as int);
        assert(rest[0] == (order@[i as int].0 as int, order@[i as int].1));
        assert(rest.drop_first() =~= ov.subrange(i + 1, n as int));
        let (col, kind) = order[i];
        if col >= row.len() {
            return Some(ColumnError { index: col, problem: ColumnProblem::Missing });
        }
        assert(rc[col as int] == row@[col as int]@);
        match value_problem(&row[col], kind) {
            Some(p) => {
                return Some(ColumnError { index: col, problem: p });
            },
            None => {},
        }
        i = i + 1;
    }
    None
}

} // verus!
