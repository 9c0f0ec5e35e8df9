//! The boundary to the embedded store. The wrappers in this file are
//! believed, not proved: each states what the store's binding documents, and
//! no more. What a statement does to the store, and which rows a query
//! yields, is the store's to decide; no contract here speaks of it.

use vstd::prelude::*;
use crate::value::{cells_view, readable, readable_at, Cell, CellView, Param};

verus! {

#[verifier::external_type_specification]
#[verifier::external_body]
pub struct ExConnection(rusqlite::Connection);

#[verifier::external_type_specification]
#[verifier::external_body]
pub struct ExError(rusqlite::Error);

#[verifier::external_type_specification]
#[verifier::external_body]
pub struct ExStatement<'c>(rusqlite::Statement<'c>);

#[verifier::external_type_specification]
#[verifier::external_body]
pub struct ExRow<'s>(rusqlite::Row<'s>);

/// What a result row holds, column by column.
pub uninterp spec fn row_cells(row: &rusqlite::Row<'_>) -> Seq<CellView>;

/// Whether an error of the store carries the code of a constraint violation.
pub uninterp spec fn reports_constraint(error: &rusqlite::Error) -> bool;

/// The message of an error of the store.
pub uninterp spec fn message_of(error: &rusqlite::Error) -> Seq<char>;

/// Where a query failed after it was prepared.
pub enum QueryFailure {
    /// The parameters could not be bound.
    Bind(rusqlite::Error),
    /// A row could not be fetched or read.
    Fetch(rusqlite::Error),
}

/// `rusqlite::Connection::open_in_memory`: a connection to a new store that
/// lives in memory only, or the error of the open call.
#[verifier::external_body]
pub(crate) fn open_in_memory() -> (r: Result<rusqlite::Connection, rusqlite::Error>) {
    rusqlite::Connection::open_in_memory()
}

/// `rusqlite::Connection::open`: a connection to the store in the file at
/// `path`, or the error of the open call.
#[verifier::external_body]
pub(crate) fn open(path: &str) -> (r: Result<rusqlite::Connection, rusqlite::Error>) {
    rusqlite::Connection::open(path)
}

/// `rusqlite::Connection::execute` with positional parameters: prepares the
/// text, binds the values in order and runs the statement. On success the
/// result is the number of rows that the statement changed, inserted or
/// deleted. Nothing is claimed of what the store then holds.
#[verifier::external_body]
pub(crate) fn execute(conn: &rusqlite::Connection, sql: &str, params: &Vec<Param>) -> (r: Result<
    usize,
    rusqlite::Error,
>) {
    conn.execute(
        sql,
        rusqlite::params_from_iter(
            params.iter().map(
                |p| match p {
                    Param::Null => rusqlite::types::Value::Null,
                    Param::Integer(i) => rusqlite::types::Value::Integer(*i),
                    Param::Text(s) => rusqlite::types::Value::Text(s.clone()),
                },
            ),
        ),
    )
}

/// `rusqlite::Connection::last_insert_rowid`: the row id of the most recent
/// successful insert on this connection.
#[verifier::external_body]
pub(crate) fn last_insert_rowid(conn: &rusqlite::Connection) -> (r: i64) {
    conn.last_insert_rowid()
}

/// `rusqlite::Connection::prepare`: the prepared statement of the text, or
/// the error of the store.
#[verifier::external_body]
pub(crate) fn prepare<'c>(conn: &'c rusqlite::Connection, sql: &str) -> (r: Result<
    rusqlite::Statement<'c>,
    rusqlite::Error,
>) {
    conn.prepare(sql)
}

/// `rusqlite::Statement::query_map` with positional parameters, each row
/// read by `read_cells`, and the rows collected in the order in which the
/// store yields them. Nothing is claimed of which rows these are.
#[verifier::external_body]
pub(crate) fn query_rows(stmt: &mut rusqlite::Statement<'_>, params: &Vec<Param>) -> (r: Result<
    Vec<Vec<Cell>>,
    QueryFailure,
>) {
    let bound = rusqlite::params_from_iter(
        params.iter().map(
            |p| match p {
                Param::Null => rusqlite::types::Value::Null,
                Param::Integer(i) => rusqlite::types::Value::Integer(*i),
                Param::Text(s) => rusqlite::types::Value::Text(s.clone()),
            },
        ),
    );
    let rows = stmt.query_map(bound, |row| read_cells(row)).map_err(QueryFailure::Bind)?;
    rows.collect::<Result<Vec<Vec<Cell>>, rusqlite::Error>>().map_err(QueryFailure::Fetch)
}

/// `rusqlite::Statement::column_count`, on the statement of the row: the
/// number of columns of the row.
#[verifier::external_body]
pub(crate) fn column_count(row: &rusqlite::Row<'_>) -> (n: usize)
    ensures
        n == row_cells(row).len(),
{
    row.as_ref().column_count()
}

/// `rusqlite::Row::get` at a position, read as a dynamically typed value.
/// It fails for a position outside the row, and for a column that holds
/// text which is not valid UTF-8; else it succeeds with what the column
/// holds.
#[verifier::external_body]
pub(crate) fn cell_at(row: &rusqlite::Row<'_>, index: usize) -> (r: Result<Cell, rusqlite::Error>)
    ensures
        (r is Ok) == readable_at(row_cells(row), index as int),
        r matches Ok(c) ==> c@ == row_cells(row)[index as int],
{
    row.get::<usize, rusqlite::types::Value>(index).map(
        |v| match v {
            rusqlite::types::Value::Null => Cell::Null,
            rusqlite::types::Value::Integer(i) => Cell::Integer(i),
            rusqlite::types::Value::Real(_) => Cell::Real,
            rusqlite::types::Value::Text(s) => Cell::Text(s),
            rusqlite::types::Value::Blob(_) => Cell::Blob,
        },
    )
}

/// `rusqlite::Error::sqlite_error_code`, compared with the code of a
/// constraint violation. The answer depends on the error alone.
#[verifier::external_body]
pub(crate) fn is_constraint_violation(error: &rusqlite::Error) -> (r: bool)
    ensures
        r == reports_constraint(error),
{
    error.sqlite_error_code() == Some(rusqlite::ErrorCode::ConstraintViolation)
}

/// The error's message, as its `Display` impl writes it. The message
/// depends on the error alone.
#[verifier::external_body]
pub(crate) fn error_text(error: &rusqlite::Error) -> (r: String)
    ensures
        r@ == message_of(error),
{
    error.to_string()
}

/// All columns of a row, in the order of the row. The row is read exactly
/// when each of its columns can be read.
pub(crate) fn read_cells(row: &rusqlite::Row<'_>) -> (r: Result<Vec<Cell>, rusqlite::Error>)
    ensures
        r is Ok <==> readable(row_cells(row)),
        r matches Ok(cells) ==> cells_view(cells@) == row_cells(row),
{
    let n = column_count(row);
    let mut cells: Vec<Cell> = Vec::new();
    let mut i: usize = 0;
    assert(cells_view(cells@) =~= row_cells(row).take(0));
    while i < n
        invariant
            n == row_cells(row).len(),
            i <= n,
            cells_view(cells@) == row_cells(row).take(i as int),
            forall|j: int| 0 <= j < i ==> !(#[trigger] row_cells(row)[j] is Undecodable),
        decreases n - i,
    {
        match cell_at(row, i) {
            Ok(cell) => {
                let ghost before = cells@;
                cells.push(cell);
                assert(cells_view(cells@) =~= cells_view(before).push(cell@));
            },
            Err(e) => {
                assert(row_cells(row)[i as int] is Undecodable);
                return Err(e);
            },
        }
        assert(row_cells(row).take(i + 1) =~= row_cells(row).take(i as int).push(
            row_cells(row)[i as int],
        ));
        i += 1;
    }
    assert(row_cells(row).take(i as int) =~= row_cells(row));
    Ok(cells)
}

} // verus!
