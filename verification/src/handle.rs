//! The storage handle: the one connection to the store that every repository
//! operation works on, and the repository of the connection records.
//!
//! The handle starts on a store in memory and is attached once to the durable
//! file. Whoever owns the handle serialises access to it; an operation here
//! borrows it for one statement, or for a write and the read that follows.

use vstd::prelude::*;
use crate::error::{
    kind_of, store_failure, CauseView, DbError, DbErrorView, ErrorKind, Operation, RecordKey,
    RecordKeyView, RowError, StoreFailure,
};
use crate::model::{DyncmcpConnection, DyncmcpConnectionView};
use crate::row::{connection_of_row, first_id, read_first_id, read_flag, read_integer, read_text};
use crate::sqlite::{
    execute, last_insert_rowid, open, open_in_memory, prepare, query_rows, QueryFailure,
};
use crate::statement::{
    connection_schema, insert_connection, select_connection_by_url, select_connection_id,
    select_connections, upsert_connection, SqlStatement,
};
use crate::value::{cells_view, rows_view, Cell, CellView};

verus! {

/// The directory of the durable store, below the directory that the host
/// chooses.
pub const STORAGE_DIR_NAME: &'static str = "a2a-client-db";

/// The file of the durable store inside its directory.
pub const STORAGE_FILE_NAME: &'static str = "index.db";

/// Whether the schema of the connection records was created on the store
/// that the handle is attached to. It is read and written only by whoever
/// holds the handle.
#[derive(Debug)]
pub struct SqlState(pub bool);

impl SqlState {
    /// The state of a store on which nothing was created yet.
    pub fn new() -> (r: SqlState)
        ensures
            !r.0,
    {
        SqlState(false)
    }
}

impl Default for SqlState {
    fn default() -> (r: SqlState)
        ensures
            !r.0,
    {
        SqlState(false)
    }
}

/// The storage handle.
#[derive(Debug)]
pub struct DbManager {
    pub name: String,
    pub connection: rusqlite::Connection,
}

/// The stages of a query at which the store can fail.
#[derive(Debug, Clone, Copy, PartialEq, Eq, Structural)]
pub enum QueryStage {
    /// The text is prepared.
    Prepare,
    /// The parameters are bound.
    Bind,
    /// The rows are fetched and read.
    Fetch,
}

/// The operation under which a failure of a query is reported: preparing
/// and binding have their own, fetching has that of the query.
pub open spec fn stage_operation(stage: QueryStage, operation: Operation) -> Operation {
    match stage {
        QueryStage::Prepare => Operation::PrepareQuery,
        QueryStage::Bind => Operation::MapQuery,
        QueryStage::Fetch => operation,
    }
}

/// Whether a failure is one of the store on a statement of `operation` that
/// worked on `key`. Its class is the one that the store's answer gives: a
/// constraint violation or not.
pub open spec fn failed_on(e: DbError, operation: Operation, key: RecordKeyView) -> bool {
    &&& e@.operation == operation
    &&& e@.key == key
    &&& e@.cause is Reported
    &&& e@.kind == kind_of(operation, true) || e@.kind == kind_of(operation, false)
}

/// Whether a failure is one of a query whose rows are collected under
/// `operation`: the store failed to prepare it, to bind its parameters, or
/// to yield a row.
pub open spec fn query_failed_on(e: DbError, operation: Operation, key: RecordKeyView) -> bool {
    ||| failed_on(e, Operation::PrepareQuery, key)
    ||| failed_on(e, Operation::MapQuery, key)
    ||| failed_on(e, operation, key)
}

/// The connection records that the rows of a result hold, or the error of
/// the first row that does not fit.
pub open spec fn connections_of_rows(rows: Seq<Seq<CellView>>, r: Result<
    Vec<DyncmcpConnection>,
    RowError,
>) -> bool {
    match r {
        Ok(v) => {
            &&& v@.len() == rows.len()
            &&& forall|i: int|
                0 <= i < rows.len() ==> connection_of_row(#[trigger] rows[i]) == Ok::<
                    DyncmcpConnectionView,
                    RowError,
                >(v@[i]@)
        },
        Err(e) => exists|k: int|
            {
                &&& 0 <= k < rows.len()
                &&& connection_of_row(#[trigger] rows[k]) == Err::<
                    DyncmcpConnectionView,
                    RowError,
                >(e)
                &&& forall|j: int| 0 <= j < k ==> connection_of_row(#[trigger] rows[j]) is Ok
            },
    }
}

/// Whether `r` is what a point lookup with the given rows returns: nothing
/// where there is no row, else the record of the first row, or the error of
/// that row where it does not fit.
pub open spec fn first_connection_of_rows(rows: Seq<Seq<CellView>>, r: Result<
    Option<DyncmcpConnection>,
    RowError,
>) -> bool {
    if rows.len() == 0 {
        r == Ok::<Option<DyncmcpConnection>, RowError>(None)
    } else {
        match r {
            Ok(Some(c)) => connection_of_row(rows[0]) == Ok::<DyncmcpConnectionView, RowError>(c@),
            Ok(None) => false,
            Err(e) => connection_of_row(rows[0]) == Err::<DyncmcpConnectionView, RowError>(e),
        }
    }
}

impl DbManager {
    /// Opens the handle on a new store in memory, which is lost when the
    /// handle is dropped. Failure is that of the store's open call.
    pub fn open_in_memory() -> (r: Result<DbManager, DbError>)
        ensures
            r matches Ok(db) ==> db.name@ == Seq::<char>::empty(),
            r matches Err(e) ==> {
                &&& e@.kind == ErrorKind::Lifecycle
                &&& e@.operation == Operation::OpenInMemory
                &&& e@.key == RecordKeyView::Unkeyed
                &&& e@.cause is Reported
            },
    {
        match open_in_memory() {
            Ok(connection) => Ok(DbManager { name: String::new(), connection }),
            Err(e) => Err(store_failure(&e).on(Operation::OpenInMemory, RecordKey::Unkeyed)),
        }
    }

    /// Attaches the handle to the store in the file at `path`. On success
    /// the handle works on that store, on which no schema is known to exist
    /// yet; on failure the handle and the state are as before.
    pub fn attach(&mut self, path: &str, state: &mut SqlState) -> (r: Result<(), DbError>)
        ensures
            r is Ok ==> final(self).name == old(self).name && !final(state).0,
            r matches Err(e) ==> {
                &&& *final(self) == *old(self)
                &&& *final(state) == *old(state)
                &&& e@.kind == ErrorKind::Lifecycle
                &&& e@.operation == Operation::OpenConnection
                &&& e@.key == RecordKeyView::Unkeyed
                &&& e@.cause is Reported
            },
    {
        match open(path) {
            Ok(connection) => {
                self.connection = connection;
                state.0 = false;
                Ok(())
            },
            Err(e) => Err(store_failure(&e).on(Operation::OpenConnection, RecordKey::Unkeyed)),
        }
    }

    /// What an operation that writes returns for what the store reported of
    /// its statement: the number of rows as it is, where a count of zero is
    /// no failure; or the failure, as one of `operation` on `key`.
    pub fn affected_rows(
        reported: Result<usize, StoreFailure>,
        operation: Operation,
        key: RecordKey,
    ) -> (r: Result<usize, DbError>)
        ensures
            match reported {
                Ok(n) => r is Ok && r->Ok_0 == n,
                Err(f) => r is Err && r->Err_0@ == (DbErrorView {
                    kind: kind_of(operation, f.constraint),
                    operation,
                    key: key@,
                    cause: CauseView::Reported(f.text@),
                }),
            },
    {
        match reported {
            Ok(n) => Ok(n),
            Err(f) => Err(f.on(operation, key)),
        }
    }

    /// The failure of a query whose rows are collected under `operation`,
    /// by the stage at which the store failed.
    pub fn query_error(
        stage: QueryStage,
        failure: StoreFailure,
        operation: Operation,
        key: RecordKey,
    ) -> (e: DbError)
        ensures
            e@ == (DbErrorView {
                kind: kind_of(stage_operation(stage, operation), failure.constraint),
                operation: stage_operation(stage, operation),
                key: key@,
                cause: CauseView::Reported(failure.text@),
            }),
    {
        let at = match stage {
            QueryStage::Prepare => Operation::PrepareQuery,
            QueryStage::Bind => Operation::MapQuery,
            QueryStage::Fetch => operation,
        };
        failure.on(at, key)
    }

    /// Executes a statement that returns no rows. The result is the number
    /// of rows that the store reports as changed, inserted or deleted; a
    /// failure of the store is reported as one of `operation` on `key`.
    pub fn run(&self, statement: &SqlStatement, operation: Operation, key: RecordKey) -> (r: Result<
        usize,
        DbError,
    >)
        ensures
            r matches Err(e) ==> failed_on(e, operation, key@),
    {
        match execute(&self.connection, statement.sql.as_str(), &statement.params) {
            Ok(rows_affected) => Self::affected_rows(Ok(rows_affected), operation, key),
            Err(e) => Self::affected_rows(Err(store_failure(&e)), operation, key),
        }
    }

    /// Runs a query and collects its rows in the order in which the store
    /// yields them. A failure to yield a row is reported as one of
    /// `operation` on `key`.
    pub fn query(&self, statement: &SqlStatement, operation: Operation, key: RecordKey) -> (r:
        Result<Vec<Vec<Cell>>, DbError>)
        ensures
            r matches Err(e) ==> query_failed_on(e, operation, key@),
    {
        let mut prepared = match prepare(&self.connection, statement.sql.as_str()) {
            Ok(prepared) => prepared,
            Err(e) => {
                return Err(
                    Self::query_error(QueryStage::Prepare, store_failure(&e), operation, key),
                );
            },
        };
        match query_rows(&mut prepared, &statement.params) {
            Ok(rows) => Ok(rows),
            Err(QueryFailure::Bind(e)) => Err(
                Self::query_error(QueryStage::Bind, store_failure(&e), operation, key),
            ),
            Err(QueryFailure::Fetch(e)) => Err(
                Self::query_error(QueryStage::Fetch, store_failure(&e), operation, key),
            ),
        }
    }

    /// Executes the statements of a schema in order and stops at the first
    /// that fails. A schema without statements succeeds, and the store is
    /// not touched.
    pub fn create_schema(&self, statements: &Vec<SqlStatement>, operation: Operation) -> (r: Result<
        (),
        DbError,
    >)
        ensures
            statements@.len() == 0 ==> r is Ok,
            r matches Err(e) ==> failed_on(e, operation, RecordKeyView::Unkeyed),
    {
        let mut i: usize = 0;
        while i < statements.len()
            invariant
                i <= statements.len(),
            decreases statements.len() - i,
        {
            match self.run(&statements[i], operation, RecordKey::Unkeyed) {
                Ok(_) => {},
                Err(e) => {
                    return Err(e);
                },
            }
            i += 1;
        }
        Ok(())
    }

    /// Makes sure that the table of the connection records and its index
    /// exist. Where the state says that they do, the store is not touched.
    /// Else they are created, each unless it exists, and the state records
    /// it; on failure the state is as before.
    pub fn init(&self, state: &mut SqlState) -> (r: Result<(), DbError>)
        ensures
            old(state).0 ==> r is Ok,
            r is Ok ==> final(state).0,
            r matches Err(e) ==> {
                &&& !final(state).0
                &&& failed_on(e, Operation::InitSchema, RecordKeyView::Unkeyed)
            },
    {
        if state.0 {
            return Ok(());
        }
        let statements = connection_schema();
        match self.create_schema(&statements, Operation::InitSchema) {
            Ok(()) => {
                state.0 = true;
                Ok(())
            },
            Err(e) => Err(e),
        }
    }

    /// Inserts a connection record and returns the id that the store
    /// assigned. The store refuses the insert where a record with the same
    /// natural key exists: that failure is one of `InsertConnection` with
    /// the kind `Constraint`, as the store reports it.
    pub fn insert(&self, ac: &DyncmcpConnection, state: &mut SqlState) -> (r: Result<i64, DbError>)
        ensures
            old(state).0 ==> final(state).0,
            r is Ok ==> final(state).0,
            r matches Err(e) ==> {
                ||| !final(state).0 && failed_on(e, Operation::InitSchema, RecordKeyView::Unkeyed)
                ||| final(state).0 && failed_on(
                    e,
                    Operation::InsertConnection,
                    RecordKeyView::Url(ac.url@),
                )
            },
    {
        self.init(state)?;
        let statement = insert_connection(ac);
        match self.run(&statement, Operation::InsertConnection, RecordKey::Url(ac.url.clone())) {
            Ok(_) => Ok(last_insert_rowid(&self.connection)),
            Err(e) => Err(e),
        }
    }

    /// Writes a connection record under its natural key: inserts it, or
    /// where a record with that key exists overwrites the other fields of
    /// that record. Then reads back the id of the record with that key and
    /// returns it.
    pub fn upsert(&self, ac: &DyncmcpConnection, state: &mut SqlState) -> (r: Result<i64, DbError>)
        ensures
            old(state).0 ==> final(state).0,
            r is Ok ==> final(state).0,
            r matches Err(e) ==> {
                ||| !final(state).0 && failed_on(e, Operation::InitSchema, RecordKeyView::Unkeyed)
                ||| final(state).0 && failed_on(
                    e,
                    Operation::UpsertConnection,
                    RecordKeyView::Url(ac.url@),
                )
                ||| {
                    &&& final(state).0
                    &&& e@.operation == Operation::RetrieveId
                    &&& e@.key == RecordKeyView::Url(ac.url@)
                    &&& e@.kind != ErrorKind::Lifecycle
                }
            },
    {
        self.init(state)?;
        let statement = upsert_connection(ac);
        self.run(&statement, Operation::UpsertConnection, RecordKey::Url(ac.url.clone()))?;
        let lookup = select_connection_id(&ac.url);
        match self.query(&lookup, Operation::RetrieveId, RecordKey::Url(ac.url.clone())) {
            Ok(rows) => Self::written_id(&rows, &ac.url),
            Err(e) => Err(e.during(Operation::RetrieveId)),
        }
    }

    /// The connection record with the natural key `url`, or none where the
    /// store holds no such record. The record carries its id.
    pub fn get_by_natural_key(&self, url: &str, state: &mut SqlState) -> (r: Result<
        Option<DyncmcpConnection>,
        DbError,
    >)
        ensures
            old(state).0 ==> final(state).0,
            r is Ok ==> final(state).0,
            r matches Ok(Some(c)) ==> c.id is Some,
            r matches Err(e) ==> {
                ||| !final(state).0 && failed_on(e, Operation::InitSchema, RecordKeyView::Unkeyed)
                ||| final(state).0 && query_failed_on(
                    e,
                    Operation::GetConnection,
                    RecordKeyView::Url(url@),
                )
                ||| {
                    &&& final(state).0
                    &&& e@.kind == ErrorKind::Store
                    &&& e@.operation == Operation::GetConnection
                    &&& e@.key == RecordKeyView::Url(url@)
                    &&& e@.cause is Row
                }
            },
    {
        self.init(state)?;
        let statement = select_connection_by_url(url);
        let rows = self.query(
            &statement,
            Operation::GetConnection,
            RecordKey::Url(url.to_owned()),
        )?;
        match Self::first_connection(&rows) {
            Ok(found) => Ok(found),
            Err(e) => Err(
                DbError::from_row(Operation::GetConnection, RecordKey::Url(url.to_owned()), e),
            ),
        }
    }

    /// All connection records, by ascending id. Every record carries its id.
    pub fn query_all(&self, state: &mut SqlState) -> (r: Result<Vec<DyncmcpConnection>, DbError>)
        ensures
            old(state).0 ==> final(state).0,
            r is Ok ==> final(state).0,
            r matches Ok(v) ==> forall|i: int| 0 <= i < v@.len() ==> (#[trigger] v@[i]).id is Some,
            r matches Err(e) ==> {
                ||| !final(state).0 && failed_on(e, Operation::InitSchema, RecordKeyView::Unkeyed)
                ||| final(state).0 && query_failed_on(
                    e,
                    Operation::CollectConnections,
                    RecordKeyView::Unkeyed,
                )
                ||| {
                    &&& final(state).0
                    &&& e@.kind == ErrorKind::Store
                    &&& e@.operation == Operation::CollectConnections
                    &&& e@.key == RecordKeyView::Unkeyed
                    &&& e@.cause is Row
                }
            },
    {
        self.init(state)?;
        let statement = select_connections();
        let rows = self.query(&statement, Operation::CollectConnections, RecordKey::Unkeyed)?;
        match Self::connections_from_rows(&rows) {
            Ok(v) => {
                assert forall|i: int| 0 <= i < v@.len() implies (#[trigger] v@[i]).id is Some by {
                    assert(connection_of_row(rows_view(rows@)[i]) is Ok);
                }
                Ok(v)
            },
            Err(e) => Err(DbError::from_row(Operation::CollectConnections, RecordKey::Unkeyed, e)),
        }
    }

    /// The connection record that a row holds, read from fixed positions:
    /// id, name, natural key, payload, flag.
    pub fn extrace_conns_row(cells: &Vec<Cell>) -> (r: Result<DyncmcpConnection, RowError>)
        ensures
            match r {
                Ok(c) => connection_of_row(cells_view(cells@)) == Ok::<
                    DyncmcpConnectionView,
                    RowError,
                >(c@),
                Err(e) => connection_of_row(cells_view(cells@)) == Err::<
                    DyncmcpConnectionView,
                    RowError,
                >(e),
            },
    {
        let id = read_integer(cells, 0)?;
        let name = read_text(cells, 1)?;
        let url = read_text(cells, 2)?;
        let api_key = read_text(cells, 3)?;
        let starred = read_flag(cells, 4)?;
        Ok(DyncmcpConnection { id: Some(id), name, url, api_key, starred })
    }

    /// The connection records that the rows of a result hold, in the order
    /// of the rows, or the error of the first row that does not fit.
    pub fn connections_from_rows(rows: &Vec<Vec<Cell>>) -> (r: Result<
        Vec<DyncmcpConnection>,
        RowError,
    >)
        ensures
            connections_of_rows(rows_view(rows@), r),
    {
        let mut out: Vec<DyncmcpConnection> = Vec::new();
        let mut i: usize = 0;
        while i < rows.len()
            invariant
                i <= rows.len(),
                out@.len() == i,
                forall|j: int|
                    0 <= j < i ==> connection_of_row(#[trigger] rows_view(rows@)[j]) == Ok::<
                        DyncmcpConnectionView,
                        RowError,
                    >(out@[j]@),
            decreases rows.len() - i,
        {
            assert(rows_view(rows@)[i as int] == cells_view(rows@[i as int]@));
            match Self::extrace_conns_row(&rows[i]) {
                Ok(c) => {
                    out.push(c);
                },
                Err(e) => {
                    return Err(e);
                },
            }
            i += 1;
        }
        Ok(out)
    }

    /// What a point lookup returns for the rows of its query: nothing where
    /// there is no row, else the record of the first row.
    pub fn first_connection(rows: &Vec<Vec<Cell>>) -> (r: Result<
        Option<DyncmcpConnection>,
        RowError,
    >)
        ensures
            first_connection_of_rows(rows_view(rows@), r),
    {
        if rows.len() == 0 {
            return Ok(None);
        }
        assert(rows_view(rows@)[0] == cells_view(rows@[0]@));
        match Self::extrace_conns_row(&rows[0]) {
            Ok(c) => Ok(Some(c)),
            Err(e) => Err(e),
        }
    }

    /// The id of a connection record that was just written, from the rows of
    /// the query for it: the id in the first row. That the query returned no
    /// row, or a row without an id, is a failure to retrieve the id.
    pub fn written_id(rows: &Vec<Vec<Cell>>, url: &String) -> (r: Result<i64, DbError>)
        ensures
            match first_id(rows_view(rows@)) {
                Ok(Some(id)) => r is Ok && r->Ok_0 == id,
                Ok(None) => r is Err && r->Err_0@ == (DbErrorView {
                    kind: ErrorKind::Store,
                    operation: Operation::RetrieveId,
                    key: RecordKeyView::Url(url@),
                    cause: CauseView::NoRows,
                }),
                Err(e) => r is Err && r->Err_0@ == (DbErrorView {
                    kind: ErrorKind::Store,
                    operation: Operation::RetrieveId,
                    key: RecordKeyView::Url(url@),
                    cause: CauseView::Row(e),
                }),
            },
    {
        match read_first_id(rows) {
            Ok(Some(id)) => Ok(id),
            Ok(None) => Err(DbError::no_rows(Operation::RetrieveId, RecordKey::Url(url.clone()))),
            Err(e) => Err(DbError::from_row(Operation::RetrieveId, RecordKey::Url(url.clone()), e)),
        }
    }
}

} // verus!
