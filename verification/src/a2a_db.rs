//! The repository of the remote-service records, and the two operations that
//! keep at most one of them active.
//!
//! To make a record the only active one, a caller sets its flag (by
//! `toggle_enabled` or an update) and then calls `ensure_single_enabled`.
//! These are two operations on the store: between them two records, or none,
//! may be active.

use vstd::prelude::*;
use crate::error::{DbError, ErrorKind, Operation, RecordKey, RecordKeyView, RowError};
use crate::handle::{failed_on, query_failed_on, DbManager};
use crate::model::{
    SettingA2AServer, SettingA2AServerParams, SettingA2AServerView, UpdateSettingA2AServerParams,
};
use crate::row::{read_flag, read_integer, read_opt_text, read_text, server_of_row};
use crate::sqlite::last_insert_rowid;
use crate::statement::{
    delete_server_by_id, delete_server_by_name, disable_other_servers, insert_server,
    select_enabled_servers, select_server_by_id, select_server_by_name, select_servers,
    server_schema, supplies_nothing, toggle_server, update_statement,
};
use crate::value::{cells_view, rows_view, Cell, CellView};

verus! {

/// The repository of the remote-service records. It holds no state: every
/// operation works on the storage handle that it is given.
#[derive(Debug, Clone, Copy)]
pub struct SettingA2AServerDbManager;

/// Whether `r` is what the rows of a result hold as remote-service records:
/// the records in the order of the rows, or the error of the first row that
/// does not fit.
pub open spec fn servers_of_rows(rows: Seq<Seq<CellView>>, r: Result<
    Vec<SettingA2AServer>,
    RowError,
>) -> bool {
    match r {
        Ok(v) => {
            &&& v@.len() == rows.len()
            &&& forall|i: int|
                0 <= i < rows.len() ==> server_of_row(#[trigger] rows[i]) == Ok::<
                    SettingA2AServerView,
                    RowError,
                >(v@[i]@)
        },
        Err(e) => exists|k: int|
            {
                &&& 0 <= k < rows.len()
                &&& server_of_row(#[trigger] rows[k]) == Err::<SettingA2AServerView, RowError>(e)
                &&& forall|j: int| 0 <= j < k ==> server_of_row(#[trigger] rows[j]) is Ok
            },
    }
}

/// Whether `r` is what a point lookup with the given rows returns: nothing
/// where there is no row, else the record of the first row, or the error of
/// that row where it does not fit.
pub open spec fn first_server_of_rows(rows: Seq<Seq<CellView>>, r: Result<
    Option<SettingA2AServer>,
    RowError,
>) -> bool {
    if rows.len() == 0 {
        r == Ok::<Option<SettingA2AServer>, RowError>(None)
    } else {
        match r {
            Ok(Some(s)) => server_of_row(rows[0]) == Ok::<SettingA2AServerView, RowError>(s@),
            Ok(None) => false,
            Err(e) => server_of_row(rows[0]) == Err::<SettingA2AServerView, RowError>(e),
        }
    }
}

/// Whether a failure is one of a row that does not fit the record, met
/// under `operation` on `key`.
pub open spec fn row_failed_on(e: DbError, operation: Operation, key: RecordKeyView) -> bool {
    &&& e@.kind == ErrorKind::Store
    &&& e@.operation == operation
    &&& e@.key == key
    &&& e@.cause is Row
}

impl SettingA2AServerDbManager {
    pub fn new() -> Self {
        Self
    }

    /// Creates the table of the remote-service records and its indexes,
    /// each unless it exists. It may be called any number of times.
    pub fn init(&self, db: &DbManager) -> (r: Result<(), DbError>)
        ensures
            r matches Err(e) ==> failed_on(e, Operation::CreateServerTable, RecordKeyView::Unkeyed),
    {
        let statements = server_schema();
        db.create_schema(&statements, Operation::CreateServerTable)
    }

    /// Inserts a record and returns the id that the store assigned to it.
    pub fn insert(&self, db: &DbManager, params: &SettingA2AServerParams) -> (r: Result<
        i64,
        DbError,
    >)
        ensures
            r matches Err(e) ==> failed_on(
                e,
                Operation::InsertServer,
                RecordKeyView::Url(params.agent_card_url@),
            ),
    {
        let statement = insert_server(params);
        let key = RecordKey::Url(params.agent_card_url.clone());
        match db.run(&statement, Operation::InsertServer, key) {
            Ok(_) => Ok(last_insert_rowid(&db.connection)),
            Err(e) => Err(e),
        }
    }

    /// Writes the supplied fields of the record `params.id`, refreshes its
    /// modification time, and returns the number of rows that the store
    /// changed. Where no field is supplied the store is not touched and the
    /// result is 0.
    pub fn update(&self, db: &DbManager, params: &UpdateSettingA2AServerParams) -> (r: Result<
        usize,
        DbError,
    >)
        ensures
            supplies_nothing(*params) ==> r is Ok && r->Ok_0 == 0,
            r matches Err(e) ==> failed_on(
                e,
                Operation::UpdateServer,
                RecordKeyView::Id(params.id as int),
            ),
    {
        match update_statement(params) {
            None => Ok(0),
            Some(statement) => db.run(
                &statement,
                Operation::UpdateServer,
                RecordKey::Id(params.id as i64),
            ),
        }
    }

    /// All records, by ascending id. Every record carries its id.
    pub fn get_all(&self, db: &DbManager) -> (r: Result<Vec<SettingA2AServer>, DbError>)
        ensures
            r matches Ok(v) ==> forall|i: int| 0 <= i < v@.len() ==> (#[trigger] v@[i]).id is Some,
            r matches Err(e) ==> {
                ||| query_failed_on(e, Operation::CollectServers, RecordKeyView::Unkeyed)
                ||| row_failed_on(e, Operation::CollectServers, RecordKeyView::Unkeyed)
            },
    {
        let statement = select_servers();
        let rows = db.query(&statement, Operation::CollectServers, RecordKey::Unkeyed)?;
        match Self::servers_from_rows(&rows) {
            Ok(v) => {
                assert forall|i: int| 0 <= i < v@.len() implies (#[trigger] v@[i]).id is Some by {
                    assert(server_of_row(rows_view(rows@)[i]) is Ok);
                }
                Ok(v)
            },
            Err(e) => Err(DbError::from_row(Operation::CollectServers, RecordKey::Unkeyed, e)),
        }
    }

    /// The record `id`, or none where the store holds no such record. The
    /// record carries its id.
    pub fn get_by_id(&self, db: &DbManager, id: i32) -> (r: Result<
        Option<SettingA2AServer>,
        DbError,
    >)
        ensures
            r matches Ok(Some(s)) ==> s.id is Some,
            r matches Err(e) ==> {
                ||| query_failed_on(e, Operation::GetServer, RecordKeyView::Id(id as int))
                ||| row_failed_on(e, Operation::GetServer, RecordKeyView::Id(id as int))
            },
    {
        let statement = select_server_by_id(id);
        let rows = db.query(&statement, Operation::GetServer, RecordKey::Id(id as i64))?;
        match Self::first_server(&rows) {
            Ok(found) => Ok(found),
            Err(e) => Err(DbError::from_row(Operation::GetServer, RecordKey::Id(id as i64), e)),
        }
    }

    /// The first record named `name`, or none where the store holds no such
    /// record. The record carries its id.
    pub fn get_by_name(&self, db: &DbManager, name: &str) -> (r: Result<
        Option<SettingA2AServer>,
        DbError,
    >)
        ensures
            r matches Ok(Some(s)) ==> s.id is Some,
            r matches Err(e) ==> {
                ||| query_failed_on(e, Operation::GetServer, RecordKeyView::Name(name@))
                ||| row_failed_on(e, Operation::GetServer, RecordKeyView::Name(name@))
            },
    {
        let statement = select_server_by_name(name);
        let rows = db.query(&statement, Operation::GetServer, RecordKey::Name(name.to_owned()))?;
        match Self::first_server(&rows) {
            Ok(found) => Ok(found),
            Err(e) => Err(
                DbError::from_row(Operation::GetServer, RecordKey::Name(name.to_owned()), e),
            ),
        }
    }

    /// The records whose flag is set, by ascending id. Every record carries
    /// its id.
    pub fn get_enabled(&self, db: &DbManager) -> (r: Result<Vec<SettingA2AServer>, DbError>)
        ensures
            r matches Ok(v) ==> forall|i: int| 0 <= i < v@.len() ==> (#[trigger] v@[i]).id is Some,
            r matches Err(e) ==> {
                ||| query_failed_on(e, Operation::CollectEnabledServers, RecordKeyView::Unkeyed)
                ||| row_failed_on(e, Operation::CollectEnabledServers, RecordKeyView::Unkeyed)
            },
    {
        let statement = select_enabled_servers();
        let rows = db.query(&statement, Operation::CollectEnabledServers, RecordKey::Unkeyed)?;
        match Self::servers_from_rows(&rows) {
            Ok(v) => {
                assert forall|i: int| 0 <= i < v@.len() implies (#[trigger] v@[i]).id is Some by {
                    assert(server_of_row(rows_view(rows@)[i]) is Ok);
                }
                Ok(v)
            },
            Err(e) => Err(
                DbError::from_row(Operation::CollectEnabledServers, RecordKey::Unkeyed, e),
            ),
        }
    }

    /// Deletes the record `id` and returns the number of rows that the store
    /// deleted. That there was no such record is no failure.
    pub fn delete_by_id(&self, db: &DbManager, id: i32) -> (r: Result<usize, DbError>)
        ensures
            r matches Err(e) ==> failed_on(
                e,
                Operation::DeleteServer,
                RecordKeyView::Id(id as int),
            ),
    {
        let statement = delete_server_by_id(id);
        db.run(&statement, Operation::DeleteServer, RecordKey::Id(id as i64))
    }

    /// Deletes the records named `name` and returns the number of rows that
    /// the store deleted. That there was no such record is no failure.
    pub fn delete_by_name(&self, db: &DbManager, name: &str) -> (r: Result<usize, DbError>)
        ensures
            r matches Err(e) ==> failed_on(e, Operation::DeleteServer, RecordKeyView::Name(name@)),
    {
        let statement = delete_server_by_name(name);
        db.run(&statement, Operation::DeleteServer, RecordKey::Name(name.to_owned()))
    }

    /// Flips the flag of the record `id`, refreshes its modification time,
    /// and returns the number of rows that the store changed.
    pub fn toggle_enabled(&self, db: &DbManager, id: i32) -> (r: Result<usize, DbError>)
        ensures
            r matches Err(e) ==> failed_on(
                e,
                Operation::ToggleEnabled,
                RecordKeyView::Id(id as int),
            ),
    {
        let statement = toggle_server(id);
        db.run(&statement, Operation::ToggleEnabled, RecordKey::Id(id as i64))
    }

    /// Clears the flag of every record but `enabled_id`, refreshes their
    /// modification times, and returns the number of rows that the store
    /// changed. The flag of `enabled_id` itself is neither read nor written.
    pub fn ensure_single_enabled(&self, db: &DbManager, enabled_id: i32) -> (r: Result<
        usize,
        DbError,
    >)
        ensures
            r matches Err(e) ==> failed_on(
                e,
                Operation::DisableOthers,
                RecordKeyView::Id(enabled_id as int),
            ),
    {
        let statement = disable_other_servers(enabled_id);
        db.run(&statement, Operation::DisableOthers, RecordKey::Id(enabled_id as i64))
    }

    /// The record that a row holds, read from fixed positions: id, name,
    /// natural key, payload, flag, creation time, modification time.
    pub fn extract_a2a_server_row(cells: &Vec<Cell>) -> (r: Result<SettingA2AServer, RowError>)
        ensures
            match r {
                Ok(s) => server_of_row(cells_view(cells@)) == Ok::<SettingA2AServerView, RowError>(
                    s@,
                ),
                Err(e) => server_of_row(cells_view(cells@)) == Err::<
                    SettingA2AServerView,
                    RowError,
                >(e),
            },
    {
        let id = read_integer(cells, 0)?;
        let name = read_text(cells, 1)?;
        let agent_card_url = read_text(cells, 2)?;
        let agent_card_json = read_opt_text(cells, 3)?;
        let enabled = read_flag(cells, 4)?;
        let created_at = read_opt_text(cells, 5)?;
        let updated_at = read_opt_text(cells, 6)?;
        Ok(
            SettingA2AServer {
                id: Some(id),
                name,
                agent_card_url,
                agent_card_json,
                enabled,
                created_at,
                updated_at,
            },
        )
    }

    /// The records that the rows of a result hold, in the order of the rows,
    /// or the error of the first row that does not fit.
    pub fn servers_from_rows(rows: &Vec<Vec<Cell>>) -> (r: Result<Vec<SettingA2AServer>, RowError>)
        ensures
            servers_of_rows(rows_view(rows@), r),
    {
        let mut out: Vec<SettingA2AServer> = Vec::new();
        let mut i: usize = 0;
        while i < rows.len()
            invariant
                i <= rows.len(),
                out@.len() == i,
                forall|j: int|
                    0 <= j < i ==> server_of_row(#[trigger] rows_view(rows@)[j]) == Ok::<
                        SettingA2AServerView,
                        RowError,
                    >(out@[j]@),
            decreases rows.len() - i,
        {
            assert(rows_view(rows@)[i as int] == cells_view(rows@[i as int]@));
            match Self::extract_a2a_server_row(&rows[i]) {
                Ok(s) => {
                    out.push(s);
                },
                Err(e) => {
                    return Err(e);
                },
            }
            i += 1;
        }
        Ok(out)
    }

    /// What a point lookup returns for the rows of its query: nothing where
    /// there is no row, else the record of the first row.
    pub fn first_server(rows: &Vec<Vec<Cell>>) -> (r: Result<Option<SettingA2AServer>, RowError>)
        ensures
            first_server_of_rows(rows_view(rows@), r),
    {
        if rows.len() == 0 {
            return Ok(None);
        }
        assert(rows_view(rows@)[0] == cells_view(rows@[0]@));
        match Self::extract_a2a_server_row(&rows[0]) {
            Ok(s) => Ok(Some(s)),
            Err(e) => Err(e),
        }
    }
}

} // verus!
