//! Failures of the persistence layer: what was being attempted, on which
//! key, and why the store refused.

use vstd::prelude::*;
use vstd::string::*;
use crate::sqlite::{error_text, is_constraint_violation, message_of, reports_constraint};

verus! {

/// The classes of failure that a caller can tell apart. That a key has no
/// record is no failure, and has no class here.
#[derive(Debug, Clone, Copy, PartialEq, Eq, Structural)]
pub enum ErrorKind {
    /// The storage location could not be prepared, or a connection to the
    /// store could not be opened.
    Lifecycle,
    /// Exclusive access to the storage handle could not be had.
    Lock,
    /// The store refused a write because it would break a constraint of the
    /// schema, such as the uniqueness of a natural key.
    Constraint,
    /// Any other failure of the store, or a row that does not fit a record.
    Store,
}

/// What was being attempted when a failure arose.
#[derive(Debug, Clone, Copy, PartialEq, Eq, Structural)]
pub enum Operation {
    AcquireLock,
    ResolveDirectory,
    CreateDirectory,
    CreateFile,
    OpenInMemory,
    OpenConnection,
    CreateServerTable,
    InsertServer,
    UpdateServer,
    PrepareQuery,
    MapQuery,
    CollectServers,
    CollectEnabledServers,
    GetServer,
    DeleteServer,
    ToggleEnabled,
    DisableOthers,
    InitSchema,
    InsertConnection,
    UpsertConnection,
    RetrieveId,
    GetConnection,
    CollectConnections,
}

/// The short description of an operation that failed.
pub open spec fn operation_text(operation: Operation) -> Seq<char> {
    match operation {
        Operation::AcquireLock => "failed to acquire DB lock"@,
        Operation::ResolveDirectory => "get desktop_dir failed"@,
        Operation::CreateDirectory => "create db dir failed"@,
        Operation::CreateFile => "create index.db failed"@,
        Operation::OpenInMemory => "in-memory db open failure"@,
        Operation::OpenConnection => "open db connection failed"@,
        Operation::CreateServerTable => "failed to create setting A2A server table"@,
        Operation::InsertServer => "failed to insert A2A server"@,
        Operation::UpdateServer => "failed to update A2A server"@,
        Operation::PrepareQuery => "failed to prepare query"@,
        Operation::MapQuery => "failed to map query"@,
        Operation::CollectServers => "failed to collect A2A servers"@,
        Operation::CollectEnabledServers => "failed to collect enabled A2A servers"@,
        Operation::GetServer => "failed to get A2A server"@,
        Operation::DeleteServer => "failed to delete A2A server"@,
        Operation::ToggleEnabled => "failed to toggle enabled status"@,
        Operation::DisableOthers => "failed to disable other A2A servers"@,
        Operation::InitSchema => "failed to execute init SQL"@,
        Operation::InsertConnection => "failed to insert connection"@,
        Operation::UpsertConnection => "failed to insert or update connection"@,
        Operation::RetrieveId => "failed to retrieve id after insert/update"@,
        Operation::GetConnection => "failed to get connection"@,
        Operation::CollectConnections => "failed to collect connections"@,
    }
}

/// Whether an operation prepares the storage location or opens a
/// connection to the store.
pub open spec fn attaches(operation: Operation) -> bool {
    ||| operation == Operation::ResolveDirectory
    ||| operation == Operation::CreateDirectory
    ||| operation == Operation::CreateFile
    ||| operation == Operation::OpenInMemory
    ||| operation == Operation::OpenConnection
}

/// The class of a failure: by the operation where it takes the lock or
/// attaches the store, else by whether the store reported a constraint
/// violation.
pub open spec fn kind_of(operation: Operation, constraint: bool) -> ErrorKind {
    if operation == Operation::AcquireLock {
        ErrorKind::Lock
    } else if attaches(operation) {
        ErrorKind::Lifecycle
    } else if constraint {
        ErrorKind::Constraint
    } else {
        ErrorKind::Store
    }
}

impl Operation {
    /// The short description of the operation that failed.
    pub fn description(self) -> (r: &'static str)
        ensures
            r@ == operation_text(self),
    {
        match self {
            Operation::AcquireLock => "failed to acquire DB lock",
            Operation::ResolveDirectory => "get desktop_dir failed",
            Operation::CreateDirectory => "create db dir failed",
            Operation::CreateFile => "create index.db failed",
            Operation::OpenInMemory => "in-memory db open failure",
            Operation::OpenConnection => "open db connection failed",
            Operation::CreateServerTable => "failed to create setting A2A server table",
            Operation::InsertServer => "failed to insert A2A server",
            Operation::UpdateServer => "failed to update A2A server",
            Operation::PrepareQuery => "failed to prepare query",
            Operation::MapQuery => "failed to map query",
            Operation::CollectServers => "failed to collect A2A servers",
            Operation::CollectEnabledServers => "failed to collect enabled A2A servers",
            Operation::GetServer => "failed to get A2A server",
            Operation::DeleteServer => "failed to delete A2A server",
            Operation::ToggleEnabled => "failed to toggle enabled status",
            Operation::DisableOthers => "failed to disable other A2A servers",
            Operation::InitSchema => "failed to execute init SQL",
            Operation::InsertConnection => "failed to insert connection",
            Operation::UpsertConnection => "failed to insert or update connection",
            Operation::RetrieveId => "failed to retrieve id after insert/update",
            Operation::GetConnection => "failed to get connection",
            Operation::CollectConnections => "failed to collect connections",
        }
    }
}

/// The key on which an operation worked.
#[derive(Debug, Clone, PartialEq, Eq)]
pub enum RecordKey {
    /// The operation is not about one record.
    Unkeyed,
    Id(i64),
    Name(String),
    /// The natural key of a record.
    Url(String),
}

/// A key as a mathematical value.
pub enum RecordKeyView {
    Unkeyed,
    Id(int),
    Name(Seq<char>),
    Url(Seq<char>),
}

impl View for RecordKey {
    type V = RecordKeyView;

    open spec fn view(&self) -> RecordKeyView {
        match *self {
            RecordKey::Unkeyed => RecordKeyView::Unkeyed,
            RecordKey::Id(i) => RecordKeyView::Id(i as int),
            RecordKey::Name(s) => RecordKeyView::Name(s@),
            RecordKey::Url(s) => RecordKeyView::Url(s@),
        }
    }
}

/// Why a row does not fit a record. The position is that of the column.
#[derive(Debug, Clone, Copy, PartialEq, Eq, Structural)]
pub enum RowError {
    /// The row has no column at this position.
    MissingColumn(usize),
    /// The column holds a value of another type than the field.
    WrongType(usize),
    /// The column holds an integer outside the range of the field.
    OutOfRange(usize),
}

/// Why an operation failed.
#[derive(Debug, Clone, PartialEq, Eq)]
pub enum Cause {
    /// The store or the system failed; the text is its own message.
    Reported(String),
    /// A row that the store returned does not fit the record.
    Row(RowError),
    /// A query that must return a row returned none.
    NoRows,
}

/// A cause as a mathematical value.
pub enum CauseView {
    Reported(Seq<char>),
    Row(RowError),
    NoRows,
}

impl View for Cause {
    type V = CauseView;

    open spec fn view(&self) -> CauseView {
        match *self {
            Cause::Reported(s) => CauseView::Reported(s@),
            Cause::Row(e) => CauseView::Row(e),
            Cause::NoRows => CauseView::NoRows,
        }
    }
}

/// What a cause reads as.
pub open spec fn cause_text(cause: CauseView) -> Seq<char> {
    match cause {
        CauseView::Reported(text) => text,
        CauseView::Row(error) => match error {
            RowError::MissingColumn(_) => "a row lacks a column of the record"@,
            RowError::WrongType(_) => "a column holds a value of another type than its field"@,
            RowError::OutOfRange(_) => "a column holds an integer outside the range of its field"@,
        },
        CauseView::NoRows => "the query returned no rows"@,
    }
}

impl Cause {
    /// What the cause reads as.
    pub fn text(&self) -> (r: String)
        ensures
            r@ == cause_text(self@),
    {
        match self {
            Cause::Reported(text) => text.clone(),
            Cause::Row(RowError::MissingColumn(_)) => "a row lacks a column of the record".to_owned(),
            Cause::Row(RowError::WrongType(_)) =>
                "a column holds a value of another type than its field".to_owned(),
            Cause::Row(RowError::OutOfRange(_)) =>
                "a column holds an integer outside the range of its field".to_owned(),
            Cause::NoRows => "the query returned no rows".to_owned(),
        }
    }
}

/// A failure of one operation of the persistence layer.
#[derive(Debug, Clone, PartialEq, Eq)]
pub struct DbError {
    pub kind: ErrorKind,
    pub operation: Operation,
    pub key: RecordKey,
    pub cause: Cause,
}

/// A failure as a mathematical value.
pub struct DbErrorView {
    pub kind: ErrorKind,
    pub operation: Operation,
    pub key: RecordKeyView,
    pub cause: CauseView,
}

impl View for DbError {
    type V = DbErrorView;

    open spec fn view(&self) -> DbErrorView {
        DbErrorView {
            kind: self.kind,
            operation: self.operation,
            key: self.key@,
            cause: self.cause@,
        }
    }
}

impl DbError {
    /// The failure of `operation` on `key` that the store or the system
    /// reported with the message `text`; `constraint` tells whether the
    /// store reported a constraint violation.
    pub fn from_store(operation: Operation, key: RecordKey, constraint: bool, text: String) -> (e:
        DbError)
        ensures
            e@ == (DbErrorView {
                kind: kind_of(operation, constraint),
                operation,
                key: key@,
                cause: CauseView::Reported(text@),
            }),
    {
        let kind = match operation {
            Operation::AcquireLock => ErrorKind::Lock,
            Operation::ResolveDirectory => ErrorKind::Lifecycle,
            Operation::CreateDirectory => ErrorKind::Lifecycle,
            Operation::CreateFile => ErrorKind::Lifecycle,
            Operation::OpenInMemory => ErrorKind::Lifecycle,
            Operation::OpenConnection => ErrorKind::Lifecycle,
            _ => if constraint {
                ErrorKind::Constraint
            } else {
                ErrorKind::Store
            },
        };
        DbError { kind, operation, key, cause: Cause::Reported(text) }
    }

    /// The failure of `operation` on `key` over a row that does not fit the
    /// record.
    pub fn from_row(operation: Operation, key: RecordKey, error: RowError) -> (e: DbError)
        ensures
            e@ == (DbErrorView {
                kind: ErrorKind::Store,
                operation,
                key: key@,
                cause: CauseView::Row(error),
            }),
    {
        DbError { kind: ErrorKind::Store, operation, key, cause: Cause::Row(error) }
    }

    /// The failure of `operation` on `key` over a query that returned no row
    /// where one was due.
    pub fn no_rows(operation: Operation, key: RecordKey) -> (e: DbError)
        ensures
            e@ == (DbErrorView {
                kind: ErrorKind::Store,
                operation,
                key: key@,
                cause: CauseView::NoRows,
            }),
    {
        DbError { kind: ErrorKind::Store, operation, key, cause: Cause::NoRows }
    }

    /// The failure to take the lock on the storage handle, with the message
    /// of the lock.
    pub fn lock_unavailable(text: String) -> (e: DbError)
        ensures
            e@ == (DbErrorView {
                kind: ErrorKind::Lock,
                operation: Operation::AcquireLock,
                key: RecordKeyView::Unkeyed,
                cause: CauseView::Reported(text@),
            }),
    {
        DbError::from_store(Operation::AcquireLock, RecordKey::Unkeyed, false, text)
    }

    /// The same failure, reported as one of `operation`.
    pub fn during(self, operation: Operation) -> (e: DbError)
        ensures
            e@ == (DbErrorView { operation, ..self@ }),
    {
        DbError { kind: self.kind, operation, key: self.key, cause: self.cause }
    }

    /// The short description of what was being attempted.
    pub fn message(&self) -> (r: String)
        ensures
            r@ == operation_text(self.operation),
    {
        self.operation.description().to_owned()
    }

    /// The description of what was being attempted, a colon, and the cause.
    pub fn detail(&self) -> (r: String)
        ensures
            r@ == operation_text(self.operation) + ": "@ + cause_text(self.cause@),
    {
        let mut out = self.operation.description().to_owned();
        out.append(": ");
        let cause = self.cause.text();
        out.append(cause.as_str());
        out
    }
}

/// What the store reported of a failure, as plain values.
#[derive(Debug, Clone, PartialEq, Eq)]
pub struct StoreFailure {
    /// Whether the store reported a constraint violation.
    pub constraint: bool,
    /// The store's own message.
    pub text: String,
}

impl StoreFailure {
    /// The failure of `operation` on `key` that the store reported so.
    pub fn on(self, operation: Operation, key: RecordKey) -> (e: DbError)
        ensures
            e@ == (DbErrorView {
                kind: kind_of(operation, self.constraint),
                operation,
                key: key@,
                cause: CauseView::Reported(self.text@),
            }),
    {
        DbError::from_store(operation, key, self.constraint, self.text)
    }
}

/// What an error of the store reports, as plain values: whether it carries
/// the code of a constraint violation, and its message.
pub(crate) fn store_failure(error: &rusqlite::Error) -> (r: StoreFailure)
    ensures
        r.constraint == reports_constraint(error),
        r.text@ == message_of(error),
{
    StoreFailure { constraint: is_constraint_violation(error), text: error_text(error) }
}

} // verus!
