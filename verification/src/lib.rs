//! A settings persistence layer: small named configuration records kept in an
//! embedded relational store behind one storage handle.
//!
//! Two kinds of record are kept, each in a table of its own: remote-service
//! records (`a2a_db`) and connection records (`handle`). A repository
//! operation builds a statement (`statement`), hands it to the store through
//! the handle, and reads the rows that come back (`row`) or reports the
//! failure (`error`). What is proved is this library's part: which text and
//! which values are handed to the store, how rows become records, how
//! failures are classed, and how the storage location is prepared
//! (`attach`). What the store does with a statement is the store's own.

pub mod a2a_db;
pub mod attach;
pub mod consistency;
pub mod error;
pub mod handle;
pub mod model;
pub mod placeholders;
pub mod row;
pub mod sqlite;
pub mod statement;
pub mod value;
