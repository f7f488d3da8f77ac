//! Storage of messages: the table, the port that the dispatcher writes
//! through, and the stores behind it.

use vstd::prelude::*;

pub mod analytics;
pub mod memory;
pub mod sqlite;
pub mod table;

pub use self::sqlite::initialize_db;

verus! {

/// What went wrong in the store.
#[derive(Clone, Copy, Debug, PartialEq, Eq, Structural)]
pub enum DbErrorKind {
    /// The table already holds a row with the timestamp of the new one.
    Uniqueness,
    /// No connection could be had from the pool.
    Pool,
    /// The engine failed in any other way.
    Engine,
}

/// A failure of the store: its kind, and what the engine or the pool said.
#[derive(Clone, Debug, PartialEq, Eq)]
pub struct DbError {
    pub kind: DbErrorKind,
    pub message: String,
}

/// The extended result code of the engine for a second primary key.
pub const CONSTRAINT_PRIMARYKEY: i32 = 1555;

/// The extended result code of the engine for a second value in a unique
/// column.
pub const CONSTRAINT_UNIQUE: i32 = 2067;

/// The extended result code of the engine for a second row id.
pub const CONSTRAINT_ROWID: i32 = 2579;

/// The kind of failure that an extended result code of the engine stands
/// for: a uniqueness violation for the three codes that say so, and a failure
/// of the engine for every other code and where there is no code.
pub open spec fn kind_of_code(code: Option<i32>) -> DbErrorKind {
    match code {
        Some(c) => if c == CONSTRAINT_PRIMARYKEY || c == CONSTRAINT_UNIQUE || c
            == CONSTRAINT_ROWID {
            DbErrorKind::Uniqueness
        } else {
            DbErrorKind::Engine
        },
        None => DbErrorKind::Engine,
    }
}

impl DbError {
    /// The failure that the engine reported with this extended result code,
    /// if it gave one, and this description.
    pub fn engine(code: Option<i32>, message: String) -> (e: DbError)
        ensures
            e.kind == kind_of_code(code),
            e.message == message,
    {
        let kind = match code {
            Some(c) => if c == CONSTRAINT_PRIMARYKEY || c == CONSTRAINT_UNIQUE || c
                == CONSTRAINT_ROWID {
                DbErrorKind::Uniqueness
            } else {
                DbErrorKind::Engine
            },
            None => DbErrorKind::Engine,
        };
        DbError { kind, message }
    }

    /// The failure to get a connection from the pool.
    pub fn pool(message: String) -> (e: DbError)
        ensures
            e.kind == DbErrorKind::Pool,
            e.message == message,
    {
        DbError { kind: DbErrorKind::Pool, message }
    }

    /// Whether the failure is a second row with a timestamp that the table
    /// already holds.
    pub fn is_uniqueness(&self) -> (r: bool)
        ensures
            r == (self.kind == DbErrorKind::Uniqueness),
    {
        match self.kind {
            DbErrorKind::Uniqueness => true,
            _ => false,
        }
    }
}

} // verus!
