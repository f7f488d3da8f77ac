//! The store that keeps the table in an SQLite database, reached through a
//! pool of connections.
//!
//! What the engine does with a statement is not known here. The statement
//! and its values are built by verified code; the answer of the engine is
//! taken as it comes and turned into the answer of the store.

use crate::db::analytics::{written, AnalyticsDB};
use crate::db::table::{
    covers, insert_statement, page_row, playback_row, row_is_covered, song_row, Row, RowView,
    SqlValue, SCHEMA,
};
use crate::db::{DbError, DbErrorKind};
use crate::kinds::MessageKind;
use crate::model::{
    EventView, MessageView, Metadata, PageChange, PlaybackChange, SongChange,
};
use vstd::prelude::*;

verus! {

/// A pool of connections to one database: an `r2d2::Pool` over an
/// `r2d2_sqlite::SqliteConnectionManager`, opaque here.
#[verifier::external_body]
struct ConnectionPool {
    inner: r2d2::Pool<r2d2_sqlite::SqliteConnectionManager>,
}

/// A connection on loan from a pool, which goes back when it is dropped: an
/// `r2d2::PooledConnection`, opaque here.
#[verifier::external_body]
struct Connection {
    inner: r2d2::PooledConnection<r2d2_sqlite::SqliteConnectionManager>,
}

/// `r2d2_sqlite::SqliteConnectionManager`: what opens the connections of a
/// pool, opaque here.
#[verifier::external_type_specification]
#[verifier::external_body]
pub struct ExConnectionManager(r2d2_sqlite::SqliteConnectionManager);

/// `r2d2::Error`: the failure of a pool, opaque here.
#[verifier::external_type_specification]
#[verifier::external_body]
pub struct ExPoolError(r2d2::Error);

/// `rusqlite::Error`: the failure of the engine, opaque here.
#[verifier::external_type_specification]
#[verifier::external_body]
pub struct ExEngineError(rusqlite::Error);

/// `rusqlite::CachedStatement`: a prepared statement that goes back to the
/// cache of its connection when it is dropped, opaque here.
#[verifier::external_type_specification]
#[verifier::external_body]
pub struct ExCachedStatement<'conn>(rusqlite::CachedStatement<'conn>);

/// `r2d2_sqlite::SqliteConnectionManager::file`: a manager that opens
/// connections to the database at the path. Nothing is opened yet, and
/// nothing is claimed of the outcome.
#[verifier::external_body]
fn file_manager(path: &str) -> (manager: r2d2_sqlite::SqliteConnectionManager) {
    r2d2_sqlite::SqliteConnectionManager::file(path)
}

/// `r2d2::Pool::new`: a pool, of the default size, of the connections that
/// the manager opens. Nothing is claimed of the outcome.
#[verifier::external_body]
fn new_pool(manager: r2d2_sqlite::SqliteConnectionManager) -> (r: Result<
    ConnectionPool,
    r2d2::Error,
>) {
    match r2d2::Pool::new(manager) {
        Ok(inner) => Ok(ConnectionPool { inner }),
        Err(e) => Err(e),
    }
}

/// `r2d2::Pool::clone`: another handle on the same pool. Nothing is claimed
/// of the outcome.
#[verifier::external_body]
fn share(pool: &ConnectionPool) -> (shared: ConnectionPool) {
    ConnectionPool { inner: pool.inner.clone() }
}

/// `r2d2::Pool::get`: takes a connection from the pool, waiting for one up
/// to the timeout that the pool was built with. Nothing is claimed of the
/// outcome.
#[verifier::external_body]
fn checkout(pool: &ConnectionPool) -> (r: Result<Connection, r2d2::Error>) {
    match pool.inner.get() {
        Ok(inner) => Ok(Connection { inner }),
        Err(e) => Err(e),
    }
}

/// `rusqlite::Connection::prepare_cached`: the prepared statement for the
/// text, from the cache of the connection where it holds one. Nothing is
/// claimed of the outcome.
#[verifier::external_body]
fn prepare_cached<'conn>(conn: &'conn Connection, sql: &str) -> (r: Result<
    rusqlite::CachedStatement<'conn>,
    rusqlite::Error,
>) {
    conn.inner.prepare_cached(sql)
}

/// `rusqlite::Statement::execute`: binds the values to the parameters of the
/// statement, in their order, and runs it. Nothing is claimed of the outcome.
#[verifier::external_body]
fn execute(statement: &mut rusqlite::CachedStatement<'_>, values: &Vec<SqlValue>) -> (r: Result<
    usize,
    rusqlite::Error,
>) {
    statement.execute(
        rusqlite::params_from_iter(
            values.iter().map(
                |value|
                    match value {
                        SqlValue::Null => rusqlite::types::Value::Null,
                        SqlValue::Integer(i) => rusqlite::types::Value::Integer(*i),
                        SqlValue::Text(s) => rusqlite::types::Value::Text(s.clone()),
                    },
            ),
        ),
    )
}

/// `rusqlite::Connection::execute_batch`: runs the statements of the text,
/// which take no parameters. Nothing is claimed of the outcome.
#[verifier::external_body]
fn execute_batch(conn: &Connection, sql: &str) -> (r: Result<(), rusqlite::Error>) {
    conn.inner.execute_batch(sql)
}

/// `rusqlite::Error::sqlite_extended_error_code`: the extended result code
/// of the engine, where the failure is one of the engine. Nothing is claimed
/// of the outcome.
#[verifier::external_body]
fn extended_code(e: &rusqlite::Error) -> (code: Option<i32>) {
    e.sqlite_extended_error_code()
}

/// The failure of the engine in the words of its `Debug` form.
#[verifier::external_body]
fn engine_message(e: &rusqlite::Error) -> (message: String) {
    format!("{:?}", e)
}

/// The failure of the pool in the words of its `Display` form.
#[verifier::external_body]
fn pool_message(e: &r2d2::Error) -> (message: String) {
    e.to_string()
}

/// The failure of the store that a failure of the engine becomes: a
/// uniqueness violation or a failure of the engine, as its extended result
/// code says, and never a failure of the pool.
fn engine_failure(e: &rusqlite::Error) -> (failure: DbError)
    ensures
        failure.kind == DbErrorKind::Uniqueness || failure.kind == DbErrorKind::Engine,
{
    DbError::engine(extended_code(e), engine_message(e))
}

/// The table in an SQLite database.
pub struct SqliteStore {
    pool: ConnectionPool,
    taken: Ghost<Seq<RowView>>,
}

impl SqliteStore {
    /// A store on the database at the path, with a pool of connections of
    /// its own. The table is not touched.
    pub fn open(path: &str) -> (r: Result<SqliteStore, DbError>)
        ensures
            r is Ok ==> r->Ok_0.rows() == Seq::<RowView>::empty(),
            r is Err ==> r->Err_0.kind == DbErrorKind::Pool,
    {
        match new_pool(file_manager(path)) {
            Err(e) => Err(DbError::pool(pool_message(&e))),
            Ok(pool) => Ok(SqliteStore { pool, taken: Ghost(Seq::empty()) }),
        }
    }

    /// Another store on the same database, with the same pool of
    /// connections and no row taken yet.
    pub fn handle(&self) -> (store: SqliteStore)
        ensures
            store.rows() == Seq::<RowView>::empty(),
    {
        SqliteStore { pool: share(&self.pool), taken: Ghost(Seq::empty()) }
    }

    /// Creates the table unless the database has it.
    pub fn create_table(&self) -> (r: Result<(), DbError>) {
        let conn = match checkout(&self.pool) {
            Err(e) => { return Err(DbError::pool(pool_message(&e))); },
            Ok(conn) => conn,
        };
        match execute_batch(&conn, SCHEMA) {
            Err(e) => Err(engine_failure(&e)),
            Ok(done) => Ok(done),
        }
    }

    /// Hands the row to the engine, in the insert statement of the kind, on
    /// a connection from the pool. The statement says all that the row holds.
    fn insert(&mut self, row: &Row, kind: MessageKind) -> (r: Result<(), DbError>)
        requires
            covers(kind, row@),
        ensures
            final(self).rows() == written(old(self).rows(), row@, r),
    {
        let statement = insert_statement(row, kind);
        let conn = match checkout(&self.pool) {
            Err(e) => { return Err(DbError::pool(pool_message(&e))); },
            Ok(conn) => conn,
        };
        let mut prepared = match prepare_cached(&conn, statement.sql.as_str()) {
            Err(e) => { return Err(engine_failure(&e)); },
            Ok(prepared) => prepared,
        };
        match execute(&mut prepared, &statement.values) {
            Err(e) => Err(engine_failure(&e)),
            Ok(_) => {
                proof {
                    self.taken@ = self.taken@.push(row@);
                }
                Ok(())
            },
        }
    }
}

impl AnalyticsDB for SqliteStore {
    /// The rows that the engine has taken from this store, oldest first.
    closed spec fn rows(&self) -> Seq<RowView> {
        self.taken@
    }

    /// The engine decides: every answer may come.
    open spec fn answers(&self, row: RowView, r: Result<(), DbError>) -> bool {
        true
    }

    fn store_page_change(&mut self, meta: &Metadata, change: &PageChange) -> (r: Result<
        (),
        DbError,
    >) {
        let row = page_row(meta, change);
        proof {
            row_is_covered(MessageView { metadata: meta@, event: EventView::PageChange(*change) });
        }
        self.insert(&row, MessageKind::PageChange)
    }

    fn store_playback_change(&mut self, meta: &Metadata, playback: &PlaybackChange) -> (r: Result<
        (),
        DbError,
    >) {
        let row = playback_row(meta, playback);
        proof {
            row_is_covered(
                MessageView { metadata: meta@, event: EventView::PlaybackChange(playback@) },
            );
        }
        self.insert(&row, MessageKind::PlaybackChange)
    }

    fn store_song_change(&mut self, meta: &Metadata, song: &SongChange) -> (r: Result<
        (),
        DbError,
    >) {
        let row = song_row(meta, song);
        proof {
            row_is_covered(MessageView { metadata: meta@, event: EventView::SongChange(song@) });
        }
        self.insert(&row, MessageKind::SongChange)
    }
}

/// Opens the store on the database at the path and creates the table
/// unless it is there.
pub fn initialize_db(path: &str) -> (r: Result<SqliteStore, DbError>)
    ensures
        r is Ok ==> r->Ok_0.rows() == Seq::<RowView>::empty(),
{
    let store = match SqliteStore::open(path) {
        Err(e) => { return Err(e); },
        Ok(store) => store,
    };
    match store.create_table() {
        Err(e) => Err(e),
        Ok(_) => Ok(store),
    }
}

} // verus!
