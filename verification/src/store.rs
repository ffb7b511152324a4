//! The calls that reach the SQLite store.
//!
//! Every function here hands plain values to `rusqlite` and plain values
//! back; what the store answers depends on the database, so none of them
//! promises anything about its result.

use vstd::prelude::*;

verus! {

#[verifier::external_type_specification]
#[verifier::external_body]
pub struct ExConnection(rusqlite::Connection);

#[verifier::external_type_specification]
#[verifier::external_body]
pub struct ExTransaction<'conn>(rusqlite::Transaction<'conn>);

#[verifier::external_type_specification]
#[verifier::external_body]
pub struct ExStatement<'conn>(rusqlite::Statement<'conn>);

#[verifier::external_type_specification]
#[verifier::external_body]
pub struct ExCachedStatement<'conn>(rusqlite::CachedStatement<'conn>);

/// What a query for a single number came back with.
pub enum Scalar {
    /// The first row's first column.
    Value(u32),
    /// The query selected no row.
    NoRows,
    /// The store failed.
    Failed(rusqlite::Error),
}

/// One line of the store's table metadata: the table's identifier, its name
/// and the number of its columns.
pub struct TableInfo {
    pub id: u32,
    pub name: String,
    pub columns: u32,
}

impl TableInfo {
    /// The line for the table `id`, called `name`, with `columns` columns.
    pub fn new(id: u32, name: String, columns: u32) -> (info: TableInfo)
        ensures
            info.id == id,
            info.name == name,
            info.columns == columns,
    {
        TableInfo { id, name, columns }
    }
}

/// Opens the database file at `path`, creating it if need be.
///
/// Trusted: `rusqlite::Connection::open`.
#[verifier::external_body]
pub(crate) fn open(path: &str) -> (r: Result<rusqlite::Connection, rusqlite::Error>) {
    rusqlite::Connection::open(path)
}

/// Sets how many prepared statements the connection keeps.
///
/// Trusted: `rusqlite::Connection::set_prepared_statement_cache_capacity`.
#[verifier::external_body]
pub(crate) fn set_statement_cache_capacity(conn: &rusqlite::Connection, capacity: usize) {
    conn.set_prepared_statement_cache_capacity(capacity)
}

/// Sets the pragma `name` to `value`.
///
/// Trusted: `rusqlite::Connection::pragma_update` on the main schema.
#[verifier::external_body]
pub(crate) fn pragma_update(conn: &rusqlite::Connection, name: &str, value: &str) -> (r: Result<
    (),
    rusqlite::Error,
>) {
    conn.pragma_update(None, name, value)
}

/// Runs the statements of `sql` one after the other.
///
/// Trusted: `rusqlite::Connection::execute_batch`.
#[verifier::external_body]
pub(crate) fn execute_batch(conn: &rusqlite::Connection, sql: &str) -> (r: Result<
    (),
    rusqlite::Error,
>) {
    conn.execute_batch(sql)
}

/// Runs `sql` without parameters and reads the first column of its first
/// row as a `u32`.
///
/// Trusted: `rusqlite::Connection::query_row`; the error that rusqlite
/// documents for an empty result, `QueryReturnedNoRows`, is told apart from
/// every other.
#[verifier::external_body]
pub(crate) fn query_scalar(conn: &rusqlite::Connection, sql: &str) -> (r: Scalar) {
    match conn.query_row(sql, (), |row| row.get(0)) {
        Ok(value) => Scalar::Value(value),
        Err(rusqlite::Error::QueryReturnedNoRows) => Scalar::NoRows,
        Err(err) => Scalar::Failed(err),
    }
}

/// Prepares `sql` for running.
///
/// Trusted: `rusqlite::Connection::prepare`.
#[verifier::external_body]
pub(crate) fn prepare<'conn>(conn: &'conn rusqlite::Connection, sql: &str) -> (r: Result<
    rusqlite::Statement<'conn>,
    rusqlite::Error,
>) {
    conn.prepare(sql)
}

/// Runs the statement without parameters and reads every row as an
/// identifier, a name and a count, in the order in which the store yields
/// them.
///
/// Trusted: `rusqlite::Statement::query_map`, with `rusqlite::Row::get` for
/// the three columns.
#[verifier::external_body]
pub(crate) fn query_tables(stmt: &mut rusqlite::Statement<'_>) -> (r: Result<
    Vec<TableInfo>,
    rusqlite::Error,
>) {
    let rows = stmt.query_map((), |row| {
        Ok(TableInfo::new(row.get(0)?, row.get(1)?, row.get(2)?))
    })?;
    rows.collect()
}

/// Opens a transaction; dropping it without a commit rolls it back.
///
/// Trusted: `rusqlite::Connection::transaction`.
#[verifier::external_body]
pub(crate) fn begin<'conn>(conn: &'conn mut rusqlite::Connection) -> (r: Result<
    rusqlite::Transaction<'conn>,
    rusqlite::Error,
>) {
    conn.transaction()
}

/// Prepares `sql` inside the transaction, or takes it from the statements
/// that the connection keeps.
///
/// Trusted: `rusqlite::Connection::prepare_cached`, reached through the
/// transaction.
#[verifier::external_body]
pub(crate) fn prepare_cached<'conn>(tx: &'conn rusqlite::Transaction<'_>, sql: &str) -> (r: Result<
    rusqlite::CachedStatement<'conn>,
    rusqlite::Error,
>) {
    tx.prepare_cached(sql)
}

/// Binds `params` in order to the placeholders of the statement and runs
/// it; an absent value is bound as NULL. Returns the number of rows that
/// changed.
///
/// Trusted: `rusqlite::Statement::execute` with
/// `rusqlite::params_from_iter`.
#[verifier::external_body]
pub(crate) fn execute(stmt: &mut rusqlite::CachedStatement<'_>, params: &[Option<String>]) -> (r:
    Result<usize, rusqlite::Error>) {
    stmt.execute(rusqlite::params_from_iter(params.iter()))
}

/// Commits the transaction.
///
/// Trusted: `rusqlite::Transaction::commit`.
#[verifier::external_body]
pub(crate) fn commit(tx: rusqlite::Transaction<'_>) -> (r: Result<(), rusqlite::Error>) {
    tx.commit()
}

} // verus!
