//! Opening the store and making sure that it has its tables.

use vstd::prelude::*;
use crate::error::{from_store, PackError};
use crate::pragma::{Journal, Synchronous};
use crate::store::{execute_batch, open, pragma_update, set_statement_cache_capacity};

verus! {

/// How the store is to write: the two pragmas that trade safety for speed.
#[derive(Debug, Clone, Copy)]
pub struct Options {
    pub synchronous: Synchronous,
    pub journal: Journal,
}

/// The number of prepared statements that a connection keeps at hand.
pub const STATEMENT_CACHE_CAPACITY: usize = 20;

/// Creates the tables that the loader reads, where they are missing: the
/// description of the tables and of their columns, and the header and
/// trailer records of a volume with their own descriptions.
pub const BOOTSTRAP_SQL: &'static str =
    "CREATE TABLE IF NOT EXISTS table_info (id INTEGER NOT NULL PRIMARY KEY, name TEXT NOT NULL UNIQUE);
CREATE TABLE IF NOT EXISTS column_info (id INTEGER NOT NULL PRIMARY KEY, table_id INTEGER NOT NULL, name TEXT NOT NULL, UNIQUE (table_id, name));
CREATE TABLE IF NOT EXISTS header (record_identifier INTEGER NOT NULL, custodian_name TEXT, local_custodian_code INTEGER, process_date TEXT, volume_number INTEGER, entry_date TEXT, time_stamp TEXT, version TEXT, file_type TEXT);
CREATE TABLE IF NOT EXISTS trailer (record_identifier INTEGER NOT NULL, next_volume_name INTEGER NOT NULL, record_count INTEGER, entry_date TEXT, time_stamp TEXT);
INSERT OR IGNORE INTO table_info (id, name) VALUES (10, 'header'), (99, 'trailer');
INSERT OR IGNORE INTO column_info (table_id, name) VALUES (10, 'record_identifier'), (10, 'custodian_name'), (10, 'local_custodian_code'), (10, 'process_date'), (10, 'volume_number'), (10, 'entry_date'), (10, 'time_stamp'), (10, 'version'), (10, 'file_type'), (99, 'record_identifier'), (99, 'next_volume_name'), (99, 'record_count'), (99, 'entry_date'), (99, 'time_stamp');";

/// Opens the SQLite database at `path` and sets it up for bulk loading.
pub fn connect(path: &str, opts: Options) -> (r: Result<rusqlite::Connection, PackError>)
    ensures
        r matches Err(error) ==> from_store(error),
{
    let conn = match open(path) {
        Ok(conn) => conn,
        Err(err) => {
            return Err(PackError::from(err));
        },
    };
    set_statement_cache_capacity(&conn, STATEMENT_CACHE_CAPACITY);
    match pragma_update(&conn, "cache_size", "100000") {
        Ok(()) => {},
        Err(err) => {
            return Err(PackError::from(err));
        },
    }
    match pragma_update(&conn, "foreign_keys", "off") {
        Ok(()) => {},
        Err(err) => {
            return Err(PackError::from(err));
        },
    }
    match pragma_update(&conn, "synchronous", opts.synchronous.to_string().as_str()) {
        Ok(()) => {},
        Err(err) => {
            return Err(PackError::from(err));
        },
    }
    match pragma_update(&conn, "journal_mode", opts.journal.to_string().as_str()) {
        Ok(()) => {},
        Err(err) => {
            return Err(PackError::from(err));
        },
    }
    Ok(conn)
}

/// Creates whatever the store lacks of its tables; does nothing where all
/// is in place.
pub fn bootstrap(conn: &rusqlite::Connection) -> (r: Result<(), PackError>)
    ensures
        r matches Err(error) ==> from_store(error),
{
    match execute_batch(conn, BOOTSTRAP_SQL) {
        Ok(()) => Ok(()),
        Err(err) => Err(PackError::from(err)),
    }
}

/// Leaves write-ahead logging behind once loading is over: the mode
/// outlives the connection, so a store that was loaded in it is
/// checkpointed and set back to a rollback journal. Any other mode is left
/// as it is, and the store is not touched.
pub fn settle_journal(conn: &rusqlite::Connection, journal: Journal) -> (r: Result<(), PackError>)
    ensures
        journal != Journal::Wal ==> r is Ok,
        r matches Err(error) ==> from_store(error),
{
    if journal == Journal::Wal {
        match pragma_update(conn, "wal_checkpoint", "restart") {
            Ok(()) => {},
            Err(err) => {
                return Err(PackError::from(err));
            },
        }
        match pragma_update(conn, "journal_mode", "delete") {
            Ok(()) => {},
            Err(err) => {
                return Err(PackError::from(err));
            },
        }
    }
    Ok(())
}

} // verus!
