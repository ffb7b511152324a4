//! The `load` command: which store, which directory, and how to write.

use vstd::prelude::*;
use crate::error::{from_store, PackError};
use crate::pragma::{Journal, Synchronous};
use crate::setup::{bootstrap, connect, settle_journal, Options};

verus! {

/// Loads AddressBase CSV into SQLite.
#[derive(Debug, Clone)]
pub struct Cmd {
    /// Path to the SQLite database.
    pub db_path: String,
    /// Path to the directory with the decompressed CSV files.
    pub data_path: String,
    /// The synchronous pragma.
    pub sync: Synchronous,
    /// The journal mode pragma.
    pub journal: Journal,
    /// The amount of files to process before committing a transaction.
    pub files_per_transaction: usize,
}

impl Cmd {
    /// The command with every setting at its default: the store
    /// `./addresspack.sqlite`, the directory `./data/`, normal
    /// synchronisation, write-ahead logging and ten files per transaction.
    pub fn new() -> (cmd: Cmd)
        ensures
            cmd.db_path@ == "./addresspack.sqlite"@,
            cmd.data_path@ == "./data/"@,
            cmd.sync == Synchronous::Normal,
            cmd.journal == Journal::Wal,
            cmd.files_per_transaction == 10,
    {
        Cmd {
            db_path: "./addresspack.sqlite".to_owned(),
            data_path: "./data/".to_owned(),
            sync: Synchronous::Normal,
            journal: Journal::Wal,
            files_per_transaction: 10,
        }
    }

    /// The pragmas that the command asks for.
    pub fn options(&self) -> (opts: Options)
        ensures
            opts.synchronous == self.sync,
            opts.journal == self.journal,
    {
        Options { synchronous: self.sync, journal: self.journal }
    }

    /// Opens the store of the command and makes sure that it has its
    /// tables.
    pub fn open(&self) -> (r: Result<rusqlite::Connection, PackError>)
        ensures
            r matches Err(error) ==> from_store(error),
    {
        let conn = match connect(self.db_path.as_str(), self.options()) {
            Ok(conn) => conn,
            Err(error) => {
                return Err(error);
            },
        };
        match bootstrap(&conn) {
            Ok(()) => Ok(conn),
            Err(error) => Err(error),
        }
    }

    /// Ends a run on the store: a store that was loaded with write-ahead
    /// logging is set back to a rollback journal.
    pub fn close(&self, conn: &rusqlite::Connection) -> (r: Result<(), PackError>)
        ensures
            self.journal != Journal::Wal ==> r is Ok,
            r matches Err(error) ==> from_store(error),
    {
        settle_journal(conn, self.journal)
    }
}

} // verus!
