//! Loading the pending files, group by group.
//!
//! Each group of files is written inside one transaction, which is
//! committed only when every row of every file of the group went in; the
//! first failure leaves the group unwritten and ends the run.

use vstd::prelude::*;
use crate::batch::{batch, batch_count, batch_end, batch_start, into_batches, lemma_batch_bounds};
use crate::error::{from_store, PackError};
use crate::meta::{miss_message, statements_of, Cache};
use crate::record::{decoded_rows, decodes, first_field, records_view, Record, EMPTY_RECORD};
use crate::store::{begin, commit, execute, prepare_cached, TableInfo};
use crate::text::parse_u32_spec;

verus! {

/// Why a row cannot be given a statement.
pub enum RowFault {
    /// The row has no first field, or that field is absent.
    NoTable,
    /// The first field is no decimal number.
    NotNumber,
    /// No statement was prepared for the table that the row names.
    Unknown(u32),
}

/// The statement that a row is inserted with, or why there is none.
pub open spec fn statement_of(row: Seq<Option<Seq<char>>>, cache: Map<u32, Seq<char>>) -> Result<
    Seq<char>,
    RowFault,
> {
    match first_field(row) {
        None => Err(RowFault::NoTable),
        Some(text) => match parse_u32_spec(text) {
            None => Err(RowFault::NotNumber),
            Some(id) => if cache.contains_key(id) {
                Ok(cache[id])
            } else {
                Err(RowFault::Unknown(id))
            },
        },
    }
}

/// Whether `error` is the error that reports `fault`.
pub open spec fn reports(error: PackError, fault: RowFault) -> bool {
    match fault {
        RowFault::NoTable => error matches PackError::BadInput(text) && text@ == EMPTY_RECORD@,
        RowFault::NotNumber => error is ParseInt,
        RowFault::Unknown(id) => error matches PackError::CacheError(text) && text@
            == miss_message(id),
    }
}

/// Whether every row can be given a statement.
pub open spec fn loadable(rows: Seq<Seq<Option<Seq<char>>>>, cache: Map<u32, Seq<char>>) -> bool {
    forall|i: int| 0 <= i < rows.len() ==> (#[trigger] statement_of(rows[i], cache)) is Ok
}

/// Whether `error` reports the first row of `rows` that cannot be given a
/// statement.
pub open spec fn reports_first_fault(
    error: PackError,
    rows: Seq<Seq<Option<Seq<char>>>>,
    cache: Map<u32, Seq<char>>,
) -> bool {
    exists|i: int|
        0 <= i < rows.len() && loadable(rows.take(i), cache) && (#[trigger] statement_of(
            rows[i],
            cache,
        ) matches Err(fault) && reports(error, fault))
}

/// What a run has done: the transactions committed and the files loaded.
#[derive(Debug, Clone, Copy, PartialEq, Eq, Structural)]
pub struct Progress {
    pub transactions: usize,
    pub files: usize,
}

/// A run that stopped before its end: why, and what had been committed by
/// then.
#[derive(Debug)]
pub struct Halt {
    pub error: PackError,
    pub done: Progress,
}

/// Nothing committed and no file loaded.
pub open spec fn no_progress() -> Progress {
    Progress { transactions: 0, files: 0 }
}

impl Halt {
    /// A stop before anything was written.
    pub fn early(error: PackError) -> (halt: Halt)
        ensures
            halt.error == error,
            halt.done == no_progress(),
    {
        Halt { error, done: Progress { transactions: 0, files: 0 } }
    }
}

/// Looks up the statement for a record.
pub fn statement_for<'a>(record: &Record, cache: &'a Cache) -> (r: Result<&'a str, PackError>)
    ensures
        match statement_of(record@, cache@) {
            Ok(sql) => r matches Ok(found) && found@ == sql,
            Err(fault) => r matches Err(error) && reports(error, fault),
        },
{
    match record.table_id() {
        Ok(id) => cache.get(id),
        Err(error) => Err(error),
    }
}

/// Inserts the record into the table that it names.
pub fn insert_record(record: &Record, tx: &rusqlite::Transaction<'_>, cache: &Cache) -> (r: Result<
    (),
    PackError,
>)
    ensures
        match statement_of(record@, cache@) {
            Ok(_) => r matches Err(error) ==> from_store(error),
            Err(fault) => r matches Err(error) && reports(error, fault),
        },
{
    let sql = match statement_for(record, cache) {
        Ok(sql) => sql,
        Err(error) => {
            return Err(error);
        },
    };
    let mut stmt = match prepare_cached(tx, sql) {
        Ok(stmt) => stmt,
        Err(err) => {
            return Err(PackError::from(err));
        },
    };
    match execute(&mut stmt, record.as_slice()) {
        Ok(_) => Ok(()),
        Err(err) => Err(PackError::from(err)),
    }
}

/// Whether `error` reports what is wrong with a file: its first row that
/// cannot be given a statement, or, where every row that decodes can, that
/// a row does not decode.
pub open spec fn reports_file_fault(error: PackError, data: Seq<u8>, cache: Map<u32, Seq<char>>) -> bool {
    reports_first_fault(error, decoded_rows(data), cache) || (!decodes(data) && loadable(
        decoded_rows(data),
        cache,
    ) && error is Csv)
}

/// Whether every row of a file decodes and can be given a statement.
pub open spec fn file_loadable(data: Seq<u8>, cache: Map<u32, Seq<char>>) -> bool {
    decodes(data) && loadable(decoded_rows(data), cache)
}

/// Inserts the rows of a file, given as its bytes, in the order of the
/// rows, and returns their number. Stops at the first row that fails: one
/// that cannot be given a statement, one that the store refuses, or one
/// that does not decode.
pub fn process_csv(data: &[u8], tx: &rusqlite::Transaction<'_>, cache: &Cache) -> (r: Result<
    usize,
    PackError,
>)
    ensures
        match r {
            Ok(count) => file_loadable(data@, cache@) && count == decoded_rows(data@).len(),
            Err(error) => from_store(error) || reports_file_fault(error, data@, cache@),
        },
        decoded_rows(data@).len() == 0 && decodes(data@) ==> r == Ok::<usize, PackError>(0),
        decoded_rows(data@).len() == 0 && !decodes(data@) ==> r matches Err(PackError::Csv(_)),
        decoded_rows(data@).len() > 0 ==> (statement_of(decoded_rows(data@)[0], cache@) matches Err(
            fault,
        ) ==> r matches Err(error) && reports(error, fault)),
{
    let (records, failure) = Record::read_all(data);
    let ghost rows = records_view(records@);
    let mut i: usize = 0;
    while i < records.len()
        invariant
            i <= records.len(),
            rows == records_view(records@),
            rows == decoded_rows(data@),
            loadable(rows.take(i as int), cache@),
        decreases records.len() - i,
    {
        match insert_record(&records[i], tx, cache) {
            Ok(()) => {},
            Err(error) => {
                proof {
                    if !from_store(error) {
                        assert(statement_of(rows[i as int], cache@) is Err);
                        assert(reports_first_fault(error, rows, cache@));
                    }
                    if i > 0 {
                        assert(rows.take(i as int)[0] == rows[0]);
                        assert(statement_of(rows.take(i as int)[0], cache@) is Ok);
                    }
                }
                return Err(error);
            },
        }
        assert forall|j: int| 0 <= j < i + 1 implies (#[trigger] statement_of(
            rows.take(i + 1)[j],
            cache@,
        )) is Ok by {
            if j < i {
                assert(rows.take(i + 1)[j] == rows.take(i as int)[j]);
            }
        }
        i += 1;
    }
    assert(rows.take(i as int) =~= rows);
    assert(rows.len() > 0 ==> statement_of(rows[0], cache@) is Ok);
    match failure {
        None => Ok(i),
        Some(error) => Err(error),
    }
}

/// Whether every one of `files` decodes to rows that can all be given a
/// statement.
pub open spec fn all_loadable(files: Seq<Vec<u8>>, cache: Map<u32, Seq<char>>) -> bool {
    forall|i: int| 0 <= i < files.len() ==> #[trigger] file_loadable(files[i]@, cache)
}

/// Whether every row of every one of `files` decodes.
pub open spec fn all_decode(files: Seq<Vec<u8>>) -> bool {
    forall|i: int| 0 <= i < files.len() ==> #[trigger] decodes(files[i]@)
}

/// Whether file `i` is the first of `files` with something wrong, and
/// `error` reports it.
pub open spec fn fails_at(
    error: PackError,
    files: Seq<Vec<u8>>,
    cache: Map<u32, Seq<char>>,
    i: int,
) -> bool {
    0 <= i < files.len() && all_loadable(files.take(i), cache) && reports_file_fault(
        error,
        files[i]@,
        cache,
    )
}

/// Whether a run over `files` in groups of `fpt`, judged by the statements
/// of `cache`, can have stopped with `error` after `done`: a group was in
/// hand and stays uncommitted, the groups before it are committed in full
/// and all their files were without fault, and the error is a failure of
/// the store or reports the first file with something wrong, which lies in
/// the group in hand.
pub open spec fn stopped_in_group(
    error: PackError,
    done: Progress,
    files: Seq<Vec<u8>>,
    cache: Map<u32, Seq<char>>,
    fpt: nat,
) -> bool {
    &&& done.transactions < batch_count(files.len(), fpt)
    &&& done.files == done.transactions * fpt
    &&& done.files < files.len()
    &&& all_loadable(files.take(done.files as int), cache)
    &&& from_store(error) || exists|i: int|
        fails_at(error, files, cache, i) && done.transactions == i / (fpt as int)
}

/// Whether a run over `files` can have stopped as `halt` says: before
/// anything was written, on a failure of the store, or inside a group,
/// judged by the statements of some tables.
pub open spec fn ends_run(halt: Halt, files: Seq<Vec<u8>>, fpt: nat) -> bool {
    ||| from_store(halt.error) && halt.done == no_progress()
    ||| exists|tables: Seq<TableInfo>| #[trigger]
        stopped_in_group(halt.error, halt.done, files, statements_of(tables), fpt)
}

/// Whether there are tables by whose statements every row of every one of
/// `files` decodes and can be given a statement.
pub open spec fn all_resolve(files: Seq<Vec<u8>>) -> bool {
    exists|tables: Seq<TableInfo>| #[trigger] all_loadable(files, statements_of(tables))
}

/// Loads the files in groups of at most `fpt`, in their order: one
/// transaction per group, committed after the last file of the group. The
/// first failure ends the run with the group in hand uncommitted. Returns
/// what was committed, and the failure if there was one: the groups before
/// the one that failed are committed, that one and all after it are not.
pub fn run_batches(
    entries: Vec<Vec<u8>>,
    conn: &mut rusqlite::Connection,
    cache: &Cache,
    fpt: usize,
) -> (r: (Progress, Option<PackError>))
    requires
        fpt > 0,
    ensures
        match r.1 {
            None => r.0.transactions == batch_count(entries@.len(), fpt as nat) && r.0.files
                == entries@.len() && all_loadable(entries@, cache@),
            Some(error) => stopped_in_group(error, r.0, entries@, cache@, fpt as nat),
        },
        entries@.len() == 0 ==> r.1 is None,
{
    let ghost all = entries@;
    let ghost n = all.len();
    let ghost size = fpt as nat;
    let total: usize = entries.len();
    let groups = into_batches(entries, fpt);
    proof {
        crate::batch::law_batch_count_is_ceiling(n, size);
    }
    let mut done = Progress { transactions: 0, files: 0 };
    let mut k: usize = 0;
    assert(0 * size == 0) by (nonlinear_arith);
    while k < groups.len()
        invariant
            size == fpt as nat,
            size >= 1,
            n == all.len(),
            groups@.len() == batch_count(n, size),
            n == 0 ==> batch_count(n, size) == 0,
            n == total,
            all == entries@,
            forall|g: int| 0 <= g < groups@.len() ==> (#[trigger] groups@[g])@ == batch(all, size, g as nat),
            k <= groups@.len(),
            done.transactions == k,
            done.files == batch_start(n, size, k as nat),
            all_loadable(all.take(done.files as int), cache@),
        decreases groups.len() - k,
    {
        proof {
            lemma_batch_bounds(n, size, k as nat);
        }
        let group = &groups[k];
        let ghost start = batch_start(n, size, k as nat);
        assert(group@ == batch(all, size, k as nat));
        let tx = match begin(conn) {
            Ok(tx) => tx,
            Err(err) => {
                return (done, Some(PackError::from(err)));
            },
        };
        let mut j: usize = 0;
        while j < group.len()
            invariant
                j <= group@.len(),
                group@ == all.subrange(start as int, batch_end(n, size, k as nat) as int),
                start + group@.len() == batch_end(n, size, k as nat),
                group@.len() <= size,
                size == fpt as nat,
                start == k * size,
                batch_end(n, size, k as nat) <= n,
                n == all.len(),
                n == total,
                all == entries@,
                n > 0,
                done.files == start,
                done.transactions == k,
                k < groups@.len(),
                groups@.len() == batch_count(n, size),
                all_loadable(all.take(start as int), cache@),
                all_loadable(all.take(start + j), cache@),
            decreases group.len() - j,
        {
            assert(group@[j as int] == all[start + j]);
            match process_csv(group[j].as_slice(), &tx, cache) {
                Ok(_) => {},
                Err(error) => {
                    proof {
                        if !from_store(error) {
                            assert(fails_at(error, all, cache@, start + j));
                            vstd::arithmetic::div_mod::lemma_fundamental_div_mod_converse(
                                start + j,
                                size as int,
                                k as int,
                                j as int,
                            );
                        }
                    }
                    return (done, Some(error));
                },
            }
            assert forall|i: int| 0 <= i < start + j + 1 implies #[trigger] file_loadable(
                all.take(start + j + 1)[i]@,
                cache@,
            ) by {
                if i < start + j {
                    assert(all.take(start + j + 1)[i] == all.take(start + j)[i]);
                }
            }
            j += 1;
        }
        match commit(tx) {
            Ok(()) => {},
            Err(err) => {
                return (done, Some(PackError::from(err)));
            },
        }
        done.files = done.files + group.len();
        done.transactions = done.transactions + 1;
        k += 1;
    }
    proof {
        crate::batch::law_batches_partition(n, size);
        assert(all.take(n as int) =~= all);
    }
    (done, None)
}

/// Loads the files in groups of at most `fpt`, in their order: one
/// transaction per group, committed after the last file of the group. The
/// first failure ends the run with the group in hand uncommitted, and is
/// handed back with what was committed before it.
pub fn load_batches(
    entries: Vec<Vec<u8>>,
    conn: &mut rusqlite::Connection,
    cache: &Cache,
    fpt: usize,
) -> (r: Result<Progress, Halt>)
    requires
        fpt > 0,
    ensures
        r matches Ok(done) ==> done.transactions == batch_count(entries@.len(), fpt as nat)
            && done.files == entries@.len() && all_loadable(entries@, cache@),
        r matches Err(halt) ==> stopped_in_group(
            halt.error,
            halt.done,
            entries@,
            cache@,
            fpt as nat,
        ),
        entries@.len() == 0 ==> (r matches Ok(done) && done == no_progress()),
{
    proof {
        crate::batch::law_batch_count_is_ceiling(entries@.len(), fpt as nat);
    }
    let (done, failure) = run_batches(entries, conn, cache, fpt);
    match failure {
        None => Ok(done),
        Some(error) => Err(Halt { error, done }),
    }
}

/// Every file whose rows all decode and can be given a statement has rows
/// that all decode.
pub proof fn lemma_loadable_files_decode(files: Seq<Vec<u8>>, cache: Map<u32, Seq<char>>)
    requires
        all_loadable(files, cache),
    ensures
        all_decode(files),
{
    assert forall|i: int| 0 <= i < files.len() implies #[trigger] decodes(files[i]@) by {
        assert(file_loadable(files[i]@, cache));
    }
}

/// A run that ends with a CSV error met a file with a row that does not
/// decode.
pub proof fn lemma_csv_error_names_a_file(halt: Halt, files: Seq<Vec<u8>>, fpt: nat)
    requires
        ends_run(halt, files, fpt),
        halt.error is Csv,
    ensures
        !all_decode(files),
{
    let tables = choose|tables: Seq<TableInfo>| #[trigger]
        stopped_in_group(halt.error, halt.done, files, statements_of(tables), fpt);
    let i = choose|i: int|
        fails_at(halt.error, files, statements_of(tables), i) && halt.done.transactions == i / (
        fpt as int);
    assert(!decodes(files[i]@));
}

/// Processes all given files as CSV in groups of `fpt`, with the statements
/// that the store's own metadata gives. A failure is handed back with what
/// was committed before it.
pub fn process_entries(entries: Vec<Vec<u8>>, conn: &mut rusqlite::Connection, fpt: usize) -> (r:
    Result<Progress, Halt>)
    requires
        fpt > 0,
    ensures
        r matches Ok(done) ==> done.transactions == batch_count(entries@.len(), fpt as nat)
            && done.files == entries@.len() && all_decode(entries@) && all_resolve(entries@),
        r matches Err(halt) ==> ends_run(halt, entries@, fpt as nat),
        r matches Err(halt) ==> (halt.error is Csv ==> !all_decode(entries@)),
{
    let cache = match Cache::prepare(conn) {
        Ok(cache) => cache,
        Err(error) => {
            return Err(Halt::early(error));
        },
    };
    let ghost tables = choose|tables: Seq<TableInfo>| cache@ == #[trigger] statements_of(tables);
    let r = load_batches(entries, conn, &cache, fpt);
    proof {
        if r is Ok {
            assert(all_loadable(entries@, statements_of(tables)));
            lemma_loadable_files_decode(entries@, cache@);
        } else {
            let halt = r->Err_0;
            assert(stopped_in_group(
                halt.error,
                halt.done,
                entries@,
                statements_of(tables),
                fpt as nat,
            ));
            if halt.error is Csv {
                lemma_csv_error_names_a_file(halt, entries@, fpt as nat);
            }
        }
    }
    r
}

} // verus!
