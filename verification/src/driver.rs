//! A run over a directory of input files, step by step.
//!
//! The run itself never touches the file system: it says what it needs
//! next, the entries of the directory or the bytes of one group of files,
//! and goes on once it is handed them. No more than one group of files is
//! asked for at a time.

use vstd::prelude::*;
use crate::achievement::Achievement;
use crate::batch::{batch, batch_count, into_batches, law_batch_count_is_ceiling};
use crate::cursor::next_index;
use crate::error::{from_store, PackError};
use crate::files::{
    check_directory, csv_names, is_ordering_of, names_view, pending_count, pending_files,
    pending_from,
};
use crate::meta::Cache;
use crate::schedule::{
    all_decode, all_loadable, all_resolve, ends_run, load_batches, no_progress,
    lemma_csv_error_names_a_file, lemma_loadable_files_decode, stopped_in_group, Halt, Progress,
};

verus! {

/// What a run carries from one group of files to the next.
pub struct Run {
    /// The statements of the run, once they are built.
    pub cache: Option<Cache>,
    /// The groups of files that are still to be asked for, in order.
    pub rest: Vec<Vec<String>>,
    /// What has been committed so far.
    pub done: Progress,
}

/// What the caller hands to a run.
pub enum DirEvent {
    /// The run begins; whether the input path is a directory.
    Start { is_dir: bool },
    /// The paths of the directory's entries, in any order, asked for with
    /// the index of the next file to load.
    Listing { index: u32, entries: Vec<String> },
    /// The bytes of the files that were asked for, in the order asked,
    /// with the run as it was handed out.
    Contents { files: Vec<Vec<u8>>, run: Run },
}

/// What a run asks of the caller.
pub enum DirAction {
    /// List the directory; the file with this index is the next to load.
    List(u32),
    /// Read these files, one group, in this order, and hand the run back
    /// with them.
    Read { names: Vec<String>, run: Run },
    /// Nothing more: the run is over, with this outcome and with this much
    /// committed.
    Finish(Achievement, Progress),
}

/// What a run does once it knows where to resume: with nothing left it is
/// over and nothing was to be done, otherwise the directory is listed with
/// the index of the next file.
pub fn start_action(cursor: Option<u32>) -> (action: DirAction)
    ensures
        cursor matches Some(index) ==> action == DirAction::List(index),
        cursor is None ==> action == DirAction::Finish(Achievement::Noop, no_progress()),
{
    match cursor {
        Some(index) => DirAction::List(index),
        None => DirAction::Finish(Achievement::Noop, Progress { transactions: 0, files: 0 }),
    }
}

/// Whether `halt` refuses `dir` as no directory, before anything was
/// written.
pub open spec fn refuses(halt: Halt, dir: Seq<char>) -> bool {
    halt.done == no_progress() && (halt.error matches PackError::BadInput(text) && text@ == dir)
}

/// Whether a run ended with nothing to do and nothing written.
pub open spec fn idle(action: DirAction) -> bool {
    action == DirAction::Finish(Achievement::Noop, no_progress())
}

/// What is committed once `step` has been committed on top of `before`.
pub open spec fn advanced(before: Progress, step: Progress) -> Progress {
    Progress {
        transactions: (before.transactions + step.transactions) as usize,
        files: (before.files + step.files) as usize,
    }
}

/// What loading all of `count` files in groups of `fpt` commits.
pub open spec fn whole_step(count: nat, fpt: nat) -> Progress {
    Progress { transactions: batch_count(count, fpt) as usize, files: count as usize }
}

/// Whether a run asks for the first group of `pending`, cut into groups of
/// `fpt`, and keeps the other groups, in order, for later.
pub open spec fn asks_first_group(
    names: Vec<String>,
    run: Run,
    pending: Seq<Seq<char>>,
    fpt: nat,
) -> bool {
    &&& pending.len() > 0
    &&& names_view(names@) == batch(pending, fpt, 0)
    &&& run.cache is None
    &&& run.done == no_progress()
    &&& run.rest@.len() + 1 == batch_count(pending.len(), fpt)
    &&& forall|k: int|
        0 <= k < run.rest@.len() ==> names_view((#[trigger] run.rest@[k])@) == batch(
            pending,
            fpt,
            (k + 1) as nat,
        )
}

/// Whether every row of every one of `files` decodes and can be given a
/// statement: one of the run's statements where it has them, one of some
/// tables' statements where they were still to be built.
pub open spec fn step_resolves(files: Seq<Vec<u8>>, cache: Option<Cache>) -> bool {
    match cache {
        Some(known) => all_loadable(files, known@),
        None => all_resolve(files),
    }
}

/// Whether a step over `files` can have stopped as `halt` says, `before`
/// having been committed when it began: what the step itself committed
/// comes on top, and the step stopped as a run over `files` stops.
pub open spec fn step_stops(
    halt: Halt,
    before: Progress,
    files: Seq<Vec<u8>>,
    cache: Option<Cache>,
    fpt: nat,
) -> bool {
    exists|step: Progress|
        halt.done == #[trigger] advanced(before, step) && match cache {
            Some(known) => stopped_in_group(halt.error, step, files, known@, fpt),
            None => ends_run((Halt { error: halt.error, done: step }), files, fpt),
        }
}

/// Whether a run goes on to its next group after a step: the first of the
/// groups that were left is asked for, the others stay, the statements are
/// kept, and `done` is what has been committed.
pub open spec fn asks_next_group(names: Vec<String>, next: Run, run: Run, done: Progress) -> bool {
    &&& run.rest@.len() > 0
    &&& names == run.rest@[0]
    &&& next.rest@ == run.rest@.remove(0)
    &&& next.done == done
    &&& next.cache is Some
    &&& run.cache is Some ==> next.cache == run.cache
}

/// Takes a run over the directory `dir` one step further.
///
/// At the start a path that is no directory is refused, and a store in
/// which everything is loaded ends the run with nothing to do. Of a listing
/// the pending CSV files are put in the order of their names and cut into
/// groups of `fpt`; the first group is asked for, unless none is pending,
/// which again ends the run with nothing to do. The contents of a group
/// are loaded in one transaction, and the next group is asked for, or the
/// run is over. Only that last step writes to the store.
pub fn process_dir(dir: &str, event: DirEvent, conn: &mut rusqlite::Connection, fpt: usize) -> (r:
    Result<DirAction, Halt>)
    requires
        event matches DirEvent::Listing { index, entries } ==> (pending_count(
            names_view(entries@),
            Some(index),
        ) > 0 ==> fpt > 0),
        event matches DirEvent::Contents { files, run } ==> (files@.len() > 0 ==> fpt > 0
            && run.done.transactions + files@.len() <= usize::MAX && run.done.files + files@.len()
            <= usize::MAX),
    ensures
        match event {
            DirEvent::Start { is_dir } => {
                &&& *final(conn) == *old(conn)
                &&& !is_dir ==> (r matches Err(halt) && refuses(halt, dir@))
                &&& is_dir ==> match r {
                    Ok(DirAction::List(index)) => index > 0,
                    Ok(DirAction::Read { .. }) => false,
                    Ok(action) => idle(action),
                    Err(halt) => from_store(halt.error) && halt.done == no_progress(),
                }
            },
            DirEvent::Listing { index, entries } => {
                &&& *final(conn) == *old(conn)
                &&& exists|sorted: Seq<Seq<char>>| #[trigger]
                    is_ordering_of(sorted, csv_names(names_view(entries@))) && match r {
                        Ok(DirAction::Read { names, run }) => asks_first_group(
                            names,
                            run,
                            pending_from(sorted, index),
                            fpt as nat,
                        ),
                        Ok(DirAction::List(_)) => false,
                        Ok(action) => idle(action) && pending_from(sorted, index).len() == 0,
                        Err(_) => false,
                    }
                &&& index == 0 || index - 1 >= csv_names(names_view(entries@)).len() ==> (r
                    matches Ok(action) && idle(action))
            },
            DirEvent::Contents { files, run } => {
                &&& files@.len() == 0 ==> *final(conn) == *old(conn) && r == Ok::<DirAction, Halt>(
                    DirAction::Finish(
                        if run.done.files == 0 {
                            Achievement::Noop
                        } else {
                            Achievement::Done
                        },
                        run.done,
                    ),
                )
                &&& files@.len() > 0 ==> match r {
                    Ok(DirAction::Finish(outcome, done)) => {
                        &&& outcome == Achievement::Done
                        &&& run.rest@.len() == 0
                        &&& done == advanced(run.done, whole_step(files@.len(), fpt as nat))
                        &&& all_decode(files@)
                        &&& step_resolves(files@, run.cache)
                    },
                    Ok(DirAction::Read { names, run: next }) => {
                        &&& asks_next_group(
                            names,
                            next,
                            run,
                            advanced(run.done, whole_step(files@.len(), fpt as nat)),
                        )
                        &&& all_decode(files@)
                        &&& step_resolves(files@, run.cache)
                    },
                    Ok(DirAction::List(_)) => false,
                    Err(halt) => step_stops(halt, run.done, files@, run.cache, fpt as nat) && (
                    halt.error is Csv ==> !all_decode(files@)),
                }
            },
        },
{
    match event {
        DirEvent::Start { is_dir } => {
            match check_directory(dir, is_dir) {
                Ok(()) => {},
                Err(error) => {
                    return Err(Halt::early(error));
                },
            }
            match next_index(conn) {
                Ok(cursor) => Ok(start_action(cursor)),
                Err(error) => Err(Halt::early(error)),
            }
        },
        DirEvent::Listing { index, entries } => {
            let pending = pending_files(&entries, Some(index));
            if pending.len() == 0 {
                return Ok(
                    DirAction::Finish(Achievement::Noop, Progress { transactions: 0, files: 0 }),
                );
            }
            let ghost all = pending@;
            let ghost size = fpt as nat;
            proof {
                law_batch_count_is_ceiling(all.len(), size);
                assert(batch_count(all.len(), size) > 0) by (nonlinear_arith)
                    requires
                        batch_count(all.len(), size) * size >= all.len(),
                        all.len() > 0,
                ;
            }
            let mut groups = into_batches(pending, fpt);
            let ghost cut = groups@;
            let names = groups.remove(0);
            let run = Run { cache: None, rest: groups, done: Progress { transactions: 0, files: 0 } };
            proof {
                let views = names_view(all);
                assert(names_view(names@) =~= batch(views, size, 0));
                assert forall|k: int| 0 <= k < run.rest@.len() implies names_view(
                    (#[trigger] run.rest@[k])@,
                ) == batch(views, size, (k + 1) as nat) by {
                    assert(run.rest@[k] == cut[k + 1]);
                    crate::batch::lemma_batch_bounds(all.len(), size, (k + 1) as nat);
                    assert(cut[k + 1]@ == batch(all, size, (k + 1) as nat));
                    assert(names_view(cut[k + 1]@) =~= batch(views, size, (k + 1) as nat));
                }
            }
            Ok(DirAction::Read { names, run })
        },
        DirEvent::Contents { files, run } => {
            let ghost given = run;
            let Run { cache, rest, done } = run;
            if files.len() == 0 {
                let outcome = if done.files == 0 {
                    Achievement::Noop
                } else {
                    Achievement::Done
                };
                return Ok(DirAction::Finish(outcome, done));
            }
            let ghost count = files@.len();
            let ghost size = fpt as nat;
            proof {
                law_batch_count_is_ceiling(count, size);
                assert(batch_count(count, size) <= count) by (nonlinear_arith)
                    requires
                        (batch_count(count, size) - 1) * size < count,
                        size >= 1,
                ;
            }
            let cache = match cache {
                Some(known) => known,
                None => match Cache::prepare(conn) {
                    Ok(built) => built,
                    Err(error) => {
                        let halt = Halt { error, done };
                        proof {
                            assert(halt.done == advanced(given.done, no_progress()));
                            assert(ends_run(
                                (Halt { error: halt.error, done: no_progress() }),
                                files@,
                                size,
                            ));
                        }
                        return Err(halt);
                    },
                },
            };
            let ghost tables = if given.cache is None {
                choose|tables: Seq<crate::store::TableInfo>|
                    cache@ == #[trigger] crate::meta::statements_of(tables)
            } else {
                Seq::empty()
            };
            let step = match load_batches(files, conn, &cache, fpt) {
                Ok(step) => step,
                Err(stop) => {
                    let halt = Halt {
                        error: stop.error,
                        done: Progress {
                            transactions: done.transactions + stop.done.transactions,
                            files: done.files + stop.done.files,
                        },
                    };
                    proof {
                        assert(halt.done == advanced(given.done, stop.done));
                        if given.cache is None {
                            assert(stopped_in_group(
                                stop.error,
                                stop.done,
                                files@,
                                crate::meta::statements_of(tables),
                                size,
                            ));
                            assert(ends_run(
                                (Halt { error: halt.error, done: stop.done }),
                                files@,
                                size,
                            ));
                            if halt.error is Csv {
                                lemma_csv_error_names_a_file(
                                    (Halt { error: halt.error, done: stop.done }),
                                    files@,
                                    size,
                                );
                            }
                        } else {
                            if halt.error is Csv {
                                let i = choose|i: int|
                                    crate::schedule::fails_at(halt.error, files@, cache@, i)
                                        && stop.done.transactions == i / (size as int);
                                assert(!crate::record::decodes(files@[i]@));
                            }
                        }
                    }
                    return Err(halt);
                },
            };
            proof {
                lemma_loadable_files_decode(files@, cache@);
                if given.cache is None {
                    assert(all_loadable(files@, crate::meta::statements_of(tables)));
                }
            }
            let total = Progress {
                transactions: done.transactions + step.transactions,
                files: done.files + step.files,
            };
            let mut rest = rest;
            if rest.len() == 0 {
                Ok(DirAction::Finish(Achievement::Done, total))
            } else {
                let names = rest.remove(0);
                Ok(DirAction::Read { names, run: Run { cache: Some(cache), rest, done: total } })
            }
        },
    }
}

} // verus!
