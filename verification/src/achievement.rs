//! How a run ended.

use vstd::prelude::*;

verus! {

/// The outcome of a run that did not fail.
#[derive(Clone, Copy, Debug, PartialEq, Eq, Structural)]
pub enum Achievement {
    /// Nothing was pending.
    Noop,
    /// Every pending file was loaded.
    Done,
}

impl Achievement {
    /// The sentence that tells a person of the outcome.
    pub fn message(&self) -> (s: String)
        ensures
            s@ == match self {
                Achievement::Noop => "There are no pending records to process."@,
                Achievement::Done => "Finished processing all given records."@,
            },
    {
        match self {
            Achievement::Noop => "There are no pending records to process.".to_owned(),
            Achievement::Done => "Finished processing all given records.".to_owned(),
        }
    }
}

} // verus!
