//! Where to resume: the index of the first input file not yet loaded.

use vstd::prelude::*;
use crate::error::{filed_as, from_store, PackError};
use crate::store::{query_scalar, Scalar};

verus! {

/// Selects the highest next-volume index that the store has recorded.
pub const SELECT_NEXT_VOLUME: &'static str =
    "SELECT next_volume_name FROM trailer ORDER BY next_volume_name DESC LIMIT 1;";

/// The file index to resume at, given the marker that the store holds:
/// without a marker loading starts at the first file, a marker of zero says
/// that nothing is left, and any other marker is the index itself.
pub open spec fn resume_index(marker: Option<u32>) -> Option<u32> {
    match marker {
        None => Some(1u32),
        Some(value) => if value == 0 {
            None
        } else {
            Some(value)
        },
    }
}

/// Reads the outcome of the marker query: a value or an empty table gives
/// the resume index, a failure of the store gives the error it is filed
/// under.
pub fn cursor_of(answer: Scalar) -> (r: Result<Option<u32>, PackError>)
    ensures
        match answer {
            Scalar::Value(value) => r == Ok::<Option<u32>, PackError>(resume_index(Some(value))),
            Scalar::NoRows => r == Ok::<Option<u32>, PackError>(resume_index(None)),
            Scalar::Failed(err) => r matches Err(e) && filed_as(err, e) && from_store(e),
        },
{
    match answer {
        Scalar::Value(value) => {
            if value == 0 {
                Ok(None)
            } else {
                Ok(Some(value))
            }
        },
        Scalar::NoRows => Ok(Some(1)),
        Scalar::Failed(err) => Err(PackError::from(err)),
    }
}

/// The index of the next file to load, or `None` when every file has been
/// loaded. Only reads the store.
pub fn next_index(conn: &rusqlite::Connection) -> (r: Result<Option<u32>, PackError>)
    ensures
        r matches Ok(Some(index)) ==> index > 0,
        r matches Err(e) ==> from_store(e),
{
    let answer = query_scalar(conn, SELECT_NEXT_VOLUME);
    cursor_of(answer)
}

} // verus!
