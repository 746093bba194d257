//! Deleting a user.

use vstd::prelude::*;

use crate::status::Status;

verus! {

/// The answer to a deletion that removed `rows_affected` rows: not found when
/// nothing was removed, no content otherwise.
pub fn delete_outcome(rows_affected: u64) -> (r: Result<Status, Status>)
    ensures
        r == (if rows_affected == 0 {
            Err::<Status, Status>(Status::NotFound)
        } else {
            Ok(Status::NoContent)
        }),
{
    if rows_affected == 0 {
        Err(Status::NotFound)
    } else {
        Ok(Status::NoContent)
    }
}

} // verus!
