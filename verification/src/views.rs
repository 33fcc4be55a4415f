//! The view of a result.

use vstd::prelude::*;

verus! {

/// A result seen through the view of what it holds on success.
pub open spec fn viewed<R: View, E>(result: Result<R, E>) -> Result<R::V, E> {
    match result {
        Ok(value) => Ok(value@),
        Err(error) => Err(error),
    }
}

} // verus!
