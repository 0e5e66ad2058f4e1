//! The views of optional and fallible values, for contracts that compare a
//! returned `Option` or `Result` with its mathematical counterpart.

use vstd::prelude::*;

verus! {

/// The view of what an option holds, if it holds anything.
pub open spec fn some_view<T: View>(value: Option<T>) -> Option<T::V> {
    match value {
        Some(inner) => Some(inner@),
        None => None,
    }
}

/// The view of a success, or the error as it is.
pub open spec fn ok_view<T: View, E>(result: Result<T, E>) -> Result<T::V, E> {
    match result {
        Ok(value) => Ok(value@),
        Err(error) => Err(error),
    }
}

} // verus!
