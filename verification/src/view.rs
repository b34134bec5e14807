//! Views of what a function hands back.

use vstd::prelude::*;

verus! {

/// The view of a result: the view of what it holds, on either side.
pub open spec fn result_view<T: View, E: View>(r: Result<T, E>) -> Result<T::V, E::V> {
    match r {
        Ok(value) => Ok(value@),
        Err(error) => Err(error@),
    }
}

} // verus!
