//! The mathematical value of an outcome.

use vstd::prelude::*;

verus! {

/// The value of a `Result`: the value of what it holds, on either side.
pub open spec fn result_view<T: DeepView, E: DeepView>(result: Result<T, E>) -> Result<T::V, E::V> {
    match result {
        Ok(value) => Ok(value.deep_view()),
        Err(error) => Err(error.deep_view()),
    }
}

} // verus!
