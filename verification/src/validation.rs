//! Results turned into options.

use vstd::prelude::*;

verus! {

/// The value of `result`, if it holds one; an error is let go.  `context`
/// says what was being done.
pub fn verbose_result_ok<T, E>(context: String, result: Result<T, E>) -> (r: Option<T>)
    ensures
        r == (match result {
            Ok(value) => Some(value),
            Err(_) => None::<T>,
        }),
{
    match result {
        Ok(value) => Some(value),
        Err(_) => None,
    }
}

} // verus!
