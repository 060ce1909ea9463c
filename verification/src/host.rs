//! Asking the system for its codes.

use vstd::prelude::*;

verus! {

/// The answer to `question`.
pub fn ask<T, F: Fn() -> T>(question: F) -> (answer: T)
    requires
        call_requires(question, ()),
    ensures
        call_ensures(question, (), answer),
{
    question()
}

} // verus!
