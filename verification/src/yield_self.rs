//! A helper for writing a step of a method chain as a function of the value
//! that the chain has reached.

use vstd::prelude::*;

verus! {

/// Gives every value the method `yield_self`.
pub trait YieldSelf where Self: Sized {
    /// Applies `func` to `self` and hands back what it returns.
    fn yield_self<T>(self, func: impl FnOnce(&Self) -> T) -> (r: T)
        requires
            call_requires(func, (&self,)),
        ensures
            call_ensures(func, (&self,), r),
    {
        func(&self)
    }
}

impl<T> YieldSelf for T where T: Sized {}

} // verus!
