//! Pointers to managed functions.

use vstd::prelude::*;

use core::ops::Deref;

verus! {

/// A wrapper around a managed function pointer (a function pointer with the `system` ABI).
pub struct ManagedFunction<F>(F);

impl<F> ManagedFunction<F> {
    /// The function pointer that is wrapped.
    pub closed spec fn function(self) -> F {
        self.0
    }

    /// Wraps a pointer to a managed function.
    pub fn new(function: F) -> (r: Self)
        ensures
            r.function() == function,
    {
        ManagedFunction(function)
    }
}

impl<F> Deref for ManagedFunction<F> {
    type Target = F;

    fn deref(&self) -> (r: &Self::Target)
        ensures
            *r == self.function(),
    {
        &self.0
    }
}

} // verus!
