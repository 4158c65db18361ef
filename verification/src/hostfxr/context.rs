//! Markers of how a host context was initialized.

use vstd::prelude::*;

use crate::bindings::hostfxr::{hostfxr_delegate_type, DELEGATE_TYPE_COUNT};
use crate::error::hosting_result::HostingError;

verus! {

/// A marker struct indicating that the context was initialized with a runtime config.
/// This means that it is not possible to run the application associated with the context.
#[derive(Debug, Clone, Copy)]
pub struct InitializedForRuntimeConfig;

/// A marker struct indicating that the context was initialized for the dotnet command line.
/// This means that it is possible to run the application associated with the context.
#[derive(Debug, Clone, Copy)]
pub struct InitializedForCommandLine;

} // verus!

verus! {

/// The runtime delegates already obtained from a host context, by delegate type: each is
/// requested from the runtime once, and handed out again from here afterwards. A delegate is
/// held as the address of the function.
///
/// The slots are a vector indexed by the raw value of the delegate type rather than an
/// `enum_map::EnumMap` of `once_cell` cells: Verus stops on a declaration of `EnumMap` (its trait
/// checker cannot resolve the `enum_map::Enum` bound), function pointers are no type Verus
/// supports, and a `OnceCell` is written through a shared reference, which Verus's model of `&`
/// does not allow.
pub struct RuntimeDelegateCache {
    slots: Vec<Option<usize>>,
}

impl RuntimeDelegateCache {
    /// The cache holds one slot per delegate type.
    #[verifier::type_invariant]
    spec fn well_formed(self) -> bool {
        self.slots@.len() == DELEGATE_TYPE_COUNT
    }

    /// The delegate cached for the delegate type `t`, if any.
    pub closed spec fn cached(self, t: hostfxr_delegate_type) -> Option<usize> {
        self.slots@[t.spec_value() as int]
    }

    /// Creates a cache that holds no delegate.
    pub fn new() -> (r: Self)
        ensures
            forall|t: hostfxr_delegate_type| #[trigger] r.cached(t) is None,
    {
        let mut slots: Vec<Option<usize>> = Vec::new();
        let mut i: usize = 0;
        while i < DELEGATE_TYPE_COUNT
            invariant
                i <= DELEGATE_TYPE_COUNT,
                slots@.len() == i,
                forall|j: int| 0 <= j < i ==> slots@[j] is None,
            decreases DELEGATE_TYPE_COUNT - i,
        {
            slots.push(None);
            i = i + 1;
        }
        RuntimeDelegateCache { slots }
    }

    /// Returns the delegate cached for the delegate type `t`, if any.
    pub fn get(&self, t: hostfxr_delegate_type) -> (r: Option<usize>)
        ensures
            r == self.cached(t),
    {
        proof {
            use_type_invariant(self);
        }
        self.slots[t.value() as usize]
    }

    /// Records the outcome of requesting the delegate of type `t` from the runtime: a delegate
    /// already cached for `t` stays and is handed out; otherwise a delegate that was obtained is
    /// cached and handed out, and an error is handed out with nothing cached. The other types keep
    /// their delegates.
    pub fn resolve(&mut self, t: hostfxr_delegate_type, fetched: Result<usize, HostingError>) -> (r: Result<usize, HostingError>)
        ensures
            match old(self).cached(t) {
                Some(delegate) => r == Ok::<usize, HostingError>(delegate) && final(self).cached(t) == Some(delegate),
                None => r == fetched && final(self).cached(t) == (match fetched {
                    Ok(delegate) => Some(delegate),
                    Err(_) => None,
                }),
            },
            forall|u: hostfxr_delegate_type| u != t ==> #[trigger] final(self).cached(u) == old(self).cached(u),
    {
        proof {
            use_type_invariant(&*self);
        }
        let index = t.value() as usize;
        if let Some(delegate) = self.slots[index] {
            return Ok(delegate);
        }
        if let Ok(delegate) = fetched {
            self.slots[index] = Some(delegate);
            proof {
                assert forall|u: hostfxr_delegate_type| u != t implies #[trigger] self.cached(u) == old(self).cached(u) by {
                    if u.spec_value() == t.spec_value() {
                        hostfxr_delegate_type::lemma_value_injective(u, t);
                    }
                }
            }
        }
        fetched
    }
}

} // verus!
