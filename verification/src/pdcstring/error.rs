//! The error of building a c-like string from data holding a nul.

use vstd::prelude::*;

verus! {

/// The error returned when the data of a c-like string holds a nul.
#[derive(Debug, Clone, Copy, PartialEq, Eq, Structural)]
pub struct NulError {}

} // verus!
