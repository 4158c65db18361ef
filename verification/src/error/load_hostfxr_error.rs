//! Errors of locating and loading the hostfxr library.

use vstd::prelude::*;

use crate::error::hosting_result::HostingError;
use hostfxr_sys::dlopen2;
use vstd::std_specs::convert::FromSpecImpl;

verus! {

/// An error of the dynamic loader, carried through unchanged.
#[verifier::external_type_specification]
#[verifier::external_body]
pub struct ExDlopenError(hostfxr_sys::dlopen2::Error);

/// Enum for errors that can occur while locating and loading the hostfxr library.
#[derive(Debug)]
pub enum LoadHostfxrError {
    /// An error occured inside the hosting components.
    Hosting(HostingError),
    /// An error occured while loading the hostfxr library.
    DlOpen(dlopen2::Error),
}

impl From<HostingError> for LoadHostfxrError {
    fn from(error: HostingError) -> (r: Self) {
        LoadHostfxrError::Hosting(error)
    }
}

impl FromSpecImpl<HostingError> for LoadHostfxrError {
    open spec fn obeys_from_spec() -> bool {
        true
    }

    open spec fn from_spec(error: HostingError) -> Self {
        LoadHostfxrError::Hosting(error)
    }
}

impl From<dlopen2::Error> for LoadHostfxrError {
    fn from(error: dlopen2::Error) -> (r: Self) {
        LoadHostfxrError::DlOpen(error)
    }
}

impl FromSpecImpl<dlopen2::Error> for LoadHostfxrError {
    open spec fn obeys_from_spec() -> bool {
        true
    }

    open spec fn from_spec(error: dlopen2::Error) -> Self {
        LoadHostfxrError::DlOpen(error)
    }
}

} // verus!
