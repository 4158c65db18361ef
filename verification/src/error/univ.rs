//! A universal error type encompassing all errors of this crate.

use vstd::prelude::*;

use crate::error::hosting_result::HostingError;
use crate::error::load_hostfxr_error::LoadHostfxrError;
use crate::hostfxr::delegate_loader::GetManagedFunctionError;
use hostfxr_sys::dlopen2;
use vstd::std_specs::convert::FromSpecImpl;

verus! {

/// A universal error type encompassing all possible errors from this crate.
#[derive(Debug)]
pub enum UniversalError {
    /// An error from the native hosting components.
    Hosting(HostingError),
    /// An error while loading a function pointer to a managed method.
    GetFunctionPointer(GetManagedFunctionError),
    /// An error while loading the hostfxr library.
    LoadHostfxr(LoadHostfxrError),
}

impl From<HostingError> for UniversalError {
    fn from(error: HostingError) -> (r: Self) {
        UniversalError::Hosting(error)
    }
}

impl FromSpecImpl<HostingError> for UniversalError {
    open spec fn obeys_from_spec() -> bool {
        true
    }

    open spec fn from_spec(error: HostingError) -> Self {
        UniversalError::Hosting(error)
    }
}

impl From<GetManagedFunctionError> for UniversalError {
    fn from(error: GetManagedFunctionError) -> (r: Self) {
        UniversalError::GetFunctionPointer(error)
    }
}

impl FromSpecImpl<GetManagedFunctionError> for UniversalError {
    open spec fn obeys_from_spec() -> bool {
        true
    }

    open spec fn from_spec(error: GetManagedFunctionError) -> Self {
        UniversalError::GetFunctionPointer(error)
    }
}

impl From<LoadHostfxrError> for UniversalError {
    fn from(error: LoadHostfxrError) -> (r: Self) {
        UniversalError::LoadHostfxr(error)
    }
}

impl FromSpecImpl<LoadHostfxrError> for UniversalError {
    open spec fn obeys_from_spec() -> bool {
        true
    }

    open spec fn from_spec(error: LoadHostfxrError) -> Self {
        UniversalError::LoadHostfxr(error)
    }
}

impl From<dlopen2::Error> for UniversalError {
    fn from(error: dlopen2::Error) -> (r: Self) {
        UniversalError::LoadHostfxr(LoadHostfxrError::DlOpen(error))
    }
}

impl FromSpecImpl<dlopen2::Error> for UniversalError {
    open spec fn obeys_from_spec() -> bool {
        true
    }

    open spec fn from_spec(error: dlopen2::Error) -> Self {
        UniversalError::LoadHostfxr(LoadHostfxrError::DlOpen(error))
    }
}

} // verus!
