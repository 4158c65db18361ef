//! The decisions taken while locating the hostfxr library through nethost.

use vstd::prelude::*;

use crate::error::hosting_result::{HostingError, HostingResult};

pub use crate::error::load_hostfxr_error::LoadHostfxrError;

verus! {

/// What to do after a call of `get_hostfxr_path` that returned a status code and a path length.
#[derive(Debug, Clone, Copy, PartialEq, Eq, Structural)]
pub enum HostfxrPathStep {
    /// The path fills the first `len` units of the buffer, the terminating nul included.
    Found(usize),
    /// The buffer was too small: call again with a buffer of `len` units.
    Retry(usize),
    /// Locating hostfxr failed.
    Failed(HostingError),
}

/// Decides what follows a call of `get_hostfxr_path` that returned `code` and wrote
/// `path_length` back: the path was found on success, a buffer of the reported length is to be
/// tried on [`HostingError::HostApiBufferTooSmall`], and any other error is the outcome.
pub fn hostfxr_path_step(code: i32, path_length: usize) -> (r: HostfxrPathStep)
    ensures
        r == (match HostingResult::spec_from_status_code(code as u32).0 {
            Ok(_) => HostfxrPathStep::Found(path_length),
            Err(HostingError::HostApiBufferTooSmall) => HostfxrPathStep::Retry(path_length),
            Err(error) => HostfxrPathStep::Failed(error),
        }),
{
    match HostingResult::from(code).into_result() {
        Ok(_) => HostfxrPathStep::Found(path_length),
        Err(HostingError::HostApiBufferTooSmall) => HostfxrPathStep::Retry(path_length),
        Err(error) => HostfxrPathStep::Failed(error),
    }
}

/// Whether the second call of `get_hostfxr_path`, made with a buffer of the length that the
/// first call asked for, succeeded as it must: its status code is that of
/// [`HostingSuccess::Success`](crate::error::hosting_result::HostingSuccess::Success).
pub fn hostfxr_path_retry_succeeded(code: i32) -> (r: bool)
    ensures
        r == (code as u32 == crate::bindings::status_code::SUCCESS),
{
    code as u32 == crate::bindings::status_code::SUCCESS
}

} // verus!
