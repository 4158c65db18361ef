//! Results of running an application through hostfxr.

use vstd::prelude::*;

use crate::error::hosting_result::{HostingError, HostingResult};
use crate::text::bytes_equal;
use vstd::std_specs::convert::FromSpecImpl;

verus! {

/// The raw status code returned in place of a result by an API of hostfxr that the loaded
/// library does not export: the code of [`HostingError::HostApiUnsupportedVersion`] read as an
/// `i32`.
pub const UNSUPPORTED_HOST_VERSION_ERROR_CODE: i32 = -2147450718i32;

/// The unsupported-version constant is the status code of
/// [`HostingError::HostApiUnsupportedVersion`].
pub proof fn lemma_unsupported_host_version_error_code()
    ensures
        UNSUPPORTED_HOST_VERSION_ERROR_CODE as u32 == HostingError::HostApiUnsupportedVersion.spec_value(),
        HostingResult::spec_from_status_code(UNSUPPORTED_HOST_VERSION_ERROR_CODE as u32)
            == HostingResult(Err(HostingError::HostApiUnsupportedVersion)),
{
    assert(-2147450718i32 as u32 == 0x8000_80a2u32) by (bit_vector);
    HostingError::lemma_from_status_code_of_value(HostingError::HostApiUnsupportedVersion);
}

/// The raw result of a call of an API of hostfxr which the loaded library may not export:
/// the returned code, or [`UNSUPPORTED_HOST_VERSION_ERROR_CODE`] when the API is missing.
pub fn result_or_unsupported_version(result: Option<i32>) -> (r: i32)
    ensures
        r == (match result {
            Some(code) => code,
            None => UNSUPPORTED_HOST_VERSION_ERROR_CODE,
        }),
{
    match result {
        Some(code) => code,
        None => UNSUPPORTED_HOST_VERSION_ERROR_CODE,
    }
}

/// Either the exit code of the app if it ran successful, otherwise the error from the hosting components.
#[derive(Debug, Clone, Copy, PartialEq, Eq, PartialOrd, Ord, Hash, Structural)]
pub struct AppOrHostingResult(i32);

impl View for AppOrHostingResult {
    type V = i32;

    closed spec fn view(&self) -> i32 {
        self.0
    }
}

impl AppOrHostingResult {
    /// Gets the raw value of the result.
    pub fn value(&self) -> (r: i32)
        ensures
            r == self@,
    {
        self.0
    }

    /// Converts the result to an hosting exit code.
    pub fn as_hosting_exit_code(self) -> (r: HostingResult)
        ensures
            r == HostingResult::spec_from_status_code(self@ as u32),
    {
        HostingResult::from(self.0)
    }
}

impl From<AppOrHostingResult> for i32 {
    fn from(code: AppOrHostingResult) -> (r: Self)
        ensures
            r == code@,
    {
        code.value()
    }
}

impl FromSpecImpl<AppOrHostingResult> for i32 {
    open spec fn obeys_from_spec() -> bool {
        true
    }

    open spec fn from_spec(code: AppOrHostingResult) -> Self {
        code@
    }
}

impl From<i32> for AppOrHostingResult {
    fn from(code: i32) -> (r: Self)
        ensures
            r@ == code,
    {
        AppOrHostingResult(code)
    }
}

impl FromSpecImpl<i32> for AppOrHostingResult {
    open spec fn obeys_from_spec() -> bool {
        true
    }

    closed spec fn from_spec(code: i32) -> Self {
        AppOrHostingResult(code)
    }
}

/// The name of the directory of a .NET installation: `dotnet` or `.dotnet`.
pub open spec fn is_dotnet_dir_name(name: Seq<u8>) -> bool {
    name == seq![100u8, 111u8, 116u8, 110u8, 101u8, 116u8] || name == seq![46u8, 100u8, 111u8, 116u8, 110u8, 101u8, 116u8]
}

/// Whether the `i`-th component of a path is a plain name that names a .NET installation.
pub open spec fn is_dotnet_dir_at(components: Seq<Option<Vec<u8>>>, i: int) -> bool {
    components[i] matches Some(name) && is_dotnet_dir_name(name@)
}

fn is_dotnet_dir(name: &Vec<u8>) -> (r: bool)
    ensures
        r == is_dotnet_dir_name(name@),
{
    let dotnet: [u8; 6] = [100u8, 111u8, 116u8, 110u8, 101u8, 116u8];
    let hidden_dotnet: [u8; 7] = [46u8, 100u8, 111u8, 116u8, 110u8, 101u8, 116u8];
    let a = bytes_equal(name.as_slice(), dotnet.as_slice());
    let b = bytes_equal(name.as_slice(), hidden_dotnet.as_slice());
    proof {
        assert(dotnet@ =~= seq![100u8, 111u8, 116u8, 110u8, 101u8, 116u8]);
        assert(hidden_dotnet@ =~= seq![46u8, 100u8, 111u8, 116u8, 110u8, 101u8, 116u8]);
    }
    a || b
}

/// Finds the directory of the .NET installation that holds a hostfxr library, given the
/// components of the library's path (a plain name as its bytes, any other component, such as
/// the root or `..`, as `None`). Walking up from the last component over plain names, the first
/// one named `dotnet` or `.dotnet` ends the installation directory: the result is the number of
/// components it keeps. Reaching a component that is not a plain name, or the start, first gives
/// `None`.
pub fn dotnet_root_len(components: &Vec<Option<Vec<u8>>>) -> (r: Option<usize>)
    ensures
        r matches Some(k) ==> 1 <= k <= components@.len() && is_dotnet_dir_at(components@, k - 1)
            && forall|j: int| k <= j < components@.len() ==> (#[trigger] components@[j]) is Some
                && !is_dotnet_dir_at(components@, j),
        r is None ==> forall|k: int| 1 <= k <= components@.len() && #[trigger] is_dotnet_dir_at(components@, k - 1)
            ==> exists|j: int| k <= j < components@.len() && (#[trigger] components@[j]) is None,
{
    let mut k: usize = components.len();
    while k > 0
        invariant
            k <= components@.len(),
            forall|j: int| k <= j < components@.len() ==> (#[trigger] components@[j]) is Some
                && !is_dotnet_dir_at(components@, j),
        decreases k,
    {
        match &components[k - 1] {
            Some(name) => {
                if is_dotnet_dir(name) {
                    return Some(k);
                }
            },
            None => {
                assert forall|m: int| 1 <= m <= components@.len() && #[trigger] is_dotnet_dir_at(components@, m - 1)
                    implies exists|j: int| m <= j < components@.len() && (#[trigger] components@[j]) is None by {
                    assert(components@[k - 1] is None);
                }
                return None;
            },
        }
        k = k - 1;
    }
    None
}

} // verus!
