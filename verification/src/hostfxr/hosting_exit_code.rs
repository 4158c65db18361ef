//! Codes returned by the hosting APIs, split into successes, errors and unknown codes.

use vstd::prelude::*;

use crate::bindings::status_code;
use vstd::std_specs::convert::FromSpecImpl;

verus! {

/// Codes returned by the hosting APIs from `hostfxr`, `hostpolicy` and `nethost`.
#[derive(Debug, PartialEq, Eq, Clone, Copy, PartialOrd, Ord, Hash, Structural)]
pub enum HostingExitCode {
    /// A success code.
    Success(HostingSuccessExitCode),
    /// An error code.
    Error(HostingErrorExitCode),
    /// A code which is neither a known success nor a known error.
    Unknown(u32),
}

/// Success codes returned by the hosting APIs from `hostfxr`, `hostpolicy` and `nethost`.
#[allow(non_camel_case_types)]
#[non_exhaustive]
#[derive(Debug, PartialEq, Eq, Clone, Copy, PartialOrd, Ord, Hash, Structural)]
pub enum HostingSuccessExitCode {
    /// Operation was successful.
    Success,
    /// Initialization was successful, but another host context is already initialized, so the returned context is "secondary".
    Success_HostAlreadyInitialized,
    /// Initialization was successful, but another host context is already initialized with different runtime properties.
    Success_DifferentRuntimeProperties,
    /// Stands for a success code that no variant names (in the results of
    /// [`HostingExitCode::to_result_assume_unknown_is_success`]). No raw code decodes to it; it
    /// converts to 3, the number after the documented success codes.
    Unknown,
}

impl HostingSuccessExitCode {
    /// The raw exit code of this variant.
    pub open spec fn spec_value(self) -> u32 {
        match self {
            HostingSuccessExitCode::Success => 0x0000_0000,
            HostingSuccessExitCode::Success_HostAlreadyInitialized => 0x0000_0001,
            HostingSuccessExitCode::Success_DifferentRuntimeProperties => 0x0000_0002,
            HostingSuccessExitCode::Unknown => 0x0000_0003,
        }
    }

    /// Whether some variant other than the placeholder [`HostingSuccessExitCode::Unknown`] has the raw exit
    /// code `code`.
    pub open spec fn is_code(code: u32) -> bool {
        exists|v: HostingSuccessExitCode| !(v is Unknown) && #[trigger] v.spec_value() == code
    }

    /// The variant other than the placeholder whose raw exit code is `code`, if there is one.
    pub open spec fn spec_try_from_primitive(code: u32) -> Option<HostingSuccessExitCode> {
        if Self::is_code(code) {
            Some(choose|v: HostingSuccessExitCode| !(v is Unknown) && #[trigger] v.spec_value() == code)
        } else {
            None
        }
    }

    /// Two variants with the same raw exit code are the same.
    pub proof fn lemma_value_injective(a: HostingSuccessExitCode, b: HostingSuccessExitCode)
        requires
            a.spec_value() == b.spec_value(),
        ensures
            a == b,
    {
    }

    /// Decoding the raw exit code of a variant other than the placeholder gives the variant back.
    pub proof fn lemma_try_from_primitive_of_value(v: HostingSuccessExitCode)
        requires
            !(v is Unknown),
        ensures
            Self::spec_try_from_primitive(v.spec_value()) == Some(v),
    {
        let code = v.spec_value();
        assert(Self::is_code(code));
        let t = choose|t: HostingSuccessExitCode| !(t is Unknown) && #[trigger] t.spec_value() == code;
        Self::lemma_value_injective(v, t);
    }

    /// Returns the raw exit code of this variant.
    pub fn value(&self) -> (r: u32)
        ensures
            r == self.spec_value(),
    {
        match self {
            HostingSuccessExitCode::Success => 0x0000_0000,
            HostingSuccessExitCode::Success_HostAlreadyInitialized => 0x0000_0001,
            HostingSuccessExitCode::Success_DifferentRuntimeProperties => 0x0000_0002,
            HostingSuccessExitCode::Unknown => 0x0000_0003,
        }
    }

    /// Tries to find the variant whose raw exit code is `code`.
    pub fn try_from_primitive(code: u32) -> (r: Option<Self>)
        ensures
            r == Self::spec_try_from_primitive(code),
    {
        let r = 
        if code == 0x0000_0000 {
            Some(HostingSuccessExitCode::Success)
        } else if code == 0x0000_0001 {
            Some(HostingSuccessExitCode::Success_HostAlreadyInitialized)
        } else if code == 0x0000_0002 {
            Some(HostingSuccessExitCode::Success_DifferentRuntimeProperties)
        } else {
            None
        };
        proof {
            if let Some(v) = r {
                Self::lemma_try_from_primitive_of_value(v);
            }
        }
        r
    }
}

impl From<HostingSuccessExitCode> for u32 {
    fn from(code: HostingSuccessExitCode) -> (r: Self) {
        code.value()
    }
}

impl FromSpecImpl<HostingSuccessExitCode> for u32 {
    open spec fn obeys_from_spec() -> bool {
        true
    }

    open spec fn from_spec(code: HostingSuccessExitCode) -> Self {
        code.spec_value()
    }
}

/// Error codes returned by the hosting APIs from `hostfxr`, `hostpolicy` and `nethost`.
#[allow(non_camel_case_types)]
#[non_exhaustive]
#[derive(Debug, PartialEq, Eq, Clone, Copy, PartialOrd, Ord, Hash, Structural)]
pub enum HostingErrorExitCode {
    /// One of the specified arguments for the operation is invalid.
    InvalidArgFailure,
    /// There was a failure loading a dependent library.
    CoreHostLibLoadFailure,
    /// One of the dependent libraries is missing.
    CoreHostLibMissingFailure,
    /// One of the dependent libraries is missing a required entry point.
    CoreHostEntryPointFailure,
    /// The location of the current module could not be determined or is not in the right place relative to other expected components.
    CoreHostCurHostFindFailure,
    /// The `coreclr` library could not be found.
    CoreClrResolveFailure,
    /// The loaded `coreclr` library doesn't have one of the required entry points.
    CoreClrBindFailure,
    /// The call to `coreclr_initialize` failed.
    CoreClrInitFailure,
    /// The call to `coreclr_execute_assembly` failed.
    CoreClrExeFailure,
    /// Initialization of the `hostpolicy` dependency resolver failed.
    ResolverInitFailure,
    /// Resolution of dependencies in `hostpolicy` failed.
    ResolverResolveFailure,
    /// Failure to determine the location of the current executable.
    LibHostCurExeFindFailure,
    /// Initialization of the `hostpolicy` library failed.
    LibHostInitFailure,
    /// Failure to find the requested SDK.
    LibHostSdkFindFailure,
    /// Arguments to `hostpolicy` are invalid.
    LibHostInvalidArgs,
    /// The `.runtimeconfig.json` file is invalid.
    InvalidConfigFile,
    /// Used internally when the command line for `dotnet.exe` doesn't contain path to the application to run.
    AppArgNotRunnable,
    /// `apphost` failed to determine which application to run.
    AppHostExeNotBoundFailure,
    /// It was not possible to find a compatible framework version.
    FrameworkMissingFailure,
    /// `hostpolicy` could not calculate the `NATIVE_DLL_SEARCH_DIRECTORIES`.
    HostApiFailed,
    /// The buffer specified to an API is not big enough to fit the requested value.
    HostApiBufferTooSmall,
    /// `corehost_main_with_output_buffer` was called with an unsupported host command.
    LibHostUnknownCommand,
    /// The imprinted application path doesn't exist.
    LibHostAppRootFindFailure,
    /// `hostfxr_resolve_sdk2` failed to find a matching SDK.
    SdkResolverResolveFailure,
    /// Two framework references to the same framework were not compatible.
    FrameworkCompatFailure,
    /// Used internally when framework references need to be reprocessed.
    FrameworkCompatRetry,
    /// Error reading the bundle footer metadata from a single-file `apphost`.
    AppHostExeNotBundle,
    /// Error extracting single-file `apphost` bundle.
    BundleExtractionFailure,
    /// Error reading or writing files during single-file `apphost` bundle extraction.
    BundleExtractionIOError,
    /// The `.runtimeconfig.json` contains a runtime property which is also produced by the hosting layer.
    LibHostDuplicateProperty,
    /// A feature was used on a version of the hosting layer which doesn't support it.
    HostApiUnsupportedVersion,
    /// The current state is incompatible with the requested operation.
    HostInvalidState,
    /// Property requested by `hostfxr_get_runtime_property_value` doesn't exist.
    HostPropertyNotFound,
    /// The component requires a framework which is not available or incompatible with the frameworks already loaded.
    CoreHostIncompatibleConfig,
    /// Requesting the given delegate type using the given context is currently not supported.
    HostApiUnsupportedScenario,
    /// Stands for an error code that no variant names (in the results of
    /// [`HostingExitCode::to_result_assume_unknown_is_error`]). No raw code decodes to it; it
    /// converts to `0x800080a7`, the number after the last code that a variant names.
    Unknown,
}

impl HostingErrorExitCode {
    /// The raw exit code of this variant.
    pub open spec fn spec_value(self) -> u32 {
        match self {
            HostingErrorExitCode::InvalidArgFailure => 0x8000_8081,
            HostingErrorExitCode::CoreHostLibLoadFailure => 0x8000_8082,
            HostingErrorExitCode::CoreHostLibMissingFailure => 0x8000_8083,
            HostingErrorExitCode::CoreHostEntryPointFailure => 0x8000_8084,
            HostingErrorExitCode::CoreHostCurHostFindFailure => 0x8000_8085,
            HostingErrorExitCode::CoreClrResolveFailure => 0x8000_8087,
            HostingErrorExitCode::CoreClrBindFailure => 0x8000_8088,
            HostingErrorExitCode::CoreClrInitFailure => 0x8000_8089,
            HostingErrorExitCode::CoreClrExeFailure => 0x8000_808a,
            HostingErrorExitCode::ResolverInitFailure => 0x8000_808b,
            HostingErrorExitCode::ResolverResolveFailure => 0x8000_808c,
            HostingErrorExitCode::LibHostCurExeFindFailure => 0x8000_808d,
            HostingErrorExitCode::LibHostInitFailure => 0x8000_808e,
            HostingErrorExitCode::LibHostSdkFindFailure => 0x8000_8091,
            HostingErrorExitCode::LibHostInvalidArgs => 0x8000_8092,
            HostingErrorExitCode::InvalidConfigFile => 0x8000_8093,
            HostingErrorExitCode::AppArgNotRunnable => 0x8000_8094,
            HostingErrorExitCode::AppHostExeNotBoundFailure => 0x8000_8095,
            HostingErrorExitCode::FrameworkMissingFailure => 0x8000_8096,
            HostingErrorExitCode::HostApiFailed => 0x8000_8097,
            HostingErrorExitCode::HostApiBufferTooSmall => 0x8000_8098,
            HostingErrorExitCode::LibHostUnknownCommand => 0x8000_8099,
            HostingErrorExitCode::LibHostAppRootFindFailure => 0x8000_809a,
            HostingErrorExitCode::SdkResolverResolveFailure => 0x8000_809b,
            HostingErrorExitCode::FrameworkCompatFailure => 0x8000_809c,
            HostingErrorExitCode::FrameworkCompatRetry => 0x8000_809d,
            HostingErrorExitCode::AppHostExeNotBundle => 0x8000_809e,
            HostingErrorExitCode::BundleExtractionFailure => 0x8000_809f,
            HostingErrorExitCode::BundleExtractionIOError => 0x8000_80a0,
            HostingErrorExitCode::LibHostDuplicateProperty => 0x8000_80a1,
            HostingErrorExitCode::HostApiUnsupportedVersion => 0x8000_80a2,
            HostingErrorExitCode::HostInvalidState => 0x8000_80a3,
            HostingErrorExitCode::HostPropertyNotFound => 0x8000_80a4,
            HostingErrorExitCode::CoreHostIncompatibleConfig => 0x8000_80a5,
            HostingErrorExitCode::HostApiUnsupportedScenario => 0x8000_80a6,
            HostingErrorExitCode::Unknown => 0x8000_80a7,
        }
    }

    /// Whether some variant other than the placeholder [`HostingErrorExitCode::Unknown`] has the raw exit
    /// code `code`.
    pub open spec fn is_code(code: u32) -> bool {
        exists|v: HostingErrorExitCode| !(v is Unknown) && #[trigger] v.spec_value() == code
    }

    /// The variant other than the placeholder whose raw exit code is `code`, if there is one.
    pub open spec fn spec_try_from_primitive(code: u32) -> Option<HostingErrorExitCode> {
        if Self::is_code(code) {
            Some(choose|v: HostingErrorExitCode| !(v is Unknown) && #[trigger] v.spec_value() == code)
        } else {
            None
        }
    }

    /// Two variants with the same raw exit code are the same.
    pub proof fn lemma_value_injective(a: HostingErrorExitCode, b: HostingErrorExitCode)
        requires
            a.spec_value() == b.spec_value(),
        ensures
            a == b,
    {
    }

    /// Decoding the raw exit code of a variant other than the placeholder gives the variant back.
    pub proof fn lemma_try_from_primitive_of_value(v: HostingErrorExitCode)
        requires
            !(v is Unknown),
        ensures
            Self::spec_try_from_primitive(v.spec_value()) == Some(v),
    {
        let code = v.spec_value();
        assert(Self::is_code(code));
        let t = choose|t: HostingErrorExitCode| !(t is Unknown) && #[trigger] t.spec_value() == code;
        Self::lemma_value_injective(v, t);
    }

    /// Returns the raw exit code of this variant.
    pub fn value(&self) -> (r: u32)
        ensures
            r == self.spec_value(),
    {
        match self {
            HostingErrorExitCode::InvalidArgFailure => 0x8000_8081,
            HostingErrorExitCode::CoreHostLibLoadFailure => 0x8000_8082,
            HostingErrorExitCode::CoreHostLibMissingFailure => 0x8000_8083,
            HostingErrorExitCode::CoreHostEntryPointFailure => 0x8000_8084,
            HostingErrorExitCode::CoreHostCurHostFindFailure => 0x8000_8085,
            HostingErrorExitCode::CoreClrResolveFailure => 0x8000_8087,
            HostingErrorExitCode::CoreClrBindFailure => 0x8000_8088,
            HostingErrorExitCode::CoreClrInitFailure => 0x8000_8089,
            HostingErrorExitCode::CoreClrExeFailure => 0x8000_808a,
            HostingErrorExitCode::ResolverInitFailure => 0x8000_808b,
            HostingErrorExitCode::ResolverResolveFailure => 0x8000_808c,
            HostingErrorExitCode::LibHostCurExeFindFailure => 0x8000_808d,
            HostingErrorExitCode::LibHostInitFailure => 0x8000_808e,
            HostingErrorExitCode::LibHostSdkFindFailure => 0x8000_8091,
            HostingErrorExitCode::LibHostInvalidArgs => 0x8000_8092,
            HostingErrorExitCode::InvalidConfigFile => 0x8000_8093,
            HostingErrorExitCode::AppArgNotRunnable => 0x8000_8094,
            HostingErrorExitCode::AppHostExeNotBoundFailure => 0x8000_8095,
            HostingErrorExitCode::FrameworkMissingFailure => 0x8000_8096,
            HostingErrorExitCode::HostApiFailed => 0x8000_8097,
            HostingErrorExitCode::HostApiBufferTooSmall => 0x8000_8098,
            HostingErrorExitCode::LibHostUnknownCommand => 0x8000_8099,
            HostingErrorExitCode::LibHostAppRootFindFailure => 0x8000_809a,
            HostingErrorExitCode::SdkResolverResolveFailure => 0x8000_809b,
            HostingErrorExitCode::FrameworkCompatFailure => 0x8000_809c,
            HostingErrorExitCode::FrameworkCompatRetry => 0x8000_809d,
            HostingErrorExitCode::AppHostExeNotBundle => 0x8000_809e,
            HostingErrorExitCode::BundleExtractionFailure => 0x8000_809f,
            HostingErrorExitCode::BundleExtractionIOError => 0x8000_80a0,
            HostingErrorExitCode::LibHostDuplicateProperty => 0x8000_80a1,
            HostingErrorExitCode::HostApiUnsupportedVersion => 0x8000_80a2,
            HostingErrorExitCode::HostInvalidState => 0x8000_80a3,
            HostingErrorExitCode::HostPropertyNotFound => 0x8000_80a4,
            HostingErrorExitCode::CoreHostIncompatibleConfig => 0x8000_80a5,
            HostingErrorExitCode::HostApiUnsupportedScenario => 0x8000_80a6,
            HostingErrorExitCode::Unknown => 0x8000_80a7,
        }
    }

    /// Tries to find the variant whose raw exit code is `code`.
    pub fn try_from_primitive(code: u32) -> (r: Option<Self>)
        ensures
            r == Self::spec_try_from_primitive(code),
    {
        let r = 
        if code == 0x8000_8081 {
            Some(HostingErrorExitCode::InvalidArgFailure)
        } else if code == 0x8000_8082 {
            Some(HostingErrorExitCode::CoreHostLibLoadFailure)
        } else if code == 0x8000_8083 {
            Some(HostingErrorExitCode::CoreHostLibMissingFailure)
        } else if code == 0x8000_8084 {
            Some(HostingErrorExitCode::CoreHostEntryPointFailure)
        } else if code == 0x8000_8085 {
            Some(HostingErrorExitCode::CoreHostCurHostFindFailure)
        } else if code == 0x8000_8087 {
            Some(HostingErrorExitCode::CoreClrResolveFailure)
        } else if code == 0x8000_8088 {
            Some(HostingErrorExitCode::CoreClrBindFailure)
        } else if code == 0x8000_8089 {
            Some(HostingErrorExitCode::CoreClrInitFailure)
        } else if code == 0x8000_808a {
            Some(HostingErrorExitCode::CoreClrExeFailure)
        } else if code == 0x8000_808b {
            Some(HostingErrorExitCode::ResolverInitFailure)
        } else if code == 0x8000_808c {
            Some(HostingErrorExitCode::ResolverResolveFailure)
        } else if code == 0x8000_808d {
            Some(HostingErrorExitCode::LibHostCurExeFindFailure)
        } else if code == 0x8000_808e {
            Some(HostingErrorExitCode::LibHostInitFailure)
        } else if code == 0x8000_8091 {
            Some(HostingErrorExitCode::LibHostSdkFindFailure)
        } else if code == 0x8000_8092 {
            Some(HostingErrorExitCode::LibHostInvalidArgs)
        } else if code == 0x8000_8093 {
            Some(HostingErrorExitCode::InvalidConfigFile)
        } else if code == 0x8000_8094 {
            Some(HostingErrorExitCode::AppArgNotRunnable)
        } else if code == 0x8000_8095 {
            Some(HostingErrorExitCode::AppHostExeNotBoundFailure)
        } else if code == 0x8000_8096 {
            Some(HostingErrorExitCode::FrameworkMissingFailure)
        } else if code == 0x8000_8097 {
            Some(HostingErrorExitCode::HostApiFailed)
        } else if code == 0x8000_8098 {
            Some(HostingErrorExitCode::HostApiBufferTooSmall)
        } else if code == 0x8000_8099 {
            Some(HostingErrorExitCode::LibHostUnknownCommand)
        } else if code == 0x8000_809a {
            Some(HostingErrorExitCode::LibHostAppRootFindFailure)
        } else if code == 0x8000_809b {
            Some(HostingErrorExitCode::SdkResolverResolveFailure)
        } else if code == 0x8000_809c {
            Some(HostingErrorExitCode::FrameworkCompatFailure)
        } else if code == 0x8000_809d {
            Some(HostingErrorExitCode::FrameworkCompatRetry)
        } else if code == 0x8000_809e {
            Some(HostingErrorExitCode::AppHostExeNotBundle)
        } else if code == 0x8000_809f {
            Some(HostingErrorExitCode::BundleExtractionFailure)
        } else if code == 0x8000_80a0 {
            Some(HostingErrorExitCode::BundleExtractionIOError)
        } else if code == 0x8000_80a1 {
            Some(HostingErrorExitCode::LibHostDuplicateProperty)
        } else if code == 0x8000_80a2 {
            Some(HostingErrorExitCode::HostApiUnsupportedVersion)
        } else if code == 0x8000_80a3 {
            Some(HostingErrorExitCode::HostInvalidState)
        } else if code == 0x8000_80a4 {
            Some(HostingErrorExitCode::HostPropertyNotFound)
        } else if code == 0x8000_80a5 {
            Some(HostingErrorExitCode::CoreHostIncompatibleConfig)
        } else if code == 0x8000_80a6 {
            Some(HostingErrorExitCode::HostApiUnsupportedScenario)
        } else {
            None
        };
        proof {
            if let Some(v) = r {
                Self::lemma_try_from_primitive_of_value(v);
            }
        }
        r
    }
}

impl From<HostingErrorExitCode> for u32 {
    fn from(code: HostingErrorExitCode) -> (r: Self) {
        code.value()
    }
}

impl FromSpecImpl<HostingErrorExitCode> for u32 {
    open spec fn obeys_from_spec() -> bool {
        true
    }

    open spec fn from_spec(code: HostingErrorExitCode) -> Self {
        code.spec_value()
    }
}

impl HostingExitCode {
    /// The raw exit code.
    pub open spec fn spec_value(self) -> u32 {
        match self {
            HostingExitCode::Success(code) => code.spec_value(),
            HostingExitCode::Error(code) => code.spec_value(),
            HostingExitCode::Unknown(code) => code,
        }
    }

    /// The exit code that the raw code `code` stands for: a success if some success variant has
    /// that code, otherwise an error if some error variant has it, otherwise unknown (the
    /// placeholders are never decoded).
    pub open spec fn spec_new(code: u32) -> HostingExitCode {
        match HostingSuccessExitCode::spec_try_from_primitive(code) {
            Some(s) => HostingExitCode::Success(s),
            None => match HostingErrorExitCode::spec_try_from_primitive(code) {
                Some(e) => HostingExitCode::Error(e),
                None => HostingExitCode::Unknown(code),
            },
        }
    }

    /// The view of the exit code as a result, where unknown codes count as
    /// [`HostingErrorExitCode::Unknown`].
    pub open spec fn spec_to_result_assume_unknown_is_error(self) -> Result<HostingSuccessExitCode, HostingErrorExitCode> {
        match self {
            HostingExitCode::Success(code) => Ok(code),
            HostingExitCode::Error(code) => Err(code),
            HostingExitCode::Unknown(_) => Err(HostingErrorExitCode::Unknown),
        }
    }

    /// The view of the exit code as a result, where unknown codes count as
    /// [`HostingSuccessExitCode::Unknown`].
    pub open spec fn spec_to_result_assume_unknown_is_success(self) -> Result<HostingSuccessExitCode, HostingErrorExitCode> {
        match self {
            HostingExitCode::Success(code) => Ok(code),
            HostingExitCode::Error(code) => Err(code),
            HostingExitCode::Unknown(_) => Ok(HostingSuccessExitCode::Unknown),
        }
    }

    /// Creates a new [`HostingExitCode`] from the raw exit code.
    pub fn new(code: u32) -> (r: Self)
        ensures
            r == Self::spec_new(code),
            r.spec_value() == code,
    {
        if let Some(code) = HostingSuccessExitCode::try_from_primitive(code) {
            HostingExitCode::Success(code)
        } else if let Some(code) = HostingErrorExitCode::try_from_primitive(code) {
            HostingExitCode::Error(code)
        } else {
            HostingExitCode::Unknown(code)
        }
    }

    /// Returns whether the exit code represents a successful operation.
    pub fn is_success(&self) -> (r: bool)
        ensures
            r == (*self is Success),
    {
        matches!(self, HostingExitCode::Success(_))
    }

    /// Returns whether the exit code represents an error.
    pub fn is_error(&self) -> (r: bool)
        ensures
            r == (*self is Error),
    {
        matches!(self, HostingExitCode::Error(_))
    }

    /// Returns whether the exit code is unknown.
    pub fn is_unknown(&self) -> (r: bool)
        ensures
            r == (*self is Unknown),
    {
        matches!(self, HostingExitCode::Unknown(_))
    }

    /// Returns whether this exit code is for internal use only.
    /// This should always be false for any code returned by this library.
    pub fn is_for_use_internal_only(&self) -> (r: bool)
        ensures
            r == (*self == HostingExitCode::Error(HostingErrorExitCode::FrameworkCompatRetry)
                || *self == HostingExitCode::Error(HostingErrorExitCode::AppArgNotRunnable)),
    {
        matches!(
            self,
            HostingExitCode::Error(HostingErrorExitCode::FrameworkCompatRetry | HostingErrorExitCode::AppArgNotRunnable)
        )
    }

    /// Returns the underlying exit code value.
    pub fn value(self) -> (r: u32)
        ensures
            r == self.spec_value(),
    {
        match self {
            HostingExitCode::Success(code) => code.value(),
            HostingExitCode::Error(code) => code.value(),
            HostingExitCode::Unknown(code) => code,
        }
    }

    /// Transforms this exit code into an [`Option`] mapping sucess codes to [`Some`] and error or
    /// unknown codes to [`None`].
    pub fn success(self) -> (r: Option<HostingSuccessExitCode>)
        ensures
            r == (match self {
                HostingExitCode::Success(code) => Some(code),
                _ => None,
            }),
    {
        match self {
            HostingExitCode::Success(code) => Some(code),
            _ => None,
        }
    }

    /// Transforms this exit code into an [`Option`] mapping error codes to [`Some`] and success or
    /// unknown codes to [`None`].
    pub fn error(self) -> (r: Option<HostingErrorExitCode>)
        ensures
            r == (match self {
                HostingExitCode::Error(code) => Some(code),
                _ => None,
            }),
    {
        match self {
            HostingExitCode::Error(code) => Some(code),
            _ => None,
        }
    }

    /// Transforms this exit code into a result mapping success codes to [`Ok`] and error codes to
    /// [`Err`]. Unknown exit codes are mapped to `Err(HostingErrorExitCode::Unknown)`.
    pub fn to_result_assume_unknown_is_error(&self) -> (r: Result<HostingSuccessExitCode, HostingErrorExitCode>)
        ensures
            r == self.spec_to_result_assume_unknown_is_error(),
    {
        match *self {
            HostingExitCode::Success(code) => Ok(code),
            HostingExitCode::Error(code) => Err(code),
            HostingExitCode::Unknown(_) => Err(HostingErrorExitCode::Unknown),
        }
    }

    /// Transforms this exit code into a result mapping success codes to [`Ok`] and error codes to
    /// [`Err`]. Unknown exit codes are mapped to `Ok(HostingSuccessExitCode::Unknown)`.
    pub fn to_result_assume_unknown_is_success(&self) -> (r: Result<HostingSuccessExitCode, HostingErrorExitCode>)
        ensures
            r == self.spec_to_result_assume_unknown_is_success(),
    {
        match *self {
            HostingExitCode::Success(code) => Ok(code),
            HostingExitCode::Error(code) => Err(code),
            HostingExitCode::Unknown(_) => Ok(HostingSuccessExitCode::Unknown),
        }
    }

    /// Reading back the raw code of a decoded exit code gives the code.
    pub proof fn lemma_value_of_new(code: u32)
        ensures
            Self::spec_new(code).spec_value() == code,
    {
        if HostingSuccessExitCode::is_code(code) {
            let s = choose|s: HostingSuccessExitCode| !(s is Unknown) && #[trigger] s.spec_value() == code;
        } else if HostingErrorExitCode::is_code(code) {
            let e = choose|e: HostingErrorExitCode| !(e is Unknown) && #[trigger] e.spec_value() == code;
        }
    }

    /// Every exit code is given back by decoding its own raw code, except one that holds a
    /// placeholder and an unknown one that carries the code of a known variant.
    pub proof fn lemma_new_of_value(x: HostingExitCode)
        requires
            x matches HostingExitCode::Success(s) ==> !(s is Unknown),
            x matches HostingExitCode::Error(e) ==> !(e is Unknown),
            x matches HostingExitCode::Unknown(c) ==> !HostingSuccessExitCode::is_code(c)
                && !HostingErrorExitCode::is_code(c),
        ensures
            Self::spec_new(x.spec_value()) == x,
    {
        match x {
            HostingExitCode::Success(s) => HostingSuccessExitCode::lemma_try_from_primitive_of_value(s),
            HostingExitCode::Error(e) => {
                HostingErrorExitCode::lemma_try_from_primitive_of_value(e);
                assert(!HostingSuccessExitCode::is_code(e.spec_value()));
            },
            HostingExitCode::Unknown(_) => {},
        }
    }

    /// An exit code is exactly one of a success, an error and an unknown code, and the two
    /// result views agree on every known code.
    pub proof fn lemma_classification(x: HostingExitCode)
        ensures
            (x is Success) as int + (x is Error) as int + (x is Unknown) as int == 1,
            !(x is Unknown) ==> x.spec_to_result_assume_unknown_is_error()
                == x.spec_to_result_assume_unknown_is_success(),
            x.spec_to_result_assume_unknown_is_error() is Ok <==> x is Success,
            x.spec_to_result_assume_unknown_is_success() is Err <==> x is Error,
    {
    }
}

/// The documented hosting status codes decode to the exit-code variants of the same name: each
/// success code of `error_codes.h` to its success variant and each error code to its error
/// variant.
pub proof fn lemma_documented_exit_codes()
    ensures
        HostingExitCode::spec_new(status_code::SUCCESS) == HostingExitCode::Success(HostingSuccessExitCode::Success),
        HostingExitCode::spec_new(status_code::SUCCESS_HOST_ALREADY_INITIALIZED) == HostingExitCode::Success(HostingSuccessExitCode::Success_HostAlreadyInitialized),
        HostingExitCode::spec_new(status_code::SUCCESS_DIFFERENT_RUNTIME_PROPERTIES) == HostingExitCode::Success(HostingSuccessExitCode::Success_DifferentRuntimeProperties),
        HostingExitCode::spec_new(status_code::INVALID_ARG_FAILURE) == HostingExitCode::Error(HostingErrorExitCode::InvalidArgFailure),
        HostingExitCode::spec_new(status_code::CORE_HOST_LIB_LOAD_FAILURE) == HostingExitCode::Error(HostingErrorExitCode::CoreHostLibLoadFailure),
        HostingExitCode::spec_new(status_code::CORE_HOST_LIB_MISSING_FAILURE) == HostingExitCode::Error(HostingErrorExitCode::CoreHostLibMissingFailure),
        HostingExitCode::spec_new(status_code::CORE_HOST_ENTRY_POINT_FAILURE) == HostingExitCode::Error(HostingErrorExitCode::CoreHostEntryPointFailure),
        HostingExitCode::spec_new(status_code::CORE_HOST_CUR_HOST_FIND_FAILURE) == HostingExitCode::Error(HostingErrorExitCode::CoreHostCurHostFindFailure),
        HostingExitCode::spec_new(status_code::CORE_CLR_RESOLVE_FAILURE) == HostingExitCode::Error(HostingErrorExitCode::CoreClrResolveFailure),
        HostingExitCode::spec_new(status_code::CORE_CLR_BIND_FAILURE) == HostingExitCode::Error(HostingErrorExitCode::CoreClrBindFailure),
        HostingExitCode::spec_new(status_code::CORE_CLR_INIT_FAILURE) == HostingExitCode::Error(HostingErrorExitCode::CoreClrInitFailure),
        HostingExitCode::spec_new(status_code::CORE_CLR_EXE_FAILURE) == HostingExitCode::Error(HostingErrorExitCode::CoreClrExeFailure),
        HostingExitCode::spec_new(status_code::RESOLVER_INIT_FAILURE) == HostingExitCode::Error(HostingErrorExitCode::ResolverInitFailure),
        HostingExitCode::spec_new(status_code::RESOLVER_RESOLVE_FAILURE) == HostingExitCode::Error(HostingErrorExitCode::ResolverResolveFailure),
        HostingExitCode::spec_new(status_code::LIB_HOST_CUR_EXE_FIND_FAILURE) == HostingExitCode::Error(HostingErrorExitCode::LibHostCurExeFindFailure),
        HostingExitCode::spec_new(status_code::LIB_HOST_INIT_FAILURE) == HostingExitCode::Error(HostingErrorExitCode::LibHostInitFailure),
        HostingExitCode::spec_new(status_code::LIB_HOST_SDK_FIND_FAILURE) == HostingExitCode::Error(HostingErrorExitCode::LibHostSdkFindFailure),
        HostingExitCode::spec_new(status_code::LIB_HOST_INVALID_ARGS) == HostingExitCode::Error(HostingErrorExitCode::LibHostInvalidArgs),
        HostingExitCode::spec_new(status_code::INVALID_CONFIG_FILE) == HostingExitCode::Error(HostingErrorExitCode::InvalidConfigFile),
        HostingExitCode::spec_new(status_code::APP_ARG_NOT_RUNNABLE) == HostingExitCode::Error(HostingErrorExitCode::AppArgNotRunnable),
        HostingExitCode::spec_new(status_code::APP_HOST_EXE_NOT_BOUND_FAILURE) == HostingExitCode::Error(HostingErrorExitCode::AppHostExeNotBoundFailure),
        HostingExitCode::spec_new(status_code::FRAMEWORK_MISSING_FAILURE) == HostingExitCode::Error(HostingErrorExitCode::FrameworkMissingFailure),
        HostingExitCode::spec_new(status_code::HOST_API_FAILED) == HostingExitCode::Error(HostingErrorExitCode::HostApiFailed),
        HostingExitCode::spec_new(status_code::HOST_API_BUFFER_TOO_SMALL) == HostingExitCode::Error(HostingErrorExitCode::HostApiBufferTooSmall),
        HostingExitCode::spec_new(status_code::LIB_HOST_UNKNOWN_COMMAND) == HostingExitCode::Error(HostingErrorExitCode::LibHostUnknownCommand),
        HostingExitCode::spec_new(status_code::LIB_HOST_APP_ROOT_FIND_FAILURE) == HostingExitCode::Error(HostingErrorExitCode::LibHostAppRootFindFailure),
        HostingExitCode::spec_new(status_code::SDK_RESOLVER_RESOLVE_FAILURE) == HostingExitCode::Error(HostingErrorExitCode::SdkResolverResolveFailure),
        HostingExitCode::spec_new(status_code::FRAMEWORK_COMPAT_FAILURE) == HostingExitCode::Error(HostingErrorExitCode::FrameworkCompatFailure),
        HostingExitCode::spec_new(status_code::FRAMEWORK_COMPAT_RETRY) == HostingExitCode::Error(HostingErrorExitCode::FrameworkCompatRetry),
        HostingExitCode::spec_new(status_code::APP_HOST_EXE_NOT_BUNDLE) == HostingExitCode::Error(HostingErrorExitCode::AppHostExeNotBundle),
        HostingExitCode::spec_new(status_code::BUNDLE_EXTRACTION_FAILURE) == HostingExitCode::Error(HostingErrorExitCode::BundleExtractionFailure),
        HostingExitCode::spec_new(status_code::BUNDLE_EXTRACTION_IO_ERROR) == HostingExitCode::Error(HostingErrorExitCode::BundleExtractionIOError),
        HostingExitCode::spec_new(status_code::LIB_HOST_DUPLICATE_PROPERTY) == HostingExitCode::Error(HostingErrorExitCode::LibHostDuplicateProperty),
        HostingExitCode::spec_new(status_code::HOST_API_UNSUPPORTED_VERSION) == HostingExitCode::Error(HostingErrorExitCode::HostApiUnsupportedVersion),
        HostingExitCode::spec_new(status_code::HOST_INVALID_STATE) == HostingExitCode::Error(HostingErrorExitCode::HostInvalidState),
        HostingExitCode::spec_new(status_code::HOST_PROPERTY_NOT_FOUND) == HostingExitCode::Error(HostingErrorExitCode::HostPropertyNotFound),
        HostingExitCode::spec_new(status_code::CORE_HOST_INCOMPATIBLE_CONFIG) == HostingExitCode::Error(HostingErrorExitCode::CoreHostIncompatibleConfig),
        HostingExitCode::spec_new(status_code::HOST_API_UNSUPPORTED_SCENARIO) == HostingExitCode::Error(HostingErrorExitCode::HostApiUnsupportedScenario),
{
    assert forall|v: HostingSuccessExitCode| !(v is Unknown) implies #[trigger] HostingExitCode::spec_new(v.spec_value())
        == HostingExitCode::Success(v) by {
        HostingExitCode::lemma_new_of_value(HostingExitCode::Success(v));
    }
    assert forall|v: HostingErrorExitCode| !(v is Unknown) implies #[trigger] HostingExitCode::spec_new(v.spec_value())
        == HostingExitCode::Error(v) by {
        HostingExitCode::lemma_new_of_value(HostingExitCode::Error(v));
    }
    assert(HostingExitCode::spec_new(HostingSuccessExitCode::Success.spec_value()) == HostingExitCode::Success(HostingSuccessExitCode::Success));
    assert(HostingExitCode::spec_new(HostingSuccessExitCode::Success_HostAlreadyInitialized.spec_value()) == HostingExitCode::Success(HostingSuccessExitCode::Success_HostAlreadyInitialized));
    assert(HostingExitCode::spec_new(HostingSuccessExitCode::Success_DifferentRuntimeProperties.spec_value()) == HostingExitCode::Success(HostingSuccessExitCode::Success_DifferentRuntimeProperties));
    assert(HostingExitCode::spec_new(HostingErrorExitCode::InvalidArgFailure.spec_value()) == HostingExitCode::Error(HostingErrorExitCode::InvalidArgFailure));
    assert(HostingExitCode::spec_new(HostingErrorExitCode::CoreHostLibLoadFailure.spec_value()) == HostingExitCode::Error(HostingErrorExitCode::CoreHostLibLoadFailure));
    assert(HostingExitCode::spec_new(HostingErrorExitCode::CoreHostLibMissingFailure.spec_value()) == HostingExitCode::Error(HostingErrorExitCode::CoreHostLibMissingFailure));
    assert(HostingExitCode::spec_new(HostingErrorExitCode::CoreHostEntryPointFailure.spec_value()) == HostingExitCode::Error(HostingErrorExitCode::CoreHostEntryPointFailure));
    assert(HostingExitCode::spec_new(HostingErrorExitCode::CoreHostCurHostFindFailure.spec_value()) == HostingExitCode::Error(HostingErrorExitCode::CoreHostCurHostFindFailure));
    assert(HostingExitCode::spec_new(HostingErrorExitCode::CoreClrResolveFailure.spec_value()) == HostingExitCode::Error(HostingErrorExitCode::CoreClrResolveFailure));
    assert(HostingExitCode::spec_new(HostingErrorExitCode::CoreClrBindFailure.spec_value()) == HostingExitCode::Error(HostingErrorExitCode::CoreClrBindFailure));
    assert(HostingExitCode::spec_new(HostingErrorExitCode::CoreClrInitFailure.spec_value()) == HostingExitCode::Error(HostingErrorExitCode::CoreClrInitFailure));
    assert(HostingExitCode::spec_new(HostingErrorExitCode::CoreClrExeFailure.spec_value()) == HostingExitCode::Error(HostingErrorExitCode::CoreClrExeFailure));
    assert(HostingExitCode::spec_new(HostingErrorExitCode::ResolverInitFailure.spec_value()) == HostingExitCode::Error(HostingErrorExitCode::ResolverInitFailure));
    assert(HostingExitCode::spec_new(HostingErrorExitCode::ResolverResolveFailure.spec_value()) == HostingExitCode::Error(HostingErrorExitCode::ResolverResolveFailure));
    assert(HostingExitCode::spec_new(HostingErrorExitCode::LibHostCurExeFindFailure.spec_value()) == HostingExitCode::Error(HostingErrorExitCode::LibHostCurExeFindFailure));
    assert(HostingExitCode::spec_new(HostingErrorExitCode::LibHostInitFailure.spec_value()) == HostingExitCode::Error(HostingErrorExitCode::LibHostInitFailure));
    assert(HostingExitCode::spec_new(HostingErrorExitCode::LibHostSdkFindFailure.spec_value()) == HostingExitCode::Error(HostingErrorExitCode::LibHostSdkFindFailure));
    assert(HostingExitCode::spec_new(HostingErrorExitCode::LibHostInvalidArgs.spec_value()) == HostingExitCode::Error(HostingErrorExitCode::LibHostInvalidArgs));
    assert(HostingExitCode::spec_new(HostingErrorExitCode::InvalidConfigFile.spec_value()) == HostingExitCode::Error(HostingErrorExitCode::InvalidConfigFile));
    assert(HostingExitCode::spec_new(HostingErrorExitCode::AppArgNotRunnable.spec_value()) == HostingExitCode::Error(HostingErrorExitCode::AppArgNotRunnable));
    assert(HostingExitCode::spec_new(HostingErrorExitCode::AppHostExeNotBoundFailure.spec_value()) == HostingExitCode::Error(HostingErrorExitCode::AppHostExeNotBoundFailure));
    assert(HostingExitCode::spec_new(HostingErrorExitCode::FrameworkMissingFailure.spec_value()) == HostingExitCode::Error(HostingErrorExitCode::FrameworkMissingFailure));
    assert(HostingExitCode::spec_new(HostingErrorExitCode::HostApiFailed.spec_value()) == HostingExitCode::Error(HostingErrorExitCode::HostApiFailed));
    assert(HostingExitCode::spec_new(HostingErrorExitCode::HostApiBufferTooSmall.spec_value()) == HostingExitCode::Error(HostingErrorExitCode::HostApiBufferTooSmall));
    assert(HostingExitCode::spec_new(HostingErrorExitCode::LibHostUnknownCommand.spec_value()) == HostingExitCode::Error(HostingErrorExitCode::LibHostUnknownCommand));
    assert(HostingExitCode::spec_new(HostingErrorExitCode::LibHostAppRootFindFailure.spec_value()) == HostingExitCode::Error(HostingErrorExitCode::LibHostAppRootFindFailure));
    assert(HostingExitCode::spec_new(HostingErrorExitCode::SdkResolverResolveFailure.spec_value()) == HostingExitCode::Error(HostingErrorExitCode::SdkResolverResolveFailure));
    assert(HostingExitCode::spec_new(HostingErrorExitCode::FrameworkCompatFailure.spec_value()) == HostingExitCode::Error(HostingErrorExitCode::FrameworkCompatFailure));
    assert(HostingExitCode::spec_new(HostingErrorExitCode::FrameworkCompatRetry.spec_value()) == HostingExitCode::Error(HostingErrorExitCode::FrameworkCompatRetry));
    assert(HostingExitCode::spec_new(HostingErrorExitCode::AppHostExeNotBundle.spec_value()) == HostingExitCode::Error(HostingErrorExitCode::AppHostExeNotBundle));
    assert(HostingExitCode::spec_new(HostingErrorExitCode::BundleExtractionFailure.spec_value()) == HostingExitCode::Error(HostingErrorExitCode::BundleExtractionFailure));
    assert(HostingExitCode::spec_new(HostingErrorExitCode::BundleExtractionIOError.spec_value()) == HostingExitCode::Error(HostingErrorExitCode::BundleExtractionIOError));
    assert(HostingExitCode::spec_new(HostingErrorExitCode::LibHostDuplicateProperty.spec_value()) == HostingExitCode::Error(HostingErrorExitCode::LibHostDuplicateProperty));
    assert(HostingExitCode::spec_new(HostingErrorExitCode::HostApiUnsupportedVersion.spec_value()) == HostingExitCode::Error(HostingErrorExitCode::HostApiUnsupportedVersion));
    assert(HostingExitCode::spec_new(HostingErrorExitCode::HostInvalidState.spec_value()) == HostingExitCode::Error(HostingErrorExitCode::HostInvalidState));
    assert(HostingExitCode::spec_new(HostingErrorExitCode::HostPropertyNotFound.spec_value()) == HostingExitCode::Error(HostingErrorExitCode::HostPropertyNotFound));
    assert(HostingExitCode::spec_new(HostingErrorExitCode::CoreHostIncompatibleConfig.spec_value()) == HostingExitCode::Error(HostingErrorExitCode::CoreHostIncompatibleConfig));
    assert(HostingExitCode::spec_new(HostingErrorExitCode::HostApiUnsupportedScenario.spec_value()) == HostingExitCode::Error(HostingErrorExitCode::HostApiUnsupportedScenario));
}

impl From<HostingExitCode> for i32 {
    fn from(code: HostingExitCode) -> (r: Self) {
        code.value() as i32
    }
}

impl FromSpecImpl<HostingExitCode> for i32 {
    open spec fn obeys_from_spec() -> bool {
        true
    }

    open spec fn from_spec(code: HostingExitCode) -> Self {
        code.spec_value() as i32
    }
}

impl From<i32> for HostingExitCode {
    fn from(code: i32) -> (r: Self) {
        HostingExitCode::new(code as u32)
    }
}

impl FromSpecImpl<i32> for HostingExitCode {
    open spec fn obeys_from_spec() -> bool {
        true
    }

    open spec fn from_spec(code: i32) -> Self {
        HostingExitCode::spec_new(code as u32)
    }
}

impl From<HostingExitCode> for u32 {
    fn from(code: HostingExitCode) -> (r: Self) {
        code.value()
    }
}

impl FromSpecImpl<HostingExitCode> for u32 {
    open spec fn obeys_from_spec() -> bool {
        true
    }

    open spec fn from_spec(code: HostingExitCode) -> Self {
        code.spec_value()
    }
}

impl From<u32> for HostingExitCode {
    fn from(code: u32) -> (r: Self) {
        HostingExitCode::new(code)
    }
}

impl FromSpecImpl<u32> for HostingExitCode {
    open spec fn obeys_from_spec() -> bool {
        true
    }

    open spec fn from_spec(code: u32) -> Self {
        HostingExitCode::spec_new(code)
    }
}

} // verus!
