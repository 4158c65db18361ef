//! Result of a hosting API operation of `hostfxr`, `hostpolicy` and `nethost`.

use vstd::prelude::*;

use crate::bindings::status_code;
use core::ops::Deref;
use vstd::std_specs::convert::{FromSpecImpl, TryFromSpecImpl};

verus! {

/// Result of a hosting API operation of `hostfxr`, `hostpolicy` and `nethost`.
#[derive(Debug, PartialEq, Eq, Clone, Copy, PartialOrd, Ord, Hash)]
pub struct HostingResult(pub Result<HostingSuccess, HostingError>);

/// Raw status codes below this bound are successes, the others are errors: this is the
/// sign of the status code read as an `i32`.
pub open spec fn is_success_code(code: u32) -> bool {
    code < 0x8000_0000
}

impl HostingResult {
    /// The raw status code of the result.
    pub open spec fn spec_value(self) -> u32 {
        match self.0 {
            Ok(s) => s.spec_value(),
            Err(e) => e.spec_value(),
        }
    }

    /// Whether the status code of the result has a known meaning.
    pub open spec fn spec_is_known(self) -> bool {
        match self.0 {
            Ok(s) => s.spec_is_known(),
            Err(e) => e.spec_is_known(),
        }
    }

    /// The result that the raw status code `code` stands for.
    pub open spec fn spec_from_status_code(code: u32) -> HostingResult {
        if is_success_code(code) {
            HostingResult(Ok(HostingSuccess::spec_from_status_code(code)))
        } else {
            HostingResult(Err(HostingError::spec_from_status_code(code)))
        }
    }

    /// The result with a known meaning that the raw status code `code` stands for, or `code` back.
    pub open spec fn spec_known_from_status_code(code: u32) -> Result<HostingResult, u32> {
        if HostingSuccess::is_known_code(code) {
            Ok(HostingResult(Ok(HostingSuccess::spec_from_status_code(code))))
        } else if HostingError::is_known_code(code) {
            Ok(HostingResult(Err(HostingError::spec_from_status_code(code))))
        } else {
            Err(code)
        }
    }

    /// Creates a new [`HostingResult`] from the raw status code.
    pub fn from_status_code(code: u32) -> (r: Self)
        ensures
            r == Self::spec_from_status_code(code),
            r.spec_value() == code,
    {
        proof {
            assert((code as i32 >= 0) == (code < 0x8000_0000)) by (bit_vector);
        }
        if code as i32 >= 0 {
            Self::from_success(HostingSuccess::from_status_code(code))
        } else {
            Self::from_error(HostingError::from_status_code(code))
        }
    }

    /// Creates a new successful [`HostingResult`] from the give [`HostingSuccess`].
    pub fn from_success(success: HostingSuccess) -> (r: Self)
        ensures
            r == HostingResult(Ok(success)),
    {
        HostingResult(Ok(success))
    }

    /// Creates a new erroneous [`HostingResult`] from the give [`HostingError`].
    pub fn from_error(error: HostingError) -> (r: Self)
        ensures
            r == HostingResult(Err(error)),
    {
        HostingResult(Err(error))
    }

    /// Tries to create a new [`HostingResult`] from the raw status code if it is known.
    /// Otherwise returns the given value as an [`Err`].
    pub fn known_from_status_code(code: u32) -> (r: Result<Self, u32>)
        ensures
            r == Self::spec_known_from_status_code(code),
    {
        if let Ok(success) = HostingSuccess::known_from_status_code(code) {
            Ok(Self::from_success(success))
        } else if let Ok(error) = HostingError::known_from_status_code(code) {
            Ok(Self::from_error(error))
        } else {
            Err(code)
        }
    }

    /// Returns the underlying status code value.
    pub fn value(&self) -> (r: u32)
        ensures
            r == self.spec_value(),
    {
        match self.0 {
            Ok(success) => success.value(),
            Err(error) => error.value(),
        }
    }

    /// Returns whether the status code of this result has a known meaning.
    pub fn is_known(&self) -> (r: bool)
        ensures
            r == self.spec_is_known(),
    {
        match self.0 {
            Ok(success) => success.is_known(),
            Err(error) => error.is_known(),
        }
    }

    /// Returns whether the status code of this result has a unknown meaning.
    pub fn is_unknown(&self) -> (r: bool)
        ensures
            r == !self.spec_is_known(),
    {
        match self.0 {
            Ok(success) => success.is_unknown(),
            Err(error) => error.is_unknown(),
        }
    }

    /// Transforms the result into a [`Result<HostingSuccess, HostingError>`].
    pub fn into_result(&self) -> (r: Result<HostingSuccess, HostingError>)
        ensures
            r == self.0,
    {
        self.0
    }
}

/// Success codes returned by the hosting APIs from `hostfxr`, `hostpolicy` and `nethost`.
#[derive(Debug, PartialEq, Eq, Clone, Copy, PartialOrd, Ord, Hash, Structural)]
pub enum HostingSuccess {
    /// Operation was successful.
    Success,
    /// Initialization was successful, but another host context is already initialized, so the
    /// returned context is "secondary".
    HostAlreadyInitialized,
    /// Initialization was successful, but another host context is already initialized and the
    /// requested context specified some runtime properties which are not the same to the already
    /// initialized context.
    DifferentRuntimeProperties,
    /// Unknown success status code.
    Unknown(u32),
}

impl HostingSuccess {
    /// The raw status code of a success.
    pub open spec fn spec_value(self) -> u32 {
        match self {
            HostingSuccess::Success => status_code::SUCCESS,
            HostingSuccess::HostAlreadyInitialized => status_code::SUCCESS_HOST_ALREADY_INITIALIZED,
            HostingSuccess::DifferentRuntimeProperties => status_code::SUCCESS_DIFFERENT_RUNTIME_PROPERTIES,
            HostingSuccess::Unknown(code) => code,
        }
    }

    /// Whether the success has a known meaning.
    pub open spec fn spec_is_known(self) -> bool {
        !(self is Unknown)
    }

    /// Whether some success with a known meaning has the raw status code `code`.
    pub open spec fn is_known_code(code: u32) -> bool {
        exists|s: HostingSuccess| s.spec_is_known() && #[trigger] s.spec_value() == code
    }

    /// The success with a known meaning whose raw status code is `code`, or `code` back.
    pub open spec fn spec_known_from_status_code(code: u32) -> Result<HostingSuccess, u32> {
        if Self::is_known_code(code) {
            Ok(choose|s: HostingSuccess| s.spec_is_known() && #[trigger] s.spec_value() == code)
        } else {
            Err(code)
        }
    }

    /// The success that the raw status code `code` stands for.
    pub open spec fn spec_from_status_code(code: u32) -> HostingSuccess {
        match Self::spec_known_from_status_code(code) {
            Ok(s) => s,
            Err(c) => HostingSuccess::Unknown(c),
        }
    }

    /// Two successes with a known meaning and the same status code are the same.
    pub proof fn lemma_value_injective(a: HostingSuccess, b: HostingSuccess)
        requires
            a.spec_is_known(),
            b.spec_is_known(),
            a.spec_value() == b.spec_value(),
        ensures
            a == b,
    {
    }

    proof fn lemma_known_from_status_code(code: u32, r: Result<HostingSuccess, u32>)
        requires
            r matches Ok(s) ==> s.spec_is_known() && s.spec_value() == code,
            r matches Err(c) ==> c == code && forall|s: HostingSuccess|
                #[trigger] s.spec_value() == code ==> !s.spec_is_known(),
        ensures
            r == Self::spec_known_from_status_code(code),
    {
        if let Ok(s) = r {
            assert(Self::is_known_code(code));
            let t = choose|t: HostingSuccess| t.spec_is_known() && #[trigger] t.spec_value() == code;
            Self::lemma_value_injective(s, t);
        }
    }

    /// Creates a new [`HostingSuccess`] from the raw status code.
    pub fn from_status_code(code: u32) -> (r: Self)
        ensures
            r == Self::spec_from_status_code(code),
            r.spec_value() == code,
    {
        match Self::known_from_status_code(code) {
            Ok(s) => s,
            Err(code) => HostingSuccess::Unknown(code),
        }
    }

    /// Tries to create a new [`HostingSuccess`] from the raw status code if it is known.
    /// Otherwise returns the given value as an [`Err`].
    pub fn known_from_status_code(code: u32) -> (r: Result<Self, u32>)
        ensures
            r == Self::spec_known_from_status_code(code),
            r matches Ok(s) ==> s.spec_is_known() && s.spec_value() == code,
            r matches Err(c) ==> c == code && !Self::is_known_code(code),
    {
        let r = if code == status_code::SUCCESS {
            Ok(HostingSuccess::Success)
        } else if code == status_code::SUCCESS_DIFFERENT_RUNTIME_PROPERTIES {
            Ok(HostingSuccess::DifferentRuntimeProperties)
        } else if code == status_code::SUCCESS_HOST_ALREADY_INITIALIZED {
            Ok(HostingSuccess::HostAlreadyInitialized)
        } else {
            Err(code)
        };
        proof {
            Self::lemma_known_from_status_code(code, r);
        }
        r
    }

    /// Returns the underlying status code value.
    pub fn value(&self) -> (r: u32)
        ensures
            r == self.spec_value(),
    {
        match self {
            HostingSuccess::Success => status_code::SUCCESS,
            HostingSuccess::DifferentRuntimeProperties => status_code::SUCCESS_DIFFERENT_RUNTIME_PROPERTIES,
            HostingSuccess::HostAlreadyInitialized => status_code::SUCCESS_HOST_ALREADY_INITIALIZED,
            HostingSuccess::Unknown(code) => *code,
        }
    }

    /// Returns whether the status code of this success has a known meaning.
    pub fn is_known(&self) -> (r: bool)
        ensures
            r == self.spec_is_known(),
    {
        !self.is_unknown()
    }

    /// Returns whether the status code of this success has a unknown meaning.
    pub fn is_unknown(&self) -> (r: bool)
        ensures
            r == (*self is Unknown),
    {
        matches!(self, HostingSuccess::Unknown(_))
    }
}

/// Error codes returned by the hosting APIs from `hostfxr`, `hostpolicy` and `nethost`.
#[derive(Debug, PartialEq, Eq, Clone, Copy, PartialOrd, Ord, Hash, Structural)]
pub enum HostingError {
    /// One of the specified arguments for the operation is invalid.
    InvalidArgFailure,
    /// There was a failure loading a dependent library.
    CoreHostLibLoadFailure,
    /// One of the dependent libraries is missing.
    CoreHostLibMissingFailure,
    /// One of the dependent libraries is missing a required entry point.
    CoreHostEntryPointFailure,
    /// If the hosting component is trying to use the path to the current module (the hosting component itself) and from it deduce the location of the installation.
    CoreHostCurHostFindFailure,
    /// If the `coreclr` library could not be found.
    CoreClrResolveFailure,
    /// The loaded `coreclr` library doesn't have one of the required entry points.
    CoreClrBindFailure,
    /// The call to `coreclr_initialize` failed.
    CoreClrInitFailure,
    /// The call to `coreclr_execute_assembly` failed.
    CoreClrExeFailure,
    /// Initialization of the `hostpolicy` dependency resolver failed.
    ResolverInitFailure,
    /// Resolution of dependencies in `hostpolicy` failed.
    ResolverResolveFailure,
    /// Failure to determine the location of the current executable.
    LibHostCurExeFindFailure,
    /// Initialization of the `hostpolicy` library failed.
    LibHostInitFailure,
    /// Failure of the execution mode of `hostpolicy` (only defined in `error_codes.h`).
    LibHostExecModeFailure,
    /// Failure to find the requested SDK.
    LibHostSdkFindFailure,
    /// Arguments to `hostpolicy` are invalid.
    LibHostInvalidArgs,
    /// The `.runtimeconfig.json` file is invalid.
    InvalidConfigFile,
    /// Used internally when the command line for `dotnet.exe` doesn't contain path to the application to run.
    AppArgNotRunnable,
    /// `apphost` failed to determine which application to run.
    AppHostExeNotBoundFailure,
    /// It was not possible to find a compatible framework version.
    FrameworkMissingFailure,
    /// Returned by `hostfxr_get_native_search_directories` if the `hostpolicy` could not calculate the `NATIVE_DLL_SEARCH_DIRECTORIES`.
    HostApiFailed,
    /// Returned when the buffer specified to an API is not big enough to fit the requested value.
    HostApiBufferTooSmall,
    /// Returned by `hostpolicy` if the `corehost_main_with_output_buffer` is called with unsupported host command.
    LibHostUnknownCommand,
    /// Returned by `apphost` if the imprinted application path doesn't exist.
    LibHostAppRootFindFailure,
    /// Returned from `hostfxr_resolve_sdk2` when it fails to find matching SDK.
    SdkResolverResolveFailure,
    /// During processing of `.runtimeconfig.json` there were two framework references to the same framework which were not compatible.
    FrameworkCompatFailure,
    /// Error used internally if the processing of framework references from `.runtimeconfig.json` reached a point where it needs to reprocess another already processed framework reference.
    FrameworkCompatRetry,
    /// Error reading the bundle footer metadata from a single-file `apphost`.
    AppHostExeNotBundle,
    /// Error extracting single-file `apphost` bundle.
    BundleExtractionFailure,
    /// Error reading or writing files during single-file `apphost` bundle extraction.
    BundleExtractionIOError,
    /// The `.runtimeconfig.json` specified by the app contains a runtime property which is also produced by the hosting layer.
    LibHostDuplicateProperty,
    /// Feature which requires certain version of the hosting layer binaries was used on a version which doesn't support it.
    HostApiUnsupportedVersion,
    /// Error code returned by the hosting APIs in `hostfxr` if the current state is incompatible with the requested operation.
    HostInvalidState,
    /// Property requested by `hostfxr_get_runtime_property_value` doesn't exist.
    HostPropertyNotFound,
    /// Error returned by `hostfxr_initialize_for_runtime_config` if the component being initialized requires framework which is not available or incompatible with the frameworks loaded by the runtime already in the process.
    CoreHostIncompatibleConfig,
    /// Error returned by `hostfxr_get_runtime_delegate` when `hostfxr` doesn't currently support requesting the given delegate type using the given context.
    HostApiUnsupportedScenario,
    /// Error returned by `hostfxr_get_runtime_delegate` when managed feature support for native host is disabled.
    HostFeatureDisabled,
    /// Unknown error status code.
    Unknown(u32),
}

impl HostingError {
    /// The raw status code of an error.
    pub open spec fn spec_value(self) -> u32 {
        match self {
            HostingError::InvalidArgFailure => status_code::INVALID_ARG_FAILURE,
            HostingError::CoreHostLibLoadFailure => status_code::CORE_HOST_LIB_LOAD_FAILURE,
            HostingError::CoreHostLibMissingFailure => status_code::CORE_HOST_LIB_MISSING_FAILURE,
            HostingError::CoreHostEntryPointFailure => status_code::CORE_HOST_ENTRY_POINT_FAILURE,
            HostingError::CoreHostCurHostFindFailure => status_code::CORE_HOST_CUR_HOST_FIND_FAILURE,
            HostingError::CoreClrResolveFailure => status_code::CORE_CLR_RESOLVE_FAILURE,
            HostingError::CoreClrBindFailure => status_code::CORE_CLR_BIND_FAILURE,
            HostingError::CoreClrInitFailure => status_code::CORE_CLR_INIT_FAILURE,
            HostingError::CoreClrExeFailure => status_code::CORE_CLR_EXE_FAILURE,
            HostingError::ResolverInitFailure => status_code::RESOLVER_INIT_FAILURE,
            HostingError::ResolverResolveFailure => status_code::RESOLVER_RESOLVE_FAILURE,
            HostingError::LibHostCurExeFindFailure => status_code::LIB_HOST_CUR_EXE_FIND_FAILURE,
            HostingError::LibHostInitFailure => status_code::LIB_HOST_INIT_FAILURE,
            HostingError::LibHostExecModeFailure => status_code::LIB_HOST_EXEC_MODE_FAILURE,
            HostingError::LibHostSdkFindFailure => status_code::LIB_HOST_SDK_FIND_FAILURE,
            HostingError::LibHostInvalidArgs => status_code::LIB_HOST_INVALID_ARGS,
            HostingError::InvalidConfigFile => status_code::INVALID_CONFIG_FILE,
            HostingError::AppArgNotRunnable => status_code::APP_ARG_NOT_RUNNABLE,
            HostingError::AppHostExeNotBoundFailure => status_code::APP_HOST_EXE_NOT_BOUND_FAILURE,
            HostingError::FrameworkMissingFailure => status_code::FRAMEWORK_MISSING_FAILURE,
            HostingError::HostApiFailed => status_code::HOST_API_FAILED,
            HostingError::HostApiBufferTooSmall => status_code::HOST_API_BUFFER_TOO_SMALL,
            HostingError::LibHostUnknownCommand => status_code::LIB_HOST_UNKNOWN_COMMAND,
            HostingError::LibHostAppRootFindFailure => status_code::LIB_HOST_APP_ROOT_FIND_FAILURE,
            HostingError::SdkResolverResolveFailure => status_code::SDK_RESOLVER_RESOLVE_FAILURE,
            HostingError::FrameworkCompatFailure => status_code::FRAMEWORK_COMPAT_FAILURE,
            HostingError::FrameworkCompatRetry => status_code::FRAMEWORK_COMPAT_RETRY,
            HostingError::AppHostExeNotBundle => status_code::APP_HOST_EXE_NOT_BUNDLE,
            HostingError::BundleExtractionFailure => status_code::BUNDLE_EXTRACTION_FAILURE,
            HostingError::BundleExtractionIOError => status_code::BUNDLE_EXTRACTION_IO_ERROR,
            HostingError::LibHostDuplicateProperty => status_code::LIB_HOST_DUPLICATE_PROPERTY,
            HostingError::HostApiUnsupportedVersion => status_code::HOST_API_UNSUPPORTED_VERSION,
            HostingError::HostInvalidState => status_code::HOST_INVALID_STATE,
            HostingError::HostPropertyNotFound => status_code::HOST_PROPERTY_NOT_FOUND,
            HostingError::CoreHostIncompatibleConfig => status_code::CORE_HOST_INCOMPATIBLE_CONFIG,
            HostingError::HostApiUnsupportedScenario => status_code::HOST_API_UNSUPPORTED_SCENARIO,
            HostingError::HostFeatureDisabled => status_code::HOST_FEATURE_DISABLED,
            HostingError::Unknown(code) => code,
        }
    }

    /// Whether the error has a known meaning.
    pub open spec fn spec_is_known(self) -> bool {
        !(self is Unknown)
    }

    /// Whether some error with a known meaning has the raw status code `code`.
    pub open spec fn is_known_code(code: u32) -> bool {
        exists|e: HostingError| e.spec_is_known() && #[trigger] e.spec_value() == code
    }

    /// The error with a known meaning whose raw status code is `code`, or `code` back.
    pub open spec fn spec_known_from_status_code(code: u32) -> Result<HostingError, u32> {
        if Self::is_known_code(code) {
            Ok(choose|e: HostingError| e.spec_is_known() && #[trigger] e.spec_value() == code)
        } else {
            Err(code)
        }
    }

    /// The error that the raw status code `code` stands for.
    pub open spec fn spec_from_status_code(code: u32) -> HostingError {
        match Self::spec_known_from_status_code(code) {
            Ok(e) => e,
            Err(c) => HostingError::Unknown(c),
        }
    }

    /// Two errors with a known meaning and the same status code are the same.
    pub proof fn lemma_value_injective(a: HostingError, b: HostingError)
        requires
            a.spec_is_known(),
            b.spec_is_known(),
            a.spec_value() == b.spec_value(),
        ensures
            a == b,
    {
    }

    proof fn lemma_known_from_status_code(code: u32, r: Result<HostingError, u32>)
        requires
            r matches Ok(e) ==> e.spec_is_known() && e.spec_value() == code,
            r matches Err(c) ==> c == code && forall|e: HostingError|
                #[trigger] e.spec_value() == code ==> !e.spec_is_known(),
        ensures
            r == Self::spec_known_from_status_code(code),
    {
        if let Ok(e) = r {
            assert(Self::is_known_code(code));
            let t = choose|t: HostingError| t.spec_is_known() && #[trigger] t.spec_value() == code;
            Self::lemma_value_injective(e, t);
        }
    }

    /// Creates a new [`HostingError`] from the raw status code.
    pub fn from_status_code(code: u32) -> (r: Self)
        ensures
            r == Self::spec_from_status_code(code),
            r.spec_value() == code,
    {
        match Self::known_from_status_code(code) {
            Ok(e) => e,
            Err(code) => HostingError::Unknown(code),
        }
    }

    /// Tries to create a new [`HostingError`] from the raw status code if it is known.
    /// Otherwise returns the given value as an [`Err`].
    pub fn known_from_status_code(code: u32) -> (r: Result<Self, u32>)
        ensures
            r == Self::spec_known_from_status_code(code),
            r matches Ok(e) ==> e.spec_is_known() && e.spec_value() == code,
            r matches Err(c) ==> c == code && !Self::is_known_code(code),
    {
        let r = if code == status_code::INVALID_ARG_FAILURE {
            Ok(HostingError::InvalidArgFailure)
        } else if code == status_code::CORE_HOST_LIB_LOAD_FAILURE {
            Ok(HostingError::CoreHostLibLoadFailure)
        } else if code == status_code::CORE_HOST_LIB_MISSING_FAILURE {
            Ok(HostingError::CoreHostLibMissingFailure)
        } else if code == status_code::CORE_HOST_ENTRY_POINT_FAILURE {
            Ok(HostingError::CoreHostEntryPointFailure)
        } else if code == status_code::CORE_HOST_CUR_HOST_FIND_FAILURE {
            Ok(HostingError::CoreHostCurHostFindFailure)
        } else if code == status_code::CORE_CLR_RESOLVE_FAILURE {
            Ok(HostingError::CoreClrResolveFailure)
        } else if code == status_code::CORE_CLR_BIND_FAILURE {
            Ok(HostingError::CoreClrBindFailure)
        } else if code == status_code::CORE_CLR_INIT_FAILURE {
            Ok(HostingError::CoreClrInitFailure)
        } else if code == status_code::CORE_CLR_EXE_FAILURE {
            Ok(HostingError::CoreClrExeFailure)
        } else if code == status_code::RESOLVER_INIT_FAILURE {
            Ok(HostingError::ResolverInitFailure)
        } else if code == status_code::RESOLVER_RESOLVE_FAILURE {
            Ok(HostingError::ResolverResolveFailure)
        } else if code == status_code::LIB_HOST_CUR_EXE_FIND_FAILURE {
            Ok(HostingError::LibHostCurExeFindFailure)
        } else if code == status_code::LIB_HOST_INIT_FAILURE {
            Ok(HostingError::LibHostInitFailure)
        } else if code == status_code::LIB_HOST_EXEC_MODE_FAILURE {
            Ok(HostingError::LibHostExecModeFailure)
        } else if code == status_code::LIB_HOST_SDK_FIND_FAILURE {
            Ok(HostingError::LibHostSdkFindFailure)
        } else if code == status_code::LIB_HOST_INVALID_ARGS {
            Ok(HostingError::LibHostInvalidArgs)
        } else if code == status_code::INVALID_CONFIG_FILE {
            Ok(HostingError::InvalidConfigFile)
        } else if code == status_code::APP_ARG_NOT_RUNNABLE {
            Ok(HostingError::AppArgNotRunnable)
        } else if code == status_code::APP_HOST_EXE_NOT_BOUND_FAILURE {
            Ok(HostingError::AppHostExeNotBoundFailure)
        } else if code == status_code::FRAMEWORK_MISSING_FAILURE {
            Ok(HostingError::FrameworkMissingFailure)
        } else if code == status_code::HOST_API_FAILED {
            Ok(HostingError::HostApiFailed)
        } else if code == status_code::HOST_API_BUFFER_TOO_SMALL {
            Ok(HostingError::HostApiBufferTooSmall)
        } else if code == status_code::LIB_HOST_UNKNOWN_COMMAND {
            Ok(HostingError::LibHostUnknownCommand)
        } else if code == status_code::LIB_HOST_APP_ROOT_FIND_FAILURE {
            Ok(HostingError::LibHostAppRootFindFailure)
        } else if code == status_code::SDK_RESOLVER_RESOLVE_FAILURE {
            Ok(HostingError::SdkResolverResolveFailure)
        } else if code == status_code::FRAMEWORK_COMPAT_FAILURE {
            Ok(HostingError::FrameworkCompatFailure)
        } else if code == status_code::FRAMEWORK_COMPAT_RETRY {
            Ok(HostingError::FrameworkCompatRetry)
        } else if code == status_code::APP_HOST_EXE_NOT_BUNDLE {
            Ok(HostingError::AppHostExeNotBundle)
        } else if code == status_code::BUNDLE_EXTRACTION_FAILURE {
            Ok(HostingError::BundleExtractionFailure)
        } else if code == status_code::BUNDLE_EXTRACTION_IO_ERROR {
            Ok(HostingError::BundleExtractionIOError)
        } else if code == status_code::LIB_HOST_DUPLICATE_PROPERTY {
            Ok(HostingError::LibHostDuplicateProperty)
        } else if code == status_code::HOST_API_UNSUPPORTED_VERSION {
            Ok(HostingError::HostApiUnsupportedVersion)
        } else if code == status_code::HOST_INVALID_STATE {
            Ok(HostingError::HostInvalidState)
        } else if code == status_code::HOST_PROPERTY_NOT_FOUND {
            Ok(HostingError::HostPropertyNotFound)
        } else if code == status_code::CORE_HOST_INCOMPATIBLE_CONFIG {
            Ok(HostingError::CoreHostIncompatibleConfig)
        } else if code == status_code::HOST_API_UNSUPPORTED_SCENARIO {
            Ok(HostingError::HostApiUnsupportedScenario)
        } else if code == status_code::HOST_FEATURE_DISABLED {
            Ok(HostingError::HostFeatureDisabled)
        } else {
            Err(code)
        };
        proof {
            Self::lemma_known_from_status_code(code, r);
        }
        r
    }

    /// Returns the underlying status code value.
    pub fn value(&self) -> (r: u32)
        ensures
            r == self.spec_value(),
    {
        match self {
            HostingError::InvalidArgFailure => status_code::INVALID_ARG_FAILURE,
            HostingError::CoreHostLibLoadFailure => status_code::CORE_HOST_LIB_LOAD_FAILURE,
            HostingError::CoreHostLibMissingFailure => status_code::CORE_HOST_LIB_MISSING_FAILURE,
            HostingError::CoreHostEntryPointFailure => status_code::CORE_HOST_ENTRY_POINT_FAILURE,
            HostingError::CoreHostCurHostFindFailure => status_code::CORE_HOST_CUR_HOST_FIND_FAILURE,
            HostingError::CoreClrResolveFailure => status_code::CORE_CLR_RESOLVE_FAILURE,
            HostingError::CoreClrBindFailure => status_code::CORE_CLR_BIND_FAILURE,
            HostingError::CoreClrInitFailure => status_code::CORE_CLR_INIT_FAILURE,
            HostingError::CoreClrExeFailure => status_code::CORE_CLR_EXE_FAILURE,
            HostingError::ResolverInitFailure => status_code::RESOLVER_INIT_FAILURE,
            HostingError::ResolverResolveFailure => status_code::RESOLVER_RESOLVE_FAILURE,
            HostingError::LibHostCurExeFindFailure => status_code::LIB_HOST_CUR_EXE_FIND_FAILURE,
            HostingError::LibHostInitFailure => status_code::LIB_HOST_INIT_FAILURE,
            HostingError::LibHostExecModeFailure => status_code::LIB_HOST_EXEC_MODE_FAILURE,
            HostingError::LibHostSdkFindFailure => status_code::LIB_HOST_SDK_FIND_FAILURE,
            HostingError::LibHostInvalidArgs => status_code::LIB_HOST_INVALID_ARGS,
            HostingError::InvalidConfigFile => status_code::INVALID_CONFIG_FILE,
            HostingError::AppArgNotRunnable => status_code::APP_ARG_NOT_RUNNABLE,
            HostingError::AppHostExeNotBoundFailure => status_code::APP_HOST_EXE_NOT_BOUND_FAILURE,
            HostingError::FrameworkMissingFailure => status_code::FRAMEWORK_MISSING_FAILURE,
            HostingError::HostApiFailed => status_code::HOST_API_FAILED,
            HostingError::HostApiBufferTooSmall => status_code::HOST_API_BUFFER_TOO_SMALL,
            HostingError::LibHostUnknownCommand => status_code::LIB_HOST_UNKNOWN_COMMAND,
            HostingError::LibHostAppRootFindFailure => status_code::LIB_HOST_APP_ROOT_FIND_FAILURE,
            HostingError::SdkResolverResolveFailure => status_code::SDK_RESOLVER_RESOLVE_FAILURE,
            HostingError::FrameworkCompatFailure => status_code::FRAMEWORK_COMPAT_FAILURE,
            HostingError::FrameworkCompatRetry => status_code::FRAMEWORK_COMPAT_RETRY,
            HostingError::AppHostExeNotBundle => status_code::APP_HOST_EXE_NOT_BUNDLE,
            HostingError::BundleExtractionFailure => status_code::BUNDLE_EXTRACTION_FAILURE,
            HostingError::BundleExtractionIOError => status_code::BUNDLE_EXTRACTION_IO_ERROR,
            HostingError::LibHostDuplicateProperty => status_code::LIB_HOST_DUPLICATE_PROPERTY,
            HostingError::HostApiUnsupportedVersion => status_code::HOST_API_UNSUPPORTED_VERSION,
            HostingError::HostInvalidState => status_code::HOST_INVALID_STATE,
            HostingError::HostPropertyNotFound => status_code::HOST_PROPERTY_NOT_FOUND,
            HostingError::CoreHostIncompatibleConfig => status_code::CORE_HOST_INCOMPATIBLE_CONFIG,
            HostingError::HostApiUnsupportedScenario => status_code::HOST_API_UNSUPPORTED_SCENARIO,
            HostingError::HostFeatureDisabled => status_code::HOST_FEATURE_DISABLED,
            HostingError::Unknown(code) => *code,
        }
    }

    /// Returns whether the status code of this error has a known meaning.
    pub fn is_known(&self) -> (r: bool)
        ensures
            r == self.spec_is_known(),
    {
        !self.is_unknown()
    }

    /// Returns whether the status code of this error has a unknown meaning.
    pub fn is_unknown(&self) -> (r: bool)
        ensures
            r == (*self is Unknown),
    {
        matches!(self, HostingError::Unknown(_))
    }
}

impl Deref for HostingResult {
    type Target = Result<HostingSuccess, HostingError>;

    fn deref(&self) -> (r: &Self::Target)
        ensures
            *r == self.0,
    {
        &self.0
    }
}

impl From<Result<HostingSuccess, HostingError>> for HostingResult {
    fn from(result: Result<HostingSuccess, HostingError>) -> (r: Self) {
        HostingResult(result)
    }
}

impl FromSpecImpl<Result<HostingSuccess, HostingError>> for HostingResult {
    open spec fn obeys_from_spec() -> bool {
        true
    }

    open spec fn from_spec(result: Result<HostingSuccess, HostingError>) -> Self {
        HostingResult(result)
    }
}

impl From<u32> for HostingResult {
    fn from(code: u32) -> (r: Self) {
        Self::from_status_code(code)
    }
}

impl FromSpecImpl<u32> for HostingResult {
    open spec fn obeys_from_spec() -> bool {
        true
    }

    open spec fn from_spec(code: u32) -> Self {
        HostingResult::spec_from_status_code(code)
    }
}

impl From<i32> for HostingResult {
    fn from(code: i32) -> (r: Self) {
        Self::from_status_code(code as u32)
    }
}

impl FromSpecImpl<i32> for HostingResult {
    open spec fn obeys_from_spec() -> bool {
        true
    }

    open spec fn from_spec(code: i32) -> Self {
        HostingResult::spec_from_status_code(code as u32)
    }
}

impl From<HostingResult> for u32 {
    fn from(code: HostingResult) -> (r: Self) {
        code.value()
    }
}

impl FromSpecImpl<HostingResult> for u32 {
    open spec fn obeys_from_spec() -> bool {
        true
    }

    open spec fn from_spec(code: HostingResult) -> Self {
        code.spec_value()
    }
}

impl From<HostingResult> for i32 {
    fn from(code: HostingResult) -> (r: Self) {
        code.value() as i32
    }
}

impl FromSpecImpl<HostingResult> for i32 {
    open spec fn obeys_from_spec() -> bool {
        true
    }

    open spec fn from_spec(code: HostingResult) -> Self {
        code.spec_value() as i32
    }
}

impl From<HostingSuccess> for HostingResult {
    fn from(success: HostingSuccess) -> (r: Self) {
        Self::from_success(success)
    }
}

impl FromSpecImpl<HostingSuccess> for HostingResult {
    open spec fn obeys_from_spec() -> bool {
        true
    }

    open spec fn from_spec(success: HostingSuccess) -> Self {
        HostingResult(Ok(success))
    }
}

impl From<HostingError> for HostingResult {
    fn from(error: HostingError) -> (r: Self) {
        Self::from_error(error)
    }
}

impl FromSpecImpl<HostingError> for HostingResult {
    open spec fn obeys_from_spec() -> bool {
        true
    }

    open spec fn from_spec(error: HostingError) -> Self {
        HostingResult(Err(error))
    }
}

impl TryFrom<u32> for HostingSuccess {
    type Error = u32;

    fn try_from(code: u32) -> (r: Result<Self, Self::Error>) {
        Self::known_from_status_code(code)
    }
}

impl TryFromSpecImpl<u32> for HostingSuccess {
    open spec fn obeys_try_from_spec() -> bool {
        true
    }

    open spec fn try_from_spec(code: u32) -> Result<Self, Self::Error> {
        HostingSuccess::spec_known_from_status_code(code)
    }
}

impl From<HostingSuccess> for u32 {
    fn from(code: HostingSuccess) -> (r: Self) {
        code.value()
    }
}

impl FromSpecImpl<HostingSuccess> for u32 {
    open spec fn obeys_from_spec() -> bool {
        true
    }

    open spec fn from_spec(code: HostingSuccess) -> Self {
        code.spec_value()
    }
}

impl TryFrom<u32> for HostingError {
    type Error = u32;

    fn try_from(code: u32) -> (r: Result<Self, Self::Error>) {
        Self::known_from_status_code(code)
    }
}

impl TryFromSpecImpl<u32> for HostingError {
    open spec fn obeys_try_from_spec() -> bool {
        true
    }

    open spec fn try_from_spec(code: u32) -> Result<Self, Self::Error> {
        HostingError::spec_known_from_status_code(code)
    }
}

impl From<HostingError> for u32 {
    fn from(code: HostingError) -> (r: Self) {
        code.value()
    }
}

impl FromSpecImpl<HostingError> for u32 {
    open spec fn obeys_from_spec() -> bool {
        true
    }

    open spec fn from_spec(code: HostingError) -> Self {
        code.spec_value()
    }
}

/// Status codes with a known success meaning read as non-negative `i32`s, status codes with a
/// known error meaning as negative ones: decoding sends each known code to its own side.
pub proof fn lemma_known_codes_sides(code: u32)
    ensures
        HostingSuccess::is_known_code(code) ==> is_success_code(code),
        HostingError::is_known_code(code) ==> !is_success_code(code),
{
    if HostingSuccess::is_known_code(code) {
        let s = choose|s: HostingSuccess| s.spec_is_known() && #[trigger] s.spec_value() == code;
    }
    if HostingError::is_known_code(code) {
        let e = choose|e: HostingError| e.spec_is_known() && #[trigger] e.spec_value() == code;
    }
}

/// No status code has both a known success meaning and a known error meaning.
pub proof fn lemma_known_codes_disjoint(code: u32)
    ensures
        !(HostingSuccess::is_known_code(code) && HostingError::is_known_code(code)),
{
    lemma_known_codes_sides(code);
}

/// The documented hosting status codes decode to the variants of the same name: each success
/// code of `error_codes.h` to its success and each error code to its error.
pub proof fn lemma_documented_status_codes()
    ensures
        HostingResult::spec_from_status_code(status_code::SUCCESS) == HostingResult(Ok(HostingSuccess::Success)),
        HostingResult::spec_from_status_code(status_code::SUCCESS_HOST_ALREADY_INITIALIZED) == HostingResult(Ok(HostingSuccess::HostAlreadyInitialized)),
        HostingResult::spec_from_status_code(status_code::SUCCESS_DIFFERENT_RUNTIME_PROPERTIES) == HostingResult(Ok(HostingSuccess::DifferentRuntimeProperties)),
        HostingResult::spec_from_status_code(status_code::INVALID_ARG_FAILURE) == HostingResult(Err(HostingError::InvalidArgFailure)),
        HostingResult::spec_from_status_code(status_code::CORE_HOST_LIB_LOAD_FAILURE) == HostingResult(Err(HostingError::CoreHostLibLoadFailure)),
        HostingResult::spec_from_status_code(status_code::CORE_HOST_LIB_MISSING_FAILURE) == HostingResult(Err(HostingError::CoreHostLibMissingFailure)),
        HostingResult::spec_from_status_code(status_code::CORE_HOST_ENTRY_POINT_FAILURE) == HostingResult(Err(HostingError::CoreHostEntryPointFailure)),
        HostingResult::spec_from_status_code(status_code::CORE_HOST_CUR_HOST_FIND_FAILURE) == HostingResult(Err(HostingError::CoreHostCurHostFindFailure)),
        HostingResult::spec_from_status_code(status_code::CORE_CLR_RESOLVE_FAILURE) == HostingResult(Err(HostingError::CoreClrResolveFailure)),
        HostingResult::spec_from_status_code(status_code::CORE_CLR_BIND_FAILURE) == HostingResult(Err(HostingError::CoreClrBindFailure)),
        HostingResult::spec_from_status_code(status_code::CORE_CLR_INIT_FAILURE) == HostingResult(Err(HostingError::CoreClrInitFailure)),
        HostingResult::spec_from_status_code(status_code::CORE_CLR_EXE_FAILURE) == HostingResult(Err(HostingError::CoreClrExeFailure)),
        HostingResult::spec_from_status_code(status_code::RESOLVER_INIT_FAILURE) == HostingResult(Err(HostingError::ResolverInitFailure)),
        HostingResult::spec_from_status_code(status_code::RESOLVER_RESOLVE_FAILURE) == HostingResult(Err(HostingError::ResolverResolveFailure)),
        HostingResult::spec_from_status_code(status_code::LIB_HOST_CUR_EXE_FIND_FAILURE) == HostingResult(Err(HostingError::LibHostCurExeFindFailure)),
        HostingResult::spec_from_status_code(status_code::LIB_HOST_INIT_FAILURE) == HostingResult(Err(HostingError::LibHostInitFailure)),
        HostingResult::spec_from_status_code(status_code::LIB_HOST_EXEC_MODE_FAILURE) == HostingResult(Err(HostingError::LibHostExecModeFailure)),
        HostingResult::spec_from_status_code(status_code::LIB_HOST_SDK_FIND_FAILURE) == HostingResult(Err(HostingError::LibHostSdkFindFailure)),
        HostingResult::spec_from_status_code(status_code::LIB_HOST_INVALID_ARGS) == HostingResult(Err(HostingError::LibHostInvalidArgs)),
        HostingResult::spec_from_status_code(status_code::INVALID_CONFIG_FILE) == HostingResult(Err(HostingError::InvalidConfigFile)),
        HostingResult::spec_from_status_code(status_code::APP_ARG_NOT_RUNNABLE) == HostingResult(Err(HostingError::AppArgNotRunnable)),
        HostingResult::spec_from_status_code(status_code::APP_HOST_EXE_NOT_BOUND_FAILURE) == HostingResult(Err(HostingError::AppHostExeNotBoundFailure)),
        HostingResult::spec_from_status_code(status_code::FRAMEWORK_MISSING_FAILURE) == HostingResult(Err(HostingError::FrameworkMissingFailure)),
        HostingResult::spec_from_status_code(status_code::HOST_API_FAILED) == HostingResult(Err(HostingError::HostApiFailed)),
        HostingResult::spec_from_status_code(status_code::HOST_API_BUFFER_TOO_SMALL) == HostingResult(Err(HostingError::HostApiBufferTooSmall)),
        HostingResult::spec_from_status_code(status_code::LIB_HOST_UNKNOWN_COMMAND) == HostingResult(Err(HostingError::LibHostUnknownCommand)),
        HostingResult::spec_from_status_code(status_code::LIB_HOST_APP_ROOT_FIND_FAILURE) == HostingResult(Err(HostingError::LibHostAppRootFindFailure)),
        HostingResult::spec_from_status_code(status_code::SDK_RESOLVER_RESOLVE_FAILURE) == HostingResult(Err(HostingError::SdkResolverResolveFailure)),
        HostingResult::spec_from_status_code(status_code::FRAMEWORK_COMPAT_FAILURE) == HostingResult(Err(HostingError::FrameworkCompatFailure)),
        HostingResult::spec_from_status_code(status_code::FRAMEWORK_COMPAT_RETRY) == HostingResult(Err(HostingError::FrameworkCompatRetry)),
        HostingResult::spec_from_status_code(status_code::APP_HOST_EXE_NOT_BUNDLE) == HostingResult(Err(HostingError::AppHostExeNotBundle)),
        HostingResult::spec_from_status_code(status_code::BUNDLE_EXTRACTION_FAILURE) == HostingResult(Err(HostingError::BundleExtractionFailure)),
        HostingResult::spec_from_status_code(status_code::BUNDLE_EXTRACTION_IO_ERROR) == HostingResult(Err(HostingError::BundleExtractionIOError)),
        HostingResult::spec_from_status_code(status_code::LIB_HOST_DUPLICATE_PROPERTY) == HostingResult(Err(HostingError::LibHostDuplicateProperty)),
        HostingResult::spec_from_status_code(status_code::HOST_API_UNSUPPORTED_VERSION) == HostingResult(Err(HostingError::HostApiUnsupportedVersion)),
        HostingResult::spec_from_status_code(status_code::HOST_INVALID_STATE) == HostingResult(Err(HostingError::HostInvalidState)),
        HostingResult::spec_from_status_code(status_code::HOST_PROPERTY_NOT_FOUND) == HostingResult(Err(HostingError::HostPropertyNotFound)),
        HostingResult::spec_from_status_code(status_code::CORE_HOST_INCOMPATIBLE_CONFIG) == HostingResult(Err(HostingError::CoreHostIncompatibleConfig)),
        HostingResult::spec_from_status_code(status_code::HOST_API_UNSUPPORTED_SCENARIO) == HostingResult(Err(HostingError::HostApiUnsupportedScenario)),
        HostingResult::spec_from_status_code(status_code::HOST_FEATURE_DISABLED) == HostingResult(Err(HostingError::HostFeatureDisabled)),
{
    assert forall|r: HostingResult| #[trigger] r.is_canonical() implies HostingResult::spec_from_status_code(
        r.spec_value(),
    ) == r by {
        HostingResult::lemma_from_status_code_of_value(r);
    }
    assert(HostingResult(Ok(HostingSuccess::Success)).is_canonical());
    assert(HostingResult(Ok(HostingSuccess::HostAlreadyInitialized)).is_canonical());
    assert(HostingResult(Ok(HostingSuccess::DifferentRuntimeProperties)).is_canonical());
    assert(HostingResult(Err(HostingError::InvalidArgFailure)).is_canonical());
    assert(HostingResult(Err(HostingError::CoreHostLibLoadFailure)).is_canonical());
    assert(HostingResult(Err(HostingError::CoreHostLibMissingFailure)).is_canonical());
    assert(HostingResult(Err(HostingError::CoreHostEntryPointFailure)).is_canonical());
    assert(HostingResult(Err(HostingError::CoreHostCurHostFindFailure)).is_canonical());
    assert(HostingResult(Err(HostingError::CoreClrResolveFailure)).is_canonical());
    assert(HostingResult(Err(HostingError::CoreClrBindFailure)).is_canonical());
    assert(HostingResult(Err(HostingError::CoreClrInitFailure)).is_canonical());
    assert(HostingResult(Err(HostingError::CoreClrExeFailure)).is_canonical());
    assert(HostingResult(Err(HostingError::ResolverInitFailure)).is_canonical());
    assert(HostingResult(Err(HostingError::ResolverResolveFailure)).is_canonical());
    assert(HostingResult(Err(HostingError::LibHostCurExeFindFailure)).is_canonical());
    assert(HostingResult(Err(HostingError::LibHostInitFailure)).is_canonical());
    assert(HostingResult(Err(HostingError::LibHostExecModeFailure)).is_canonical());
    assert(HostingResult(Err(HostingError::LibHostSdkFindFailure)).is_canonical());
    assert(HostingResult(Err(HostingError::LibHostInvalidArgs)).is_canonical());
    assert(HostingResult(Err(HostingError::InvalidConfigFile)).is_canonical());
    assert(HostingResult(Err(HostingError::AppArgNotRunnable)).is_canonical());
    assert(HostingResult(Err(HostingError::AppHostExeNotBoundFailure)).is_canonical());
    assert(HostingResult(Err(HostingError::FrameworkMissingFailure)).is_canonical());
    assert(HostingResult(Err(HostingError::HostApiFailed)).is_canonical());
    assert(HostingResult(Err(HostingError::HostApiBufferTooSmall)).is_canonical());
    assert(HostingResult(Err(HostingError::LibHostUnknownCommand)).is_canonical());
    assert(HostingResult(Err(HostingError::LibHostAppRootFindFailure)).is_canonical());
    assert(HostingResult(Err(HostingError::SdkResolverResolveFailure)).is_canonical());
    assert(HostingResult(Err(HostingError::FrameworkCompatFailure)).is_canonical());
    assert(HostingResult(Err(HostingError::FrameworkCompatRetry)).is_canonical());
    assert(HostingResult(Err(HostingError::AppHostExeNotBundle)).is_canonical());
    assert(HostingResult(Err(HostingError::BundleExtractionFailure)).is_canonical());
    assert(HostingResult(Err(HostingError::BundleExtractionIOError)).is_canonical());
    assert(HostingResult(Err(HostingError::LibHostDuplicateProperty)).is_canonical());
    assert(HostingResult(Err(HostingError::HostApiUnsupportedVersion)).is_canonical());
    assert(HostingResult(Err(HostingError::HostInvalidState)).is_canonical());
    assert(HostingResult(Err(HostingError::HostPropertyNotFound)).is_canonical());
    assert(HostingResult(Err(HostingError::CoreHostIncompatibleConfig)).is_canonical());
    assert(HostingResult(Err(HostingError::HostApiUnsupportedScenario)).is_canonical());
    assert(HostingResult(Err(HostingError::HostFeatureDisabled)).is_canonical());
}

impl HostingSuccess {
    /// Decoding a raw status code and reading back the status code gives the code.
    pub proof fn lemma_value_of_from_status_code(code: u32)
        ensures
            Self::spec_from_status_code(code).spec_value() == code,
    {
    }

    /// A success is given back by decoding its own status code, unless it is an unknown
    /// success whose code has a known meaning.
    pub proof fn lemma_from_status_code_of_value(s: HostingSuccess)
        requires
            s matches HostingSuccess::Unknown(c) ==> !Self::is_known_code(c),
        ensures
            Self::spec_from_status_code(s.spec_value()) == s,
    {
        if s.spec_is_known() {
            let code = s.spec_value();
            assert(Self::is_known_code(code));
            let t = choose|t: HostingSuccess| t.spec_is_known() && #[trigger] t.spec_value() == code;
            Self::lemma_value_injective(s, t);
        }
    }
}

impl HostingError {
    /// Decoding a raw status code and reading back the status code gives the code.
    pub proof fn lemma_value_of_from_status_code(code: u32)
        ensures
            Self::spec_from_status_code(code).spec_value() == code,
    {
    }

    /// An error is given back by decoding its own status code, unless it is an unknown error
    /// whose code has a known meaning.
    pub proof fn lemma_from_status_code_of_value(e: HostingError)
        requires
            e matches HostingError::Unknown(c) ==> !Self::is_known_code(c),
        ensures
            Self::spec_from_status_code(e.spec_value()) == e,
    {
        if e.spec_is_known() {
            let code = e.spec_value();
            assert(Self::is_known_code(code));
            let t = choose|t: HostingError| t.spec_is_known() && #[trigger] t.spec_value() == code;
            Self::lemma_value_injective(e, t);
        }
    }
}

impl HostingResult {
    /// Whether decoding the status code of this result gives this result back: a success whose
    /// code reads as non-negative, or an error whose code reads as negative, which is not an
    /// unknown value carrying a known code.
    pub open spec fn is_canonical(self) -> bool {
        match self.0 {
            Ok(s) => is_success_code(s.spec_value()) && (s matches HostingSuccess::Unknown(c)
                ==> !HostingSuccess::is_known_code(c)),
            Err(e) => !is_success_code(e.spec_value()) && (e matches HostingError::Unknown(c)
                ==> !HostingError::is_known_code(c)),
        }
    }

    /// Decoding a raw status code and reading back the status code gives the code.
    pub proof fn lemma_value_of_from_status_code(code: u32)
        ensures
            Self::spec_from_status_code(code).spec_value() == code,
    {
    }

    /// A canonical result is given back by decoding its own status code.
    pub proof fn lemma_from_status_code_of_value(r: HostingResult)
        requires
            r.is_canonical(),
        ensures
            Self::spec_from_status_code(r.spec_value()) == r,
    {
        match r.0 {
            Ok(s) => HostingSuccess::lemma_from_status_code_of_value(s),
            Err(e) => HostingError::lemma_from_status_code_of_value(e),
        }
    }

    /// Decoding a raw status code always gives a canonical result.
    pub proof fn lemma_from_status_code_is_canonical(code: u32)
        ensures
            Self::spec_from_status_code(code).is_canonical(),
    {
        lemma_known_codes_sides(code);
        if is_success_code(code) && HostingSuccess::is_known_code(code) {
            let t = choose|t: HostingSuccess| t.spec_is_known() && #[trigger] t.spec_value() == code;
        }
        if !is_success_code(code) && HostingError::is_known_code(code) {
            let t = choose|t: HostingError| t.spec_is_known() && #[trigger] t.spec_value() == code;
        }
    }

    /// The known decoding of a status code agrees with the full decoding: it succeeds exactly when
    /// the full decoding has a known meaning, and then gives the same result.
    pub proof fn lemma_known_from_status_code(code: u32)
        ensures
            Self::spec_known_from_status_code(code) matches Ok(r) ==> r == Self::spec_from_status_code(code)
                && r.spec_is_known(),
            Self::spec_known_from_status_code(code) matches Err(c) ==> c == code
                && !Self::spec_from_status_code(code).spec_is_known(),
    {
        lemma_known_codes_sides(code);
        if HostingSuccess::is_known_code(code) {
            let t = choose|t: HostingSuccess| t.spec_is_known() && #[trigger] t.spec_value() == code;
        }
        if HostingError::is_known_code(code) {
            let t = choose|t: HostingError| t.spec_is_known() && #[trigger] t.spec_value() == code;
        }
    }
}

} // verus!
