//! The texts that describe status codes and errors, as users read them.

use vstd::prelude::*;

use crate::error::hosting_result::{HostingError, HostingSuccess};
use crate::hostfxr::delegate_loader::GetManagedFunctionError;
use crate::hostfxr::hosting_exit_code::{HostingErrorExitCode, HostingExitCode, HostingSuccessExitCode};
use vstd::string::StringExecFns;

verus! {

/// `String::push` of `std`: appends the character to the end of the string.
#[verifier::external_body]
fn push_char(s: &mut String, c: char)
    ensures
        final(s)@ == old(s)@.push(c),
{
    s.push(c);
}

/// The upper-case hexadecimal digit of a value below 16.
pub open spec fn hex_digit(d: nat) -> char {
    if d == 0 { '0' } else if d == 1 { '1' } else if d == 2 { '2' } else if d == 3 { '3' }
    else if d == 4 { '4' } else if d == 5 { '5' } else if d == 6 { '6' } else if d == 7 { '7' }
    else if d == 8 { '8' } else if d == 9 { '9' } else if d == 10 { 'A' } else if d == 11 { 'B' }
    else if d == 12 { 'C' } else if d == 13 { 'D' } else if d == 14 { 'E' } else { 'F' }
}

/// The hexadecimal digits of `n`, least significant first, without leading zeros (at least one
/// digit).
pub open spec fn hex_digits_lsb(n: nat) -> Seq<char>
    decreases n,
{
    if n < 16 {
        seq![hex_digit(n)]
    } else {
        seq![hex_digit(n % 16)] + hex_digits_lsb(n / 16)
    }
}

/// The digits, least significant first, padded with zeros to at least `width` digits.
pub open spec fn pad_lsb(digits: Seq<char>, width: nat) -> Seq<char> {
    if digits.len() >= width {
        digits
    } else {
        digits + Seq::new((width - digits.len()) as nat, |i: int| '0')
    }
}

/// How a raw status code is written: `0x` and its upper-case hexadecimal digits, at least six
/// of them (the format `{:#08X}`).
pub open spec fn spec_status_code_text(code: u32) -> Seq<char> {
    seq!['0', 'x'] + pad_lsb(hex_digits_lsb(code as nat), 6).reverse()
}

fn hex_digit_char(d: u32) -> (c: char)
    requires
        d < 16,
    ensures
        c == hex_digit(d as nat),
{
    match d {
        0 => '0',
        1 => '1',
        2 => '2',
        3 => '3',
        4 => '4',
        5 => '5',
        6 => '6',
        7 => '7',
        8 => '8',
        9 => '9',
        10 => 'A',
        11 => 'B',
        12 => 'C',
        13 => 'D',
        14 => 'E',
        _ => 'F',
    }
}

/// Writes a raw status code as `0x` and at least six upper-case hexadecimal digits.
pub fn status_code_text(code: u32) -> (r: String)
    ensures
        r@ == spec_status_code_text(code),
{
    let mut digits: Vec<char> = Vec::new();
    let mut n: u32 = code;
    loop
        invariant_except_break
            hex_digits_lsb(code as nat) == digits@ + hex_digits_lsb(n as nat),
        ensures
            digits@ == hex_digits_lsb(code as nat),
        decreases n,
    {
        let d = hex_digit_char(n % 16);
        digits.push(d);
        if n < 16 {
            assert(digits@ =~= hex_digits_lsb(code as nat));
            break;
        }
        proof {
            assert(hex_digits_lsb(n as nat) == seq![hex_digit((n % 16) as nat)] + hex_digits_lsb((n / 16) as nat));
            assert(digits@ + hex_digits_lsb((n / 16) as nat) =~= hex_digits_lsb(code as nat));
        }
        n = n / 16;
    }
    let ghost lsb = digits@;
    while digits.len() < 6
        invariant
            lsb.len() <= digits@.len() <= if lsb.len() >= 6 { lsb.len() } else { 6 },
            digits@ == lsb + Seq::new((digits@.len() - lsb.len()) as nat, |i: int| '0'),
        decreases 6 - digits.len(),
    {
        digits.push('0');
        assert(digits@ =~= lsb + Seq::new((digits@.len() - lsb.len()) as nat, |i: int| '0'));
    }
    proof {
        if lsb.len() >= 6 {
            assert(digits@ =~= lsb);
        }
        assert(digits@ == pad_lsb(lsb, 6));
    }
    let mut text = String::new();
    push_char(&mut text, '0');
    push_char(&mut text, 'x');
    let mut i: usize = digits.len();
    while i > 0
        invariant
            i <= digits@.len(),
            text@ == seq!['0', 'x'] + digits@.subrange(i as int, digits@.len() as int).reverse(),
        decreases i,
    {
        i = i - 1;
        push_char(&mut text, digits[i]);
        assert(digits@.subrange(i as int, digits@.len() as int).reverse() =~= digits@.subrange(
            i + 1,
            digits@.len() as int,
        ).reverse().push(digits@[i as int]));
    }
    assert(digits@.subrange(0, digits@.len() as int) =~= digits@);
    text
}

impl HostingSuccess {
    /// The text that describes the success.
    pub open spec fn spec_message(self) -> Seq<char> {
        match self {
            HostingSuccess::Success => "Operation was successful."@,
            HostingSuccess::HostAlreadyInitialized => "Initialization was successful, but another host context is already initialized, so the returned context is 'secondary'"@,
            HostingSuccess::DifferentRuntimeProperties => "Initialization was successful, but another host context is already initialized and the requested context specified some runtime properties which are not the same (either in value or in presence) to the already initialized context."@,
            HostingSuccess::Unknown(code) => "Unknown success status code: "@ + spec_status_code_text(code),
        }
    }

    /// Returns the text that describes the success.
    pub fn message(&self) -> (r: String)
        ensures
            r@ == self.spec_message(),
    {
        match self {
            HostingSuccess::Success => String::from_str("Operation was successful."),
            HostingSuccess::HostAlreadyInitialized => String::from_str("Initialization was successful, but another host context is already initialized, so the returned context is 'secondary'"),
            HostingSuccess::DifferentRuntimeProperties => String::from_str("Initialization was successful, but another host context is already initialized and the requested context specified some runtime properties which are not the same (either in value or in presence) to the already initialized context."),
            HostingSuccess::Unknown(code) => {
                let text = status_code_text(*code);
                String::from_str("Unknown success status code: ").concat(text.as_str())
            },
        }
    }
}

impl HostingError {
    /// The text that describes the error.
    pub open spec fn spec_message(self) -> Seq<char> {
        match self {
            HostingError::InvalidArgFailure => "One of the specified arguments for the operation is invalid."@,
            HostingError::CoreHostLibLoadFailure => "There was a failure loading a dependent library."@,
            HostingError::CoreHostLibMissingFailure => "One of the dependent libraries is missing."@,
            HostingError::CoreHostEntryPointFailure => "One of the dependent libraries is missing a required entry point."@,
            HostingError::CoreHostCurHostFindFailure => "Either the location of the current module could not be determined (some weird OS call failure) or the location is not in the right place relative to other expected components."@,
            HostingError::CoreClrResolveFailure => "The coreclr library could not be found."@,
            HostingError::CoreClrBindFailure => "The loaded coreclr library doesn't have one of the required entry points."@,
            HostingError::CoreClrInitFailure => "The call to coreclr_initialize failed."@,
            HostingError::CoreClrExeFailure => "The call to coreclr_execute_assembly failed."@,
            HostingError::ResolverInitFailure => "Initialization of the hostpolicy dependency resolver failed."@,
            HostingError::ResolverResolveFailure => "Resolution of dependencies in `hostpolicy` failed."@,
            HostingError::LibHostCurExeFindFailure => "Failure to determine the location of the current executable."@,
            HostingError::LibHostInitFailure => "Initialization of the `hostpolicy` library failed."@,
            HostingError::LibHostExecModeFailure => "LibHostExecModeFailure"@,
            HostingError::LibHostSdkFindFailure => "Failure to find the requested SDK."@,
            HostingError::LibHostInvalidArgs => "Arguments to hostpolicy are invalid."@,
            HostingError::InvalidConfigFile => "Arguments to hostpolicy are invalid."@,
            HostingError::AppArgNotRunnable => "[Internal error] The command line for dotnet.exe doesn't contain the path to the application to run."@,
            HostingError::AppHostExeNotBoundFailure => "apphost failed to determine which application to run."@,
            HostingError::FrameworkMissingFailure => "It was not possible to find a compatible framework version."@,
            HostingError::HostApiFailed => "hostpolicy could not calculate the NATIVE_DLL_SEARCH_DIRECTORIES."@,
            HostingError::HostApiBufferTooSmall => "Returned when the buffer specified to an API is not big enough to fit the requested value."@,
            HostingError::LibHostUnknownCommand => "corehost_main_with_output_buffer was called with an unsupported host command."@,
            HostingError::LibHostAppRootFindFailure => "The imprinted application path doesn't exist."@,
            HostingError::SdkResolverResolveFailure => "hostfxr_resolve_sdk2 failed to find a matching SDK."@,
            HostingError::FrameworkCompatFailure => "During processing of `.runtimeconfig.json` there were two framework references to the same framework which were not compatible."@,
            HostingError::FrameworkCompatRetry => "[Internal error] The processing of framework references from .runtimeconfig.json reached a point where it needs to reprocess another already processed framework reference."@,
            HostingError::AppHostExeNotBundle => "Error reading the bundle footer metadata from a single-file apphost."@,
            HostingError::BundleExtractionFailure => "Error extracting single-file apphost bundle."@,
            HostingError::BundleExtractionIOError => "Error reading or writing files during single-file apphost bundle extraction."@,
            HostingError::LibHostDuplicateProperty => "The .runtimeconfig.json specified by the app contains a runtime property which is also produced by the hosting layer."@,
            HostingError::HostApiUnsupportedVersion => "Feature which requires certain version of the hosting layer binaries was used on a version which doesn't support it."@,
            HostingError::HostInvalidState => "The current state is incompatible with the requested operation."@,
            HostingError::HostPropertyNotFound => "Property requested by hostfxr_get_runtime_property_value doesn't exist."@,
            HostingError::CoreHostIncompatibleConfig => "Error returned by hostfxr_initialize_for_runtime_config if the component being initialized requires framework which is not available or incompatible with the frameworks loaded by the runtime already in the process."@,
            HostingError::HostApiUnsupportedScenario => "Requesting the given delegate type using the given context is currently not supported."@,
            HostingError::HostFeatureDisabled => "Managed feature support for native hosting is disabled"@,
            HostingError::Unknown(code) => "Unknown error status code: "@ + spec_status_code_text(code),
        }
    }

    /// Returns the text that describes the error.
    pub fn message(&self) -> (r: String)
        ensures
            r@ == self.spec_message(),
    {
        match self {
            HostingError::InvalidArgFailure => String::from_str("One of the specified arguments for the operation is invalid."),
            HostingError::CoreHostLibLoadFailure => String::from_str("There was a failure loading a dependent library."),
            HostingError::CoreHostLibMissingFailure => String::from_str("One of the dependent libraries is missing."),
            HostingError::CoreHostEntryPointFailure => String::from_str("One of the dependent libraries is missing a required entry point."),
            HostingError::CoreHostCurHostFindFailure => String::from_str("Either the location of the current module could not be determined (some weird OS call failure) or the location is not in the right place relative to other expected components."),
            HostingError::CoreClrResolveFailure => String::from_str("The coreclr library could not be found."),
            HostingError::CoreClrBindFailure => String::from_str("The loaded coreclr library doesn't have one of the required entry points."),
            HostingError::CoreClrInitFailure => String::from_str("The call to coreclr_initialize failed."),
            HostingError::CoreClrExeFailure => String::from_str("The call to coreclr_execute_assembly failed."),
            HostingError::ResolverInitFailure => String::from_str("Initialization of the hostpolicy dependency resolver failed."),
            HostingError::ResolverResolveFailure => String::from_str("Resolution of dependencies in `hostpolicy` failed."),
            HostingError::LibHostCurExeFindFailure => String::from_str("Failure to determine the location of the current executable."),
            HostingError::LibHostInitFailure => String::from_str("Initialization of the `hostpolicy` library failed."),
            HostingError::LibHostExecModeFailure => String::from_str("LibHostExecModeFailure"),
            HostingError::LibHostSdkFindFailure => String::from_str("Failure to find the requested SDK."),
            HostingError::LibHostInvalidArgs => String::from_str("Arguments to hostpolicy are invalid."),
            HostingError::InvalidConfigFile => String::from_str("Arguments to hostpolicy are invalid."),
            HostingError::AppArgNotRunnable => String::from_str("[Internal error] The command line for dotnet.exe doesn't contain the path to the application to run."),
            HostingError::AppHostExeNotBoundFailure => String::from_str("apphost failed to determine which application to run."),
            HostingError::FrameworkMissingFailure => String::from_str("It was not possible to find a compatible framework version."),
            HostingError::HostApiFailed => String::from_str("hostpolicy could not calculate the NATIVE_DLL_SEARCH_DIRECTORIES."),
            HostingError::HostApiBufferTooSmall => String::from_str("Returned when the buffer specified to an API is not big enough to fit the requested value."),
            HostingError::LibHostUnknownCommand => String::from_str("corehost_main_with_output_buffer was called with an unsupported host command."),
            HostingError::LibHostAppRootFindFailure => String::from_str("The imprinted application path doesn't exist."),
            HostingError::SdkResolverResolveFailure => String::from_str("hostfxr_resolve_sdk2 failed to find a matching SDK."),
            HostingError::FrameworkCompatFailure => String::from_str("During processing of `.runtimeconfig.json` there were two framework references to the same framework which were not compatible."),
            HostingError::FrameworkCompatRetry => String::from_str("[Internal error] The processing of framework references from .runtimeconfig.json reached a point where it needs to reprocess another already processed framework reference."),
            HostingError::AppHostExeNotBundle => String::from_str("Error reading the bundle footer metadata from a single-file apphost."),
            HostingError::BundleExtractionFailure => String::from_str("Error extracting single-file apphost bundle."),
            HostingError::BundleExtractionIOError => String::from_str("Error reading or writing files during single-file apphost bundle extraction."),
            HostingError::LibHostDuplicateProperty => String::from_str("The .runtimeconfig.json specified by the app contains a runtime property which is also produced by the hosting layer."),
            HostingError::HostApiUnsupportedVersion => String::from_str("Feature which requires certain version of the hosting layer binaries was used on a version which doesn't support it."),
            HostingError::HostInvalidState => String::from_str("The current state is incompatible with the requested operation."),
            HostingError::HostPropertyNotFound => String::from_str("Property requested by hostfxr_get_runtime_property_value doesn't exist."),
            HostingError::CoreHostIncompatibleConfig => String::from_str("Error returned by hostfxr_initialize_for_runtime_config if the component being initialized requires framework which is not available or incompatible with the frameworks loaded by the runtime already in the process."),
            HostingError::HostApiUnsupportedScenario => String::from_str("Requesting the given delegate type using the given context is currently not supported."),
            HostingError::HostFeatureDisabled => String::from_str("Managed feature support for native hosting is disabled"),
            HostingError::Unknown(code) => {
                let text = status_code_text(*code);
                String::from_str("Unknown error status code: ").concat(text.as_str())
            },
        }
    }
}

impl HostingSuccessExitCode {
    /// The text that describes the success exit code.
    pub open spec fn spec_message(self) -> Seq<char> {
        match self {
            HostingSuccessExitCode::Success => "Operation was successful."@,
            HostingSuccessExitCode::Success_HostAlreadyInitialized => "Initialization was successful, but another host context is already initialized, so the returned context is 'secondary'"@,
            HostingSuccessExitCode::Success_DifferentRuntimeProperties => "Initialization was successful, but another host context is already initialized and the requested context specified some runtime properties which are not the same (either in value or in presence) to the already initialized context."@,
            HostingSuccessExitCode::Unknown => "Unknown success exit code"@,
        }
    }

    /// Returns the text that describes the success exit code.
    pub fn message(&self) -> (r: String)
        ensures
            r@ == self.spec_message(),
    {
        match self {
            HostingSuccessExitCode::Success => String::from_str("Operation was successful."),
            HostingSuccessExitCode::Success_HostAlreadyInitialized => String::from_str("Initialization was successful, but another host context is already initialized, so the returned context is 'secondary'"),
            HostingSuccessExitCode::Success_DifferentRuntimeProperties => String::from_str("Initialization was successful, but another host context is already initialized and the requested context specified some runtime properties which are not the same (either in value or in presence) to the already initialized context."),
            HostingSuccessExitCode::Unknown => String::from_str("Unknown success exit code"),
        }
    }
}

impl HostingErrorExitCode {
    /// The text that describes the error exit code.
    pub open spec fn spec_message(self) -> Seq<char> {
        match self {
            HostingErrorExitCode::InvalidArgFailure => "One of the specified arguments for the operation is invalid."@,
            HostingErrorExitCode::CoreHostLibLoadFailure => "There was a failure loading a dependent library."@,
            HostingErrorExitCode::CoreHostLibMissingFailure => "One of the dependent libraries is missing."@,
            HostingErrorExitCode::CoreHostEntryPointFailure => "One of the dependent libraries is missing a required entry point."@,
            HostingErrorExitCode::CoreHostCurHostFindFailure => "Either the location of the current module could not be determined (some weird OS call failure) or the location is not in the right place relative to other expected components."@,
            HostingErrorExitCode::CoreClrResolveFailure => "The coreclr library could not be found."@,
            HostingErrorExitCode::CoreClrBindFailure => "The loaded coreclr library doesn't have one of the required entry points."@,
            HostingErrorExitCode::CoreClrInitFailure => "The call to coreclr_initialize failed."@,
            HostingErrorExitCode::CoreClrExeFailure => "The call to coreclr_execute_assembly failed."@,
            HostingErrorExitCode::ResolverInitFailure => "Initialization of the hostpolicy dependency resolver failed."@,
            HostingErrorExitCode::ResolverResolveFailure => "Resolution of dependencies in `hostpolicy` failed."@,
            HostingErrorExitCode::LibHostCurExeFindFailure => "Failure to determine the location of the current executable."@,
            HostingErrorExitCode::LibHostInitFailure => "Initialization of the `hostpolicy` library failed."@,
            HostingErrorExitCode::LibHostSdkFindFailure => "Failure to find the requested SDK."@,
            HostingErrorExitCode::LibHostInvalidArgs => "Arguments to hostpolicy are invalid."@,
            HostingErrorExitCode::InvalidConfigFile => "Arguments to hostpolicy are invalid."@,
            HostingErrorExitCode::AppArgNotRunnable => "[Internal error] The command line for dotnet.exe doesn't contain the path to the application to run."@,
            HostingErrorExitCode::AppHostExeNotBoundFailure => "apphost failed to determine which application to run."@,
            HostingErrorExitCode::FrameworkMissingFailure => "It was not possible to find a compatible framework version."@,
            HostingErrorExitCode::HostApiFailed => "hostpolicy could not calculate the NATIVE_DLL_SEARCH_DIRECTORIES."@,
            HostingErrorExitCode::HostApiBufferTooSmall => "Returned when the buffer specified to an API is not big enough to fit the requested value."@,
            HostingErrorExitCode::LibHostUnknownCommand => "The corehost_main_with_output_buffer was called with an unsupported host command."@,
            HostingErrorExitCode::LibHostAppRootFindFailure => "The imprinted application path doesn't exist."@,
            HostingErrorExitCode::SdkResolverResolveFailure => "hostfxr_resolve_sdk2 failed to find a matching SDK."@,
            HostingErrorExitCode::FrameworkCompatFailure => "During processing of `.runtimeconfig.json` there were two framework references to the same framework which were not compatible."@,
            HostingErrorExitCode::FrameworkCompatRetry => "[Internal error] The processing of framework references from .runtimeconfig.json reached a point where it needs to reprocess another already processed framework reference."@,
            HostingErrorExitCode::AppHostExeNotBundle => "Error reading the bundle footer metadata from a single-file apphost."@,
            HostingErrorExitCode::BundleExtractionFailure => "Error extracting single-file apphost bundle."@,
            HostingErrorExitCode::BundleExtractionIOError => "Error reading or writing files during single-file apphost bundle extraction."@,
            HostingErrorExitCode::LibHostDuplicateProperty => "The .runtimeconfig.json specified by the app contains a runtime property which is also produced by the hosting layer."@,
            HostingErrorExitCode::HostApiUnsupportedVersion => "Feature which requires certain version of the hosting layer binaries was used on a version which doesn't support it."@,
            HostingErrorExitCode::HostInvalidState => "The current state is incompatible with the requested operation."@,
            HostingErrorExitCode::HostPropertyNotFound => "Property requested by hostfxr_get_runtime_property_value doesn't exist."@,
            HostingErrorExitCode::CoreHostIncompatibleConfig => "Error returned by hostfxr_initialize_for_runtime_config if the component being initialized requires framework which is not available or incompatible with the frameworks loaded by the runtime already in the process."@,
            HostingErrorExitCode::HostApiUnsupportedScenario => "Requesting the given delegate type using the given context is currently not supported."@,
            HostingErrorExitCode::Unknown => "Unknown error exit code"@,
        }
    }

    /// Returns the text that describes the error exit code.
    pub fn message(&self) -> (r: String)
        ensures
            r@ == self.spec_message(),
    {
        match self {
            HostingErrorExitCode::InvalidArgFailure => String::from_str("One of the specified arguments for the operation is invalid."),
            HostingErrorExitCode::CoreHostLibLoadFailure => String::from_str("There was a failure loading a dependent library."),
            HostingErrorExitCode::CoreHostLibMissingFailure => String::from_str("One of the dependent libraries is missing."),
            HostingErrorExitCode::CoreHostEntryPointFailure => String::from_str("One of the dependent libraries is missing a required entry point."),
            HostingErrorExitCode::CoreHostCurHostFindFailure => String::from_str("Either the location of the current module could not be determined (some weird OS call failure) or the location is not in the right place relative to other expected components."),
            HostingErrorExitCode::CoreClrResolveFailure => String::from_str("The coreclr library could not be found."),
            HostingErrorExitCode::CoreClrBindFailure => String::from_str("The loaded coreclr library doesn't have one of the required entry points."),
            HostingErrorExitCode::CoreClrInitFailure => String::from_str("The call to coreclr_initialize failed."),
            HostingErrorExitCode::CoreClrExeFailure => String::from_str("The call to coreclr_execute_assembly failed."),
            HostingErrorExitCode::ResolverInitFailure => String::from_str("Initialization of the hostpolicy dependency resolver failed."),
            HostingErrorExitCode::ResolverResolveFailure => String::from_str("Resolution of dependencies in `hostpolicy` failed."),
            HostingErrorExitCode::LibHostCurExeFindFailure => String::from_str("Failure to determine the location of the current executable."),
            HostingErrorExitCode::LibHostInitFailure => String::from_str("Initialization of the `hostpolicy` library failed."),
            HostingErrorExitCode::LibHostSdkFindFailure => String::from_str("Failure to find the requested SDK."),
            HostingErrorExitCode::LibHostInvalidArgs => String::from_str("Arguments to hostpolicy are invalid."),
            HostingErrorExitCode::InvalidConfigFile => String::from_str("Arguments to hostpolicy are invalid."),
            HostingErrorExitCode::AppArgNotRunnable => String::from_str("[Internal error] The command line for dotnet.exe doesn't contain the path to the application to run."),
            HostingErrorExitCode::AppHostExeNotBoundFailure => String::from_str("apphost failed to determine which application to run."),
            HostingErrorExitCode::FrameworkMissingFailure => String::from_str("It was not possible to find a compatible framework version."),
            HostingErrorExitCode::HostApiFailed => String::from_str("hostpolicy could not calculate the NATIVE_DLL_SEARCH_DIRECTORIES."),
            HostingErrorExitCode::HostApiBufferTooSmall => String::from_str("Returned when the buffer specified to an API is not big enough to fit the requested value."),
            HostingErrorExitCode::LibHostUnknownCommand => String::from_str("The corehost_main_with_output_buffer was called with an unsupported host command."),
            HostingErrorExitCode::LibHostAppRootFindFailure => String::from_str("The imprinted application path doesn't exist."),
            HostingErrorExitCode::SdkResolverResolveFailure => String::from_str("hostfxr_resolve_sdk2 failed to find a matching SDK."),
            HostingErrorExitCode::FrameworkCompatFailure => String::from_str("During processing of `.runtimeconfig.json` there were two framework references to the same framework which were not compatible."),
            HostingErrorExitCode::FrameworkCompatRetry => String::from_str("[Internal error] The processing of framework references from .runtimeconfig.json reached a point where it needs to reprocess another already processed framework reference."),
            HostingErrorExitCode::AppHostExeNotBundle => String::from_str("Error reading the bundle footer metadata from a single-file apphost."),
            HostingErrorExitCode::BundleExtractionFailure => String::from_str("Error extracting single-file apphost bundle."),
            HostingErrorExitCode::BundleExtractionIOError => String::from_str("Error reading or writing files during single-file apphost bundle extraction."),
            HostingErrorExitCode::LibHostDuplicateProperty => String::from_str("The .runtimeconfig.json specified by the app contains a runtime property which is also produced by the hosting layer."),
            HostingErrorExitCode::HostApiUnsupportedVersion => String::from_str("Feature which requires certain version of the hosting layer binaries was used on a version which doesn't support it."),
            HostingErrorExitCode::HostInvalidState => String::from_str("The current state is incompatible with the requested operation."),
            HostingErrorExitCode::HostPropertyNotFound => String::from_str("Property requested by hostfxr_get_runtime_property_value doesn't exist."),
            HostingErrorExitCode::CoreHostIncompatibleConfig => String::from_str("Error returned by hostfxr_initialize_for_runtime_config if the component being initialized requires framework which is not available or incompatible with the frameworks loaded by the runtime already in the process."),
            HostingErrorExitCode::HostApiUnsupportedScenario => String::from_str("Requesting the given delegate type using the given context is currently not supported."),
            HostingErrorExitCode::Unknown => String::from_str("Unknown error exit code"),
        }
    }
}

impl HostingExitCode {
    /// The text that describes the exit code.
    pub open spec fn spec_message(self) -> Seq<char> {
        match self {
            HostingExitCode::Success(code) => code.spec_message(),
            HostingExitCode::Error(code) => code.spec_message(),
            HostingExitCode::Unknown(code) => "Unknown exit code: "@ + spec_status_code_text(code),
        }
    }

    /// Returns the text that describes the exit code.
    pub fn message(&self) -> (r: String)
        ensures
            r@ == self.spec_message(),
    {
        match self {
            HostingExitCode::Success(code) => code.message(),
            HostingExitCode::Error(code) => code.message(),
            HostingExitCode::Unknown(code) => {
                let text = status_code_text(*code);
                String::from_str("Unknown exit code: ").concat(text.as_str())
            },
        }
    }
}

impl GetManagedFunctionError {
    /// The text that describes the error.
    pub open spec fn spec_message(self) -> Seq<char> {
        match self {
            GetManagedFunctionError::Hosting(error) => "Error from hosting components: "@ + error.spec_message() + "."@,
            GetManagedFunctionError::TypeOrMethodNotFound => "Failed to load the type or method or it has an incompatible signature."@,
            GetManagedFunctionError::AssemblyNotFound => "The specified assembly could not be found."@,
            GetManagedFunctionError::MethodNotUnmanagedCallersOnly => "The target method is not annotated with UnmanagedCallersOnly."@,
            GetManagedFunctionError::Other(code) => "Unknown error code: "@ + spec_status_code_text(code),
        }
    }

    /// Returns the text that describes the error.
    pub fn message(&self) -> (r: String)
        ensures
            r@ == self.spec_message(),
    {
        match self {
            GetManagedFunctionError::Hosting(error) => {
                let inner = error.message();
                String::from_str("Error from hosting components: ").concat(inner.as_str()).concat(".")
            },
            GetManagedFunctionError::TypeOrMethodNotFound => String::from_str("Failed to load the type or method or it has an incompatible signature."),
            GetManagedFunctionError::AssemblyNotFound => String::from_str("The specified assembly could not be found."),
            GetManagedFunctionError::MethodNotUnmanagedCallersOnly => String::from_str("The target method is not annotated with UnmanagedCallersOnly."),
            GetManagedFunctionError::Other(code) => {
                let text = status_code_text(*code);
                String::from_str("Unknown error code: ").concat(text.as_str())
            },
        }
    }
}

} // verus!
