use netcorehost::error::message::status_code_text;
use netcorehost::error::{HostingError, HostingSuccess};
use netcorehost::hostfxr::{GetManagedFunctionError, HostingErrorExitCode, HostingExitCode, HostingSuccessExitCode};

#[test]
fn status_codes_are_written_in_hexadecimal() {
    for code in [0u32, 1, 3, 15, 16, 255, 0xabc, 0xffffff, 0x1000000, 0x8000_8081, 0x8000_80a7, u32::MAX] {
        assert_eq!(status_code_text(code), format!("{:#08X}", code));
    }
    assert_eq!(status_code_text(3), "0x000003");
    assert_eq!(status_code_text(0x8000_8081), "0x80008081");
}

#[test]
fn success_messages() {
    assert_eq!(HostingSuccess::Success.message(), "Operation was successful.");
    assert_eq!(HostingSuccess::Unknown(3).message(), "Unknown success status code: 0x000003");
}

#[test]
fn error_messages() {
    assert_eq!(HostingError::CoreClrInitFailure.message(), "The call to coreclr_initialize failed.");
    assert_eq!(HostingError::HostFeatureDisabled.message(), "Managed feature support for native hosting is disabled");
    assert_eq!(HostingError::Unknown(0x8000_8086).message(), "Unknown error status code: 0x80008086");
}

#[test]
fn exit_code_messages() {
    assert_eq!(HostingExitCode::Success(HostingSuccessExitCode::Success).message(), "Operation was successful.");
    assert_eq!(HostingExitCode::Success(HostingSuccessExitCode::Unknown).message(), "Unknown success exit code");
    assert_eq!(
        HostingExitCode::Error(HostingErrorExitCode::LibHostUnknownCommand).message(),
        "The corehost_main_with_output_buffer was called with an unsupported host command."
    );
    assert_eq!(HostingExitCode::Error(HostingErrorExitCode::Unknown).message(), "Unknown error exit code");
    assert_eq!(HostingExitCode::Unknown(42).message(), "Unknown exit code: 0x00002A");
}

#[test]
fn managed_function_error_messages() {
    assert_eq!(
        GetManagedFunctionError::Hosting(HostingError::HostInvalidState).message(),
        "Error from hosting components: The current state is incompatible with the requested operation.."
    );
    assert_eq!(
        GetManagedFunctionError::TypeOrMethodNotFound.message(),
        "Failed to load the type or method or it has an incompatible signature."
    );
    assert_eq!(GetManagedFunctionError::AssemblyNotFound.message(), "The specified assembly could not be found.");
    assert_eq!(
        GetManagedFunctionError::MethodNotUnmanagedCallersOnly.message(),
        "The target method is not annotated with UnmanagedCallersOnly."
    );
    assert_eq!(GetManagedFunctionError::Other(0x8000_4003).message(), "Unknown error code: 0x80004003");
}
