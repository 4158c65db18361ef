use netcorehost::hostfxr::{HostingErrorExitCode, HostingExitCode, HostingSuccessExitCode};

#[test]
fn exit_codes_decode() {
    assert_eq!(HostingExitCode::new(0), HostingExitCode::Success(HostingSuccessExitCode::Success));
    assert_eq!(
        HostingExitCode::new(1),
        HostingExitCode::Success(HostingSuccessExitCode::Success_HostAlreadyInitialized)
    );
    assert_eq!(
        HostingExitCode::new(2),
        HostingExitCode::Success(HostingSuccessExitCode::Success_DifferentRuntimeProperties)
    );
    // codes that no variant documents are unknown; the placeholders are never decoded
    assert_eq!(HostingExitCode::new(3), HostingExitCode::Unknown(3));
    assert!(HostingExitCode::new(3).is_unknown());
    assert_eq!(HostingExitCode::new(0x8000_80a7), HostingExitCode::Unknown(0x8000_80a7));
    assert_eq!(HostingExitCode::new(0x8000_80a8), HostingExitCode::Unknown(0x8000_80a8));
    assert_eq!(HostingExitCode::new(4), HostingExitCode::Unknown(4));
    assert_eq!(HostingExitCode::new(0x8000_8081), HostingExitCode::Error(HostingErrorExitCode::InvalidArgFailure));
    assert_eq!(HostingExitCode::new(0x8000_80a6), HostingExitCode::Error(HostingErrorExitCode::HostApiUnsupportedScenario));
    // LibHostExecModeFailure has no variant here
    assert_eq!(HostingExitCode::new(0x8000_8090), HostingExitCode::Unknown(0x8000_8090));
    assert_eq!(HostingExitCode::new(42), HostingExitCode::Unknown(42));
}

#[test]
fn exit_code_values_roundtrip() {
    for code in [0u32, 1, 2, 3, 4, 42, 0x8000_8081, 0x8000_8086, 0x8000_8090, 0x8000_809e, 0x8000_80a6, 0x8000_80a7, 0x8000_80a8, u32::MAX] {
        let exit_code = HostingExitCode::new(code);
        assert_eq!(exit_code.value(), code);
        assert_eq!(HostingExitCode::new(exit_code.value()), exit_code);
        assert_eq!(u32::from(exit_code), code);
        assert_eq!(HostingExitCode::from(code), exit_code);
        assert_eq!(i32::from(exit_code), code as i32);
        assert_eq!(HostingExitCode::from(code as i32), exit_code);
    }
    assert_eq!(HostingSuccessExitCode::Unknown.value(), 3);
    assert_eq!(HostingErrorExitCode::Unknown.value(), 0x8000_80a7);
    assert_eq!(HostingErrorExitCode::try_from_primitive(0x8000_80a7), None);
    assert_eq!(u32::from(HostingErrorExitCode::HostInvalidState), 0x8000_80a3);
    assert_eq!(u32::from(HostingSuccessExitCode::Success_DifferentRuntimeProperties), 2);
    assert_eq!(HostingErrorExitCode::try_from_primitive(0x8000_8087), Some(HostingErrorExitCode::CoreClrResolveFailure));
    assert_eq!(HostingErrorExitCode::try_from_primitive(0x8000_8086), None);
    assert_eq!(HostingSuccessExitCode::try_from_primitive(3), None);
    assert_eq!(HostingErrorExitCode::try_from_primitive(0x8000_80a8), None);
    assert_eq!(HostingErrorExitCode::try_from_primitive(0x8000_809e), Some(HostingErrorExitCode::AppHostExeNotBundle));
}

#[test]
fn exit_code_classification() {
    let success = HostingExitCode::new(0);
    let error = HostingExitCode::new(0x8000_8098);
    let unknown = HostingExitCode::new(17);
    assert!(success.is_success() && !success.is_error() && !success.is_unknown());
    assert!(!error.is_success() && error.is_error() && !error.is_unknown());
    assert!(!unknown.is_success() && !unknown.is_error() && unknown.is_unknown());
    assert_eq!(success.success(), Some(HostingSuccessExitCode::Success));
    assert_eq!(success.error(), None);
    assert_eq!(error.error(), Some(HostingErrorExitCode::HostApiBufferTooSmall));
    assert_eq!(error.success(), None);
    assert_eq!(unknown.success(), None);
    assert_eq!(unknown.error(), None);
}

#[test]
fn exit_code_results() {
    let success = HostingExitCode::new(1);
    let error = HostingExitCode::new(0x8000_80a3);
    let unknown = HostingExitCode::new(0x1234);
    assert_eq!(success.to_result_assume_unknown_is_error(), Ok(HostingSuccessExitCode::Success_HostAlreadyInitialized));
    assert_eq!(success.to_result_assume_unknown_is_success(), Ok(HostingSuccessExitCode::Success_HostAlreadyInitialized));
    assert_eq!(error.to_result_assume_unknown_is_error(), Err(HostingErrorExitCode::HostInvalidState));
    assert_eq!(error.to_result_assume_unknown_is_success(), Err(HostingErrorExitCode::HostInvalidState));
    assert_eq!(unknown.to_result_assume_unknown_is_error(), Err(HostingErrorExitCode::Unknown));
    assert_eq!(unknown.to_result_assume_unknown_is_success(), Ok(HostingSuccessExitCode::Unknown));
}

#[test]
fn internal_only_codes() {
    assert!(HostingExitCode::new(0x8000_809d).is_for_use_internal_only());
    assert!(HostingExitCode::new(0x8000_8094).is_for_use_internal_only());
    assert!(!HostingExitCode::new(0x8000_8093).is_for_use_internal_only());
    assert!(!HostingExitCode::new(0).is_for_use_internal_only());
    assert!(!HostingExitCode::Unknown(0x8000_809d).is_for_use_internal_only());
}
