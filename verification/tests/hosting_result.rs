use coreclr_hosting_shared::StatusCode;
use netcorehost::bindings::status_code;
use netcorehost::error::{HostingError, HostingResult, HostingSuccess};
use std::convert::TryFrom;

const ALL_ERRORS: [HostingError; 37] = [
    HostingError::InvalidArgFailure,
    HostingError::CoreHostLibLoadFailure,
    HostingError::CoreHostLibMissingFailure,
    HostingError::CoreHostEntryPointFailure,
    HostingError::CoreHostCurHostFindFailure,
    HostingError::CoreClrResolveFailure,
    HostingError::CoreClrBindFailure,
    HostingError::CoreClrInitFailure,
    HostingError::CoreClrExeFailure,
    HostingError::ResolverInitFailure,
    HostingError::ResolverResolveFailure,
    HostingError::LibHostCurExeFindFailure,
    HostingError::LibHostInitFailure,
    HostingError::LibHostExecModeFailure,
    HostingError::LibHostSdkFindFailure,
    HostingError::LibHostInvalidArgs,
    HostingError::InvalidConfigFile,
    HostingError::AppArgNotRunnable,
    HostingError::AppHostExeNotBoundFailure,
    HostingError::FrameworkMissingFailure,
    HostingError::HostApiFailed,
    HostingError::HostApiBufferTooSmall,
    HostingError::LibHostUnknownCommand,
    HostingError::LibHostAppRootFindFailure,
    HostingError::SdkResolverResolveFailure,
    HostingError::FrameworkCompatFailure,
    HostingError::FrameworkCompatRetry,
    HostingError::AppHostExeNotBundle,
    HostingError::BundleExtractionFailure,
    HostingError::BundleExtractionIOError,
    HostingError::LibHostDuplicateProperty,
    HostingError::HostApiUnsupportedVersion,
    HostingError::HostInvalidState,
    HostingError::HostPropertyNotFound,
    HostingError::CoreHostIncompatibleConfig,
    HostingError::HostApiUnsupportedScenario,
    HostingError::HostFeatureDisabled,
];

#[test]
fn status_codes_match_the_native_definitions() {
    assert_eq!(status_code::SUCCESS, StatusCode::Success as u32);
    assert_eq!(status_code::SUCCESS_HOST_ALREADY_INITIALIZED, StatusCode::Success_HostAlreadyInitialized as u32);
    assert_eq!(
        status_code::SUCCESS_DIFFERENT_RUNTIME_PROPERTIES,
        StatusCode::Success_DifferentRuntimeProperties as u32
    );
    let native = [
        StatusCode::InvalidArgFailure as u32,
        StatusCode::CoreHostLibLoadFailure as u32,
        StatusCode::CoreHostLibMissingFailure as u32,
        StatusCode::CoreHostEntryPointFailure as u32,
        StatusCode::CoreHostCurHostFindFailure as u32,
        StatusCode::CoreClrResolveFailure as u32,
        StatusCode::CoreClrBindFailure as u32,
        StatusCode::CoreClrInitFailure as u32,
        StatusCode::CoreClrExeFailure as u32,
        StatusCode::ResolverInitFailure as u32,
        StatusCode::ResolverResolveFailure as u32,
        StatusCode::LibHostCurExeFindFailure as u32,
        StatusCode::LibHostInitFailure as u32,
        StatusCode::LibHostExecModeFailure as u32,
        StatusCode::LibHostSdkFindFailure as u32,
        StatusCode::LibHostInvalidArgs as u32,
        StatusCode::InvalidConfigFile as u32,
        StatusCode::AppArgNotRunnable as u32,
        StatusCode::AppHostExeNotBoundFailure as u32,
        StatusCode::FrameworkMissingFailure as u32,
        StatusCode::HostApiFailed as u32,
        StatusCode::HostApiBufferTooSmall as u32,
        StatusCode::LibHostUnknownCommand as u32,
        StatusCode::LibHostAppRootFindFailure as u32,
        StatusCode::SdkResolverResolveFailure as u32,
        StatusCode::FrameworkCompatFailure as u32,
        StatusCode::FrameworkCompatRetry as u32,
        StatusCode::AppHostExeNotBundle as u32,
        StatusCode::BundleExtractionFailure as u32,
        StatusCode::BundleExtractionIOError as u32,
        StatusCode::LibHostDuplicateProperty as u32,
        StatusCode::HostApiUnsupportedVersion as u32,
        StatusCode::HostInvalidState as u32,
        StatusCode::HostPropertyNotFound as u32,
        StatusCode::CoreHostIncompatibleConfig as u32,
        StatusCode::HostApiUnsupportedScenario as u32,
        StatusCode::HostFeatureDisabled as u32,
    ];
    for (error, code) in ALL_ERRORS.iter().zip(native.iter()) {
        assert_eq!(error.value(), *code, "{:?}", error);
    }
}

#[test]
fn success_codes_decode() {
    assert_eq!(HostingSuccess::from_status_code(0), HostingSuccess::Success);
    assert_eq!(HostingSuccess::from_status_code(1), HostingSuccess::HostAlreadyInitialized);
    assert_eq!(HostingSuccess::from_status_code(2), HostingSuccess::DifferentRuntimeProperties);
    assert_eq!(HostingSuccess::from_status_code(3), HostingSuccess::Unknown(3));
    assert_eq!(HostingSuccess::known_from_status_code(2), Ok(HostingSuccess::DifferentRuntimeProperties));
    assert_eq!(HostingSuccess::known_from_status_code(7), Err(7));
    assert_eq!(HostingSuccess::HostAlreadyInitialized.value(), 1);
    assert_eq!(HostingSuccess::Unknown(42).value(), 42);
    assert!(HostingSuccess::Success.is_known());
    assert!(!HostingSuccess::Success.is_unknown());
    assert!(HostingSuccess::Unknown(5).is_unknown());
    assert!(!HostingSuccess::Unknown(5).is_known());
}

#[test]
fn error_codes_roundtrip() {
    for error in ALL_ERRORS {
        let code = error.value();
        assert!(code >= 0x8000_0000);
        assert_eq!(HostingError::from_status_code(code).value(), code);
        assert_eq!(HostingError::from_status_code(code), error);
        assert_eq!(HostingError::known_from_status_code(code), Ok(error));
        assert!(error.is_known());
    }
    assert_eq!(HostingError::from_status_code(0x8000_809e), HostingError::AppHostExeNotBundle);
    assert_eq!(HostingResult::from_status_code(0x8000_809e), HostingResult(Err(HostingError::AppHostExeNotBundle)));
    assert_eq!(HostingError::from_status_code(0x8000_8086), HostingError::Unknown(0x8000_8086));
    assert_eq!(HostingError::from_status_code(0x8000_808f), HostingError::Unknown(0x8000_808f));
    assert_eq!(HostingError::known_from_status_code(0x8000_80a8), Err(0x8000_80a8));
    assert!(HostingError::Unknown(1).is_unknown());
    assert_eq!(HostingError::HostApiBufferTooSmall.value(), 0x8000_8098);
}

#[test]
fn results_decode_by_sign() {
    assert_eq!(HostingResult::from_status_code(0), HostingResult(Ok(HostingSuccess::Success)));
    assert_eq!(HostingResult::from_status_code(42), HostingResult(Ok(HostingSuccess::Unknown(42))));
    assert_eq!(HostingResult::from_status_code(0x7fff_ffff), HostingResult(Ok(HostingSuccess::Unknown(0x7fff_ffff))));
    assert_eq!(
        HostingResult::from_status_code(0x8000_8081),
        HostingResult(Err(HostingError::InvalidArgFailure))
    );
    assert_eq!(HostingResult::from_status_code(0x8000_0000), HostingResult(Err(HostingError::Unknown(0x8000_0000))));
    assert_eq!(HostingResult::from_status_code(u32::MAX), HostingResult(Err(HostingError::Unknown(u32::MAX))));
    for code in [0u32, 1, 2, 3, 0x7fff_ffff, 0x8000_0000, 0x8000_8081, 0x8000_809e, 0x8000_80a7, u32::MAX] {
        assert_eq!(HostingResult::from_status_code(code).value(), code);
    }
}

#[test]
fn known_results() {
    assert_eq!(HostingResult::known_from_status_code(1), Ok(HostingResult(Ok(HostingSuccess::HostAlreadyInitialized))));
    assert_eq!(
        HostingResult::known_from_status_code(0x8000_80a7),
        Ok(HostingResult(Err(HostingError::HostFeatureDisabled)))
    );
    assert_eq!(HostingResult::known_from_status_code(3), Err(3));
    assert_eq!(
        HostingResult::known_from_status_code(0x8000_809e),
        Ok(HostingResult(Err(HostingError::AppHostExeNotBundle)))
    );
    assert_eq!(HostingResult::known_from_status_code(0x8000_8090), Ok(HostingResult(Err(HostingError::LibHostExecModeFailure))));
    assert_eq!(HostingResult::known_from_status_code(0x8000_80a8), Err(0x8000_80a8));
    assert!(HostingResult::from_status_code(0).is_known());
    assert!(HostingResult::from_status_code(3).is_unknown());
    assert!(HostingResult::from_status_code(0x8000_8000).is_unknown());
    assert_eq!(
        HostingResult::from_status_code(0x8000_80a3).into_result(),
        Err(HostingError::HostInvalidState)
    );
    assert_eq!(HostingResult::from_success(HostingSuccess::Success).into_result(), Ok(HostingSuccess::Success));
    assert_eq!(HostingResult::from_error(HostingError::HostApiFailed).0, Err(HostingError::HostApiFailed));
}

#[test]
fn conversions() {
    assert_eq!(HostingResult::from(-2147450751i32), HostingResult(Err(HostingError::InvalidArgFailure)));
    assert_eq!(HostingResult::from(2u32), HostingResult(Ok(HostingSuccess::DifferentRuntimeProperties)));
    assert_eq!(i32::from(HostingResult(Err(HostingError::InvalidArgFailure))), -2147450751);
    assert_eq!(u32::from(HostingResult(Err(HostingError::InvalidArgFailure))), 0x8000_8081);
    assert_eq!(HostingResult::from(HostingSuccess::Success), HostingResult(Ok(HostingSuccess::Success)));
    assert_eq!(HostingResult::from(HostingError::HostApiFailed), HostingResult(Err(HostingError::HostApiFailed)));
    assert_eq!(HostingSuccess::try_from(0u32), Ok(HostingSuccess::Success));
    assert_eq!(HostingSuccess::try_from(9u32), Err(9));
    assert_eq!(HostingError::try_from(0x8000_8098u32), Ok(HostingError::HostApiBufferTooSmall));
    assert_eq!(HostingError::try_from(0x8000_809eu32), Ok(HostingError::AppHostExeNotBundle));
    assert_eq!(HostingError::try_from(0x8000_80a8u32), Err(0x8000_80a8));
    assert_eq!(u32::from(HostingSuccess::HostAlreadyInitialized), 1);
    assert_eq!(u32::from(HostingError::HostFeatureDisabled), 0x8000_80a7);
}

#[test]
fn results_deref_and_convert_from_results() {
    let result = HostingResult::from(Err::<HostingSuccess, HostingError>(HostingError::HostInvalidState));
    assert_eq!(*result, Err(HostingError::HostInvalidState));
    assert!(result.is_err());
    let ok = HostingResult::from(Ok::<HostingSuccess, HostingError>(HostingSuccess::Success));
    assert!(ok.is_ok());
}
