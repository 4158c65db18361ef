use netcorehost::error::{HostingError, HostingSuccess};
use netcorehost::hostfxr::GetManagedFunctionError;

fn code(raw: u32) -> i32 {
    raw as i32
}

#[test]
fn hosting_codes_take_precedence() {
    assert_eq!(GetManagedFunctionError::from_status_code(0), Ok(HostingSuccess::Success));
    assert_eq!(GetManagedFunctionError::from_status_code(1), Ok(HostingSuccess::HostAlreadyInitialized));
    assert_eq!(
        GetManagedFunctionError::from_status_code(code(0x8000_8081)),
        Err(GetManagedFunctionError::Hosting(HostingError::InvalidArgFailure))
    );
    assert_eq!(
        GetManagedFunctionError::from_status_code(code(0x8000_80a6)),
        Err(GetManagedFunctionError::Hosting(HostingError::HostApiUnsupportedScenario))
    );
}

#[test]
fn managed_loader_hresults() {
    assert_eq!(
        GetManagedFunctionError::from_status_code(code(0x8013_1522)),
        Err(GetManagedFunctionError::TypeOrMethodNotFound)
    );
    assert_eq!(
        GetManagedFunctionError::from_status_code(code(0x8013_1513)),
        Err(GetManagedFunctionError::TypeOrMethodNotFound)
    );
    assert_eq!(
        GetManagedFunctionError::from_status_code(code(0x8007_0057)),
        Err(GetManagedFunctionError::TypeOrMethodNotFound)
    );
    assert_eq!(
        GetManagedFunctionError::from_status_code(code(0x8007_0002)),
        Err(GetManagedFunctionError::AssemblyNotFound)
    );
    assert_eq!(
        GetManagedFunctionError::from_status_code(code(0x8013_1509)),
        Err(GetManagedFunctionError::MethodNotUnmanagedCallersOnly)
    );
}

#[test]
fn other_codes() {
    // HRESULTs known to the loader but without an error of their own
    assert_eq!(
        GetManagedFunctionError::from_status_code(code(0x8000_4003)),
        Err(GetManagedFunctionError::Other(0x8000_4003))
    );
    assert_eq!(
        GetManagedFunctionError::from_status_code(code(0x8013_1502)),
        Err(GetManagedFunctionError::Other(0x8013_1502))
    );
    // an unknown success and an unknown error code
    assert_eq!(GetManagedFunctionError::from_status_code(5), Err(GetManagedFunctionError::Other(5)));
    assert_eq!(
        GetManagedFunctionError::from_status_code(code(0x8000_80a8)),
        Err(GetManagedFunctionError::Other(0x8000_80a8))
    );
    assert_eq!(
        GetManagedFunctionError::from_status_code(code(0x8000_809e)),
        Err(GetManagedFunctionError::Hosting(HostingError::AppHostExeNotBundle))
    );
    assert_eq!(GetManagedFunctionError::from_status_code(-1), Err(GetManagedFunctionError::Other(u32::MAX)));
}

#[test]
fn from_hosting_error() {
    assert_eq!(
        GetManagedFunctionError::from(HostingError::HostInvalidState),
        GetManagedFunctionError::Hosting(HostingError::HostInvalidState)
    );
}
