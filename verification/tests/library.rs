use std::path::PathBuf;

use netcorehost::bindings::hostfxr::hostfxr_delegate_type;
use netcorehost::error::{HostingError, HostingResult, HostingSuccess, LoadHostfxrError, UniversalError};
use netcorehost::hostfxr::context::RuntimeDelegateCache;
use netcorehost::hostfxr::library::{dotnet_root_len, result_or_unsupported_version, UNSUPPORTED_HOST_VERSION_ERROR_CODE};
use netcorehost::hostfxr::library2_1::{
    resolve_sdk_flags, resolve_sdk_update, search_directories, ResolveSdkFlags, ResolveSdkKey,
};
use netcorehost::hostfxr::runtime_property::{pair_properties, properties_read_len, property_count_result};
use netcorehost::hostfxr::{AppOrHostingResult, GetManagedFunctionError, ManagedFunction, ResolveSdkResult};
use netcorehost::nethost::{hostfxr_path_retry_succeeded, hostfxr_path_step, HostfxrPathStep};

#[test]
fn app_or_hosting_result() {
    let result = AppOrHostingResult::from(42);
    assert_eq!(result.value(), 42);
    assert_eq!(i32::from(result), 42);
    assert_eq!(result.as_hosting_exit_code(), HostingResult(Ok(HostingSuccess::Unknown(42))));
    let failed = AppOrHostingResult::from(-2147450730);
    assert_eq!(failed.as_hosting_exit_code(), HostingResult(Err(HostingError::FrameworkMissingFailure)));
    assert_eq!(AppOrHostingResult::from(0).as_hosting_exit_code(), HostingResult(Ok(HostingSuccess::Success)));
}

#[test]
fn missing_apis_report_an_unsupported_version() {
    assert_eq!(UNSUPPORTED_HOST_VERSION_ERROR_CODE as u32, HostingError::HostApiUnsupportedVersion.value());
    assert_eq!(result_or_unsupported_version(Some(7)), 7);
    assert_eq!(result_or_unsupported_version(None), UNSUPPORTED_HOST_VERSION_ERROR_CODE);
    assert_eq!(
        HostingResult::from(result_or_unsupported_version(None)),
        HostingResult(Err(HostingError::HostApiUnsupportedVersion))
    );
}

fn components(parts: &[Option<&str>]) -> Vec<Option<Vec<u8>>> {
    parts.iter().map(|p| p.map(|s| s.as_bytes().to_vec())).collect()
}

#[test]
fn dotnet_root_is_the_last_dotnet_directory() {
    let path = components(&[None, Some("usr"), Some("share"), Some("dotnet"), Some("host"), Some("fxr"), Some("8.0.0"), Some("libhostfxr.so")]);
    assert_eq!(dotnet_root_len(&path), Some(4));
    let hidden = components(&[None, Some("home"), Some("me"), Some(".dotnet"), Some("host"), Some("fxr"), Some("libhostfxr.so")]);
    assert_eq!(dotnet_root_len(&hidden), Some(4));
    let nested = components(&[None, Some("dotnet"), Some("x"), Some("dotnet"), Some("libhostfxr.so")]);
    assert_eq!(dotnet_root_len(&nested), Some(4));
    let none = components(&[None, Some("opt"), Some("lib"), Some("libhostfxr.so")]);
    assert_eq!(dotnet_root_len(&none), None);
    let blocked = components(&[None, Some("dotnet"), None, Some("libhostfxr.so")]);
    assert_eq!(dotnet_root_len(&blocked), None);
    let relative = components(&[Some("dotnet"), Some("libhostfxr.so")]);
    assert_eq!(dotnet_root_len(&relative), Some(1));
    assert_eq!(dotnet_root_len(&Vec::new()), None);
    let similar = components(&[Some("dotnets"), Some("xdotnet"), Some("libhostfxr.so")]);
    assert_eq!(dotnet_root_len(&similar), None);
}

#[test]
fn search_directories_split() {
    let dirs = |list: &[&str]| list.iter().map(|d| d.as_bytes().to_vec()).collect::<Vec<_>>();
    assert_eq!(search_directories(b"/a/b:/c/d\0", b':'), dirs(&["/a/b", "/c/d"]));
    assert_eq!(search_directories(b"/a/b:/c/d:/e\0", b':'), dirs(&["/a/b", "/c/d", "/e"]));
    assert_eq!(search_directories(b"/a/b\0", b':'), dirs(&["/a/b"]));
    assert_eq!(search_directories(b"/a/b:\0", b':'), dirs(&["/a/b", ""]));
    assert_eq!(search_directories(b":x", b':'), dirs(&["", "x"]));
    assert_eq!(search_directories(b"/a/b", b':'), dirs(&["/a/b"]));
    assert_eq!(search_directories(b"/a\0/b:/c", b':'), dirs(&["/a"]));
    assert_eq!(search_directories(b"\0", b':'), dirs(&[""]));
    assert_eq!(search_directories(b"", b':'), Vec::<Vec<u8>>::new());
    assert_eq!(search_directories(b"C:\\a;D:\\b\0", b';'), dirs(&["C:\\a", "D:\\b"]));
}

#[test]
fn resolve_sdk_decisions() {
    assert_eq!(resolve_sdk_flags(true), ResolveSdkFlags::AllowPrerelease);
    assert_eq!(resolve_sdk_flags(false), ResolveSdkFlags::DisallowPrerelease);
    let sdk = PathBuf::from("/usr/share/dotnet/sdk/8.0.100");
    let json = PathBuf::from("/src/global.json");
    let held = resolve_sdk_update(None, ResolveSdkKey::ResolvedSdkDir, sdk.clone());
    assert_eq!(held, Some(ResolveSdkResult::ResolvedSdkDirectory(sdk.clone())));
    let held = resolve_sdk_update(held, ResolveSdkKey::RequestedVersion, PathBuf::from("8.0.100"));
    assert_eq!(held, Some(ResolveSdkResult::ResolvedSdkDirectory(sdk.clone())));
    let held = resolve_sdk_update(held, ResolveSdkKey::GlobalJsonPath, json.clone());
    assert_eq!(held, Some(ResolveSdkResult::GlobalJsonPath(json.clone())));
    assert_eq!(resolve_sdk_update(None, ResolveSdkKey::GlobalJsonState, json.clone()), None);
    let result = ResolveSdkResult::GlobalJsonPath(json.clone());
    assert_eq!(result.clone(), result);
    assert_eq!(result.clone().into_path(), json);
    assert_eq!(result.path(), &json);
}

#[test]
fn hostfxr_path_steps() {
    assert_eq!(hostfxr_path_step(0, 20), HostfxrPathStep::Found(20));
    assert_eq!(hostfxr_path_step(2, 20), HostfxrPathStep::Found(20));
    assert_eq!(hostfxr_path_step(0x8000_8098u32 as i32, 300), HostfxrPathStep::Retry(300));
    assert_eq!(
        hostfxr_path_step(0x8000_8083u32 as i32, 0),
        HostfxrPathStep::Failed(HostingError::CoreHostLibMissingFailure)
    );
    assert_eq!(hostfxr_path_step(-1, 0), HostfxrPathStep::Failed(HostingError::Unknown(u32::MAX)));
    assert!(hostfxr_path_retry_succeeded(0));
    assert!(!hostfxr_path_retry_succeeded(1));
    assert!(!hostfxr_path_retry_succeeded(0x8000_8098u32 as i32));
}

#[test]
fn property_count_steps() {
    assert_eq!(property_count_result(0), Ok(()));
    assert_eq!(property_count_result(0x8000_8098u32 as i32), Ok(()));
    assert_eq!(property_count_result(0x8000_80a3u32 as i32), Err(HostingError::HostInvalidState));
    assert_eq!(property_count_result(0x8000_8086u32 as i32), Err(HostingError::Unknown(0x8000_8086)));
}

#[test]
fn runtime_delegates_are_cached() {
    let mut cache = RuntimeDelegateCache::new();
    let load = hostfxr_delegate_type::hdt_load_assembly_and_get_function_pointer;
    let get = hostfxr_delegate_type::hdt_get_function_pointer;
    assert_eq!(cache.get(load), None);
    assert_eq!(cache.resolve(load, Err(HostingError::HostInvalidState)), Err(HostingError::HostInvalidState));
    assert_eq!(cache.get(load), None);
    assert_eq!(cache.resolve(load, Ok(0x1000)), Ok(0x1000));
    assert_eq!(cache.get(load), Some(0x1000));
    assert_eq!(cache.get(get), None);
    assert_eq!(cache.resolve(get, Ok(0x2000)), Ok(0x2000));
    assert_eq!(cache.get(load), Some(0x1000));
    assert_eq!(cache.get(get), Some(0x2000));
    assert_eq!(cache.resolve(load, Ok(0x3000)), Ok(0x1000));
    assert_eq!(cache.resolve(get, Err(HostingError::HostInvalidState)), Ok(0x2000));
    assert_eq!(cache.get(load), Some(0x1000));
    assert_eq!(hostfxr_delegate_type::hdt_com_activation.value(), 0);
    assert_eq!(load.value(), 5);
    assert_eq!(get.value(), 6);
}

#[test]
fn resolve_sdk_results() {
    let dir = ResolveSdkResult::ResolvedSdkDirectory(PathBuf::from("/usr/share/dotnet/sdk/8.0.100"));
    let json = ResolveSdkResult::GlobalJsonPath(PathBuf::from("/work/global.json"));
    assert_eq!(dir.path(), &PathBuf::from("/usr/share/dotnet/sdk/8.0.100"));
    assert_eq!(json.path(), &PathBuf::from("/work/global.json"));
    assert_eq!(dir.into_path(), PathBuf::from("/usr/share/dotnet/sdk/8.0.100"));
    assert_eq!(json.into_path(), PathBuf::from("/work/global.json"));
}

#[test]
fn error_conversions() {
    match LoadHostfxrError::from(HostingError::CoreHostLibMissingFailure) {
        LoadHostfxrError::Hosting(e) => assert_eq!(e, HostingError::CoreHostLibMissingFailure),
        other => panic!("unexpected {:?}", other),
    }
    match UniversalError::from(GetManagedFunctionError::AssemblyNotFound) {
        UniversalError::GetFunctionPointer(e) => assert_eq!(e, GetManagedFunctionError::AssemblyNotFound),
        other => panic!("unexpected {:?}", other),
    }
    match UniversalError::from(HostingError::HostApiFailed) {
        UniversalError::Hosting(e) => assert_eq!(e, HostingError::HostApiFailed),
        other => panic!("unexpected {:?}", other),
    }
    match UniversalError::from(LoadHostfxrError::Hosting(HostingError::HostApiFailed)) {
        UniversalError::LoadHostfxr(LoadHostfxrError::Hosting(e)) => assert_eq!(e, HostingError::HostApiFailed),
        other => panic!("unexpected {:?}", other),
    }
}

#[test]
fn managed_function_derefs_to_the_pointer() {
    fn entry(size: usize) -> i32 {
        size as i32 * 2
    }
    let function: ManagedFunction<fn(usize) -> i32> = ManagedFunction::new(entry);
    assert_eq!((*function)(21), 42);
}

#[test]
fn runtime_property_reads() {
    assert_eq!(properties_read_len(0, 3, 3), Ok(3));
    assert_eq!(properties_read_len(0, 2, 3), Ok(2));
    assert_eq!(properties_read_len(0, 5, 3), Ok(3));
    assert_eq!(properties_read_len(1, 3, 3), Ok(3));
    assert_eq!(properties_read_len(0x8000_8098u32 as i32, 5, 3), Err(HostingError::HostApiBufferTooSmall));
    assert_eq!(properties_read_len(0x8000_80a3u32 as i32, 0, 0), Err(HostingError::HostInvalidState));
    assert_eq!(pair_properties(&["a", "b"], &["1", "2"]), vec![("a", "1"), ("b", "2")]);
    assert_eq!(pair_properties(&["a", "b", "c"], &["1"]), vec![("a", "1")]);
    assert_eq!(pair_properties::<&str, &str>(&[], &["1"]), vec![]);
}
