//! Status codes returned by the hosting APIs from `hostfxr`, `hostpolicy` and `nethost`.
//!
//! The values are those of `error_codes.h` of the .NET runtime
//! (see `host-error-codes.md` in the runtime's design documents).

use vstd::prelude::*;

verus! {

pub const SUCCESS: u32 = 0x0000_0000;
pub const SUCCESS_HOST_ALREADY_INITIALIZED: u32 = 0x0000_0001;
pub const SUCCESS_DIFFERENT_RUNTIME_PROPERTIES: u32 = 0x0000_0002;

pub const INVALID_ARG_FAILURE: u32 = 0x8000_8081;
pub const CORE_HOST_LIB_LOAD_FAILURE: u32 = 0x8000_8082;
pub const CORE_HOST_LIB_MISSING_FAILURE: u32 = 0x8000_8083;
pub const CORE_HOST_ENTRY_POINT_FAILURE: u32 = 0x8000_8084;
pub const CORE_HOST_CUR_HOST_FIND_FAILURE: u32 = 0x8000_8085;
pub const CORE_CLR_RESOLVE_FAILURE: u32 = 0x8000_8087;
pub const CORE_CLR_BIND_FAILURE: u32 = 0x8000_8088;
pub const CORE_CLR_INIT_FAILURE: u32 = 0x8000_8089;
pub const CORE_CLR_EXE_FAILURE: u32 = 0x8000_808a;
pub const RESOLVER_INIT_FAILURE: u32 = 0x8000_808b;
pub const RESOLVER_RESOLVE_FAILURE: u32 = 0x8000_808c;
pub const LIB_HOST_CUR_EXE_FIND_FAILURE: u32 = 0x8000_808d;
pub const LIB_HOST_INIT_FAILURE: u32 = 0x8000_808e;
pub const LIB_HOST_EXEC_MODE_FAILURE: u32 = 0x8000_8090;
pub const LIB_HOST_SDK_FIND_FAILURE: u32 = 0x8000_8091;
pub const LIB_HOST_INVALID_ARGS: u32 = 0x8000_8092;
pub const INVALID_CONFIG_FILE: u32 = 0x8000_8093;
pub const APP_ARG_NOT_RUNNABLE: u32 = 0x8000_8094;
pub const APP_HOST_EXE_NOT_BOUND_FAILURE: u32 = 0x8000_8095;
pub const FRAMEWORK_MISSING_FAILURE: u32 = 0x8000_8096;
pub const HOST_API_FAILED: u32 = 0x8000_8097;
pub const HOST_API_BUFFER_TOO_SMALL: u32 = 0x8000_8098;
pub const LIB_HOST_UNKNOWN_COMMAND: u32 = 0x8000_8099;
pub const LIB_HOST_APP_ROOT_FIND_FAILURE: u32 = 0x8000_809a;
pub const SDK_RESOLVER_RESOLVE_FAILURE: u32 = 0x8000_809b;
pub const FRAMEWORK_COMPAT_FAILURE: u32 = 0x8000_809c;
pub const FRAMEWORK_COMPAT_RETRY: u32 = 0x8000_809d;
pub const APP_HOST_EXE_NOT_BUNDLE: u32 = 0x8000_809e;
pub const BUNDLE_EXTRACTION_FAILURE: u32 = 0x8000_809f;
pub const BUNDLE_EXTRACTION_IO_ERROR: u32 = 0x8000_80a0;
pub const LIB_HOST_DUPLICATE_PROPERTY: u32 = 0x8000_80a1;
pub const HOST_API_UNSUPPORTED_VERSION: u32 = 0x8000_80a2;
pub const HOST_INVALID_STATE: u32 = 0x8000_80a3;
pub const HOST_PROPERTY_NOT_FOUND: u32 = 0x8000_80a4;
pub const CORE_HOST_INCOMPATIBLE_CONFIG: u32 = 0x8000_80a5;
pub const HOST_API_UNSUPPORTED_SCENARIO: u32 = 0x8000_80a6;
pub const HOST_FEATURE_DISABLED: u32 = 0x8000_80a7;

} // verus!
