//! Errors of loading managed assemblies and pointers to managed functions.

use vstd::prelude::*;

use crate::error::hosting_result::{HostingError, HostingResult, HostingSuccess};
use vstd::std_specs::convert::FromSpecImpl;

verus! {

/// Enum for errors that can occur while loading a managed assembly or managed function pointers.
#[derive(Debug, PartialEq, Eq, PartialOrd, Ord, Hash, Structural)]
pub enum GetManagedFunctionError {
    /// An error occured inside the hosting components.
    Hosting(HostingError),
    /// A type with the specified name could not be found or loaded.
    TypeOrMethodNotFound,
    /// The specified assembly could not be found.
    AssemblyNotFound,
    /// The target method is not annotated with `UnmanagedCallersOnly`.
    MethodNotUnmanagedCallersOnly,
    /// Some other unknown error occured.
    Other(u32),
}

/// `HRESULT`s that the managed loader reports for the failures it knows of.
#[allow(non_camel_case_types)]
#[derive(Debug, PartialEq, Eq, PartialOrd, Ord, Hash, Structural)]
enum HResult {
    /// `System.ArgumentNullException`
    E_POINTER,
    /// `System.ArgumentOutOfRangeException` (reserved was not 0)
    COR_E_ARGUMENTOUTOFRANGE,
    /// invalid type
    COR_E_TYPELOAD,
    /// invalid method
    COR_E_MISSINGMETHOD,
    /// assembly with specified name not found (from type name)
    FILE_NOT_FOUND,
    /// invalid method signature or method not found
    COR_E_ARGUMENT,
    /// invalid assembly path or not unmanaged
    COR_E_INVALIDOPERATION,
}

impl HResult {
    spec fn spec_value(self) -> u32 {
        match self {
            HResult::E_POINTER => 0x8000_4003,
            HResult::COR_E_ARGUMENTOUTOFRANGE => 0x8013_1502,
            HResult::COR_E_TYPELOAD => 0x8013_1522,
            HResult::COR_E_MISSINGMETHOD => 0x8013_1513,
            HResult::FILE_NOT_FOUND => 0x8007_0002,
            HResult::COR_E_ARGUMENT => 0x8007_0057,
            HResult::COR_E_INVALIDOPERATION => 0x8013_1509,
        }
    }

    fn try_from_code(code: u32) -> (r: Option<HResult>)
        ensures
            r matches Some(h) ==> h.spec_value() == code,
            r is None ==> forall|h: HResult| #[trigger] h.spec_value() != code,
    {
        if code == 0x8000_4003 {
            Some(HResult::E_POINTER)
        } else if code == 0x8013_1502 {
            Some(HResult::COR_E_ARGUMENTOUTOFRANGE)
        } else if code == 0x8013_1522 {
            Some(HResult::COR_E_TYPELOAD)
        } else if code == 0x8013_1513 {
            Some(HResult::COR_E_MISSINGMETHOD)
        } else if code == 0x8007_0002 {
            Some(HResult::FILE_NOT_FOUND)
        } else if code == 0x8007_0057 {
            Some(HResult::COR_E_ARGUMENT)
        } else if code == 0x8013_1509 {
            Some(HResult::COR_E_INVALIDOPERATION)
        } else {
            None
        }
    }
}

/// The error that the managed loader's `HRESULT` `code` stands for, if it is one this library
/// knows: a missing type or method (`COR_E_TYPELOAD`, `COR_E_MISSINGMETHOD`, `COR_E_ARGUMENT`),
/// a missing assembly (`FILE_NOT_FOUND`) or a method without `UnmanagedCallersOnly`
/// (`COR_E_INVALIDOPERATION`).
pub open spec fn spec_error_of_hresult(code: u32) -> Option<GetManagedFunctionError> {
    if code == 0x8013_1522 || code == 0x8013_1513 || code == 0x8007_0057 {
        Some(GetManagedFunctionError::TypeOrMethodNotFound)
    } else if code == 0x8007_0002 {
        Some(GetManagedFunctionError::AssemblyNotFound)
    } else if code == 0x8013_1509 {
        Some(GetManagedFunctionError::MethodNotUnmanagedCallersOnly)
    } else {
        None
    }
}

impl GetManagedFunctionError {
    /// The outcome that the status code `code` of a function pointer request stands for: a known
    /// hosting status code first, then a known `HRESULT` of the managed loader, otherwise
    /// [`GetManagedFunctionError::Other`].
    pub open spec fn spec_from_status_code(code: i32) -> Result<HostingSuccess, GetManagedFunctionError> {
        let code = code as u32;
        match HostingResult::spec_known_from_status_code(code) {
            Ok(HostingResult(Ok(success))) => Ok(success),
            Ok(HostingResult(Err(error))) => Err(GetManagedFunctionError::Hosting(error)),
            Err(_) => match spec_error_of_hresult(code) {
                Some(error) => Err(error),
                None => Err(GetManagedFunctionError::Other(code)),
            },
        }
    }

    /// What a function pointer request's status code stands for. A known hosting status code
    /// is its hosting success or error. Otherwise `FILE_NOT_FOUND` (`0x80070002`), and no other
    /// code, means a missing assembly; `COR_E_TYPELOAD` (`0x80131522`), `COR_E_MISSINGMETHOD`
    /// (`0x80131513`) and `COR_E_ARGUMENT` (`0x80070057`), and no others, a missing type or method;
    /// `COR_E_INVALIDOPERATION` (`0x80131509`), and no other code, a method without
    /// `UnmanagedCallersOnly`; and every remaining code comes back as `Other` with the code.
    pub proof fn lemma_from_status_code_outcomes(code: i32)
        ensures
            (Self::spec_from_status_code(code) == Err::<HostingSuccess, GetManagedFunctionError>(
                GetManagedFunctionError::AssemblyNotFound,
            )) <==> code as u32 == 0x8007_0002u32,
            (Self::spec_from_status_code(code) == Err::<HostingSuccess, GetManagedFunctionError>(
                GetManagedFunctionError::TypeOrMethodNotFound,
            )) <==> (code as u32 == 0x8013_1522u32 || code as u32 == 0x8013_1513u32 || code as u32
                == 0x8007_0057u32),
            (Self::spec_from_status_code(code) == Err::<HostingSuccess, GetManagedFunctionError>(
                GetManagedFunctionError::MethodNotUnmanagedCallersOnly,
            )) <==> code as u32 == 0x8013_1509u32,
            HostingSuccess::is_known_code(code as u32) ==> Self::spec_from_status_code(code) == Ok::<
                HostingSuccess,
                GetManagedFunctionError,
            >(HostingSuccess::spec_from_status_code(code as u32)),
            HostingError::is_known_code(code as u32) ==> Self::spec_from_status_code(code) == Err::<
                HostingSuccess,
                GetManagedFunctionError,
            >(GetManagedFunctionError::Hosting(HostingError::spec_from_status_code(code as u32))),
            !HostingSuccess::is_known_code(code as u32) && !HostingError::is_known_code(code as u32)
                && code as u32 != 0x8007_0002u32 && code as u32 != 0x8013_1522u32 && code as u32
                != 0x8013_1513u32 && code as u32 != 0x8007_0057u32 && code as u32 != 0x8013_1509u32
                ==> Self::spec_from_status_code(code) == Err::<HostingSuccess, GetManagedFunctionError>(
                GetManagedFunctionError::Other(code as u32),
            ),
    {
        let c = code as u32;
        crate::error::hosting_result::lemma_known_codes_disjoint(c);
        if HostingSuccess::is_known_code(c) {
            let s = choose|s: HostingSuccess| s.spec_is_known() && #[trigger] s.spec_value() == c;
        }
        if HostingError::is_known_code(c) {
            let e = choose|e: HostingError| e.spec_is_known() && #[trigger] e.spec_value() == c;
        }
    }

    /// Converts the given staus code to a [`GetManagedFunctionError`].
    pub fn from_status_code(code: i32) -> (r: Result<HostingSuccess, Self>)
        ensures
            r == Self::spec_from_status_code(code),
    {
        let code = code as u32;
        match HostingResult::known_from_status_code(code) {
            Ok(HostingResult(Ok(code))) => return Ok(code),
            Ok(HostingResult(Err(code))) => return Err(GetManagedFunctionError::Hosting(code)),
            _ => {},
        }
        match HResult::try_from_code(code) {
            Some(HResult::COR_E_TYPELOAD) | Some(HResult::COR_E_MISSINGMETHOD) | Some(
                HResult::COR_E_ARGUMENT,
            ) => return Err(GetManagedFunctionError::TypeOrMethodNotFound),
            Some(HResult::FILE_NOT_FOUND) => return Err(GetManagedFunctionError::AssemblyNotFound),
            Some(HResult::COR_E_INVALIDOPERATION) => return Err(
                GetManagedFunctionError::MethodNotUnmanagedCallersOnly,
            ),
            Some(HResult::E_POINTER) | Some(HResult::COR_E_ARGUMENTOUTOFRANGE) => {},
            None => {
                assert(HResult::COR_E_TYPELOAD.spec_value() != code);
                assert(HResult::COR_E_MISSINGMETHOD.spec_value() != code);
                assert(HResult::COR_E_ARGUMENT.spec_value() != code);
                assert(HResult::FILE_NOT_FOUND.spec_value() != code);
                assert(HResult::COR_E_INVALIDOPERATION.spec_value() != code);
            },
        }
        Err(GetManagedFunctionError::Other(code))
    }
}

impl From<HostingError> for GetManagedFunctionError {
    fn from(error: HostingError) -> (r: Self) {
        GetManagedFunctionError::Hosting(error)
    }
}

impl FromSpecImpl<HostingError> for GetManagedFunctionError {
    open spec fn obeys_from_spec() -> bool {
        true
    }

    open spec fn from_spec(error: HostingError) -> Self {
        GetManagedFunctionError::Hosting(error)
    }
}

} // verus!
