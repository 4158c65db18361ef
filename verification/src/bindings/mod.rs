//! Raw values of the native hosting API.

pub mod status_code;
pub mod hostfxr;
