//! Error and result types of the hosting components.

pub mod hosting_result;
pub mod load_hostfxr_error;
pub mod univ;

pub use hosting_result::{HostingError, HostingResult, HostingSuccess};
pub use load_hostfxr_error::LoadHostfxrError;
pub use univ::UniversalError;
pub mod message;
