//! A library for hosting the .NET Core runtime: the status codes of the hosting
//! components, the decisions taken around the native hosting API, and the data
//! types handed to and from it.

pub mod bindings;
pub mod text;
pub mod error;
pub mod hostfxr;
pub mod nethost;
pub mod path;
pub mod pdcstring;
