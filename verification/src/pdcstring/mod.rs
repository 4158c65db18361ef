//! A platform dependent c-like string: the bytes of a nul-terminated string, without the nul.

pub mod error;
pub mod other;

pub use error::NulError;
pub use other::PdCString;
