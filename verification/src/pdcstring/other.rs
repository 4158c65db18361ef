//! The c-like string of the platforms that encode paths and text as bytes.

use vstd::prelude::*;

use super::error::NulError;
use vstd::string::StrSliceExecFns;

verus! {

/// An owned c-like string: a sequence of bytes none of which is nul, terminated by a nul
/// when it is handed to the native API.
#[derive(Debug, PartialEq, Eq, Hash)]
pub struct PdCString {
    bytes: Vec<u8>,
}

/// Whether no byte of `bytes` is nul.
pub open spec fn has_no_nul(bytes: Seq<u8>) -> bool {
    forall|i: int| 0 <= i < bytes.len() ==> #[trigger] bytes[i] != 0
}

impl View for PdCString {
    type V = Seq<u8>;

    closed spec fn view(&self) -> Seq<u8> {
        self.bytes@
    }
}

impl Clone for PdCString {
    fn clone(&self) -> (r: Self)
        ensures
            r@ == self@,
    {
        proof {
            use_type_invariant(self);
        }
        let bytes = self.bytes.clone();
        proof {
            assert(bytes@ =~= self.bytes@);
        }
        PdCString { bytes }
    }
}

impl PdCString {
    /// The bytes of a c-like string are never nul.
    #[verifier::type_invariant]
    spec fn inv(self) -> bool {
        has_no_nul(self.bytes@)
    }

    /// Creates a c-like string from the given bytes, which fails when one of them is nul
    /// (a trailing nul included).
    pub fn from_vec(vec: Vec<u8>) -> (r: Result<Self, NulError>)
        ensures
            r matches Ok(s) ==> s@ == vec@,
            r is Ok <==> has_no_nul(vec@),
    {
        let mut i: usize = 0;
        while i < vec.len()
            invariant
                0 <= i <= vec.len(),
                forall|j: int| 0 <= j < i ==> #[trigger] vec@[j] != 0,
            decreases vec.len() - i,
        {
            if vec[i] == 0 {
                return Err(NulError {});
            }
            i = i + 1;
        }
        Ok(PdCString { bytes: vec })
    }

    /// Creates a c-like string from the UTF-8 encoding of the given text, which fails when the
    /// text holds a nul.
    pub fn from_str(s: &str) -> (r: Result<Self, NulError>)
        ensures
            r matches Ok(p) ==> p@ == vstd::utf8::encode_utf8(s@),
            r is Ok <==> has_no_nul(vstd::utf8::encode_utf8(s@)),
    {
        Self::from_vec(s.as_bytes_vec())
    }

    /// Returns the bytes of the string, without the terminating nul.
    pub fn as_bytes(&self) -> (r: &[u8])
        ensures
            r@ == self@,
            has_no_nul(r@),
    {
        proof {
            use_type_invariant(self);
        }
        self.bytes.as_slice()
    }

    /// Returns the bytes of the string, without the terminating nul.
    pub fn into_bytes(self) -> (r: Vec<u8>)
        ensures
            r@ == self@,
            has_no_nul(r@),
    {
        proof {
            use_type_invariant(&self);
        }
        self.bytes
    }

    /// The number of bytes of the string, without the terminating nul.
    pub fn len(&self) -> (r: usize)
        ensures
            r == self@.len(),
    {
        self.bytes.len()
    }
}

} // verus!
