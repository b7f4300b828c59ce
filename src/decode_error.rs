use vstd::prelude::*;

verus! {

/// Why a byte vector could not be turned into a `UnicodeString`: it is not
/// well-formed UTF-8. The rejected bytes are kept, unchanged.
#[derive(Debug)]
pub struct FromUtf8Error {
    bytes: Vec<u8>,
    error: core::str::Utf8Error,
}

impl View for FromUtf8Error {
    type V = Seq<u8>;

    /// The rejected bytes.
    closed spec fn view(&self) -> Seq<u8> {
        self.bytes@
    }
}

impl FromUtf8Error {
    /// The diagnostic of the decoder that rejected the bytes.
    pub closed spec fn diagnostic(&self) -> core::str::Utf8Error {
        self.error
    }

    pub(crate) fn new(bytes: Vec<u8>, error: core::str::Utf8Error) -> (r: FromUtf8Error)
        ensures
            r@ == bytes@,
            r.diagnostic() == error,
    {
        FromUtf8Error { bytes, error }
    }

    /// The bytes that could not be decoded.
    pub fn as_bytes(&self) -> (r: &[u8])
        ensures
            r@ == self@,
    {
        self.bytes.as_slice()
    }

    /// The bytes that could not be decoded, moved out of the error.
    pub fn into_bytes(self) -> (r: Vec<u8>)
        ensures
            r@ == self@,
    {
        self.bytes
    }

    /// The decoder's diagnostic: how far the bytes were valid and what was
    /// found there.
    pub fn utf8_error(&self) -> (r: core::str::Utf8Error)
        ensures
            r == self.diagnostic(),
    {
        self.error
    }
}

} // verus!
