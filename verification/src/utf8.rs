//! Paths and other bytes that are to be read as text.

use vstd::prelude::*;
use vstd::string::StringSliceAdditionalSpecFns;
use vstd::utf8::valid_utf8;

verus! {

/// `std::str::Utf8Error`, which is handed on as it comes.
#[verifier::external_type_specification]
#[verifier::external_body]
pub struct ExUtf8Error(std::str::Utf8Error);

/// Calls `std::str::from_utf8`: the bytes are text exactly if they are
/// well-formed UTF-8, and the text then has these bytes.
#[verifier::external_body]
fn str_from_utf8(bytes: &[u8]) -> (r: Result<&str, std::str::Utf8Error>)
    ensures
        r is Ok <==> valid_utf8(bytes@),
        r matches Ok(s) ==> s.spec_bytes() == bytes@,
{
    std::str::from_utf8(bytes)
}

/// Values that are text if their bytes are well-formed UTF-8.
pub trait ToUtf8 {
    /// The bytes of this value.
    spec fn bytes(&self) -> Seq<u8>;

    /// This value as text, if its bytes are well-formed UTF-8.
    fn to_utf8(&self) -> (r: Result<&str, std::str::Utf8Error>)
        ensures
            r is Ok <==> valid_utf8(self.bytes()),
            r matches Ok(s) ==> s.spec_bytes() == self.bytes(),
    ;
}

impl ToUtf8 for [u8] {
    open spec fn bytes(&self) -> Seq<u8> {
        self@
    }

    fn to_utf8(&self) -> (r: Result<&str, std::str::Utf8Error>) {
        str_from_utf8(self)
    }
}

impl ToUtf8 for Vec<u8> {
    open spec fn bytes(&self) -> Seq<u8> {
        self@
    }

    fn to_utf8(&self) -> (r: Result<&str, std::str::Utf8Error>) {
        str_from_utf8(self.as_slice())
    }
}

} // verus!
