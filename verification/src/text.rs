//! Text that the engine hands out as bytes.
//!
//! The engine's strings are byte strings without a stated encoding. A caller
//! that wants text gets it only where the bytes are valid UTF-8.

use vstd::prelude::*;
use vstd::string::StringSliceAdditionalSpecFns;
use vstd::utf8::valid_utf8;

verus! {

/// Trusted: `std::str::Utf8Error`, carried through as an opaque value.
#[verifier::external_type_specification]
#[verifier::external_body]
pub struct ExUtf8Error(std::str::Utf8Error);

/// Trusted: calls `std::str::from_utf8`, which succeeds exactly on valid
/// UTF-8 and then yields a string slice over the same bytes.
#[verifier::external_body]
pub(crate) fn from_utf8<'a>(bytes: &'a [u8]) -> (r: Result<&'a str, std::str::Utf8Error>)
    ensures
        r is Ok <==> valid_utf8(bytes@),
        r matches Ok(s) ==> s.spec_bytes() == bytes@,
{
    std::str::from_utf8(bytes)
}

/// Reads a string of the engine as text. A string that is absent gives
/// `Err(None)`; one that is not valid UTF-8 gives the decoding error; any
/// other comes back as a string slice over the same bytes.
pub fn to_str<'a>(raw: Option<&'a [u8]>) -> (r: Result<&'a str, Option<std::str::Utf8Error>>)
    ensures
        raw is None ==> r == Err::<&str, Option<std::str::Utf8Error>>(None),
        raw matches Some(bytes) ==> {
            &&& r is Ok <==> valid_utf8(bytes@)
            &&& r matches Ok(s) ==> s.spec_bytes() == bytes@
            &&& r matches Err(e) ==> e is Some
        },
{
    match raw {
        None => Err(None),
        Some(bytes) => match from_utf8(bytes) {
            Ok(s) => Ok(s),
            Err(e) => Err(Some(e)),
        },
    }
}

} // verus!
