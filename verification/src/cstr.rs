//! Text handed over by PortAudio as C strings.
//!
//! The bytes of a C string (up to, not including, its terminating NUL) are read by the caller;
//! this module turns them into Rust string slices.

use vstd::prelude::*;
use vstd::utf8::{decode_utf8, valid_utf8};

verus! {

/// The error returned when a byte sequence is not valid UTF-8.
#[verifier::external_type_specification]
#[verifier::external_body]
pub struct ExUtf8Error(std::str::Utf8Error);

/// The name used in place of a C string that is not valid UTF-8.
pub const INVALID_NAME: &'static str = "<Failed to convert str from CStr>";

/// `std::str::from_utf8`: succeeds exactly when `bytes` is valid UTF-8, and then yields the
/// characters that `bytes` encodes, borrowed from `bytes`.
#[verifier::external_body]
pub(crate) fn str_from_utf8<'a>(bytes: &'a [u8]) -> (r: Result<&'a str, std::str::Utf8Error>)
    ensures
        r is Ok <==> valid_utf8(bytes@),
        r matches Ok(s) ==> s@ == decode_utf8(bytes@),
{
    std::str::from_utf8(bytes)
}

/// The text of a C string that names something: its decoding when it is valid UTF-8, and
/// **INVALID_NAME** otherwise.
pub open spec fn name_of_bytes(bytes: Seq<u8>) -> Seq<char> {
    if valid_utf8(bytes) {
        decode_utf8(bytes)
    } else {
        INVALID_NAME@
    }
}

/// Convert the bytes of a C string naming something into a string slice, falling back to
/// **INVALID_NAME** when they are not valid UTF-8.
pub fn name_from_c_str<'a>(bytes: &'a [u8]) -> (r: &'a str)
    ensures
        r@ == name_of_bytes(bytes@),
{
    match str_from_utf8(bytes) {
        Ok(s) => s,
        Err(_) => INVALID_NAME,
    }
}

} // verus!
