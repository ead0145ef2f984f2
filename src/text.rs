//! Text coming out of the engine: UTF-8 decoding and C strings.
use vstd::prelude::*;
use vstd::string::StringSliceAdditionalSpecFns;
use vstd::utf8::valid_utf8;

verus! {

#[verifier::external_type_specification]
#[verifier::external_body]
pub struct ExUtf8Error(core::str::Utf8Error);

#[verifier::external_type_specification]
#[verifier::external_body]
pub struct ExCStr(cstr_core::CStr);

/// Relies on core::str::from_utf8: it succeeds exactly on valid UTF-8, and
/// the text it returns has the same bytes.
#[verifier::external_body]
pub(crate) fn decode_utf8(bytes: &[u8]) -> (r: Result<&str, core::str::Utf8Error>)
    ensures
        r is Ok <==> valid_utf8(bytes@),
        r matches Ok(s) ==> s.spec_bytes() == bytes@,
{
    core::str::from_utf8(bytes)
}

/// Relies on cstr_core::CStr::to_bytes: the bytes of a C string without its
/// terminator. What they are is the engine's business, so nothing is stated.
#[verifier::external_body]
pub(crate) fn c_string_bytes(c: &cstr_core::CStr) -> (r: &[u8]) {
    c.to_bytes()
}

} // verus!
