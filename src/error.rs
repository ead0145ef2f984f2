//! Errors of the facade.
use vstd::prelude::*;

use crate::text::decode_utf8;
use vstd::string::StringSliceAdditionalSpecFns;
use vstd::utf8::valid_utf8;

verus! {

/// Execution error
#[derive(Debug, PartialEq, Eq, Clone, Copy)]
pub enum JSError<'a> {
    /// The source buffer does not end with a zero byte.
    NonNullTerminatedString,
    /// Trying to call a value that is not a function.
    NotAFunction,
    /// More arguments than the engine's calling convention takes.
    TooManyArgs,
    /// The engine reported a failure, with its diagnostic message.
    VMError(&'a str),
}

impl<'a> JSError<'a> {
    /// The error for an engine failure whose diagnostic text has the bytes
    /// `msg`. A diagnostic that is not UTF-8 is reported with an empty text.
    pub fn from_message(msg: &'a [u8]) -> (r: JSError<'a>)
        ensures
            r matches JSError::VMError(s) && (if valid_utf8(msg@) {
                s.spec_bytes() == msg@
            } else {
                s@.len() == 0
            }),
    {
        match decode_utf8(msg) {
            Ok(s) => JSError::VMError(s),
            Err(_) => {
                let empty = "";
                proof {
                    reveal_strlit("");
                }
                JSError::VMError(empty)
            },
        }
    }
}

} // verus!
