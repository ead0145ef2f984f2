//! The engine handle and the steps around execution and value lookup.
use vstd::prelude::*;

use crate::error::JSError;
use crate::text::c_string_bytes;
use crate::value::{Kind, Val, ValModel};

verus! {

/// A handle on one engine instance. Copying it does not copy the engine.
#[derive(Clone, Copy, Debug, PartialEq, Eq, Structural)]
pub struct VM {
    inner: usize,
}

impl View for VM {
    type V = usize;

    closed spec fn view(&self) -> usize {
        self.inner
    }
}

/// What the engine reported for an operation that yields a value.
pub enum Reply<'a> {
    /// The operation succeeded with this word, whose tag is `kind`.
    Value { word: u64, kind: Kind },
    /// The operation failed; the engine rendered its status as this text.
    Failed(&'a cstr_core::CStr),
}

/// A source buffer is handed to the engine only when it ends in a zero byte.
pub open spec fn is_terminated(source: Seq<u8>) -> bool {
    source.len() > 0 && source.last() == 0
}

impl VM {
    /// Create a VM from an existing instance, given by its address.
    pub fn from_inner(inner: usize) -> (r: VM)
        ensures
            r@ == inner,
    {
        VM { inner }
    }

    /// The address of the engine instance.
    pub fn get_inner(&self) -> (r: usize)
        ensures
            r == self@,
    {
        self.inner
    }

    /// Wraps a word that this engine produced, with the tag it reported.
    pub fn val(&self, inner: u64, kind: Kind) -> (r: Val)
        ensures
            r@ == (ValModel { engine: self@, word: inner, kind: kind, rooted: false }),
    {
        Val::new(*self, inner, kind)
    }

    /// The check that execution makes before the engine is touched: a source
    /// buffer that does not end in a zero byte is refused.
    pub fn check_source(source: &[u8]) -> (r: Result<(), JSError<'static>>)
        ensures
            is_terminated(source@) ==> r is Ok,
            !is_terminated(source@) ==> r == Err::<(), JSError<'static>>(
                JSError::NonNullTerminatedString,
            ),
    {
        if source.len() > 0 && source[source.len() - 1] == 0 {
            Ok(())
        } else {
            Err(JSError::NonNullTerminatedString)
        }
    }

    /// Wraps an argument or property that the engine looked up: an undefined
    /// word means that it is absent.
    pub fn present(&self, word: u64, kind: Kind) -> (r: Option<Val>)
        ensures
            kind == Kind::Undefined ==> r is None,
            kind != Kind::Undefined ==> (r matches Some(v) && v@ == (ValModel {
                engine: self@,
                word: word,
                kind: kind,
                rooted: false,
            })),
    {
        if kind == Kind::Undefined {
            None
        } else {
            Some(self.val(word, kind))
        }
    }

    /// Turns what the engine reported for an execution or a call into the
    /// result: a fresh value of this engine, or the engine's error.
    pub fn finish<'a>(&self, reply: Reply<'a>) -> (r: Result<Val, JSError<'a>>)
        ensures
            reply matches Reply::Value { word, kind } ==> (r matches Ok(v) && v@ == (ValModel {
                engine: self@,
                word: word,
                kind: kind,
                rooted: false,
            })),
            reply is Failed ==> r matches Err(JSError::VMError(_)),
    {
        match reply {
            Reply::Value { word, kind } => Ok(self.val(word, kind)),
            Reply::Failed(msg) => Err(JSError::from_message(c_string_bytes(msg))),
        }
    }

    /// Turns what the engine reported for a property assignment into the
    /// result: `None` is success, `Some` the engine's rendered status.
    pub fn finish_status<'a>(failure: Option<&'a cstr_core::CStr>) -> (r: Result<(), JSError<'a>>)
        ensures
            failure is None ==> r is Ok,
            failure is Some ==> r matches Err(JSError::VMError(_)),
    {
        match failure {
            None => Ok(()),
            Some(msg) => Err(JSError::from_message(c_string_bytes(msg))),
        }
    }
}

} // verus!
