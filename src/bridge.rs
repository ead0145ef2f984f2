//! The invocation bridge: what is handed to the engine to call a function.
use vstd::prelude::*;

use crate::error::JSError;
use crate::value::{Kind, Val};

verus! {

/// The most arguments the engine's calling convention takes.
pub const MAX_ARGS: usize = 8;

/// A call, marshaled for the engine.
pub struct ApplyRequest {
    /// The function to call.
    pub func: u64,
    /// The receiver; `None` stands for the engine's `undefined`.
    pub this: Option<u64>,
    /// The arguments, in order.
    pub argv: Vec<u64>,
}

/// The engine words of a sequence of values.
pub open spec fn words_of(args: Seq<&Val>) -> Seq<u64> {
    args.map_values(|a: &Val| a@.word)
}

impl Val {
    /// Marshals a call of this value with receiver `this` and arguments
    /// `args`. The receiver must be a function and the arguments at most
    /// [`MAX_ARGS`]; both are checked before anything reaches the engine.
    pub fn plan_call(&self, this: Option<&Val>, args: &[&Val]) -> (r: Result<ApplyRequest, JSError<'static>>)
        ensures
            self@.kind != Kind::Function ==> r == Err::<ApplyRequest, JSError<'static>>(
                JSError::NotAFunction,
            ),
            self@.kind == Kind::Function && args@.len() > MAX_ARGS ==> r == Err::<
                ApplyRequest,
                JSError<'static>,
            >(JSError::TooManyArgs),
            self@.kind == Kind::Function && args@.len() <= MAX_ARGS ==> (r matches Ok(req) && req.func
                == self@.word && req.argv@ == words_of(args@) && (match this {
                Some(t) => req.this == Some(t@.word),
                None => req.this is None,
            })),
    {
        if !self.is_function() {
            return Err(JSError::NotAFunction);
        }
        if args.len() > MAX_ARGS {
            return Err(JSError::TooManyArgs);
        }
        let receiver = match this {
            Some(t) => Some(t.word()),
            None => None,
        };
        let mut argv: Vec<u64> = Vec::new();
        let mut i: usize = 0;
        while i < args.len()
            invariant
                i <= args@.len(),
                argv@ == words_of(args@.subrange(0, i as int)),
            decreases args.len() - i,
        {
            argv.push(args[i].word());
            proof {
                assert(args@.subrange(0, i + 1) == args@.subrange(0, i as int).push(args@[i as int]));
            }
            i = i + 1;
        }
        proof {
            assert(args@.subrange(0, args@.len() as int) == args@);
        }
        Ok(ApplyRequest { func: self.word(), this: receiver, argv })
    }
}

} // verus!
