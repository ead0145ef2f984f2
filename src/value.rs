//! Value handles: a tagged engine word bound to its engine, and its rooting state.
use vstd::prelude::*;

use crate::text::decode_utf8;
use crate::vm::VM;
use vstd::string::StringSliceAdditionalSpecFns;
use vstd::utf8::valid_utf8;

verus! {

/// The type tag of a script value, as the engine reported it when the value
/// was obtained. It never changes afterwards.
#[derive(Clone, Copy, Debug, PartialEq, Eq, Structural)]
pub enum Kind {
    Undefined,
    Null,
    Boolean,
    Number,
    Str,
    Object,
    Function,
    Foreign,
}

/// What a [`Val`] is: the engine it belongs to, the engine's word for it, its
/// tag, and whether it is registered as a root.
pub struct ValModel {
    pub engine: usize,
    pub word: u64,
    pub kind: Kind,
    pub rooted: bool,
}

/// A script value of one engine instance.
///
/// Unless it is rooted, the value is valid only until the next engine call
/// that may collect garbage.
pub struct Val {
    vm: VM,
    inner: u64,
    kind: Kind,
    rooted: bool,
}

impl View for Val {
    type V = ValModel;

    closed spec fn view(&self) -> ValModel {
        ValModel { engine: self.vm@, word: self.inner, kind: self.kind, rooted: self.rooted }
    }
}

/// The model of `v` once it is registered as a root.
pub open spec fn rooted_model(v: ValModel) -> ValModel {
    ValModel { engine: v.engine, word: v.word, kind: v.kind, rooted: true }
}

/// The model of `v` once its root is released.
pub open spec fn released_model(v: ValModel) -> ValModel {
    ValModel { engine: v.engine, word: v.word, kind: v.kind, rooted: false }
}

/// A value outlives the engine's next collection exactly when it is rooted.
pub open spec fn survives_collection(v: ValModel) -> bool {
    v.rooted
}

/// A value rooted by `own` outlives the next collecting call, and keeps its
/// engine, word and tag, so its type checks and conversions still answer as
/// before; once released by `disown` it no longer outlives one.
pub proof fn lemma_rooted_value_survives(v: ValModel)
    ensures
        survives_collection(rooted_model(v)),
        rooted_model(v).engine == v.engine,
        rooted_model(v).word == v.word,
        rooted_model(v).kind == v.kind,
        !survives_collection(released_model(rooted_model(v))),
{
}

impl Val {
    /// Wraps an engine word of the engine `vm`, with the tag the engine gave it.
    pub(crate) fn new(vm: VM, inner: u64, kind: Kind) -> (r: Val)
        ensures
            r@ == (ValModel { engine: vm@, word: inner, kind: kind, rooted: false }),
    {
        Val { vm, inner, kind, rooted: false }
    }

    /// The engine this value belongs to.
    pub fn vm(&self) -> (r: VM)
        ensures
            r@ == self@.engine,
    {
        self.vm
    }

    /// The engine's word for this value.
    pub fn word(&self) -> (r: u64)
        ensures
            r == self@.word,
    {
        self.inner
    }

    /// The engine's word for this value, by reference, for engine calls that
    /// read a value through its address.
    pub fn word_ref(&self) -> (r: &u64)
        ensures
            *r == self@.word,
    {
        &self.inner
    }

    /// The type tag of this value.
    pub fn kind(&self) -> (r: Kind)
        ensures
            r == self@.kind,
    {
        self.kind
    }

    /// Whether this value is registered as a root.
    pub fn is_rooted(&self) -> (r: bool)
        ensures
            r == self@.rooted,
    {
        self.rooted
    }

    /// Is value a number
    pub fn is_number(&self) -> (r: bool)
        ensures
            r == (self@.kind == Kind::Number),
    {
        self.kind == Kind::Number
    }

    /// Is value an object
    pub fn is_object(&self) -> (r: bool)
        ensures
            r == (self@.kind == Kind::Object),
    {
        self.kind == Kind::Object
    }

    /// Is value a string
    pub fn is_string(&self) -> (r: bool)
        ensures
            r == (self@.kind == Kind::Str),
    {
        self.kind == Kind::Str
    }

    /// Is value a function
    pub fn is_function(&self) -> (r: bool)
        ensures
            r == (self@.kind == Kind::Function),
    {
        self.kind == Kind::Function
    }

    /// Is value a wrapped host pointer
    pub fn is_foreign(&self) -> (r: bool)
        ensures
            r == (self@.kind == Kind::Foreign),
    {
        self.kind == Kind::Foreign
    }

    /// The word to hand to the engine's payload accessor for `want`, or `None`
    /// when this value has another tag: a conversion is only attempted on a
    /// value of the matching type.
    pub fn word_if(&self, want: Kind) -> (r: Option<u64>)
        ensures
            r == (if self@.kind == want { Some(self@.word) } else { None::<u64> }),
    {
        if self.kind == want {
            Some(self.inner)
        } else {
            None
        }
    }

    /// Registers this value as a root. Returns whether the engine's rooting
    /// ledger must be told: a value that is already rooted is left as it is,
    /// so rooting twice registers once.
    pub fn own(&mut self) -> (register: bool)
        ensures
            final(self)@ == rooted_model(old(self)@),
            register == !old(self)@.rooted,
    {
        let register = !self.rooted;
        self.rooted = true;
        register
    }

    /// Releases this value's root. Returns whether the engine's rooting ledger
    /// must be told: a value that is not rooted is left as it is.
    pub fn disown(&mut self) -> (release: bool)
        ensures
            final(self)@ == released_model(old(self)@),
            release == old(self)@.rooted,
    {
        let release = self.rooted;
        self.rooted = false;
        release
    }

    /// Reads this string value as text, given `bytes`, the content the engine
    /// holds for it. `None` when the value is not a string; otherwise the
    /// bytes decoded as UTF-8, or the decoding error.
    pub fn as_str<'a>(&self, bytes: &'a [u8]) -> (r: Option<Result<&'a str, core::str::Utf8Error>>)
        ensures
            self@.kind != Kind::Str ==> r is None,
            self@.kind == Kind::Str ==> (r matches Some(d) && (d is Ok <==> valid_utf8(bytes@))),
            r matches Some(Ok(s)) ==> s.spec_bytes() == bytes@,
    {
        if self.kind == Kind::Str {
            Some(decode_utf8(bytes))
        } else {
            None
        }
    }
}

} // verus!
