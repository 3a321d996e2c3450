//! The typed signature consumed by the trampoline generator: argument
//! descriptors, the return descriptor, and the generation-error type.

use vstd::prelude::*;

verus! {

/// The integer-like kinds a numeric descriptor may carry.
#[derive(Clone, Copy, Debug, PartialEq, Eq, Structural)]
pub enum NumericArg {
    Bool,
    U8,
    U16,
    U32,
    I8,
    I16,
    I32,
    /// A small integer optimized by the engine; converted like a signed 32-bit value.
    SmallInt,
    U64,
    Usize,
    I64,
    Isize,
}

/// The dynamic-value subtypes a typed handle may be narrowed to.
#[derive(Clone, Copy, Debug, PartialEq, Eq, Structural)]
pub enum V8Arg {
    Value,
    External,
    Function,
    Object,
    ScriptString,
    Array,
    Uint8Array,
}

/// Mutability of a reference descriptor.
#[derive(Clone, Copy, Debug, PartialEq, Eq, Structural)]
pub enum RefType {
    Ref,
    Mut,
}

/// The special (non-numeric, non-handle) argument shapes.
#[derive(Clone, Copy, Debug, PartialEq, Eq, Structural)]
pub enum Special {
    /// An owned text buffer.
    OwnedString,
    /// A borrowed text view backed by a fixed-size stack buffer.
    RefStr,
    /// A copy-on-write text view with the same stack-buffer optimization.
    CowStr,
    /// The shared call scope; a virtual descriptor that consumes no call slot.
    HandleScope,
}

/// One argument (or return payload) descriptor.
#[derive(Clone, Copy, Debug, PartialEq, Eq, Structural)]
pub enum Arg {
    Void,
    Numeric(NumericArg),
    OptionNumeric(NumericArg),
    Special(Special),
    Option(Special),
    Ref(RefType, Special),
    V8Ref(RefType, V8Arg),
    V8Local(V8Arg),
    OptionV8Ref(RefType, V8Arg),
    OptionV8Local(V8Arg),
}

impl Arg {
    /// A virtual descriptor binds to shared call context instead of consuming a
    /// positional call slot; only the call-scope reference is virtual.
    pub open spec fn spec_is_virtual(self) -> bool {
        self matches Arg::Ref(_, Special::HandleScope)
    }

    /// Executable twin of [`Arg::spec_is_virtual`].
    #[verifier::when_used_as_spec(spec_is_virtual)]
    pub fn is_virtual(self) -> (r: bool)
        ensures
            r == self.spec_is_virtual(),
    {
        matches!(self, Arg::Ref(_, Special::HandleScope))
    }
}

/// The return descriptor: one payload descriptor wrapped in either an
/// infallible or a fallible (success-or-error) outcome.
#[derive(Clone, Copy, Debug, PartialEq, Eq, Structural)]
pub enum RetVal {
    Infallible(Arg),
    Fallible(Arg),
}

impl RetVal {
    /// The payload descriptor inside the outcome wrapper.
    pub open spec fn spec_payload(self) -> Arg {
        match self {
            RetVal::Infallible(a) => a,
            RetVal::Fallible(a) => a,
        }
    }

    /// Executable twin of [`RetVal::spec_payload`].
    #[verifier::when_used_as_spec(spec_payload)]
    pub fn payload(self) -> (r: Arg)
        ensures
            r == self.spec_payload(),
    {
        match self {
            RetVal::Infallible(a) => a,
            RetVal::Fallible(a) => a,
        }
    }
}

/// A validated, well-formed signature: ordered argument descriptors plus one
/// return descriptor.
#[derive(Clone, Debug)]
pub struct ParsedSignature {
    pub args: Vec<Arg>,
    pub ret_val: RetVal,
}

/// Per-operation configuration relevant to slow-path generation: whether an
/// optimized fast path exists for this operation.
#[derive(Clone, Copy, Debug, PartialEq, Eq, Structural)]
pub struct MacroConfig {
    pub fast: bool,
}

/// The role an unmapped descriptor was found in.
#[derive(Clone, Copy, Debug, PartialEq, Eq, Structural)]
pub enum Role {
    SlowArgument,
    SlowReturnValue,
}

/// A generation-time failure: a descriptor with no defined conversion,
/// identified together with the role it stood in.
#[derive(Clone, Copy, Debug, PartialEq, Eq, Structural)]
pub enum V8MappingError {
    NoMapping(Role, Arg),
}

} // verus!
