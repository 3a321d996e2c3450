//! Per-trampoline generation bookkeeping: the symbolic names bound to each
//! argument slot and to the shared per-call objects, and the four monotone
//! flags recording which shared prologue objects have been requested.

use vstd::prelude::*;

verus! {

/// Mutable state for generating one trampoline.
///
/// The identifier fields name the bindings the emitted text refers to; the
/// `needs_*` flags are monotonically set to true by converter and encoder
/// steps and are read once, at final prologue assembly.
#[derive(Clone, Debug)]
pub struct GeneratorState {
    /// Path prefix under which the embedding runtime's items are reached.
    pub deno_core: String,
    /// Name of the raw call-info parameter of the trampoline.
    pub info: String,
    /// Name of the generated trampoline function.
    pub slow_function: String,
    /// Name bound to the shared call scope.
    pub scope: String,
    /// Name bound to the call's return-value slot.
    pub retval: String,
    /// Name bound to the arguments view.
    pub fn_args: String,
    /// Name bound to the operation context.
    pub opctx: String,
    /// Name bound to the native call's outcome.
    pub result: String,
    /// One identifier per argument slot, in declaration order.
    pub args: Vec<String>,
    pub needs_scope: bool,
    pub needs_retval: bool,
    pub needs_args: bool,
    pub needs_opctx: bool,
}

impl GeneratorState {
    /// The identifier fields (everything but the flags) of `self` and `other`
    /// agree; generation never renames a binding.
    pub open spec fn names_eq(self, other: GeneratorState) -> bool {
        &&& self.deno_core == other.deno_core
        &&& self.info == other.info
        &&& self.slow_function == other.slow_function
        &&& self.scope == other.scope
        &&& self.retval == other.retval
        &&& self.fn_args == other.fn_args
        &&& self.opctx == other.opctx
        &&& self.result == other.result
        &&& self.args == other.args
    }

    /// All four request flags are still unset, as in a context created fresh
    /// for one signature.
    pub open spec fn fresh(self) -> bool {
        !self.needs_scope && !self.needs_retval && !self.needs_args && !self.needs_opctx
    }

    /// A fresh generation context with conventional binding names, one
    /// argument identifier per slot.
    pub fn new(slow_function: String, args: Vec<String>) -> (r: GeneratorState)
        ensures
            r.fresh(),
            r.args == args,
            r.slow_function == slow_function,
    {
        GeneratorState {
            deno_core: String::from_str("deno_core"),
            info: String::from_str("info"),
            slow_function,
            scope: String::from_str("scope"),
            retval: String::from_str("rv"),
            fn_args: String::from_str("fn_args"),
            opctx: String::from_str("opctx"),
            result: String::from_str("result"),
            args,
            needs_scope: false,
            needs_retval: false,
            needs_args: false,
            needs_opctx: false,
        }
    }
}

} // verus!
