//! Generator for the "slow path" trampoline of a native operation exposed to an
//! embedded scripting runtime.
//!
//! Given a typed signature (argument descriptors plus a return descriptor) and a
//! flag saying whether an optimized fast path exists, the generator produces the
//! source text of one callback-shaped function: it extracts and converts each
//! dynamic argument, invokes the native function, encodes the result back into
//! the call's return slot (or raises a scripting-visible exception), and lazily
//! assembles the shared per-call prologue objects that downstream steps
//! requested, each constructed exactly once.
//!
//! The emitted prologue derives the call scope, the return slot and the
//! arguments view from the raw call-info parameter, and the operation context
//! from the arguments view's associated data slot. Those constructions are
//! sound only under the hosting runtime's guarantees: a fresh, exclusively
//! owned call-info record per invocation, and an associated data slot that
//! always carries a live, correctly typed context for the duration of the
//! call. The generator only decides whether each object is requested, never
//! how it is obtained.

pub mod code;
pub mod dispatch_slow;
pub mod generator_state;
pub mod laws;
pub mod signature;
