//! The trampoline assembler and its converter and encoder steps.
//!
//! Each step returns the statements it emits and updates the generation
//! context's request flags; [`generate_dispatch_slow`] walks one signature,
//! assembles the prologue from the final flag state, and renders the result.

use vstd::prelude::*;
use crate::code::Stmt;
use crate::code::RetCode;
use crate::code::ThrowErr;
use crate::code::ThrowTy;
use crate::code::function_text;
use crate::code::push_throw_ty;
use crate::code::throw_ty_text;
use crate::code::render_function;
use crate::generator_state::GeneratorState;
use crate::signature::Arg;
use crate::signature::MacroConfig;
use crate::signature::NumericArg;
use crate::signature::ParsedSignature;
use crate::signature::RefType;
use crate::signature::RetVal;
use crate::signature::Role;
use crate::signature::Special;
use crate::signature::V8MappingError;
use crate::signature::V8Arg;

verus! {

/// The argument descriptors the converter has a conversion for.
pub open spec fn arg_mapped(a: Arg) -> bool {
    match a {
        Arg::Numeric(_) => true,
        Arg::OptionNumeric(_) => true,
        Arg::Special(Special::OwnedString) => true,
        Arg::Special(Special::RefStr) => true,
        Arg::Special(Special::CowStr) => true,
        Arg::Option(Special::OwnedString) => true,
        Arg::Ref(_, Special::HandleScope) => true,
        Arg::V8Ref(_, _) => true,
        Arg::V8Local(_) => true,
        Arg::OptionV8Ref(_, _) => true,
        Arg::OptionV8Local(_) => true,
        _ => false,
    }
}

/// The return payloads the encoder has an encoding for.
pub open spec fn ret_mapped(a: Arg) -> bool {
    match a {
        Arg::Void => true,
        Arg::Numeric(NumericArg::U8) => true,
        Arg::Numeric(NumericArg::U16) => true,
        Arg::Numeric(NumericArg::U32) => true,
        Arg::Numeric(NumericArg::I8) => true,
        Arg::Numeric(NumericArg::I16) => true,
        Arg::Numeric(NumericArg::I32) => true,
        Arg::Special(Special::OwnedString) => true,
        Arg::Option(Special::OwnedString) => true,
        Arg::V8Local(_) => true,
        Arg::OptionV8Local(_) => true,
        _ => false,
    }
}

/// Whether converting this argument requests the shared call scope.
pub open spec fn arg_needs_scope(a: Arg) -> bool {
    match a {
        Arg::Special(Special::OwnedString) => true,
        Arg::Special(Special::RefStr) => true,
        Arg::Special(Special::CowStr) => true,
        Arg::Option(Special::OwnedString) => true,
        Arg::Ref(_, Special::HandleScope) => true,
        Arg::V8Ref(_, _) => true,
        Arg::V8Local(_) => true,
        Arg::OptionV8Ref(_, _) => true,
        Arg::OptionV8Local(_) => true,
        _ => false,
    }
}

/// Whether encoding this return payload requests the shared call scope.
pub open spec fn ret_needs_scope(a: Arg) -> bool {
    a == Arg::Special(Special::OwnedString) || a == Arg::Option(Special::OwnedString)
}

/// Whether encoding this return payload writes the return slot.
pub open spec fn ret_sets_retval(a: Arg) -> bool {
    ret_mapped(a) && a != Arg::Void
}

/// The encoding shape of a mapped return payload.
pub open spec fn ret_code_of(a: Arg) -> RetCode {
    match a {
        Arg::Void => RetCode::Nothing,
        Arg::Numeric(NumericArg::U8) => RetCode::Uint32,
        Arg::Numeric(NumericArg::U16) => RetCode::Uint32,
        Arg::Numeric(NumericArg::U32) => RetCode::Uint32,
        Arg::Numeric(NumericArg::I8) => RetCode::Int32,
        Arg::Numeric(NumericArg::I16) => RetCode::Int32,
        Arg::Numeric(NumericArg::I32) => RetCode::Int32,
        Arg::Special(Special::OwnedString) => RetCode::Text,
        Arg::Option(Special::OwnedString) => RetCode::OptionText,
        Arg::V8Local(_) => RetCode::Local,
        Arg::OptionV8Local(_) => RetCode::OptionLocal,
        _ => RetCode::Nothing,
    }
}

/// The statements the converter emits for one mapped argument descriptor.
pub open spec fn from_arg_stmts(index: usize, a: Arg) -> Seq<Stmt> {
    match a {
        Arg::Numeric(k) => seq![Stmt::CoerceNum { index, kind: k }],
        Arg::OptionNumeric(k) => seq![Stmt::OptionNum { index, kind: k }],
        Arg::Special(Special::OwnedString) => seq![Stmt::StrOwned { index }],
        Arg::Option(Special::OwnedString) => seq![Stmt::StrOwned { index }],
        Arg::Special(Special::RefStr) => seq![Stmt::StrRef { index }],
        Arg::Special(Special::CowStr) => seq![Stmt::StrCow { index }],
        Arg::Ref(_, Special::HandleScope) => seq![Stmt::BindScope { index }],
        Arg::V8Ref(_, t) => seq![Stmt::Cast { index, v8: t }, Stmt::RefBind { index }],
        Arg::V8Local(t) => seq![Stmt::Cast { index, v8: t }],
        Arg::OptionV8Ref(RefType::Ref, t) => seq![
            Stmt::OptionCast { index, v8: t },
            Stmt::MapRef { index, mutable: false },
        ],
        Arg::OptionV8Ref(RefType::Mut, t) => seq![
            Stmt::OptionCast { index, v8: t },
            Stmt::MapRef { index, mutable: true },
        ],
        Arg::OptionV8Local(t) => seq![Stmt::OptionCast { index, v8: t }],
        _ => Seq::<Stmt>::empty(),
    }
}

/// How many of the first `n` descriptors occupy a call slot; equally, the call
/// slot bound to the next real descriptor after them.
pub open spec fn real_count(args: Seq<Arg>, n: int) -> int
    decreases n,
{
    if n <= 0 {
        0
    } else {
        real_count(args, n - 1) + if args[n - 1].spec_is_virtual() {
            0int
        } else {
            1int
        }
    }
}

/// Whether any of the first `n` descriptors requests the call scope.
pub open spec fn any_arg_scope(args: Seq<Arg>, n: int) -> bool
    decreases n,
{
    if n <= 0 {
        false
    } else {
        any_arg_scope(args, n - 1) || arg_needs_scope(args[n - 1])
    }
}

/// Whether the first `n` descriptors are all mapped.
pub open spec fn args_mapped(args: Seq<Arg>, n: int) -> bool
    decreases n,
{
    if n <= 0 {
        true
    } else {
        args_mapped(args, n - 1) && arg_mapped(args[n - 1])
    }
}

/// Whether every descriptor of the signature has a mapping.
pub open spec fn sig_mapped(sig: ParsedSignature) -> bool {
    args_mapped(sig.args@, sig.args@.len() as int) && ret_mapped(sig.ret_val.spec_payload())
}

/// Extraction and conversion statements of the real (slot-consuming)
/// descriptors among the first `n`, in slot order.
pub open spec fn real_stmts(args: Seq<Arg>, n: int) -> Seq<Stmt>
    decreases n,
{
    if n <= 0 {
        Seq::<Stmt>::empty()
    } else {
        real_stmts(args, n - 1) + if args[n - 1].spec_is_virtual() {
            Seq::<Stmt>::empty()
        } else {
            seq![
                Stmt::Extract {
                    index: (n - 1) as usize,
                    slot: real_count(args, n - 1) as usize,
                },
            ] + from_arg_stmts((n - 1) as usize, args[n - 1])
        }
    }
}

/// Conversion statements of the virtual descriptors among the first `n`, in
/// declaration order; spliced in after all real-argument statements.
pub open spec fn deferred_stmts(args: Seq<Arg>, n: int) -> Seq<Stmt>
    decreases n,
{
    if n <= 0 {
        Seq::<Stmt>::empty()
    } else {
        deferred_stmts(args, n - 1) + if args[n - 1].spec_is_virtual() {
            from_arg_stmts((n - 1) as usize, args[n - 1])
        } else {
            Seq::<Stmt>::empty()
        }
    }
}

/// The exception block emitted when flag state is as given: each prerequisite
/// object not yet requested is constructed inline, and requesting the
/// operation context inline also requests the arguments view.
pub open spec fn throw_err_of(scope: bool, args: bool, opctx: bool) -> ThrowErr {
    ThrowErr {
        scope_inline: !scope,
        args_inline: opctx && !args,
        opctx_inline: !opctx,
    }
}

/// The return-encoding statement of a mapped return descriptor, given the flag
/// state after the conversion loop.
pub open spec fn ret_stmts(ret: RetVal, scope: bool, args: bool, opctx: bool) -> Seq<Stmt> {
    match ret {
        RetVal::Infallible(a) => seq![Stmt::RetInfallible { code: ret_code_of(a) }],
        RetVal::Fallible(a) => seq![
            Stmt::RetFallible {
                code: ret_code_of(a),
                throw: throw_err_of(scope || ret_needs_scope(a), args, opctx),
            },
        ],
    }
}

/// The prologue: the constructor statement of each requested shared object,
/// at most one each, in fixed dependency order.
pub open spec fn prologue_stmts(scope: bool, retval: bool, args: bool, opctx: bool) -> Seq<Stmt> {
    (if scope {
        seq![Stmt::ScopeCtor]
    } else {
        Seq::<Stmt>::empty()
    }) + (if retval {
        seq![Stmt::RetvalCtor]
    } else {
        Seq::<Stmt>::empty()
    }) + (if args {
        seq![Stmt::ArgsCtor]
    } else {
        Seq::<Stmt>::empty()
    }) + (if opctx {
        seq![Stmt::OpCtxCtor]
    } else {
        Seq::<Stmt>::empty()
    })
}

/// The final scope flag of a generation pass over `sig`.
pub open spec fn scope_flag(sig: ParsedSignature) -> bool {
    any_arg_scope(sig.args@, sig.args@.len() as int) || ret_needs_scope(sig.ret_val.spec_payload())
}

/// The final return-slot flag of a generation pass over `sig`.
pub open spec fn retval_flag(sig: ParsedSignature) -> bool {
    ret_sets_retval(sig.ret_val.spec_payload())
}

/// The final operation-context flag: only the fast path's error pickup
/// requests the operation context as a prologue object.
pub open spec fn opctx_flag(fast: bool, sig: ParsedSignature) -> bool {
    fast && sig.ret_val is Fallible
}

/// The final arguments-view flag: extraction requests it for every real
/// argument, and exception construction for a fallible return requests it
/// through the operation context.
pub open spec fn args_flag(sig: ParsedSignature) -> bool {
    real_count(sig.args@, sig.args@.len() as int) > 0 || sig.ret_val is Fallible
}

/// The body of one generated trampoline of a mapped signature: fast-path
/// error pickup, real-argument extraction and conversion in slot order,
/// deferred virtual conversions, the native call, and the return encoding.
pub open spec fn program_body(fast: bool, sig: ParsedSignature) -> Seq<Stmt> {
    let n = sig.args@.len() as int;
    let opctx_c = opctx_flag(fast, sig);
    let scope_c = any_arg_scope(sig.args@, n);
    let args_c = real_count(sig.args@, n) > 0;
    let pickup = if opctx_c {
        seq![Stmt::ErrorPickup { throw: throw_err_of(false, false, true) }]
    } else {
        Seq::<Stmt>::empty()
    };
    pickup + real_stmts(sig.args@, n) + deferred_stmts(sig.args@, n) + seq![
        Stmt::NativeCall { argc: sig.args@.len() as usize },
    ] + ret_stmts(sig.ret_val, scope_c, args_c, opctx_c)
}

/// The whole statement sequence of one generated trampoline of a mapped
/// signature: the prologue constructors of the requested shared objects, then
/// the body.
pub open spec fn program(fast: bool, sig: ParsedSignature) -> Seq<Stmt> {
    prologue_stmts(scope_flag(sig), retval_flag(sig), args_flag(sig), opctx_flag(fast, sig))
        + program_body(fast, sig)
}

/// Assembles the prologue from the final flag state, in the fixed dependency
/// order, and renders the whole trampoline. The operation-context constructor
/// reads the arguments view, so requesting it requests the arguments view as
/// well, before the arguments-view flag is consulted.
#[verifier::rlimit(100)]
fn assemble_prologue_and_render(
    config: &MacroConfig,
    generator_state: &mut GeneratorState,
    signature: &ParsedSignature,
    output: Vec<Stmt>,
) -> (r: String)
    requires
        old(generator_state).args@.len() == signature.args@.len(),
        old(generator_state).needs_scope == scope_flag(*signature),
        old(generator_state).needs_retval == retval_flag(*signature),
        old(generator_state).needs_opctx == opctx_flag(config.fast, *signature),
        old(generator_state).needs_args == (real_count(
            signature.args@,
            signature.args@.len() as int,
        ) > 0 || (signature.ret_val is Fallible && !opctx_flag(config.fast, *signature))),
        output@ == program_body(config.fast, *signature),
        forall|j: int|
            0 <= j < output@.len() ==> (#[trigger] output@[j]).wf(signature.args@.len() as int),
    ensures
        old(generator_state).names_eq(*final(generator_state)),
        r@ == function_text(*final(generator_state), program(config.fast, *signature)),
{
    let mut output = output;
    let emit_scope = generator_state.needs_scope;
    let emit_opctx = generator_state.needs_opctx;
    if emit_opctx {
        generator_state.needs_args = true;
    }
    let emit_retval = generator_state.needs_retval;
    let emit_args = generator_state.needs_args;

    let mut all: Vec<Stmt> = Vec::new();
    if emit_scope {
        let s = with_scope(generator_state);
        all.push(s);
    }
    if emit_retval {
        let s = with_retval(generator_state);
        all.push(s);
    }
    if emit_args {
        let s = with_fn_args(generator_state);
        all.push(s);
    }
    if emit_opctx {
        let s = with_opctx(generator_state);
        all.push(s);
    }
    proof {
        assert(all@ =~= prologue_stmts(
            scope_flag(*signature),
            retval_flag(*signature),
            args_flag(*signature),
            opctx_flag(config.fast, *signature),
        ));
    }
    all.append(&mut output);
    proof {
        assert(all@ =~= program(config.fast, *signature));
    }
    render_function(generator_state, &all)
}

/// Emits the call-scope constructor. Does not itself set a flag: the flag
/// state is owned by the steps that request the scope.
pub fn with_scope(generator_state: &mut GeneratorState) -> (r: Stmt)
    ensures
        r == Stmt::ScopeCtor,
        *final(generator_state) == *old(generator_state),
{
    Stmt::ScopeCtor
}

/// Emits the return-slot constructor.
pub fn with_retval(generator_state: &mut GeneratorState) -> (r: Stmt)
    ensures
        r == Stmt::RetvalCtor,
        *final(generator_state) == *old(generator_state),
{
    Stmt::RetvalCtor
}

/// Emits the arguments-view constructor.
pub fn with_fn_args(generator_state: &mut GeneratorState) -> (r: Stmt)
    ensures
        r == Stmt::ArgsCtor,
        *final(generator_state) == *old(generator_state),
{
    Stmt::ArgsCtor
}

/// Emits the operation-context constructor; the operation context is read out
/// of the arguments view, so this requests the arguments view as well.
pub fn with_opctx(generator_state: &mut GeneratorState) -> (r: Stmt)
    ensures
        r == Stmt::OpCtxCtor,
        old(generator_state).names_eq(*final(generator_state)),
        final(generator_state).needs_args == true,
        final(generator_state).needs_scope == old(generator_state).needs_scope,
        final(generator_state).needs_retval == old(generator_state).needs_retval,
        final(generator_state).needs_opctx == old(generator_state).needs_opctx,
{
    generator_state.needs_args = true;
    Stmt::OpCtxCtor
}

/// Emits the read of the raw dynamic value at call slot `input_index` into the
/// identifier of argument `index`; reading a call slot requests the arguments
/// view.
pub fn extract_arg(generator_state: &mut GeneratorState, index: usize, input_index: usize) -> (r:
    Result<Vec<Stmt>, V8MappingError>)
    requires
        index < old(generator_state).args@.len(),
    ensures
        old(generator_state).names_eq(*final(generator_state)),
        r is Ok,
        r->Ok_0@ == seq![Stmt::Extract { index, slot: input_index }],
        final(generator_state).needs_args == true,
        final(generator_state).needs_scope == old(generator_state).needs_scope,
        final(generator_state).needs_retval == old(generator_state).needs_retval,
        final(generator_state).needs_opctx == old(generator_state).needs_opctx,
{
    generator_state.needs_args = true;
    let mut v: Vec<Stmt> = Vec::new();
    v.push(Stmt::Extract { index, slot: input_index });
    proof {
        assert(v@ =~= seq![Stmt::Extract { index, slot: input_index }]);
    }
    Ok(v)
}

/// Emits the checked narrowing of argument `index` to subtype `v8`, with a
/// type-error block (`expected <subtype>`) as the mismatch arm; narrowing
/// requests the call scope, so the block never constructs the scope inline.
pub fn from_v8_arg(generator_state: &mut GeneratorState, v8: V8Arg, index: usize) -> (r: Stmt)
    ensures
        old(generator_state).names_eq(*final(generator_state)),
        r == (Stmt::Cast { index, v8 }),
        final(generator_state).needs_scope == true,
        final(generator_state).needs_retval == old(generator_state).needs_retval,
        final(generator_state).needs_args == old(generator_state).needs_args,
        final(generator_state).needs_opctx == old(generator_state).needs_opctx,
{
    generator_state.needs_scope = true;
    Stmt::Cast { index, v8 }
}

/// Emits the conversion of one argument descriptor into the statically typed
/// value the native function expects, or fails with the descriptor and its
/// role if no conversion is defined. Converting may request the call scope;
/// no other flag changes.
pub fn from_arg(generator_state: &mut GeneratorState, index: usize, arg: &Arg) -> (r: Result<
    Vec<Stmt>,
    V8MappingError,
>)
    requires
        index < old(generator_state).args@.len(),
    ensures
        old(generator_state).names_eq(*final(generator_state)),
        arg_mapped(*arg) <==> r is Ok,
        r is Ok ==> r->Ok_0@ == from_arg_stmts(index, *arg),
        r is Err ==> r->Err_0 == V8MappingError::NoMapping(Role::SlowArgument, *arg),
        final(generator_state).needs_scope == (old(generator_state).needs_scope || (arg_mapped(
            *arg,
        ) && arg_needs_scope(*arg))),
        final(generator_state).needs_retval == old(generator_state).needs_retval,
        final(generator_state).needs_args == old(generator_state).needs_args,
        final(generator_state).needs_opctx == old(generator_state).needs_opctx,
{
    let mut v: Vec<Stmt> = Vec::new();
    match arg {
        Arg::Numeric(k) => {
            v.push(Stmt::CoerceNum { index, kind: *k });
        },
        Arg::OptionNumeric(k) => {
            v.push(Stmt::OptionNum { index, kind: *k });
        },
        Arg::Special(Special::OwnedString) | Arg::Option(Special::OwnedString) => {
            generator_state.needs_scope = true;
            v.push(Stmt::StrOwned { index });
        },
        Arg::Special(Special::RefStr) => {
            generator_state.needs_scope = true;
            v.push(Stmt::StrRef { index });
        },
        Arg::Special(Special::CowStr) => {
            generator_state.needs_scope = true;
            v.push(Stmt::StrCow { index });
        },
        Arg::Ref(_, Special::HandleScope) => {
            generator_state.needs_scope = true;
            v.push(Stmt::BindScope { index });
        },
        Arg::V8Ref(_, t) => {
            let cast = from_v8_arg(generator_state, *t, index);
            v.push(cast);
            v.push(Stmt::RefBind { index });
        },
        Arg::V8Local(t) => {
            let cast = from_v8_arg(generator_state, *t, index);
            v.push(cast);
        },
        Arg::OptionV8Ref(RefType::Ref, t) => {
            generator_state.needs_scope = true;
            v.push(Stmt::OptionCast { index, v8: *t });
            v.push(Stmt::MapRef { index, mutable: false });
        },
        Arg::OptionV8Ref(RefType::Mut, t) => {
            generator_state.needs_scope = true;
            v.push(Stmt::OptionCast { index, v8: *t });
            v.push(Stmt::MapRef { index, mutable: true });
        },
        Arg::OptionV8Local(t) => {
            generator_state.needs_scope = true;
            v.push(Stmt::OptionCast { index, v8: *t });
        },
        _ => {
            return Err(V8MappingError::NoMapping(Role::SlowArgument, *arg));
        },
    }
    proof {
        assert(v@ =~= from_arg_stmts(index, *arg));
    }
    Ok(v)
}

/// Emits the call of the native function, passing every argument binding in
/// declaration order and binding the outcome to the result identifier.
pub fn call(generator_state: &mut GeneratorState) -> (r: Result<Vec<Stmt>, V8MappingError>)
    ensures
        old(generator_state).names_eq(*final(generator_state)),
        r is Ok,
        r->Ok_0@ == seq![Stmt::NativeCall { argc: old(generator_state).args@.len() as usize }],
        *final(generator_state) == *old(generator_state),
{
    let argc = generator_state.args.len();
    let mut v: Vec<Stmt> = Vec::new();
    v.push(Stmt::NativeCall { argc });
    proof {
        assert(v@ =~= seq![Stmt::NativeCall { argc: old(generator_state).args@.len() as usize }]);
    }
    Ok(v)
}

/// Emits the exception block for a structured error value: any prerequisite
/// shared object not yet requested is constructed inline, then the exception
/// is built through the operation context's classification function, raised,
/// and the trampoline exits. Requesting the operation context inline also
/// requests the arguments view.
pub fn throw_exception(generator_state: &mut GeneratorState) -> (r: Result<
    ThrowErr,
    V8MappingError,
>)
    ensures
        old(generator_state).names_eq(*final(generator_state)),
        r is Ok,
        r->Ok_0 == throw_err_of(
            old(generator_state).needs_scope,
            old(generator_state).needs_args,
            old(generator_state).needs_opctx,
        ),
        final(generator_state).needs_args == (old(generator_state).needs_args || !old(
            generator_state,
        ).needs_opctx),
        final(generator_state).needs_scope == old(generator_state).needs_scope,
        final(generator_state).needs_retval == old(generator_state).needs_retval,
        final(generator_state).needs_opctx == old(generator_state).needs_opctx,
{
    let scope_inline = !generator_state.needs_scope;
    let opctx_inline = !generator_state.needs_opctx;
    if opctx_inline {
        // The inline operation-context constructor reads the arguments view.
        generator_state.needs_args = true;
    }
    let args_inline = !generator_state.needs_args;
    Ok(ThrowErr { scope_inline, args_inline, opctx_inline })
}

/// Emits the exception block for a fixed diagnostic message: construct a plain
/// engine string from the message, wrap it in a generic error exception, raise
/// it, and exit. The message must be printable ASCII and under the internal
/// ceiling, which is itself far under the engine's maximum string length;
/// anything else is a programming error in descriptor construction.
pub fn throw_type_error(generator_state: &GeneratorState, message: &str) -> (r: ThrowTy)
    requires
        vstd::utf8::is_ascii_chars(message@),
        0 < message@.len() < 1024,
    ensures
        r.scope_inline == !generator_state.needs_scope,
        r.message@ == message@,
{
    ThrowTy { scope_inline: !generator_state.needs_scope, message: String::from_str(message) }
}

/// The source text of a type-error exception block, as spliced into a guard's
/// mismatch arm.
pub fn render_throw_type_error(generator_state: &GeneratorState, block: &ThrowTy) -> (r: String)
    ensures
        r@ == throw_ty_text(*generator_state, block.scope_inline, block.message@),
{
    let mut out = String::new();
    push_throw_ty(&mut out, generator_state, block.scope_inline, block.message.as_str());
    out
}

/// Emits the encoding of an infallible return payload into the return slot,
/// or fails with the payload and its role if no encoding is defined. Writing
/// the slot requests the return slot; encoding text requests the scope.
pub fn return_value_infallible(generator_state: &mut GeneratorState, ret_type: &Arg) -> (r: Result<
    Vec<Stmt>,
    V8MappingError,
>)
    ensures
        old(generator_state).names_eq(*final(generator_state)),
        ret_mapped(*ret_type) <==> r is Ok,
        r is Ok ==> r->Ok_0@ == seq![Stmt::RetInfallible { code: ret_code_of(*ret_type) }],
        r is Err ==> r->Err_0 == V8MappingError::NoMapping(Role::SlowReturnValue, *ret_type),
        final(generator_state).needs_retval == (old(generator_state).needs_retval || (ret_mapped(
            *ret_type,
        ) && ret_sets_retval(*ret_type))),
        final(generator_state).needs_scope == (old(generator_state).needs_scope || (ret_mapped(
            *ret_type,
        ) && ret_needs_scope(*ret_type))),
        final(generator_state).needs_args == old(generator_state).needs_args,
        final(generator_state).needs_opctx == old(generator_state).needs_opctx,
{
    let code = match ret_type {
        Arg::Void => RetCode::Nothing,
        Arg::Numeric(NumericArg::U8) | Arg::Numeric(NumericArg::U16) | Arg::Numeric(
            NumericArg::U32,
        ) => {
            generator_state.needs_retval = true;
            RetCode::Uint32
        },
        Arg::Numeric(NumericArg::I8) | Arg::Numeric(NumericArg::I16) | Arg::Numeric(
            NumericArg::I32,
        ) => {
            generator_state.needs_retval = true;
            RetCode::Int32
        },
        Arg::Special(Special::OwnedString) => {
            generator_state.needs_retval = true;
            generator_state.needs_scope = true;
            RetCode::Text
        },
        Arg::Option(Special::OwnedString) => {
            generator_state.needs_retval = true;
            generator_state.needs_scope = true;
            RetCode::OptionText
        },
        Arg::V8Local(_) => {
            generator_state.needs_retval = true;
            RetCode::Local
        },
        Arg::OptionV8Local(_) => {
            generator_state.needs_retval = true;
            RetCode::OptionLocal
        },
        _ => {
            return Err(V8MappingError::NoMapping(Role::SlowReturnValue, *ret_type));
        },
    };
    let mut v: Vec<Stmt> = Vec::new();
    v.push(Stmt::RetInfallible { code });
    proof {
        assert(v@ =~= seq![Stmt::RetInfallible { code: ret_code_of(*ret_type) }]);
    }
    Ok(v)
}

/// Emits the two-way branch of a fallible return: the success arm delegates to
/// the infallible encoding, the error arm to exception construction; both
/// arms rebind the same symbolic result identifier.
pub fn return_value_result(generator_state: &mut GeneratorState, ret_type: &Arg) -> (r: Result<
    Vec<Stmt>,
    V8MappingError,
>)
    ensures
        old(generator_state).names_eq(*final(generator_state)),
        ret_mapped(*ret_type) <==> r is Ok,
        r is Ok ==> r->Ok_0@ == seq![
            Stmt::RetFallible {
                code: ret_code_of(*ret_type),
                throw: throw_err_of(
                    old(generator_state).needs_scope || ret_needs_scope(*ret_type),
                    old(generator_state).needs_args,
                    old(generator_state).needs_opctx,
                ),
            },
        ],
        r is Err ==> r->Err_0 == V8MappingError::NoMapping(Role::SlowReturnValue, *ret_type)
            && *final(generator_state) == *old(generator_state),
        r is Ok ==> final(generator_state).needs_retval == (old(generator_state).needs_retval
            || ret_sets_retval(*ret_type)),
        r is Ok ==> final(generator_state).needs_scope == (old(generator_state).needs_scope
            || ret_needs_scope(*ret_type)),
        r is Ok ==> final(generator_state).needs_args == (old(generator_state).needs_args || !old(
            generator_state,
        ).needs_opctx),
        final(generator_state).needs_opctx == old(generator_state).needs_opctx,
{
    let infallible = match return_value_infallible(generator_state, ret_type) {
        Ok(v) => v,
        Err(e) => {
            return Err(e);
        },
    };
    let exception = match throw_exception(generator_state) {
        Ok(t) => t,
        Err(e) => {
            return Err(e);
        },
    };
    let code = match &infallible[0] {
        Stmt::RetInfallible { code } => *code,
        _ => RetCode::Nothing,
    };
    let mut v: Vec<Stmt> = Vec::new();
    v.push(Stmt::RetFallible { code, throw: exception });
    proof {
        assert(v@ =~= seq![
            Stmt::RetFallible {
                code: ret_code_of(*ret_type),
                throw: throw_err_of(
                    old(generator_state).needs_scope || ret_needs_scope(*ret_type),
                    old(generator_state).needs_args,
                    old(generator_state).needs_opctx,
                ),
            },
        ]);
    }
    Ok(v)
}

/// Emits the return-value encoding for the whole return descriptor,
/// dispatching on the outcome wrapper.
pub fn return_value(generator_state: &mut GeneratorState, ret_type: &RetVal) -> (r: Result<
    Vec<Stmt>,
    V8MappingError,
>)
    ensures
        old(generator_state).names_eq(*final(generator_state)),
        ret_mapped(ret_type.spec_payload()) <==> r is Ok,
        r is Ok ==> r->Ok_0@ == ret_stmts(
            *ret_type,
            old(generator_state).needs_scope,
            old(generator_state).needs_args,
            old(generator_state).needs_opctx,
        ),
        r is Err ==> r->Err_0 == V8MappingError::NoMapping(
            Role::SlowReturnValue,
            ret_type.spec_payload(),
        ),
        r is Ok ==> final(generator_state).needs_retval == (old(generator_state).needs_retval
            || ret_sets_retval(ret_type.spec_payload())),
        r is Ok ==> final(generator_state).needs_scope == (old(generator_state).needs_scope
            || ret_needs_scope(ret_type.spec_payload())),
        r is Ok ==> final(generator_state).needs_args == (old(generator_state).needs_args || (
        ret_type is Fallible && !old(generator_state).needs_opctx)),
        final(generator_state).needs_opctx == old(generator_state).needs_opctx,
{
    match ret_type {
        RetVal::Infallible(a) => return_value_infallible(generator_state, a),
        RetVal::Fallible(a) => return_value_result(generator_state, a),
    }
}

/// Every statement the converter emits for an argument speaks of that
/// argument's own slot.
pub proof fn lemma_from_arg_wf(index: usize, a: Arg, n: int)
    requires
        index < n,
    ensures
        forall|j: int|
            0 <= j < from_arg_stmts(index, a).len() ==> (#[trigger] from_arg_stmts(index, a)[j]).wf(
                n,
            ),
{
    let s = from_arg_stmts(index, a);
    assert forall|j: int| 0 <= j < s.len() implies (#[trigger] s[j]).wf(n) by {
        match a {
            Arg::V8Ref(_, t) => {
                assert(s[0].wf(n));
                assert(s[1].wf(n));
            },
            Arg::OptionV8Ref(rt, t) => {
                assert(s[0].wf(n));
                assert(s[1].wf(n));
            },
            _ => {
                if s.len() > 0 {
                    assert(s[0].wf(n));
                }
            },
        }
    }
}

/// Each of the first `n` descriptors of a mapped prefix is itself mapped.
pub proof fn lemma_args_mapped_index(args: Seq<Arg>, n: int, i: int)
    requires
        0 <= i < n,
        args_mapped(args, n),
    ensures
        arg_mapped(args[i]),
    decreases n,
{
    if i < n - 1 {
        lemma_args_mapped_index(args, n - 1, i);
    }
}

/// When the first `i` descriptors are mapped and descriptor `i` is not, the
/// signature is unmapped and `i` is the first offending index.
pub proof fn lemma_unmapped_witness(sig: ParsedSignature, i: int)
    requires
        0 <= i < sig.args@.len(),
        args_mapped(sig.args@, i),
        !arg_mapped(sig.args@[i]),
    ensures
        !sig_mapped(sig),
        forall|j: int| 0 <= j < i ==> arg_mapped(#[trigger] sig.args@[j]),
{
    assert forall|j: int| 0 <= j < i implies arg_mapped(#[trigger] sig.args@[j]) by {
        lemma_args_mapped_index(sig.args@, i, j);
    }
    if args_mapped(sig.args@, sig.args@.len() as int) {
        lemma_args_mapped_index(sig.args@, sig.args@.len() as int, i);
    }
}

/// Produces the full source text of one slow-path trampoline for `signature`,
/// or fails on the first descriptor (in declaration order, then the return
/// descriptor) that has no mapping.
///
/// On success the text is exactly the rendering of [`program`]: the prologue
/// constructors of the requested shared objects in dependency order, the
/// fast-path error pickup when an optimized fast path exists and the return
/// is fallible, extraction and conversion of every real argument in slot
/// order, the deferred virtual conversions, the native call, and the return
/// encoding. Equal inputs therefore yield byte-identical text.
#[verifier::rlimit(100)]
pub fn generate_dispatch_slow(
    config: &MacroConfig,
    generator_state: &mut GeneratorState,
    signature: &ParsedSignature,
) -> (r: Result<String, V8MappingError>)
    requires
        old(generator_state).fresh(),
        old(generator_state).args@.len() == signature.args@.len(),
    ensures
        old(generator_state).names_eq(*final(generator_state)),
        sig_mapped(*signature) <==> r is Ok,
        r is Ok ==> r->Ok_0@ == function_text(
            *final(generator_state),
            program(config.fast, *signature),
        ),
        r is Err ==> (exists|i: int|
            0 <= i < signature.args@.len() && !arg_mapped(signature.args@[i]) && (forall|j: int|
                0 <= j < i ==> arg_mapped(#[trigger] signature.args@[j])) && r->Err_0
                == V8MappingError::NoMapping(Role::SlowArgument, signature.args@[i])) || (
        args_mapped(signature.args@, signature.args@.len() as int) && !ret_mapped(
            signature.ret_val.spec_payload(),
        ) && r->Err_0 == V8MappingError::NoMapping(
            Role::SlowReturnValue,
            signature.ret_val.spec_payload(),
        )),
{
    let ghost n = signature.args@.len() as int;
    let ghost opctx_c = opctx_flag(config.fast, *signature);
    let mut output: Vec<Stmt> = Vec::new();

    // The fast path requires the slow path to pick up the last recorded error
    // for this operation context before doing any work.
    if config.fast && matches!(signature.ret_val, RetVal::Fallible(_)) {
        generator_state.needs_opctx = true;
        let throw = match throw_exception(generator_state) {
            Ok(t) => t,
            Err(e) => {
                return Err(e);
            },
        };
        output.push(Stmt::ErrorPickup { throw });
    }
    let ghost pickup = output@;
    proof {
        assert(pickup =~= if opctx_c {
            seq![Stmt::ErrorPickup { throw: throw_err_of(false, false, true) }]
        } else {
            Seq::<Stmt>::empty()
        });
    }

    // Virtual arguments are converted into a deferred buffer, spliced in after
    // all real-argument statements, so they bind to the shared call context
    // without consuming a call slot.
    let mut deferred: Vec<Stmt> = Vec::new();
    let mut input_index: usize = 0;
    let mut index: usize = 0;
    while index < signature.args.len()
        invariant
            0 <= index <= signature.args@.len(),
            n == signature.args@.len() as int,
            old(generator_state).args@.len() == signature.args@.len(),
            old(generator_state).names_eq(*generator_state),
            old(generator_state).fresh(),
            opctx_c == opctx_flag(config.fast, *signature),
            input_index <= index,
            input_index as int == real_count(signature.args@, index as int),
            generator_state.needs_opctx == opctx_c,
            generator_state.needs_retval == false,
            generator_state.needs_scope == any_arg_scope(signature.args@, index as int),
            generator_state.needs_args == (real_count(signature.args@, index as int) > 0),
            args_mapped(signature.args@, index as int),
            output@ == pickup + real_stmts(signature.args@, index as int),
            deferred@ == deferred_stmts(signature.args@, index as int),
            forall|j: int| 0 <= j < output@.len() ==> (#[trigger] output@[j]).wf(n),
            forall|j: int| 0 <= j < deferred@.len() ==> (#[trigger] deferred@[j]).wf(n),
        decreases signature.args@.len() - index,
    {
        let arg = &signature.args[index];
        if arg.is_virtual() {
            let mut stmts = match from_arg(generator_state, index, arg) {
                Ok(s) => s,
                Err(e) => {
                    proof {
                        lemma_unmapped_witness(*signature, index as int);
                    }
                    return Err(e);
                },
            };
            proof {
                lemma_from_arg_wf(index, *arg, n);
            }
            deferred.append(&mut stmts);
            proof {
                assert(output@ =~= pickup + real_stmts(signature.args@, index as int + 1));
                assert(deferred@ =~= deferred_stmts(signature.args@, index as int + 1));
            }
        } else {
            let mut ext = match extract_arg(generator_state, index, input_index) {
                Ok(s) => s,
                Err(e) => {
                    return Err(e);
                },
            };
            output.append(&mut ext);
            let mut stmts = match from_arg(generator_state, index, arg) {
                Ok(s) => s,
                Err(e) => {
                    proof {
                        lemma_unmapped_witness(*signature, index as int);
                    }
                    return Err(e);
                },
            };
            proof {
                lemma_from_arg_wf(index, *arg, n);
            }
            output.append(&mut stmts);
            input_index = input_index + 1;
            proof {
                assert(output@ =~= pickup + real_stmts(signature.args@, index as int + 1));
                assert(deferred@ =~= deferred_stmts(signature.args@, index as int + 1));
            }
        }
        index = index + 1;
    }

    let ghost scope_c = any_arg_scope(signature.args@, n);
    let ghost args_c = real_count(signature.args@, n) > 0;
    output.append(&mut deferred);
    let mut call_stmts = match call(generator_state) {
        Ok(s) => s,
        Err(e) => {
            return Err(e);
        },
    };
    output.append(&mut call_stmts);
    let mut ret = match return_value(generator_state, &signature.ret_val) {
        Ok(s) => s,
        Err(e) => {
            return Err(e);
        },
    };
    output.append(&mut ret);
    proof {
        assert(output@ =~= program_body(config.fast, *signature));
    }
    Ok(assemble_prologue_and_render(config, generator_state, signature, output))
}


} // verus!
