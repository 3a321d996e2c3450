//! The code model: the statement shapes a generated trampoline is assembled
//! from, and the renderer that turns a statement sequence into source text.

use vstd::prelude::*;
use crate::generator_state::GeneratorState;
use crate::signature::NumericArg;
use crate::signature::V8Arg;

verus! {

/// An exception block built from a structured error value. The three booleans
/// record which prerequisite constructors the block carries inline because the
/// corresponding shared object had not been requested when the block was made.
#[derive(Clone, Copy, Debug, PartialEq, Eq, Structural)]
pub struct ThrowErr {
    pub scope_inline: bool,
    pub args_inline: bool,
    pub opctx_inline: bool,
}

/// A type-error exception block with a fixed diagnostic message.
#[derive(Clone, Debug)]
pub struct ThrowTy {
    /// Whether the block carries the scope constructor inline.
    pub scope_inline: bool,
    /// The diagnostic message; printable ASCII, under the internal ceiling.
    pub message: String,
}

/// The encoding shape for an infallible return payload.
#[derive(Clone, Copy, Debug, PartialEq, Eq, Structural)]
pub enum RetCode {
    /// No write into the return slot.
    Nothing,
    Uint32,
    Int32,
    Text,
    OptionText,
    Local,
    OptionLocal,
}

/// One statement of a generated trampoline. Argument-bound statements carry
/// the index of the slot identifier they speak of.
#[derive(Clone, Copy, Debug, PartialEq, Eq, Structural)]
pub enum Stmt {
    /// Constructor of the shared call scope.
    ScopeCtor,
    /// Constructor of the return-value slot.
    RetvalCtor,
    /// Constructor of the arguments view.
    ArgsCtor,
    /// Constructor of the operation context (reads the arguments view).
    OpCtxCtor,
    /// Fast-path error pickup: raise a recorded last error, if any, and exit.
    ErrorPickup { throw: ThrowErr },
    /// Read the raw dynamic value at call slot `slot` into argument `index`.
    Extract { index: usize, slot: usize },
    /// Coerce argument `index` to the numeric kind.
    CoerceNum { index: usize, kind: NumericArg },
    /// Null/undefined check around the numeric coercion; absent binds no value.
    OptionNum { index: usize, kind: NumericArg },
    /// Lossy decode of argument `index` into an owned text buffer.
    StrOwned { index: usize },
    /// Decode into a borrowed view backed by a fixed-size stack buffer.
    StrRef { index: usize },
    /// Decode into a copy-on-write view with the same stack buffer.
    StrCow { index: usize },
    /// Bind argument `index` directly to the shared call scope.
    BindScope { index: usize },
    /// Checked narrowing of argument `index` to subtype `v8`; on mismatch a
    /// type-error block raises `expected <subtype>` and exits.
    Cast { index: usize, v8: V8Arg },
    /// Rebind argument `index` as a reference to itself.
    RefBind { index: usize },
    /// Null/undefined check around a checked narrowing; absent binds no value.
    OptionCast { index: usize, v8: V8Arg },
    /// Map an optional narrowed value through a (mutable) dereference.
    MapRef { index: usize, mutable: bool },
    /// Invoke the native function on the first `argc` argument bindings.
    NativeCall { argc: usize },
    /// Encode an infallible result into the return slot.
    RetInfallible { code: RetCode },
    /// Two-way branch on a fallible result: encode on success, raise on error.
    RetFallible { code: RetCode, throw: ThrowErr },
}

impl Stmt {
    /// The shared scope binding is read (not constructed) by the statement.
    pub open spec fn uses_scope(self) -> bool {
        match self {
            Stmt::StrOwned { .. } => true,
            Stmt::StrRef { .. } => true,
            Stmt::StrCow { .. } => true,
            Stmt::BindScope { .. } => true,
            Stmt::Cast { .. } => true,
            Stmt::OptionCast { .. } => true,
            Stmt::ErrorPickup { throw } => !throw.scope_inline,
            Stmt::RetInfallible { code } => code == RetCode::Text || code == RetCode::OptionText,
            Stmt::RetFallible { code, throw } => !throw.scope_inline || code == RetCode::Text
                || code == RetCode::OptionText,
            _ => false,
        }
    }

    /// The return-slot binding is read by the statement.
    pub open spec fn uses_retval(self) -> bool {
        match self {
            Stmt::RetInfallible { code } => code != RetCode::Nothing,
            Stmt::RetFallible { code, .. } => code != RetCode::Nothing,
            _ => false,
        }
    }

    /// The arguments-view binding is read by the statement.
    pub open spec fn uses_args(self) -> bool {
        match self {
            Stmt::Extract { .. } => true,
            Stmt::OpCtxCtor => true,
            Stmt::ErrorPickup { throw } => throw.opctx_inline && !throw.args_inline,
            Stmt::RetFallible { throw, .. } => throw.opctx_inline && !throw.args_inline,
            _ => false,
        }
    }

    /// The operation-context binding is read by the statement.
    pub open spec fn uses_opctx(self) -> bool {
        match self {
            Stmt::ErrorPickup { throw } => !throw.opctx_inline,
            Stmt::RetFallible { throw, .. } => !throw.opctx_inline,
            _ => false,
        }
    }

    /// Every argument index the statement carries is a valid slot among `n`
    /// argument identifiers, and a native call covers no more bindings.
    pub open spec fn wf(self, n: int) -> bool {
        match self {
            Stmt::Extract { index, .. } => index < n,
            Stmt::CoerceNum { index, .. } => index < n,
            Stmt::OptionNum { index, .. } => index < n,
            Stmt::StrOwned { index } => index < n,
            Stmt::StrRef { index } => index < n,
            Stmt::StrCow { index } => index < n,
            Stmt::BindScope { index } => index < n,
            Stmt::Cast { index, .. } => index < n,
            Stmt::RefBind { index } => index < n,
            Stmt::OptionCast { index, .. } => index < n,
            Stmt::MapRef { index, .. } => index < n,
            Stmt::NativeCall { argc } => argc <= n,
            _ => true,
        }
    }
}

/// The character for one decimal digit.
pub open spec fn dec_digit(d: nat) -> char {
    if d == 0 {
        '0'
    } else if d == 1 {
        '1'
    } else if d == 2 {
        '2'
    } else if d == 3 {
        '3'
    } else if d == 4 {
        '4'
    } else if d == 5 {
        '5'
    } else if d == 6 {
        '6'
    } else if d == 7 {
        '7'
    } else if d == 8 {
        '8'
    } else {
        '9'
    }
}

/// The decimal text of a natural number, most significant digit first.
pub open spec fn dec_text(n: nat) -> Seq<char>
    decreases n,
{
    if n < 10 {
        seq![dec_digit(n)]
    } else {
        dec_text(n / 10) + seq![dec_digit(n % 10)]
    }
}

/// One string literal per decimal digit.
fn digit_str(d: usize) -> (r: &'static str)
    requires
        d < 10,
    ensures
        r@ == seq![dec_digit(d as nat)],
{
    proof {
        reveal_strlit("0");
        reveal_strlit("1");
        reveal_strlit("2");
        reveal_strlit("3");
        reveal_strlit("4");
        reveal_strlit("5");
        reveal_strlit("6");
        reveal_strlit("7");
        reveal_strlit("8");
        reveal_strlit("9");
    }
    let r = if d == 0 {
        "0"
    } else if d == 1 {
        "1"
    } else if d == 2 {
        "2"
    } else if d == 3 {
        "3"
    } else if d == 4 {
        "4"
    } else if d == 5 {
        "5"
    } else if d == 6 {
        "6"
    } else if d == 7 {
        "7"
    } else if d == 8 {
        "8"
    } else {
        "9"
    };
    proof {
        assert(r@ =~= seq![dec_digit(d as nat)]);
    }
    r
}

/// Appends the decimal text of `n`.
fn push_dec(out: &mut String, n: usize)
    ensures
        final(out)@ == old(out)@ + dec_text(n as nat),
    decreases n,
{
    if n >= 10 {
        push_dec(out, n / 10);
    }
    out.append(digit_str(n % 10));
    proof {
        assert(final(out)@ =~= old(out)@ + dec_text(n as nat));
    }
}

/// The source name of a dynamic-value subtype.
pub open spec fn v8_name_text(v8: V8Arg) -> Seq<char> {
    match v8 {
        V8Arg::Value => "Value"@,
        V8Arg::External => "External"@,
        V8Arg::Function => "Function"@,
        V8Arg::Object => "Object"@,
        V8Arg::ScriptString => "String"@,
        V8Arg::Array => "Array"@,
        V8Arg::Uint8Array => "Uint8Array"@,
    }
}

/// The source name of a dynamic-value subtype, as a short ASCII literal.
pub fn v8_name(v8: V8Arg) -> (r: &'static str)
    ensures
        r@ == v8_name_text(v8),
        r@.len() <= 10,
        vstd::string::is_ascii(r),
{
    proof {
        reveal_strlit("Value");
        reveal_strlit("External");
        reveal_strlit("Function");
        reveal_strlit("Object");
        reveal_strlit("String");
        reveal_strlit("Array");
        reveal_strlit("Uint8Array");
    }
    match v8 {
        V8Arg::Value => "Value",
        V8Arg::External => "External",
        V8Arg::Function => "Function",
        V8Arg::Object => "Object",
        V8Arg::ScriptString => "String",
        V8Arg::Array => "Array",
        V8Arg::Uint8Array => "Uint8Array",
    }
}

/// The identifier bound to argument slot `index`.
pub open spec fn arg_id(gs: GeneratorState, index: int) -> Seq<char> {
    gs.args@[index]@
}

/// Text of the call-scope constructor statement.
pub open spec fn scope_ctor_text(gs: GeneratorState) -> Seq<char> {
    "let "@ + gs.scope@ + " = &mut "@ + gs.deno_core@ + "::v8::CallbackScope::new("@ + gs.info@
        + ");\n"@
}

/// Text of the return-slot constructor statement.
pub open spec fn retval_ctor_text(gs: GeneratorState) -> Seq<char> {
    "let mut "@ + gs.retval@ + " = "@ + gs.deno_core@
        + "::v8::ReturnValue::from_function_callback_info("@ + gs.info@ + ");\n"@
}

/// Text of the arguments-view constructor statement.
pub open spec fn args_ctor_text(gs: GeneratorState) -> Seq<char> {
    "let "@ + gs.fn_args@ + " = "@ + gs.deno_core@
        + "::v8::FunctionCallbackArguments::from_function_callback_info("@ + gs.info@ + ");\n"@
}

/// Text of the operation-context constructor statement; it reads the
/// arguments view's associated data slot.
pub open spec fn opctx_ctor_text(gs: GeneratorState) -> Seq<char> {
    "let "@ + gs.opctx@ + " = "@ + gs.deno_core@ + "::_ops::OpCtx::from_external("@ + gs.fn_args@
        + ".data());\n"@
}

/// Text of an exception block built from a structured error value: the inline
/// prerequisite constructors it carries, then exception construction from the
/// classification function, the raise, and the exit.
pub open spec fn throw_err_text(gs: GeneratorState, t: ThrowErr) -> Seq<char> {
    (if t.scope_inline {
        scope_ctor_text(gs)
    } else {
        Seq::<char>::empty()
    }) + (if t.args_inline {
        args_ctor_text(gs)
    } else {
        Seq::<char>::empty()
    }) + (if t.opctx_inline {
        opctx_ctor_text(gs)
    } else {
        Seq::<char>::empty()
    }) + "let opstate = ::std::cell::RefCell::borrow(&"@ + gs.opctx@ + ".state);\n"@
        + "let exception = "@ + gs.deno_core@ + "::error::to_v8_error("@ + gs.scope@
        + ", opstate.get_error_class_fn, &err);\n"@ + gs.scope@ + ".throw_exception(exception);\n"@
        + "return;\n"@
}

/// Text of a type-error exception block with a fixed diagnostic message.
pub open spec fn throw_ty_text(gs: GeneratorState, scope_inline: bool, message: Seq<char>) -> Seq<
    char,
> {
    (if scope_inline {
        scope_ctor_text(gs)
    } else {
        Seq::<char>::empty()
    }) + "let msg = "@ + gs.deno_core@ + "::v8::String::new_from_one_byte("@ + gs.scope@ + ", \""@
        + message + "\".as_bytes(), "@ + gs.deno_core@
        + "::v8::NewStringType::Normal).unwrap();\n"@ + "let exc = "@ + gs.deno_core@
        + "::v8::Exception::error("@ + gs.scope@ + ", msg);\n"@ + gs.scope@
        + ".throw_exception(exc);\n"@ + "return;\n"@
}

/// The diagnostic message of a failed narrowing to a dynamic-value subtype.
pub open spec fn expected_msg_text(v8: V8Arg) -> Seq<char> {
    "expected v8::"@ + v8_name_text(v8)
}

/// Text of the numeric coercion for one argument: a truthiness test for the
/// boolean kind, else the fixed helper of the kind's width class.
pub open spec fn coerce_num_text(gs: GeneratorState, index: int, kind: NumericArg) -> Seq<char> {
    match kind {
        NumericArg::Bool => "let "@ + arg_id(gs, index) + " = "@ + arg_id(gs, index)
            + ".is_true();\n"@,
        NumericArg::U8 | NumericArg::U16 | NumericArg::U32 => "let "@ + arg_id(gs, index) + " = "@
            + gs.deno_core@ + "::_ops::to_u32(&"@ + arg_id(gs, index) + ") as _;\n"@,
        NumericArg::I8 | NumericArg::I16 | NumericArg::I32 | NumericArg::SmallInt => "let "@
            + arg_id(gs, index) + " = "@ + gs.deno_core@ + "::_ops::to_i32(&"@ + arg_id(gs, index)
            + ") as _;\n"@,
        NumericArg::U64 | NumericArg::Usize => "let "@ + arg_id(gs, index) + " = "@ + gs.deno_core@
            + "::_ops::to_u64(&"@ + arg_id(gs, index) + ") as _;\n"@,
        NumericArg::I64 | NumericArg::Isize => "let "@ + arg_id(gs, index) + " = "@ + gs.deno_core@
            + "::_ops::to_i64(&"@ + arg_id(gs, index) + ") as _;\n"@,
    }
}

/// Opening text of a null/undefined check: the absent arm binds no value, and
/// calls no conversion helper.
pub open spec fn option_head_text(gs: GeneratorState, index: int) -> Seq<char> {
    "let "@ + arg_id(gs, index) + " = if "@ + arg_id(gs, index) + ".is_null_or_undefined() {\n"@
        + "None\n"@ + "} else {\n"@
}

/// Closing text of a null/undefined check: the present arm wraps the converted
/// value in "has value".
pub open spec fn option_tail_text(gs: GeneratorState, index: int) -> Seq<char> {
    "Some("@ + arg_id(gs, index) + ")\n"@ + "};\n"@
}

/// Text of a checked narrowing of one argument to a dynamic-value subtype,
/// with a type-error block as the mismatch arm. The scope has always been
/// requested by the time a guard is emitted, so the block never carries the
/// scope constructor inline.
pub open spec fn cast_text(gs: GeneratorState, index: int, v8: V8Arg) -> Seq<char> {
    "let Ok(mut "@ + arg_id(gs, index) + ") = "@ + gs.deno_core@ + "::v8::Local::<"@
        + gs.deno_core@ + "::v8::"@ + v8_name_text(v8) + ">::try_from("@ + arg_id(gs, index)
        + ") else {\n"@ + throw_ty_text(gs, false, expected_msg_text(v8)) + "};\n"@
}

/// Text of the encoding of one infallible return payload into the return slot.
pub open spec fn ret_code_text(gs: GeneratorState, code: RetCode) -> Seq<char>
    decreases (if code == RetCode::OptionText {
        1int
    } else {
        0int
    }),
{
    match code {
        RetCode::Nothing => Seq::<char>::empty(),
        RetCode::Uint32 => gs.retval@ + ".set_uint32("@ + gs.result@ + " as u32);\n"@,
        RetCode::Int32 => gs.retval@ + ".set_int32("@ + gs.result@ + " as i32);\n"@,
        RetCode::Text => "if "@ + gs.result@ + ".is_empty() {\n"@ + gs.retval@
            + ".set_empty_string();\n"@ + "} else {\n"@ + "let temp = "@ + gs.deno_core@
            + "::v8::String::new("@ + gs.scope@ + ", &"@ + gs.result@ + ").unwrap();\n"@
            + gs.retval@ + ".set(temp.into());\n"@ + "}\n"@,
        RetCode::OptionText => "if let Some("@ + gs.result@ + ") = "@ + gs.result@ + " {\n"@
            + ret_code_text(gs, RetCode::Text) + "} else {\n"@ + gs.retval@ + ".set_null();\n"@
            + "}\n"@,
        RetCode::Local => gs.retval@ + ".set("@ + gs.result@ + ".into());\n"@,
        RetCode::OptionLocal => "if let Some("@ + gs.result@ + ") = "@ + gs.result@ + " {\n"@
            + gs.retval@ + ".set("@ + gs.result@ + ".into());\n"@ + "} else {\n"@ + gs.retval@
            + ".set_null();\n"@ + "}\n"@,
    }
}

/// Text of the native-call argument list: each of the first `n` argument
/// bindings, in declaration order, each followed by a separator.
pub open spec fn arg_list_text(gs: GeneratorState, n: int) -> Seq<char>
    decreases n,
{
    if n <= 0 {
        Seq::<char>::empty()
    } else {
        arg_list_text(gs, n - 1) + arg_id(gs, n - 1) + ", "@
    }
}

/// Text of one statement.
pub open spec fn stmt_text(gs: GeneratorState, s: Stmt) -> Seq<char> {
    match s {
        Stmt::ScopeCtor => scope_ctor_text(gs),
        Stmt::RetvalCtor => retval_ctor_text(gs),
        Stmt::ArgsCtor => args_ctor_text(gs),
        Stmt::OpCtxCtor => opctx_ctor_text(gs),
        Stmt::ErrorPickup { throw } => "if let Some(err) = "@ + gs.opctx@ + ".take_last_error() {\n"@
            + throw_err_text(gs, throw) + "}\n"@,
        Stmt::Extract { index, slot } => "let "@ + arg_id(gs, index as int) + " = "@ + gs.fn_args@
            + ".get("@ + dec_text(slot as nat) + " as i32);\n"@,
        Stmt::CoerceNum { index, kind } => coerce_num_text(gs, index as int, kind),
        Stmt::OptionNum { index, kind } => option_head_text(gs, index as int)
            + coerce_num_text(gs, index as int, kind) + option_tail_text(gs, index as int),
        Stmt::StrOwned { index } => "let "@ + arg_id(gs, index as int) + " = "@
            + arg_id(gs, index as int) + ".to_rust_string_lossy("@ + gs.scope@ + ");\n"@,
        Stmt::StrRef { index } => "let mut "@ + arg_id(gs, index as int)
            + "_temp: [::std::mem::MaybeUninit<u8>; 1024] = [::std::mem::MaybeUninit::uninit(); 1024];\n"@
            + "let "@ + arg_id(gs, index as int) + " = &"@ + gs.deno_core@ + "::_ops::to_str("@
            + gs.scope@ + ", &"@ + arg_id(gs, index as int) + ", &mut "@ + arg_id(gs, index as int)
            + "_temp);\n"@,
        Stmt::StrCow { index } => "let mut "@ + arg_id(gs, index as int)
            + "_temp: [::std::mem::MaybeUninit<u8>; 1024] = [::std::mem::MaybeUninit::uninit(); 1024];\n"@
            + "let "@ + arg_id(gs, index as int) + " = "@ + gs.deno_core@ + "::_ops::to_str("@
            + gs.scope@ + ", &"@ + arg_id(gs, index as int) + ", &mut "@ + arg_id(gs, index as int)
            + "_temp);\n"@,
        Stmt::BindScope { index } => "let "@ + arg_id(gs, index as int) + " = "@ + gs.scope@
            + ";\n"@,
        Stmt::Cast { index, v8 } => cast_text(gs, index as int, v8),
        Stmt::RefBind { index } => "let "@ + arg_id(gs, index as int) + " = &"@
            + arg_id(gs, index as int) + ";\n"@,
        Stmt::OptionCast { index, v8 } => option_head_text(gs, index as int)
            + cast_text(gs, index as int, v8) + option_tail_text(gs, index as int),
        Stmt::MapRef { index, mutable } => if mutable {
            "let "@ + arg_id(gs, index as int) + " = "@ + arg_id(gs, index as int)
                + ".as_mut().map(|v| ::std::ops::DerefMut::deref_mut(v));\n"@
        } else {
            "let "@ + arg_id(gs, index as int) + " = "@ + arg_id(gs, index as int)
                + ".as_ref().map(|v| ::std::ops::Deref::deref(v));\n"@
        },
        Stmt::NativeCall { argc } => "let "@ + gs.result@ + " = Self::call("@
            + arg_list_text(gs, argc as int) + ");\n"@,
        Stmt::RetInfallible { code } => ret_code_text(gs, code),
        Stmt::RetFallible { code, throw } => "match "@ + gs.result@ + " {\n"@ + "Ok("@ + gs.result@
            + ") => {\n"@ + ret_code_text(gs, code) + "}\n"@ + "Err(err) => {\n"@
            + throw_err_text(gs, throw) + "}\n"@ + "};\n"@,
    }
}

/// Text of a statement sequence, in order.
pub open spec fn stmts_text(gs: GeneratorState, ss: Seq<Stmt>) -> Seq<char>
    decreases ss.len(),
{
    if ss.len() == 0 {
        Seq::<char>::empty()
    } else {
        stmts_text(gs, ss.drop_last()) + stmt_text(gs, ss.last())
    }
}

/// Text of the whole trampoline: the function header, every statement, and the
/// closing brace.
pub open spec fn function_text(gs: GeneratorState, ss: Seq<Stmt>) -> Seq<char> {
    "fn "@ + gs.slow_function@ + "("@ + gs.info@ + ": &"@ + gs.deno_core@
        + "::v8::FunctionCallbackInfo) {\n"@ + stmts_text(gs, ss) + "}\n"@
}

fn push_scope_ctor(out: &mut String, gs: &GeneratorState)
    ensures
        final(out)@ == old(out)@ + scope_ctor_text(*gs),
{
    out.append("let ");
    out.append(gs.scope.as_str());
    out.append(" = &mut ");
    out.append(gs.deno_core.as_str());
    out.append("::v8::CallbackScope::new(");
    out.append(gs.info.as_str());
    out.append(");\n");
    proof {
        assert(final(out)@ =~= old(out)@ + scope_ctor_text(*gs));
    }
}

fn push_retval_ctor(out: &mut String, gs: &GeneratorState)
    ensures
        final(out)@ == old(out)@ + retval_ctor_text(*gs),
{
    out.append("let mut ");
    out.append(gs.retval.as_str());
    out.append(" = ");
    out.append(gs.deno_core.as_str());
    out.append("::v8::ReturnValue::from_function_callback_info(");
    out.append(gs.info.as_str());
    out.append(");\n");
    proof {
        assert(final(out)@ =~= old(out)@ + retval_ctor_text(*gs));
    }
}

fn push_args_ctor(out: &mut String, gs: &GeneratorState)
    ensures
        final(out)@ == old(out)@ + args_ctor_text(*gs),
{
    out.append("let ");
    out.append(gs.fn_args.as_str());
    out.append(" = ");
    out.append(gs.deno_core.as_str());
    out.append("::v8::FunctionCallbackArguments::from_function_callback_info(");
    out.append(gs.info.as_str());
    out.append(");\n");
    proof {
        assert(final(out)@ =~= old(out)@ + args_ctor_text(*gs));
    }
}

fn push_opctx_ctor(out: &mut String, gs: &GeneratorState)
    ensures
        final(out)@ == old(out)@ + opctx_ctor_text(*gs),
{
    out.append("let ");
    out.append(gs.opctx.as_str());
    out.append(" = ");
    out.append(gs.deno_core.as_str());
    out.append("::_ops::OpCtx::from_external(");
    out.append(gs.fn_args.as_str());
    out.append(".data());\n");
    proof {
        assert(final(out)@ =~= old(out)@ + opctx_ctor_text(*gs));
    }
}

fn push_throw_err(out: &mut String, gs: &GeneratorState, t: &ThrowErr)
    ensures
        final(out)@ == old(out)@ + throw_err_text(*gs, *t),
{
    if t.scope_inline {
        push_scope_ctor(out, gs);
    }
    if t.args_inline {
        push_args_ctor(out, gs);
    }
    if t.opctx_inline {
        push_opctx_ctor(out, gs);
    }
    out.append("let opstate = ::std::cell::RefCell::borrow(&");
    out.append(gs.opctx.as_str());
    out.append(".state);\n");
    out.append("let exception = ");
    out.append(gs.deno_core.as_str());
    out.append("::error::to_v8_error(");
    out.append(gs.scope.as_str());
    out.append(", opstate.get_error_class_fn, &err);\n");
    out.append(gs.scope.as_str());
    out.append(".throw_exception(exception);\n");
    out.append("return;\n");
    proof {
        assert(final(out)@ =~= old(out)@ + throw_err_text(*gs, *t));
    }
}

pub(crate) fn push_throw_ty(out: &mut String, gs: &GeneratorState, scope_inline: bool, message: &str)
    ensures
        final(out)@ == old(out)@ + throw_ty_text(*gs, scope_inline, message@),
{
    if scope_inline {
        push_scope_ctor(out, gs);
    }
    out.append("let msg = ");
    out.append(gs.deno_core.as_str());
    out.append("::v8::String::new_from_one_byte(");
    out.append(gs.scope.as_str());
    out.append(", \"");
    out.append(message);
    out.append("\".as_bytes(), ");
    out.append(gs.deno_core.as_str());
    out.append("::v8::NewStringType::Normal).unwrap();\n");
    out.append("let exc = ");
    out.append(gs.deno_core.as_str());
    out.append("::v8::Exception::error(");
    out.append(gs.scope.as_str());
    out.append(", msg);\n");
    out.append(gs.scope.as_str());
    out.append(".throw_exception(exc);\n");
    out.append("return;\n");
    proof {
        assert(final(out)@ =~= old(out)@ + throw_ty_text(*gs, scope_inline, message@));
    }
}

/// The diagnostic message of a failed narrowing, as checked text: printable
/// ASCII and far under the engine's and the internal length ceilings.
pub fn expected_message(v8: V8Arg) -> (r: String)
    ensures
        r@ == expected_msg_text(v8),
        vstd::utf8::is_ascii_chars(r@),
        r@.len() < 1024,
{
    proof {
        reveal_strlit("expected v8::");
    }
    let mut m = String::new();
    m.append("expected v8::");
    let name = v8_name(v8);
    m.append(name);
    proof {
        assert(m@ =~= expected_msg_text(v8));
    }
    m
}

fn push_coerce_num(out: &mut String, gs: &GeneratorState, index: usize, kind: NumericArg)
    requires
        index < gs.args@.len(),
    ensures
        final(out)@ == old(out)@ + coerce_num_text(*gs, index as int, kind),
{
    let a: &str = gs.args[index].as_str();
    match kind {
        NumericArg::Bool => {
            out.append("let ");
            out.append(a);
            out.append(" = ");
            out.append(a);
            out.append(".is_true();\n");
        },
        NumericArg::U8 | NumericArg::U16 | NumericArg::U32 => {
            out.append("let ");
            out.append(a);
            out.append(" = ");
            out.append(gs.deno_core.as_str());
            out.append("::_ops::to_u32(&");
            out.append(a);
            out.append(") as _;\n");
        },
        NumericArg::I8 | NumericArg::I16 | NumericArg::I32 | NumericArg::SmallInt => {
            out.append("let ");
            out.append(a);
            out.append(" = ");
            out.append(gs.deno_core.as_str());
            out.append("::_ops::to_i32(&");
            out.append(a);
            out.append(") as _;\n");
        },
        NumericArg::U64 | NumericArg::Usize => {
            out.append("let ");
            out.append(a);
            out.append(" = ");
            out.append(gs.deno_core.as_str());
            out.append("::_ops::to_u64(&");
            out.append(a);
            out.append(") as _;\n");
        },
        NumericArg::I64 | NumericArg::Isize => {
            out.append("let ");
            out.append(a);
            out.append(" = ");
            out.append(gs.deno_core.as_str());
            out.append("::_ops::to_i64(&");
            out.append(a);
            out.append(") as _;\n");
        },
    }
    proof {
        assert(final(out)@ =~= old(out)@ + coerce_num_text(*gs, index as int, kind));
    }
}

fn push_option_head(out: &mut String, gs: &GeneratorState, index: usize)
    requires
        index < gs.args@.len(),
    ensures
        final(out)@ == old(out)@ + option_head_text(*gs, index as int),
{
    let a: &str = gs.args[index].as_str();
    out.append("let ");
    out.append(a);
    out.append(" = if ");
    out.append(a);
    out.append(".is_null_or_undefined() {\n");
    out.append("None\n");
    out.append("} else {\n");
    proof {
        assert(final(out)@ =~= old(out)@ + option_head_text(*gs, index as int));
    }
}

fn push_option_tail(out: &mut String, gs: &GeneratorState, index: usize)
    requires
        index < gs.args@.len(),
    ensures
        final(out)@ == old(out)@ + option_tail_text(*gs, index as int),
{
    let a: &str = gs.args[index].as_str();
    out.append("Some(");
    out.append(a);
    out.append(")\n");
    out.append("};\n");
    proof {
        assert(final(out)@ =~= old(out)@ + option_tail_text(*gs, index as int));
    }
}

fn push_cast(out: &mut String, gs: &GeneratorState, index: usize, v8: V8Arg)
    requires
        index < gs.args@.len(),
    ensures
        final(out)@ == old(out)@ + cast_text(*gs, index as int, v8),
{
    let a: &str = gs.args[index].as_str();
    out.append("let Ok(mut ");
    out.append(a);
    out.append(") = ");
    out.append(gs.deno_core.as_str());
    out.append("::v8::Local::<");
    out.append(gs.deno_core.as_str());
    out.append("::v8::");
    out.append(v8_name(v8));
    out.append(">::try_from(");
    out.append(a);
    out.append(") else {\n");
    let msg = expected_message(v8);
    push_throw_ty(out, gs, false, msg.as_str());
    out.append("};\n");
    proof {
        assert(final(out)@ =~= old(out)@ + cast_text(*gs, index as int, v8));
    }
}

fn push_ret_code(out: &mut String, gs: &GeneratorState, code: RetCode)
    ensures
        final(out)@ == old(out)@ + ret_code_text(*gs, code),
    decreases (if code == RetCode::OptionText {
        1int
    } else {
        0int
    }),
{
    match code {
        RetCode::Nothing => {},
        RetCode::Uint32 => {
            out.append(gs.retval.as_str());
            out.append(".set_uint32(");
            out.append(gs.result.as_str());
            out.append(" as u32);\n");
        },
        RetCode::Int32 => {
            out.append(gs.retval.as_str());
            out.append(".set_int32(");
            out.append(gs.result.as_str());
            out.append(" as i32);\n");
        },
        RetCode::Text => {
            out.append("if ");
            out.append(gs.result.as_str());
            out.append(".is_empty() {\n");
            out.append(gs.retval.as_str());
            out.append(".set_empty_string();\n");
            out.append("} else {\n");
            out.append("let temp = ");
            out.append(gs.deno_core.as_str());
            out.append("::v8::String::new(");
            out.append(gs.scope.as_str());
            out.append(", &");
            out.append(gs.result.as_str());
            out.append(").unwrap();\n");
            out.append(gs.retval.as_str());
            out.append(".set(temp.into());\n");
            out.append("}\n");
        },
        RetCode::OptionText => {
            out.append("if let Some(");
            out.append(gs.result.as_str());
            out.append(") = ");
            out.append(gs.result.as_str());
            out.append(" {\n");
            push_ret_code(out, gs, RetCode::Text);
            out.append("} else {\n");
            out.append(gs.retval.as_str());
            out.append(".set_null();\n");
            out.append("}\n");
        },
        RetCode::Local => {
            out.append(gs.retval.as_str());
            out.append(".set(");
            out.append(gs.result.as_str());
            out.append(".into());\n");
        },
        RetCode::OptionLocal => {
            out.append("if let Some(");
            out.append(gs.result.as_str());
            out.append(") = ");
            out.append(gs.result.as_str());
            out.append(" {\n");
            out.append(gs.retval.as_str());
            out.append(".set(");
            out.append(gs.result.as_str());
            out.append(".into());\n");
            out.append("} else {\n");
            out.append(gs.retval.as_str());
            out.append(".set_null();\n");
            out.append("}\n");
        },
    }
    proof {
        assert(final(out)@ =~= old(out)@ + ret_code_text(*gs, code));
    }
}

fn push_arg_list(out: &mut String, gs: &GeneratorState, argc: usize)
    requires
        argc <= gs.args@.len(),
    ensures
        final(out)@ == old(out)@ + arg_list_text(*gs, argc as int),
{
    let mut i: usize = 0;
    while i < argc
        invariant
            i <= argc,
            argc <= gs.args@.len(),
            out@ == old(out)@ + arg_list_text(*gs, i as int),
        decreases argc - i,
    {
        out.append(gs.args[i].as_str());
        out.append(", ");
        proof {
            assert(out@ =~= old(out)@ + arg_list_text(*gs, (i + 1) as int));
        }
        i = i + 1;
    }
}

fn push_error_pickup(out: &mut String, gs: &GeneratorState, throw: &ThrowErr)
    ensures
        final(out)@ == old(out)@ + stmt_text(*gs, Stmt::ErrorPickup { throw: *throw }),
{
    out.append("if let Some(err) = ");
    out.append(gs.opctx.as_str());
    out.append(".take_last_error() {\n");
    push_throw_err(out, gs, throw);
    out.append("}\n");
    proof {
        assert(final(out)@ =~= old(out)@ + stmt_text(*gs, Stmt::ErrorPickup { throw: *throw }));
    }
}

fn push_extract(out: &mut String, gs: &GeneratorState, index: usize, slot: usize)
    requires
        index < gs.args@.len(),
    ensures
        final(out)@ == old(out)@ + stmt_text(*gs, Stmt::Extract { index, slot }),
{
    out.append("let ");
    out.append(gs.args[index].as_str());
    out.append(" = ");
    out.append(gs.fn_args.as_str());
    out.append(".get(");
    push_dec(out, slot);
    out.append(" as i32);\n");
    proof {
        assert(final(out)@ =~= old(out)@ + stmt_text(*gs, Stmt::Extract { index, slot }));
    }
}

fn push_str_owned(out: &mut String, gs: &GeneratorState, index: usize)
    requires
        index < gs.args@.len(),
    ensures
        final(out)@ == old(out)@ + stmt_text(*gs, Stmt::StrOwned { index }),
{
    let a: &str = gs.args[index].as_str();
    out.append("let ");
    out.append(a);
    out.append(" = ");
    out.append(a);
    out.append(".to_rust_string_lossy(");
    out.append(gs.scope.as_str());
    out.append(");\n");
    proof {
        assert(final(out)@ =~= old(out)@ + stmt_text(*gs, Stmt::StrOwned { index }));
    }
}

fn push_str_ref(out: &mut String, gs: &GeneratorState, index: usize)
    requires
        index < gs.args@.len(),
    ensures
        final(out)@ == old(out)@ + stmt_text(*gs, Stmt::StrRef { index }),
{
    let a: &str = gs.args[index].as_str();
    out.append("let mut ");
    out.append(a);
    out.append(
        "_temp: [::std::mem::MaybeUninit<u8>; 1024] = [::std::mem::MaybeUninit::uninit(); 1024];\n",
    );
    out.append("let ");
    out.append(a);
    out.append(" = &");
    out.append(gs.deno_core.as_str());
    out.append("::_ops::to_str(");
    out.append(gs.scope.as_str());
    out.append(", &");
    out.append(a);
    out.append(", &mut ");
    out.append(a);
    out.append("_temp);\n");
    proof {
        assert(final(out)@ =~= old(out)@ + stmt_text(*gs, Stmt::StrRef { index }));
    }
}

fn push_str_cow(out: &mut String, gs: &GeneratorState, index: usize)
    requires
        index < gs.args@.len(),
    ensures
        final(out)@ == old(out)@ + stmt_text(*gs, Stmt::StrCow { index }),
{
    let a: &str = gs.args[index].as_str();
    out.append("let mut ");
    out.append(a);
    out.append(
        "_temp: [::std::mem::MaybeUninit<u8>; 1024] = [::std::mem::MaybeUninit::uninit(); 1024];\n",
    );
    out.append("let ");
    out.append(a);
    out.append(" = ");
    out.append(gs.deno_core.as_str());
    out.append("::_ops::to_str(");
    out.append(gs.scope.as_str());
    out.append(", &");
    out.append(a);
    out.append(", &mut ");
    out.append(a);
    out.append("_temp);\n");
    proof {
        assert(final(out)@ =~= old(out)@ + stmt_text(*gs, Stmt::StrCow { index }));
    }
}

fn push_bind_scope(out: &mut String, gs: &GeneratorState, index: usize)
    requires
        index < gs.args@.len(),
    ensures
        final(out)@ == old(out)@ + stmt_text(*gs, Stmt::BindScope { index }),
{
    let a: &str = gs.args[index].as_str();
    out.append("let ");
    out.append(a);
    out.append(" = ");
    out.append(gs.scope.as_str());
    out.append(";\n");
    proof {
        assert(final(out)@ =~= old(out)@ + stmt_text(*gs, Stmt::BindScope { index }));
    }
}

fn push_ref_bind(out: &mut String, gs: &GeneratorState, index: usize)
    requires
        index < gs.args@.len(),
    ensures
        final(out)@ == old(out)@ + stmt_text(*gs, Stmt::RefBind { index }),
{
    let a: &str = gs.args[index].as_str();
    out.append("let ");
    out.append(a);
    out.append(" = &");
    out.append(a);
    out.append(";\n");
    proof {
        assert(final(out)@ =~= old(out)@ + stmt_text(*gs, Stmt::RefBind { index }));
    }
}

fn push_map_ref(out: &mut String, gs: &GeneratorState, index: usize, mutable: bool)
    requires
        index < gs.args@.len(),
    ensures
        final(out)@ == old(out)@ + stmt_text(*gs, Stmt::MapRef { index, mutable }),
{
    let a: &str = gs.args[index].as_str();
    out.append("let ");
    out.append(a);
    out.append(" = ");
    out.append(a);
    if mutable {
        out.append(".as_mut().map(|v| ::std::ops::DerefMut::deref_mut(v));\n");
    } else {
        out.append(".as_ref().map(|v| ::std::ops::Deref::deref(v));\n");
    }
    proof {
        assert(final(out)@ =~= old(out)@ + stmt_text(*gs, Stmt::MapRef { index, mutable }));
    }
}

fn push_native_call(out: &mut String, gs: &GeneratorState, argc: usize)
    requires
        argc <= gs.args@.len(),
    ensures
        final(out)@ == old(out)@ + stmt_text(*gs, Stmt::NativeCall { argc }),
{
    out.append("let ");
    out.append(gs.result.as_str());
    out.append(" = Self::call(");
    push_arg_list(out, gs, argc);
    out.append(");\n");
    proof {
        assert(final(out)@ =~= old(out)@ + stmt_text(*gs, Stmt::NativeCall { argc }));
    }
}

fn push_ret_fallible(out: &mut String, gs: &GeneratorState, code: RetCode, throw: &ThrowErr)
    ensures
        final(out)@ == old(out)@ + stmt_text(*gs, Stmt::RetFallible { code, throw: *throw }),
{
    out.append("match ");
    out.append(gs.result.as_str());
    out.append(" {\n");
    out.append("Ok(");
    out.append(gs.result.as_str());
    out.append(") => {\n");
    push_ret_code(out, gs, code);
    out.append("}\n");
    out.append("Err(err) => {\n");
    push_throw_err(out, gs, throw);
    out.append("}\n");
    out.append("};\n");
    proof {
        assert(final(out)@ =~= old(out)@ + stmt_text(
            *gs,
            Stmt::RetFallible { code, throw: *throw },
        ));
    }
}

fn push_option_num(out: &mut String, gs: &GeneratorState, index: usize, kind: NumericArg)
    requires
        index < gs.args@.len(),
    ensures
        final(out)@ == old(out)@ + stmt_text(*gs, Stmt::OptionNum { index, kind }),
{
    push_option_head(out, gs, index);
    push_coerce_num(out, gs, index, kind);
    push_option_tail(out, gs, index);
    proof {
        assert(final(out)@ =~= old(out)@ + stmt_text(*gs, Stmt::OptionNum { index, kind }));
    }
}

fn push_option_cast(out: &mut String, gs: &GeneratorState, index: usize, v8: V8Arg)
    requires
        index < gs.args@.len(),
    ensures
        final(out)@ == old(out)@ + stmt_text(*gs, Stmt::OptionCast { index, v8 }),
{
    push_option_head(out, gs, index);
    push_cast(out, gs, index, v8);
    push_option_tail(out, gs, index);
    proof {
        assert(final(out)@ =~= old(out)@ + stmt_text(*gs, Stmt::OptionCast { index, v8 }));
    }
}

/// Appends the text of one statement.
fn push_stmt(out: &mut String, gs: &GeneratorState, s: &Stmt)
    requires
        s.wf(gs.args@.len() as int),
    ensures
        final(out)@ == old(out)@ + stmt_text(*gs, *s),
{
    match s {
        Stmt::ScopeCtor => push_scope_ctor(out, gs),
        Stmt::RetvalCtor => push_retval_ctor(out, gs),
        Stmt::ArgsCtor => push_args_ctor(out, gs),
        Stmt::OpCtxCtor => push_opctx_ctor(out, gs),
        Stmt::ErrorPickup { throw } => push_error_pickup(out, gs, throw),
        Stmt::Extract { index, slot } => push_extract(out, gs, *index, *slot),
        Stmt::CoerceNum { index, kind } => push_coerce_num(out, gs, *index, *kind),
        Stmt::OptionNum { index, kind } => push_option_num(out, gs, *index, *kind),
        Stmt::StrOwned { index } => push_str_owned(out, gs, *index),
        Stmt::StrRef { index } => push_str_ref(out, gs, *index),
        Stmt::StrCow { index } => push_str_cow(out, gs, *index),
        Stmt::BindScope { index } => push_bind_scope(out, gs, *index),
        Stmt::Cast { index, v8 } => push_cast(out, gs, *index, *v8),
        Stmt::RefBind { index } => push_ref_bind(out, gs, *index),
        Stmt::OptionCast { index, v8 } => push_option_cast(out, gs, *index, *v8),
        Stmt::MapRef { index, mutable } => push_map_ref(out, gs, *index, *mutable),
        Stmt::NativeCall { argc } => push_native_call(out, gs, *argc),
        Stmt::RetInfallible { code } => push_ret_code(out, gs, *code),
        Stmt::RetFallible { code, throw } => push_ret_fallible(out, gs, *code, throw),
    }
}

/// Renders a full trampoline: the function header, each statement of `ss` in
/// order, and the closing brace.
pub fn render_function(gs: &GeneratorState, ss: &Vec<Stmt>) -> (r: String)
    requires
        forall|i: int| 0 <= i < ss@.len() ==> (#[trigger] ss@[i]).wf(gs.args@.len() as int),
    ensures
        r@ == function_text(*gs, ss@),
{
    let mut out = String::new();
    out.append("fn ");
    out.append(gs.slow_function.as_str());
    out.append("(");
    out.append(gs.info.as_str());
    out.append(": &");
    out.append(gs.deno_core.as_str());
    out.append("::v8::FunctionCallbackInfo) {\n");
    let ghost header = out@;
    let mut i: usize = 0;
    while i < ss.len()
        invariant
            i <= ss@.len(),
            forall|j: int| 0 <= j < ss@.len() ==> (#[trigger] ss@[j]).wf(gs.args@.len() as int),
            out@ == header + stmts_text(*gs, ss@.take(i as int)),
        decreases ss@.len() - i,
    {
        push_stmt(&mut out, gs, &ss[i]);
        proof {
            assert(ss@.take(i + 1 as int).drop_last() =~= ss@.take(i as int));
            assert(ss@.take(i + 1 as int).last() == ss@[i as int]);
            assert(out@ =~= header + stmts_text(*gs, ss@.take(i + 1 as int)));
        }
        i = i + 1;
    }
    out.append("}\n");
    proof {
        assert(ss@.take(ss@.len() as int) =~= ss@);
        assert(out@ =~= function_text(*gs, ss@));
    }
    out
}

} // verus!
