use trampoline_gen::dispatch_slow::generate_dispatch_slow;
use trampoline_gen::generator_state::GeneratorState;
use trampoline_gen::signature::Arg;
use trampoline_gen::signature::MacroConfig;
use trampoline_gen::signature::NumericArg;
use trampoline_gen::signature::ParsedSignature;
use trampoline_gen::signature::RefType;
use trampoline_gen::signature::RetVal;
use trampoline_gen::signature::Special;
use trampoline_gen::signature::V8Arg;

fn state(args: &[&str]) -> GeneratorState {
    GeneratorState::new(
        String::from("op_test_slow"),
        args.iter().map(|a| String::from(*a)).collect(),
    )
}

fn generate(fast: bool, args: Vec<Arg>, ret_val: RetVal) -> Result<String, trampoline_gen::signature::V8MappingError> {
    let names: Vec<String> = (0..args.len()).map(|i| format!("a{}", i)).collect();
    let mut gs = GeneratorState::new(String::from("op_test_slow"), names);
    let config = MacroConfig { fast };
    let signature = ParsedSignature { args, ret_val };
    generate_dispatch_slow(&config, &mut gs, &signature)
}

#[test]
fn empty_signature_exact_text() {
    let out = generate(false, vec![], RetVal::Infallible(Arg::Void)).unwrap();
    assert_eq!(
        out,
        "fn op_test_slow(info: &deno_core::v8::FunctionCallbackInfo) {\n\
         let result = Self::call();\n\
         }\n"
    );
}

#[test]
fn u32_refstr_void_scenario_exact_text() {
    // (u32, borrowed string) -> infallible void, no fast path: two extraction
    // and conversion blocks in slot order, a two-argument native call, no
    // return write; scope and arguments-view prologue only.
    let out = generate(
        false,
        vec![Arg::Numeric(NumericArg::U32), Arg::Special(Special::RefStr)],
        RetVal::Infallible(Arg::Void),
    )
    .unwrap();
    assert_eq!(
        out,
        "fn op_test_slow(info: &deno_core::v8::FunctionCallbackInfo) {\n\
         let scope = &mut deno_core::v8::CallbackScope::new(info);\n\
         let fn_args = deno_core::v8::FunctionCallbackArguments::from_function_callback_info(info);\n\
         let a0 = fn_args.get(0 as i32);\n\
         let a0 = deno_core::_ops::to_u32(&a0) as _;\n\
         let a1 = fn_args.get(1 as i32);\n\
         let mut a1_temp: [::std::mem::MaybeUninit<u8>; 1024] = [::std::mem::MaybeUninit::uninit(); 1024];\n\
         let a1 = &deno_core::_ops::to_str(scope, &a1, &mut a1_temp);\n\
         let result = Self::call(a0, a1, );\n\
         }\n"
    );
}

#[test]
fn u32_refstr_void_scenario_prologue_flags() {
    let out = generate(
        false,
        vec![Arg::Numeric(NumericArg::U32), Arg::Special(Special::RefStr)],
        RetVal::Infallible(Arg::Void),
    )
    .unwrap();
    // no error pickup, no return-slot or operation-context constructor
    assert!(!out.contains("take_last_error"));
    assert!(!out.contains("ReturnValue::from_function_callback_info"));
    assert!(!out.contains("OpCtx::from_external"));
    // scope and arguments view are constructed
    assert!(out.contains("CallbackScope::new"));
    assert!(out.contains("FunctionCallbackArguments::from_function_callback_info"));
}

#[test]
fn fast_fallible_option_string_scenario() {
    // () -> fallible optional owned string, with a fast path: the body begins
    // with the error pickup, then a zero-argument native call, then a two-way
    // branch whose success arm checks presence and whose error arm raises
    // through the classification function.
    let out = generate(
        true,
        vec![],
        RetVal::Fallible(Arg::Option(Special::OwnedString)),
    )
    .unwrap();
    let pickup = out.find("take_last_error").expect("error pickup present");
    let call = out.find("Self::call()").expect("native call present");
    let branch = out.find("match result {").expect("two-way branch present");
    assert!(pickup < call && call < branch);
    // the assembled prologue (everything before the pickup block) constructs
    // all four shared objects, each exactly once; the exception blocks may
    // carry their own inline constructors for objects whose flag was not yet
    // set when the block was emitted
    let prologue = &out[..out.find("if let Some(err)").unwrap()];
    for ctor in [
        "let scope = &mut deno_core::v8::CallbackScope::new(info);\n",
        "let mut rv = deno_core::v8::ReturnValue::from_function_callback_info(info);\n",
        "let fn_args = deno_core::v8::FunctionCallbackArguments::from_function_callback_info(info);\n",
        "let opctx = deno_core::_ops::OpCtx::from_external(fn_args.data());\n",
    ] {
        assert_eq!(prologue.matches(ctor).count(), 1, "{ctor}");
    }
    // success arm: present value takes the string write, absent writes null
    assert!(out.contains("if let Some(result) = result {"));
    assert!(out.contains("rv.set_empty_string();"));
    assert!(out.contains("rv.set_null();"));
    // error arm raises via the classification function and exits
    assert!(out.contains("Err(err) => {"));
    assert!(out.contains("deno_core::error::to_v8_error(scope, opstate.get_error_class_fn, &err);"));
    assert!(out.contains("return;"));
}

#[test]
fn mutable_typed_handle_guard_raises_before_call() {
    // A mutable typed-handle argument not narrowable to its subtype: the
    // generated guard raises `expected <subtype>` and exits the trampoline
    // before the native call.
    let out = generate(
        false,
        vec![Arg::V8Ref(RefType::Mut, V8Arg::Object)],
        RetVal::Infallible(Arg::Void),
    )
    .unwrap();
    let guard = out.find("else {").expect("guard mismatch arm present");
    let msg = out.find("expected v8::Object").expect("type-error message present");
    let ret = out.find("return;").expect("exit present");
    let call = out.find("Self::call").expect("native call present");
    assert!(guard < msg && msg < ret && ret < call);
    assert!(out.contains("deno_core::v8::Local::<deno_core::v8::Object>::try_from(a0)"));
}

#[test]
fn generation_is_deterministic() {
    let make = || {
        generate(
            true,
            vec![
                Arg::OptionNumeric(NumericArg::I32),
                Arg::Special(Special::OwnedString),
                Arg::Ref(RefType::Mut, Special::HandleScope),
                Arg::V8Local(V8Arg::Function),
            ],
            RetVal::Fallible(Arg::Special(Special::OwnedString)),
        )
        .unwrap()
    };
    assert_eq!(make(), make());
}

#[test]
fn all_mapped_signatures_generate() {
    let kinds = [
        Arg::Numeric(NumericArg::Bool),
        Arg::Numeric(NumericArg::U8),
        Arg::Numeric(NumericArg::I64),
        Arg::OptionNumeric(NumericArg::U32),
        Arg::Special(Special::OwnedString),
        Arg::Option(Special::OwnedString),
        Arg::Special(Special::RefStr),
        Arg::Special(Special::CowStr),
        Arg::Ref(RefType::Ref, Special::HandleScope),
        Arg::V8Ref(RefType::Ref, V8Arg::Value),
        Arg::V8Local(V8Arg::Array),
        Arg::OptionV8Ref(RefType::Mut, V8Arg::External),
        Arg::OptionV8Local(V8Arg::Uint8Array),
    ];
    for arg in kinds {
        assert!(generate(false, vec![arg], RetVal::Infallible(Arg::Void)).is_ok(), "{arg:?}");
    }
}

#[test]
fn unmapped_argument_fails_with_descriptor_and_role() {
    let err = generate(false, vec![Arg::Void], RetVal::Infallible(Arg::Void)).unwrap_err();
    assert_eq!(
        err,
        trampoline_gen::signature::V8MappingError::NoMapping(
            trampoline_gen::signature::Role::SlowArgument,
            Arg::Void
        )
    );
}

#[test]
fn unmapped_return_fails_with_descriptor_and_role() {
    let err = generate(
        false,
        vec![Arg::Numeric(NumericArg::U32)],
        RetVal::Infallible(Arg::Numeric(NumericArg::U64)),
    )
    .unwrap_err();
    assert_eq!(
        err,
        trampoline_gen::signature::V8MappingError::NoMapping(
            trampoline_gen::signature::Role::SlowReturnValue,
            Arg::Numeric(NumericArg::U64)
        )
    );
}

#[test]
fn first_unmapped_argument_is_reported() {
    let err = generate(
        false,
        vec![
            Arg::Numeric(NumericArg::U32),
            Arg::Special(Special::HandleScope),
            Arg::Void,
        ],
        RetVal::Infallible(Arg::Void),
    )
    .unwrap_err();
    assert_eq!(
        err,
        trampoline_gen::signature::V8MappingError::NoMapping(
            trampoline_gen::signature::Role::SlowArgument,
            Arg::Special(Special::HandleScope)
        )
    );
}

#[test]
fn virtual_argument_keeps_call_slots() {
    // Two signatures differing only by one inserted virtual argument bind the
    // same call slots to the real arguments.
    let without = generate(
        false,
        vec![Arg::Numeric(NumericArg::U32), Arg::Numeric(NumericArg::I32)],
        RetVal::Infallible(Arg::Void),
    )
    .unwrap();
    let with = generate(
        false,
        vec![
            Arg::Numeric(NumericArg::U32),
            Arg::Ref(RefType::Mut, Special::HandleScope),
            Arg::Numeric(NumericArg::I32),
        ],
        RetVal::Infallible(Arg::Void),
    )
    .unwrap();
    assert!(without.contains("let a0 = fn_args.get(0 as i32);"));
    assert!(without.contains("let a1 = fn_args.get(1 as i32);"));
    assert!(with.contains("let a0 = fn_args.get(0 as i32);"));
    assert!(with.contains("let a2 = fn_args.get(1 as i32);"));
    // the virtual argument consumes no slot and is converted after the reals
    assert!(!with.contains("fn_args.get(2 as i32)"));
    let scope_bind = with.find("let a1 = scope;").expect("virtual binding present");
    let last_real = with.find("let a2 = deno_core::_ops::to_i32").expect("real conversion");
    assert!(scope_bind > last_real);
    // virtual arguments still appear in native-call argument order
    assert!(with.contains("Self::call(a0, a1, a2, )"));
}

#[test]
fn optional_numeric_round_trip() {
    let plain = generate(
        false,
        vec![Arg::Numeric(NumericArg::U32)],
        RetVal::Infallible(Arg::Void),
    )
    .unwrap();
    let optional = generate(
        false,
        vec![Arg::OptionNumeric(NumericArg::U32)],
        RetVal::Infallible(Arg::Void),
    )
    .unwrap();
    let conversion = "let a0 = deno_core::_ops::to_u32(&a0) as _;\n";
    assert!(plain.contains(conversion));
    // the present arm holds exactly the non-optional conversion, wrapped
    assert!(optional.contains(
        "let a0 = if a0.is_null_or_undefined() {\nNone\n} else {\nlet a0 = deno_core::_ops::to_u32(&a0) as _;\nSome(a0)\n};\n"
    ));
    // the absent arm binds no value: the helper appears once, in the present arm only
    assert_eq!(optional.matches("to_u32").count(), 1);
}

#[test]
fn optional_handle_round_trip() {
    let optional = generate(
        false,
        vec![Arg::OptionV8Local(V8Arg::Function)],
        RetVal::Infallible(Arg::Void),
    )
    .unwrap();
    assert!(optional.contains("let a0 = if a0.is_null_or_undefined() {\nNone\n} else {\nlet Ok(mut a0) = deno_core::v8::Local::<deno_core::v8::Function>::try_from(a0) else {"));
    assert!(optional.contains("Some(a0)\n};\n"));
    assert_eq!(optional.matches("try_from").count(), 1);
}

#[test]
fn fallible_return_arms_are_disjoint() {
    let out = generate(
        false,
        vec![],
        RetVal::Fallible(Arg::Numeric(NumericArg::U32)),
    )
    .unwrap();
    // both arms rebind the same result identifier
    assert!(out.contains("Ok(result) => {"));
    assert!(out.contains("Err(err) => {"));
    let ok_arm = out.find("Ok(result) => {").unwrap();
    let err_arm = out.find("Err(err) => {").unwrap();
    let success = out.find("rv.set_uint32(result as u32);").expect("success encoding");
    let exception = out.find("to_v8_error").expect("exception construction");
    // the success encoding stands in the success arm only, the exception in
    // the error arm only
    assert!(ok_arm < success && success < err_arm);
    assert!(err_arm < exception);
    assert_eq!(out.matches("set_uint32").count(), 1);
    assert_eq!(out.matches("to_v8_error").count(), 1);
}

#[test]
fn signed_and_string_returns_write_the_slot() {
    let signed = generate(
        false,
        vec![],
        RetVal::Infallible(Arg::Numeric(NumericArg::I16)),
    )
    .unwrap();
    assert!(signed.contains("rv.set_int32(result as i32);"));
    let text = generate(
        false,
        vec![],
        RetVal::Infallible(Arg::Special(Special::OwnedString)),
    )
    .unwrap();
    assert!(text.contains("if result.is_empty() {"));
    assert!(text.contains("rv.set_empty_string();"));
    assert!(text.contains("deno_core::v8::String::new(scope, &result).unwrap();"));
    let handle = generate(false, vec![], RetVal::Infallible(Arg::V8Local(V8Arg::Value))).unwrap();
    assert!(handle.contains("rv.set(result.into());"));
}

#[test]
fn slow_only_fallible_picks_up_no_error() {
    // Without a fast path there is no error pickup, even for a fallible
    // return; the exception arm constructs the operation context inline.
    let out = generate(false, vec![], RetVal::Fallible(Arg::Void)).unwrap();
    assert!(!out.contains("take_last_error"));
    let err_arm = out.find("Err(err) => {").unwrap();
    let inline_opctx = out.find("OpCtx::from_external").expect("inline context");
    assert!(inline_opctx > err_arm);
}

#[test]
fn type_error_block_renders_message() {
    let gs = state(&[]);
    let block = trampoline_gen::dispatch_slow::throw_type_error(&gs, "expected v8::Function");
    let text = trampoline_gen::dispatch_slow::render_throw_type_error(&gs, &block);
    // the scope was not yet requested, so the block constructs it inline
    assert!(text.starts_with("let scope = &mut deno_core::v8::CallbackScope::new(info);\n"));
    assert!(text.contains("\"expected v8::Function\".as_bytes()"));
    assert!(text.contains("deno_core::v8::Exception::error(scope, msg);"));
    assert!(text.ends_with("return;\n"));

    let mut with_scope = state(&[]);
    with_scope.needs_scope = true;
    let block2 = trampoline_gen::dispatch_slow::throw_type_error(&with_scope, "expected v8::Function");
    let text2 = trampoline_gen::dispatch_slow::render_throw_type_error(&with_scope, &block2);
    assert!(!text2.contains("CallbackScope::new"));
}

#[test]
fn numeric_coercions_use_width_class_helpers() {
    let cases = [
        (NumericArg::Bool, "let a0 = a0.is_true();\n"),
        (NumericArg::U8, "let a0 = deno_core::_ops::to_u32(&a0) as _;\n"),
        (NumericArg::U16, "let a0 = deno_core::_ops::to_u32(&a0) as _;\n"),
        (NumericArg::I8, "let a0 = deno_core::_ops::to_i32(&a0) as _;\n"),
        (NumericArg::SmallInt, "let a0 = deno_core::_ops::to_i32(&a0) as _;\n"),
        (NumericArg::U64, "let a0 = deno_core::_ops::to_u64(&a0) as _;\n"),
        (NumericArg::Usize, "let a0 = deno_core::_ops::to_u64(&a0) as _;\n"),
        (NumericArg::I64, "let a0 = deno_core::_ops::to_i64(&a0) as _;\n"),
        (NumericArg::Isize, "let a0 = deno_core::_ops::to_i64(&a0) as _;\n"),
    ];
    for (kind, line) in cases {
        let out = generate(false, vec![Arg::Numeric(kind)], RetVal::Infallible(Arg::Void)).unwrap();
        assert!(out.contains(line), "{kind:?}: {out}");
    }
}

#[test]
fn string_conversions() {
    let owned = generate(
        false,
        vec![Arg::Special(Special::OwnedString)],
        RetVal::Infallible(Arg::Void),
    )
    .unwrap();
    assert!(owned.contains("let a0 = a0.to_rust_string_lossy(scope);\n"));
    let cow = generate(
        false,
        vec![Arg::Special(Special::CowStr)],
        RetVal::Infallible(Arg::Void),
    )
    .unwrap();
    // the copy-on-write form keeps the decoded view by value
    assert!(cow.contains("let a0 = deno_core::_ops::to_str(scope, &a0, &mut a0_temp);\n"));
    assert!(cow.contains("[::std::mem::MaybeUninit<u8>; 1024]"));
}

#[test]
fn optional_handle_refs_map_through_deref() {
    let shared = generate(
        false,
        vec![Arg::OptionV8Ref(RefType::Ref, V8Arg::Value)],
        RetVal::Infallible(Arg::Void),
    )
    .unwrap();
    assert!(shared.contains("let a0 = a0.as_ref().map(|v| ::std::ops::Deref::deref(v));\n"));
    let exclusive = generate(
        false,
        vec![Arg::OptionV8Ref(RefType::Mut, V8Arg::Value)],
        RetVal::Infallible(Arg::Void),
    )
    .unwrap();
    assert!(exclusive.contains("let a0 = a0.as_mut().map(|v| ::std::ops::DerefMut::deref_mut(v));\n"));
}

#[test]
fn two_digit_call_slots_render_in_decimal() {
    let args: Vec<Arg> = (0..12).map(|_| Arg::Numeric(NumericArg::U32)).collect();
    let out = generate(false, args, RetVal::Infallible(Arg::Void)).unwrap();
    assert!(out.contains("let a9 = fn_args.get(9 as i32);"));
    assert!(out.contains("let a10 = fn_args.get(10 as i32);"));
    assert!(out.contains("let a11 = fn_args.get(11 as i32);"));
}

#[test]
fn optional_handle_owned_null_writes() {
    let out = generate(
        false,
        vec![],
        RetVal::Infallible(Arg::OptionV8Local(V8Arg::Value)),
    )
    .unwrap();
    assert!(out.contains("if let Some(result) = result {"));
    assert!(out.contains("rv.set(result.into());"));
    assert!(out.contains("rv.set_null();"));
}
