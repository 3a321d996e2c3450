//! Library-wide laws, each proved from the contracts and spec functions of the
//! generator modules.

use vstd::prelude::*;
use crate::code::RetCode;
use crate::code::Stmt;
use crate::code::ThrowErr;
use crate::code::arg_list_text;
use crate::code::function_text;
use crate::code::option_head_text;
use crate::code::option_tail_text;
use crate::code::ret_code_text;
use crate::code::stmt_text;
use crate::code::stmts_text;
use crate::code::throw_err_text;
use crate::dispatch_slow::any_arg_scope;
use crate::dispatch_slow::arg_needs_scope;
use crate::dispatch_slow::args_flag;
use crate::dispatch_slow::deferred_stmts;
use crate::dispatch_slow::from_arg_stmts;
use crate::dispatch_slow::opctx_flag;
use crate::dispatch_slow::program;
use crate::dispatch_slow::program_body;
use crate::dispatch_slow::prologue_stmts;
use crate::dispatch_slow::real_count;
use crate::dispatch_slow::real_stmts;
use crate::dispatch_slow::ret_code_of;
use crate::dispatch_slow::ret_needs_scope;
use crate::dispatch_slow::ret_stmts;
use crate::dispatch_slow::retval_flag;
use crate::dispatch_slow::scope_flag;
use crate::dispatch_slow::sig_mapped;
use crate::dispatch_slow::throw_err_of;
use crate::generator_state::GeneratorState;
use crate::signature::Arg;
use crate::signature::NumericArg;
use crate::signature::ParsedSignature;
use crate::signature::RetVal;
use crate::signature::V8Arg;

verus! {

/// The text of one statement depends only on the binding names of the
/// generation context, never on its request flags.
proof fn lemma_arg_list_text_names(gs1: GeneratorState, gs2: GeneratorState, n: int)
    requires
        gs1.names_eq(gs2),
    ensures
        arg_list_text(gs1, n) == arg_list_text(gs2, n),
    decreases n,
{
    if n > 0 {
        lemma_arg_list_text_names(gs1, gs2, n - 1);
    }
}

/// The text of one statement depends only on the binding names of the
/// generation context, never on its request flags.
proof fn lemma_stmt_text_names(gs1: GeneratorState, gs2: GeneratorState, s: Stmt)
    requires
        gs1.names_eq(gs2),
    ensures
        stmt_text(gs1, s) == stmt_text(gs2, s),
{
    match s {
        Stmt::NativeCall { argc } => {
            lemma_arg_list_text_names(gs1, gs2, argc as int);
        },
        Stmt::RetInfallible { code } => {
            assert(ret_code_text(gs1, RetCode::Text) == ret_code_text(gs2, RetCode::Text));
        },
        Stmt::RetFallible { code, throw } => {
            assert(ret_code_text(gs1, RetCode::Text) == ret_code_text(gs2, RetCode::Text));
        },
        _ => {},
    }
}

/// The text of a statement sequence depends only on the binding names.
proof fn lemma_stmts_text_names(gs1: GeneratorState, gs2: GeneratorState, ss: Seq<Stmt>)
    requires
        gs1.names_eq(gs2),
    ensures
        stmts_text(gs1, ss) == stmts_text(gs2, ss),
    decreases ss.len(),
{
    if ss.len() > 0 {
        lemma_stmts_text_names(gs1, gs2, ss.drop_last());
        lemma_stmt_text_names(gs1, gs2, ss.last());
    }
}

/// Generation is deterministic: the trampoline text is a pure function of the
/// signature, the fast-path flag and the chosen binding names. Two generation
/// passes whose contexts agree on every binding name produce byte-identical
/// source text, whatever their flag state.
pub proof fn lemma_generation_deterministic(
    fast: bool,
    sig: ParsedSignature,
    gs1: GeneratorState,
    gs2: GeneratorState,
)
    requires
        gs1.names_eq(gs2),
    ensures
        function_text(gs1, program(fast, sig)) == function_text(gs2, program(fast, sig)),
{
    lemma_stmts_text_names(gs1, gs2, program(fast, sig));
}

/// Virtual descriptors never advance the call-slot index: the slot bound
/// after a virtual descriptor is the slot bound before it.
pub proof fn lemma_virtual_keeps_slot(args: Seq<Arg>, i: int)
    requires
        0 <= i < args.len(),
        args[i].spec_is_virtual(),
    ensures
        real_count(args, i + 1) == real_count(args, i),
{
}

/// Inserting one virtual descriptor anywhere in a signature leaves the call
/// slot of every real argument unchanged: descriptors before the insertion
/// point keep their slot, and each descriptor after it keeps its slot at its
/// shifted position.
pub proof fn lemma_insert_virtual_slots(args: Seq<Arg>, v: Arg, p: int, i: int)
    requires
        v.spec_is_virtual(),
        0 <= p <= args.len(),
        0 <= i <= args.len(),
    ensures
        i <= p ==> real_count(args.insert(p, v), i) == real_count(args, i),
        i >= p ==> real_count(args.insert(p, v), i + 1) == real_count(args, i),
    decreases i,
{
    let ins = args.insert(p, v);
    if i > 0 {
        lemma_insert_virtual_slots(args, v, p, i - 1);
        if i - 1 < p {
            assert(ins[i - 1] == args[i - 1]);
        }
    }
    if i >= p {
        assert(ins[p] == v);
        if i == p {
            assert(real_count(ins, p + 1) == real_count(ins, p));
        } else {
            assert(ins[i] == args[i - 1]);
            assert(real_count(ins, i + 1) == real_count(ins, i) + if args[i - 1].spec_is_virtual() {
                0int
            } else {
                1int
            });
        }
    }
}

/// Optional numeric descriptors round-trip: the emitted statement is a
/// null/undefined check whose absent arm binds no value and calls no per-kind
/// conversion helper, and whose present arm is exactly the statement of the
/// non-optional form, wrapped in "has value".
pub proof fn lemma_option_numeric_round_trip(gs: GeneratorState, index: usize, k: NumericArg)
    ensures
        from_arg_stmts(index, Arg::OptionNumeric(k)) == seq![Stmt::OptionNum { index, kind: k }],
        from_arg_stmts(index, Arg::Numeric(k)) == seq![Stmt::CoerceNum { index, kind: k }],
        stmt_text(gs, Stmt::OptionNum { index, kind: k }) == option_head_text(gs, index as int)
            + stmt_text(gs, Stmt::CoerceNum { index, kind: k }) + option_tail_text(
            gs,
            index as int,
        ),
{
}

/// Optional typed-handle descriptors round-trip the same way: the present arm
/// is exactly the checked narrowing of the non-optional owned form.
pub proof fn lemma_option_handle_round_trip(gs: GeneratorState, index: usize, t: V8Arg)
    ensures
        from_arg_stmts(index, Arg::OptionV8Local(t)) == seq![Stmt::OptionCast { index, v8: t }],
        from_arg_stmts(index, Arg::V8Local(t)) == seq![Stmt::Cast { index, v8: t }],
        stmt_text(gs, Stmt::OptionCast { index, v8: t }) == option_head_text(gs, index as int)
            + stmt_text(gs, Stmt::Cast { index, v8: t }) + option_tail_text(gs, index as int),
{
}

/// A fallible return is one two-way branch: the success arm holds exactly the
/// infallible encoding of the payload and never the exception block, the
/// error arm holds exactly the exception block and never the success
/// encoding, and both arms rebind the same symbolic result identifier.
pub proof fn lemma_fallible_arms(gs: GeneratorState, code: RetCode, t: ThrowErr)
    ensures
        stmt_text(gs, Stmt::RetFallible { code, throw: t }) == "match "@ + gs.result@ + " {\n"@
            + "Ok("@ + gs.result@ + ") => {\n"@ + stmt_text(gs, Stmt::RetInfallible { code })
            + "}\n"@ + "Err(err) => {\n"@ + throw_err_text(gs, t) + "}\n"@ + "};\n"@,
{
}

/// Whether a statement is one of the four shared-object constructors.
pub open spec fn is_prologue_ctor(s: Stmt) -> bool {
    s == Stmt::ScopeCtor || s == Stmt::RetvalCtor || s == Stmt::ArgsCtor || s == Stmt::OpCtxCtor
}

/// How many statements of `ss` equal `t`.
pub open spec fn count_stmt(ss: Seq<Stmt>, t: Stmt) -> int
    decreases ss.len(),
{
    if ss.len() == 0 {
        0
    } else {
        count_stmt(ss.drop_last(), t) + if ss.last() == t {
            1int
        } else {
            0int
        }
    }
}

proof fn lemma_count_concat(a: Seq<Stmt>, b: Seq<Stmt>, t: Stmt)
    ensures
        count_stmt(a + b, t) == count_stmt(a, t) + count_stmt(b, t),
    decreases b.len(),
{
    if b.len() == 0 {
        assert(a + b =~= a);
    } else {
        assert((a + b).drop_last() =~= a + b.drop_last());
        lemma_count_concat(a, b.drop_last(), t);
    }
}

/// A prefix count of slot-consuming descriptors is never negative.
proof fn lemma_real_count_nonneg(args: Seq<Arg>, n: int)
    ensures
        real_count(args, n) >= 0,
    decreases n,
{
    if n > 0 {
        lemma_real_count_nonneg(args, n - 1);
    }
}

proof fn lemma_count_zero(ss: Seq<Stmt>, t: Stmt)
    requires
        forall|j: int| 0 <= j < ss.len() ==> ss[j] != t,
    ensures
        count_stmt(ss, t) == 0,
    decreases ss.len(),
{
    if ss.len() > 0 {
        lemma_count_zero(ss.drop_last(), t);
    }
}

proof fn lemma_count_singleton(x: Stmt, t: Stmt)
    ensures
        count_stmt(seq![x], t) == if x == t {
            1int
        } else {
            0int
        },
{
    let s = seq![x];
    assert(s.len() == 1);
    assert(s.last() == x);
    assert(s.drop_last() =~= Seq::<Stmt>::empty());
    reveal_with_fuel(count_stmt, 2);
    assert(count_stmt(s.drop_last(), t) == 0);
}

/// What the converter's statements for one descriptor are like: never a
/// prologue constructor; they read no shared object except the scope, and the
/// scope only when the descriptor requests it.
proof fn lemma_from_arg_elems(index: usize, a: Arg)
    ensures
        forall|j: int|
            0 <= j < from_arg_stmts(index, a).len() ==> !is_prologue_ctor(
                #[trigger] from_arg_stmts(index, a)[j],
            ) && !from_arg_stmts(index, a)[j].uses_retval() && !from_arg_stmts(
                index,
                a,
            )[j].uses_opctx() && !from_arg_stmts(index, a)[j].uses_args() && (from_arg_stmts(
                index,
                a,
            )[j].uses_scope() ==> arg_needs_scope(a)),
{
    let s = from_arg_stmts(index, a);
    assert forall|j: int| 0 <= j < s.len() implies !is_prologue_ctor(#[trigger] s[j])
        && !s[j].uses_retval() && !s[j].uses_opctx() && !s[j].uses_args() && (s[j].uses_scope()
        ==> arg_needs_scope(a)) by {
        match a {
            Arg::V8Ref(_, t) => {
                assert(s[0] == (Stmt::Cast { index, v8: t }));
                assert(s[1] == (Stmt::RefBind { index }));
            },
            Arg::OptionV8Ref(rt, t) => {
                assert(s[0] == (Stmt::OptionCast { index, v8: t }));
            },
            _ => {
                if s.len() > 0 {
                    assert(j == 0);
                }
            },
        }
    }
}

/// What the real-argument statements of a prefix are like: never a prologue
/// constructor; they read the scope only if some descriptor of the prefix
/// requests it, the arguments view only if the prefix has a real descriptor,
/// and never the return slot or the operation context.
proof fn lemma_real_elems(args: Seq<Arg>, n: int)
    requires
        0 <= n <= args.len(),
    ensures
        forall|j: int|
            0 <= j < real_stmts(args, n).len() ==> !is_prologue_ctor(
                #[trigger] real_stmts(args, n)[j],
            ) && !real_stmts(args, n)[j].uses_retval() && !real_stmts(args, n)[j].uses_opctx() && (
            real_stmts(args, n)[j].uses_scope() ==> any_arg_scope(args, n)) && (real_stmts(
                args,
                n,
            )[j].uses_args() ==> real_count(args, n) > 0),
    decreases n,
{
    if n > 0 {
        lemma_real_elems(args, n - 1);
        lemma_from_arg_elems((n - 1) as usize, args[n - 1]);
        let cur = real_stmts(args, n);
        let prev = real_stmts(args, n - 1);
        let conv = from_arg_stmts((n - 1) as usize, args[n - 1]);
        let add = if args[n - 1].spec_is_virtual() {
            Seq::<Stmt>::empty()
        } else {
            seq![
                Stmt::Extract { index: (n - 1) as usize, slot: real_count(args, n - 1) as usize },
            ] + conv
        };
        assert(cur == prev + add);
        lemma_real_count_nonneg(args, n - 1);
        assert(real_count(args, n) >= real_count(args, n - 1));
        assert forall|j: int|
            0 <= j < cur.len() implies !is_prologue_ctor(#[trigger] cur[j])
            && !cur[j].uses_retval() && !cur[j].uses_opctx() && (cur[j].uses_scope()
            ==> any_arg_scope(args, n)) && (cur[j].uses_args() ==> real_count(args, n) > 0) by {
            if j < prev.len() {
                assert(cur[j] == prev[j]);
            } else {
                assert(cur[j] == add[j - prev.len()]);
                if !args[n - 1].spec_is_virtual() {
                    assert(real_count(args, n) == real_count(args, n - 1) + 1);
                    if j - prev.len() > 0 {
                        assert(add[j - prev.len()] == conv[j - prev.len() - 1]);
                        assert(arg_needs_scope(args[n - 1]) ==> any_arg_scope(args, n));
                    }
                }
            }
        }
    }
}

/// The deferred virtual-argument statements are like the real ones: no
/// constructors, no shared-object reads but the scope, which every virtual
/// descriptor requests.
proof fn lemma_deferred_elems(args: Seq<Arg>, n: int)
    requires
        0 <= n <= args.len(),
    ensures
        forall|j: int|
            0 <= j < deferred_stmts(args, n).len() ==> !is_prologue_ctor(
                #[trigger] deferred_stmts(args, n)[j],
            ) && !deferred_stmts(args, n)[j].uses_retval() && !deferred_stmts(
                args,
                n,
            )[j].uses_opctx() && !deferred_stmts(args, n)[j].uses_args() && (deferred_stmts(
                args,
                n,
            )[j].uses_scope() ==> any_arg_scope(args, n)),
    decreases n,
{
    if n > 0 {
        lemma_deferred_elems(args, n - 1);
        lemma_from_arg_elems((n - 1) as usize, args[n - 1]);
        let cur = deferred_stmts(args, n);
        let prev = deferred_stmts(args, n - 1);
        let conv = from_arg_stmts((n - 1) as usize, args[n - 1]);
        let add = if args[n - 1].spec_is_virtual() {
            conv
        } else {
            Seq::<Stmt>::empty()
        };
        assert(cur == prev + add);
        assert forall|j: int|
            0 <= j < cur.len() implies !is_prologue_ctor(#[trigger] cur[j])
            && !cur[j].uses_retval() && !cur[j].uses_opctx() && !cur[j].uses_args() && (
            cur[j].uses_scope() ==> any_arg_scope(args, n)) by {
            if j < prev.len() {
                assert(cur[j] == prev[j]);
            } else {
                assert(cur[j] == add[j - prev.len()]);
                assert(arg_needs_scope(args[n - 1]) ==> any_arg_scope(args, n));
            }
        }
    }
}

/// Every statement of a trampoline body is a converter, encoder or pickup
/// statement, never a prologue constructor; and a body statement reads a
/// shared object's binding only if the signature's final flag for that object
/// is set, so its constructor stands in the prologue.
proof fn lemma_body_elems(fast: bool, sig: ParsedSignature)
    requires
        sig_mapped(sig),
    ensures
        forall|j: int|
            0 <= j < program_body(fast, sig).len() ==> !is_prologue_ctor(
                #[trigger] program_body(fast, sig)[j],
            ) && (program_body(fast, sig)[j].uses_scope() ==> scope_flag(sig)) && (program_body(
                fast,
                sig,
            )[j].uses_retval() ==> retval_flag(sig)) && (program_body(fast, sig)[j].uses_args()
                ==> args_flag(sig)) && (program_body(fast, sig)[j].uses_opctx() ==> opctx_flag(
                fast,
                sig,
            )),
{
    let args = sig.args@;
    let n = args.len() as int;
    let body = program_body(fast, sig);
    lemma_real_elems(args, n);
    lemma_deferred_elems(args, n);
    lemma_real_count_nonneg(args, n);
    let opctx_c = opctx_flag(fast, sig);
    let scope_c = any_arg_scope(args, n);
    let args_c = real_count(args, n) > 0;
    let pickup = if opctx_c {
        seq![Stmt::ErrorPickup { throw: throw_err_of(false, false, true) }]
    } else {
        Seq::<Stmt>::empty()
    };
    let re = real_stmts(args, n);
    let de = deferred_stmts(args, n);
    let ca = seq![Stmt::NativeCall { argc: args.len() as usize }];
    let rs = ret_stmts(sig.ret_val, scope_c, args_c, opctx_c);
    assert(body == pickup + re + de + ca + rs);
    assert forall|j: int|
        0 <= j < body.len() implies !is_prologue_ctor(#[trigger] body[j]) && (body[j].uses_scope()
        ==> scope_flag(sig)) && (body[j].uses_retval() ==> retval_flag(sig)) && (
    body[j].uses_args() ==> args_flag(sig)) && (body[j].uses_opctx() ==> opctx_flag(fast, sig)) by {
        let p = pickup.len() as int;
        if j < p {
            assert(body[j] == pickup[0]);
        } else if j < p + re.len() {
            assert(body[j] == re[j - p]);
        } else if j < p + re.len() + de.len() {
            assert(body[j] == de[j - p - re.len()]);
        } else if j < p + re.len() + de.len() + 1 {
            assert(body[j] == ca[0]);
        } else {
            assert(body[j] == rs[0]);
            let a = sig.ret_val.spec_payload();
            match sig.ret_val {
                RetVal::Infallible(_) => {
                    assert(rs[0] == (Stmt::RetInfallible { code: ret_code_of(a) }));
                },
                RetVal::Fallible(_) => {
                    assert(rs[0] == (Stmt::RetFallible {
                        code: ret_code_of(a),
                        throw: throw_err_of(scope_c || ret_needs_scope(a), args_c, opctx_c),
                    }));
                },
            }
        }
    }
}

/// For any trampoline whose signature requests a shared prologue object from
/// at least one converter or encoder step, the assembled prologue contains
/// exactly one constructor statement for that object, and none for an object
/// no step requested, however many independent steps requested it.
pub proof fn lemma_prologue_exactly_once(fast: bool, sig: ParsedSignature)
    requires
        sig_mapped(sig),
    ensures
        count_stmt(program(fast, sig), Stmt::ScopeCtor) == if scope_flag(sig) {
            1int
        } else {
            0int
        },
        count_stmt(program(fast, sig), Stmt::RetvalCtor) == if retval_flag(sig) {
            1int
        } else {
            0int
        },
        count_stmt(program(fast, sig), Stmt::ArgsCtor) == if args_flag(sig) {
            1int
        } else {
            0int
        },
        count_stmt(program(fast, sig), Stmt::OpCtxCtor) == if opctx_flag(fast, sig) {
            1int
        } else {
            0int
        },
{
    let pro = prologue_stmts(scope_flag(sig), retval_flag(sig), args_flag(sig), opctx_flag(fast, sig));
    let body = program_body(fast, sig);
    assert(program(fast, sig) == pro + body);
    lemma_body_elems(fast, sig);
    let p1 = if scope_flag(sig) {
        seq![Stmt::ScopeCtor]
    } else {
        Seq::<Stmt>::empty()
    };
    let p2 = if retval_flag(sig) {
        seq![Stmt::RetvalCtor]
    } else {
        Seq::<Stmt>::empty()
    };
    let p3 = if args_flag(sig) {
        seq![Stmt::ArgsCtor]
    } else {
        Seq::<Stmt>::empty()
    };
    let p4 = if opctx_flag(fast, sig) {
        seq![Stmt::OpCtxCtor]
    } else {
        Seq::<Stmt>::empty()
    };
    assert(pro == p1 + p2 + p3 + p4);
    assert forall|t: Stmt| #[trigger] is_prologue_ctor(t) implies count_stmt(program(fast, sig), t)
        == count_stmt(p1, t) + count_stmt(p2, t) + count_stmt(p3, t) + count_stmt(p4, t) by {
        lemma_count_concat(pro, body, t);
        lemma_count_zero(body, t);
        lemma_count_concat(p1 + p2 + p3, p4, t);
        lemma_count_concat(p1 + p2, p3, t);
        lemma_count_concat(p1, p2, t);
    }
    assert(is_prologue_ctor(Stmt::ScopeCtor));
    assert(is_prologue_ctor(Stmt::RetvalCtor));
    assert(is_prologue_ctor(Stmt::ArgsCtor));
    assert(is_prologue_ctor(Stmt::OpCtxCtor));
    lemma_count_singleton(Stmt::ScopeCtor, Stmt::ScopeCtor);
    lemma_count_singleton(Stmt::ScopeCtor, Stmt::RetvalCtor);
    lemma_count_singleton(Stmt::ScopeCtor, Stmt::ArgsCtor);
    lemma_count_singleton(Stmt::ScopeCtor, Stmt::OpCtxCtor);
    lemma_count_singleton(Stmt::RetvalCtor, Stmt::ScopeCtor);
    lemma_count_singleton(Stmt::RetvalCtor, Stmt::RetvalCtor);
    lemma_count_singleton(Stmt::RetvalCtor, Stmt::ArgsCtor);
    lemma_count_singleton(Stmt::RetvalCtor, Stmt::OpCtxCtor);
    lemma_count_singleton(Stmt::ArgsCtor, Stmt::ScopeCtor);
    lemma_count_singleton(Stmt::ArgsCtor, Stmt::RetvalCtor);
    lemma_count_singleton(Stmt::ArgsCtor, Stmt::ArgsCtor);
    lemma_count_singleton(Stmt::ArgsCtor, Stmt::OpCtxCtor);
    lemma_count_singleton(Stmt::OpCtxCtor, Stmt::ScopeCtor);
    lemma_count_singleton(Stmt::OpCtxCtor, Stmt::RetvalCtor);
    lemma_count_singleton(Stmt::OpCtxCtor, Stmt::ArgsCtor);
    lemma_count_singleton(Stmt::OpCtxCtor, Stmt::OpCtxCtor);
}

/// The constructor of each requested shared object precedes every statement
/// that reads the object's binding: a body statement reading a binding stands
/// after the whole prologue, and within the prologue the operation-context
/// constructor, which reads the arguments view, stands after the
/// arguments-view constructor.
pub proof fn lemma_prologue_precedes_use(fast: bool, sig: ParsedSignature)
    requires
        sig_mapped(sig),
    ensures
        forall|j: int|
            0 <= j < program(fast, sig).len() && (#[trigger] program(fast, sig)[j]).uses_scope()
                ==> exists|c: int| 0 <= c < j && program(fast, sig)[c] == Stmt::ScopeCtor,
        forall|j: int|
            0 <= j < program(fast, sig).len() && (#[trigger] program(fast, sig)[j]).uses_retval()
                ==> exists|c: int| 0 <= c < j && program(fast, sig)[c] == Stmt::RetvalCtor,
        forall|j: int|
            0 <= j < program(fast, sig).len() && (#[trigger] program(fast, sig)[j]).uses_args()
                ==> exists|c: int| 0 <= c < j && program(fast, sig)[c] == Stmt::ArgsCtor,
        forall|j: int|
            0 <= j < program(fast, sig).len() && (#[trigger] program(fast, sig)[j]).uses_opctx()
                ==> exists|c: int| 0 <= c < j && program(fast, sig)[c] == Stmt::OpCtxCtor,
{
    let pro = prologue_stmts(scope_flag(sig), retval_flag(sig), args_flag(sig), opctx_flag(fast, sig));
    let body = program_body(fast, sig);
    let prog = program(fast, sig);
    assert(prog == pro + body);
    lemma_body_elems(fast, sig);
    let s: int = if scope_flag(sig) {
        1
    } else {
        0
    };
    let r: int = if retval_flag(sig) {
        1
    } else {
        0
    };
    let a: int = if args_flag(sig) {
        1
    } else {
        0
    };
    let o: int = if opctx_flag(fast, sig) {
        1
    } else {
        0
    };
    assert(pro.len() == s + r + a + o);
    if scope_flag(sig) {
        assert(prog[0] == Stmt::ScopeCtor);
    }
    if retval_flag(sig) {
        assert(prog[s] == Stmt::RetvalCtor);
    }
    if args_flag(sig) {
        assert(prog[s + r] == Stmt::ArgsCtor);
    }
    if opctx_flag(fast, sig) {
        assert(prog[s + r + a] == Stmt::OpCtxCtor);
    }
    assert forall|j: int|
        0 <= j < prog.len() && (#[trigger] prog[j]).uses_scope() implies exists|c: int|
        0 <= c < j && prog[c] == Stmt::ScopeCtor by {
        if j < pro.len() {
            assert(!prog[j].uses_scope());
        } else {
            assert(prog[j] == body[j - pro.len()]);
            assert(scope_flag(sig));
            assert(0 <= 0 < j && prog[0] == Stmt::ScopeCtor);
        }
    }
    assert forall|j: int|
        0 <= j < prog.len() && (#[trigger] prog[j]).uses_retval() implies exists|c: int|
        0 <= c < j && prog[c] == Stmt::RetvalCtor by {
        if j < pro.len() {
            assert(!prog[j].uses_retval());
        } else {
            assert(prog[j] == body[j - pro.len()]);
            assert(retval_flag(sig));
            assert(0 <= s < j && prog[s] == Stmt::RetvalCtor);
        }
    }
    assert forall|j: int|
        0 <= j < prog.len() && (#[trigger] prog[j]).uses_args() implies exists|c: int|
        0 <= c < j && prog[c] == Stmt::ArgsCtor by {
        if j < pro.len() {
            // Only the operation-context constructor reads the arguments view
            // within the prologue, and it stands last; the arguments-view flag
            // is set whenever the operation-context flag is.
            if prog[j].uses_args() {
                assert(prog[j] == Stmt::OpCtxCtor);
                assert(j == s + r + a);
                assert(args_flag(sig));
                assert(0 <= s + r < j && prog[s + r] == Stmt::ArgsCtor);
            }
        } else {
            assert(prog[j] == body[j - pro.len()]);
            assert(args_flag(sig));
            assert(0 <= s + r < j && prog[s + r] == Stmt::ArgsCtor);
        }
    }
    assert forall|j: int|
        0 <= j < prog.len() && (#[trigger] prog[j]).uses_opctx() implies exists|c: int|
        0 <= c < j && prog[c] == Stmt::OpCtxCtor by {
        if j < pro.len() {
            assert(!prog[j].uses_opctx());
        } else {
            assert(prog[j] == body[j - pro.len()]);
            assert(opctx_flag(fast, sig));
            assert(0 <= s + r + a < j && prog[s + r + a] == Stmt::OpCtxCtor);
        }
    }
}

} // verus!
