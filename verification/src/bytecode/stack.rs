use vstd::prelude::*;
use crate::bytecode::chunk::ChunkV;
use crate::bytecode::compiler::{
    binop_code, code_expr, const_value, law_binary_instruction_computes_its_operator,
    law_unary_instruction_computes_its_operator, unop_code,
};
use crate::bytecode::opcode::{OpV, ValV, opcode_binop_value, opcode_unop_value};
use crate::ir::{IrExprV, IrValueV, ir_binop_value, ir_unop_value};

verus! {

// ---------------------------------------------------------------------------------------
// Expression code run on a stack of whole numbers
// ---------------------------------------------------------------------------------------

/// A pool constant read as a whole number: a number literal by `num`, a truth as 1 or 0,
/// anything else as 0.
pub open spec fn const_number(v: ValV, num: spec_fn(Seq<char>) -> int) -> int {
    match v {
        ValV::Number(t) => num(t),
        ValV::Bool(b) => if b { 1 } else { 0 },
        _ => 0,
    }
}

/// One instruction of expression code on a stack of whole numbers (top last): a constant or
/// a variable is pushed; a binary operation pops its right and then its left operand and
/// pushes its result; a unary one replaces the top. `None` for any other instruction, an
/// absent constant or too short a stack.
pub open spec fn step(
    op: OpV,
    consts: Seq<ValV>,
    env: spec_fn(Seq<char>) -> int,
    num: spec_fn(Seq<char>) -> int,
    st: Seq<int>,
) -> Option<Seq<int>> {
    match op {
        OpV::PushConst(i) => if i < consts.len() {
            Some(st.push(const_number(consts[i as int], num)))
        } else {
            None
        },
        OpV::LoadVar(n) => Some(st.push(env(n))),
        _ => if st.len() >= 2 && opcode_binop_value(op, 0, 0) is Some {
            Some(st.drop_last().drop_last().push(opcode_binop_value(op, st[st.len() - 2], st.last())->0))
        } else if st.len() >= 1 && opcode_unop_value(op, 0) is Some {
            Some(st.drop_last().push(opcode_unop_value(op, st.last())->0))
        } else {
            None
        },
    }
}

/// Instructions run in order from a stack.
pub open spec fn run(
    ins: Seq<OpV>,
    consts: Seq<ValV>,
    env: spec_fn(Seq<char>) -> int,
    num: spec_fn(Seq<char>) -> int,
    st: Seq<int>,
) -> Option<Seq<int>>
    decreases ins.len(),
{
    if ins.len() == 0 {
        Some(st)
    } else {
        match step(ins[0], consts, env, num, st) {
            Some(s2) => run(ins.drop_first(), consts, env, num, s2),
            None => None,
        }
    }
}

/// The whole-number value of an expression of the intermediate form, variables read from
/// `env` and number literals by `num` (truths as 1 and 0, texts as 0).
pub open spec fn ir_eval(e: IrExprV, env: spec_fn(Seq<char>) -> int, num: spec_fn(Seq<char>) -> int) -> int
    decreases e,
{
    match e {
        IrExprV::Constant(IrValueV::Number(t)) => num(t),
        IrExprV::Constant(IrValueV::Bool(b)) => if b { 1 } else { 0 },
        IrExprV::Constant(IrValueV::Str(_)) => 0,
        IrExprV::Var(n) => env(n),
        IrExprV::Binary(l, op, r) => ir_binop_value(op, ir_eval(*l, env, num), ir_eval(*r, env, num)),
        IrExprV::Unary(op, x) => ir_unop_value(op, ir_eval(*x, env, num)),
        IrExprV::CallBlock(..) => 0,
    }
}

/// The expression calls no block.
pub open spec fn call_free(e: IrExprV) -> bool
    decreases e,
{
    match e {
        IrExprV::Binary(l, _, r) => call_free(*l) && call_free(*r),
        IrExprV::Unary(_, x) => call_free(*x),
        IrExprV::CallBlock(..) => false,
        _ => true,
    }
}

proof fn lemma_run_append(
    a: Seq<OpV>,
    b: Seq<OpV>,
    consts: Seq<ValV>,
    env: spec_fn(Seq<char>) -> int,
    num: spec_fn(Seq<char>) -> int,
    st: Seq<int>,
)
    ensures
        run(a + b, consts, env, num, st) == match run(a, consts, env, num, st) {
            Some(s2) => run(b, consts, env, num, s2),
            None => None,
        },
    decreases a.len(),
{
    if a.len() == 0 {
        assert(a + b =~= b);
    } else {
        assert((a + b)[0] == a[0]);
        assert((a + b).drop_first() =~= a.drop_first() + b);
        match step(a[0], consts, env, num, st) {
            Some(s2) => lemma_run_append(a.drop_first(), b, consts, env, num, s2),
            None => {},
        }
    }
}

/// Code generation only appends, to the instructions and to the pool.
proof fn lemma_code_extends(c: ChunkV, e: IrExprV)
    requires
        call_free(e),
    ensures
        c.ins.len() <= code_expr(c, e).ins.len(),
        code_expr(c, e).ins.take(c.ins.len() as int) == c.ins,
        c.consts.len() <= code_expr(c, e).consts.len(),
        code_expr(c, e).consts.take(c.consts.len() as int) == c.consts,
    decreases e,
{
    match e {
        IrExprV::Binary(l, op, r) => {
            let c1 = code_expr(c, *l);
            lemma_code_extends(c, *l);
            lemma_code_extends(c1, *r);
            let c2 = code_expr(c1, *r);
            assert(code_expr(c, e).ins.take(c.ins.len() as int) =~= c.ins) by {
                assert forall|i: int| 0 <= i < c.ins.len() implies code_expr(c, e).ins[i] == c.ins[i] by {
                    assert(c2.ins.take(c1.ins.len() as int)[i] == c1.ins[i]);
                    assert(c1.ins.take(c.ins.len() as int)[i] == c.ins[i]);
                }
            }
            assert(code_expr(c, e).consts.take(c.consts.len() as int) =~= c.consts) by {
                assert forall|i: int| 0 <= i < c.consts.len() implies code_expr(c, e).consts[i] == c.consts[i] by {
                    assert(c2.consts.take(c1.consts.len() as int)[i] == c1.consts[i]);
                    assert(c1.consts.take(c.consts.len() as int)[i] == c.consts[i]);
                }
            }
        },
        IrExprV::Unary(op, x) => {
            lemma_code_extends(c, *x);
            let c1 = code_expr(c, *x);
            assert(code_expr(c, e).ins.take(c.ins.len() as int) =~= c.ins) by {
                assert forall|i: int| 0 <= i < c.ins.len() implies code_expr(c, e).ins[i] == c.ins[i] by {
                    assert(c1.ins.take(c.ins.len() as int)[i] == c.ins[i]);
                }
            }
        },
        _ => {
            assert(code_expr(c, e).ins.take(c.ins.len() as int) =~= c.ins);
            assert(code_expr(c, e).consts.take(c.consts.len() as int) =~= c.consts);
        },
    }
}

proof fn lemma_code_runs(
    c: ChunkV,
    e: IrExprV,
    k: Seq<ValV>,
    env: spec_fn(Seq<char>) -> int,
    num: spec_fn(Seq<char>) -> int,
    st: Seq<int>,
)
    requires
        call_free(e),
        code_expr(c, e).consts.len() <= k.len(),
        forall|i: int| 0 <= i < code_expr(c, e).consts.len() ==> k[i] == #[trigger] code_expr(c, e).consts[i],
    ensures
        run(code_expr(c, e).ins.skip(c.ins.len() as int), k, env, num, st) == Some(st.push(ir_eval(e, env, num))),
    decreases e,
{
    lemma_code_extends(c, e);
    let whole = code_expr(c, e);
    match e {
        IrExprV::Constant(v) => {
            let seg = whole.ins.skip(c.ins.len() as int);
            assert(seg =~= seq![OpV::PushConst(c.consts.len())]);
            assert(k[c.consts.len() as int] == whole.consts[c.consts.len() as int]);
            assert(whole.consts[c.consts.len() as int] == const_value(v));
            assert(const_number(const_value(v), num) == ir_eval(e, env, num));
            assert(seg[0] == OpV::PushConst(c.consts.len()));
            assert(step(seg[0], k, env, num, st) == Some(st.push(ir_eval(e, env, num))));
            assert(seg.drop_first() =~= Seq::<OpV>::empty());
            assert(run(seg.drop_first(), k, env, num, st.push(ir_eval(e, env, num))) == Some(st.push(ir_eval(e, env, num))));
        },
        IrExprV::Var(n) => {
            let seg = whole.ins.skip(c.ins.len() as int);
            assert(seg =~= seq![OpV::LoadVar(n)]);
            assert(seg[0] == OpV::LoadVar(n));
            assert(seg.drop_first() =~= Seq::<OpV>::empty());
            assert(run(seg.drop_first(), k, env, num, st.push(env(n))) == Some(st.push(env(n))));
        },
        IrExprV::Binary(l, op, r) => {
            let c1 = code_expr(c, *l);
            let c2 = code_expr(c1, *r);
            lemma_code_extends(c, *l);
            lemma_code_extends(c1, *r);
            let s1 = c1.ins.skip(c.ins.len() as int);
            let s2 = c2.ins.skip(c1.ins.len() as int);
            let last = seq![binop_code(op)];
            assert(whole.ins.skip(c.ins.len() as int) =~= s1 + s2 + last) by {
                assert forall|i: int| 0 <= i < s1.len() implies c2.ins[c.ins.len() + i] == s1[i] by {
                    assert(c2.ins.take(c1.ins.len() as int)[c.ins.len() + i] == c1.ins[c.ins.len() + i]);
                }
            }
            assert forall|i: int| 0 <= i < c1.consts.len() implies k[i] == #[trigger] c1.consts[i] by {
                assert(c2.consts.take(c1.consts.len() as int)[i] == c1.consts[i]);
                assert(k[i] == whole.consts[i]);
            }
            assert forall|i: int| 0 <= i < c2.consts.len() implies k[i] == #[trigger] c2.consts[i] by {
                assert(k[i] == whole.consts[i]);
            }
            let vl = ir_eval(*l, env, num);
            let vr = ir_eval(*r, env, num);
            lemma_code_runs(c, *l, k, env, num, st);
            lemma_code_runs(c1, *r, k, env, num, st.push(vl));
            lemma_run_append(s1 + s2, last, k, env, num, st);
            lemma_run_append(s1, s2, k, env, num, st);
            law_binary_instruction_computes_its_operator(op, vl, vr);
            law_binary_instruction_computes_its_operator(op, 0, 0);
            let top = st.push(vl).push(vr);
            assert(top[top.len() - 2] == vl);
            assert(top.drop_last().drop_last() =~= st);
            assert(last.drop_first() =~= Seq::<OpV>::empty());
            assert(step(binop_code(op), k, env, num, top) == Some(st.push(ir_eval(e, env, num))));
            assert(last[0] == binop_code(op));
            assert(run(last.drop_first(), k, env, num, st.push(ir_eval(e, env, num))) == Some(st.push(ir_eval(e, env, num))));
            assert(run(last, k, env, num, top) == Some(st.push(ir_eval(e, env, num))));
            assert(run(s1 + s2, k, env, num, st) == Some(top));
        },
        IrExprV::Unary(op, x) => {
            let c1 = code_expr(c, *x);
            lemma_code_extends(c, *x);
            let s1 = c1.ins.skip(c.ins.len() as int);
            let last = seq![unop_code(op)];
            assert(whole.ins.skip(c.ins.len() as int) =~= s1 + last);
            let vx = ir_eval(*x, env, num);
            lemma_code_runs(c, *x, k, env, num, st);
            lemma_run_append(s1, last, k, env, num, st);
            law_unary_instruction_computes_its_operator(op, vx);
            law_unary_instruction_computes_its_operator(op, 0);
            match unop_code(op) {
                OpV::Not => {},
                _ => {},
            }
            assert(opcode_binop_value(unop_code(op), 0, 0) is None);
            assert(st.push(vx).drop_last() =~= st);
            assert(last.drop_first() =~= Seq::<OpV>::empty());
            assert(step(unop_code(op), k, env, num, st.push(vx)) == Some(st.push(ir_eval(e, env, num))));
            assert(last[0] == unop_code(op));
            assert(run(last.drop_first(), k, env, num, st.push(ir_eval(e, env, num))) == Some(st.push(ir_eval(e, env, num))));
            assert(run(last, k, env, num, st.push(vx)) == Some(st.push(ir_eval(e, env, num))));
        },
        IrExprV::CallBlock(..) => {},
    }
}

/// The code compiled for an expression without block calls, run on any stack with the
/// chunk's constants, pushes exactly the expression's value: operands are computed left
/// then right, and each operator computes what it means.
pub proof fn law_expression_code_computes_its_value(
    c: ChunkV,
    e: IrExprV,
    env: spec_fn(Seq<char>) -> int,
    num: spec_fn(Seq<char>) -> int,
    st: Seq<int>,
)
    requires
        call_free(e),
    ensures
        run(code_expr(c, e).ins.skip(c.ins.len() as int), code_expr(c, e).consts, env, num, st) == Some(
            st.push(ir_eval(e, env, num)),
        ),
{
    lemma_code_runs(c, e, code_expr(c, e).consts, env, num, st);
}

} // verus!
