use vstd::prelude::*;
use crate::bytecode::chunk::{Chunk, ChunkV, chunk_ok, chunk_view, is_jump, retarget};
use crate::bytecode::opcode::{BytecodeValue, OpCode, OpV, ValV, op_view, val_view};
use crate::ir::{
    IrBinaryOp, IrEventHandler, IrEventV, IrExpr, IrExprV, IrFunction, IrFunctionV, IrInstrV, IrInstruction,
    IrProgram, IrProgramV, IrTrigger, IrTriggerV, IrUnaryOp, IrValue, IrValueV, ir_event_view, ir_expr_view,
    ir_exprs_view, ir_function_view, ir_instr_view, ir_instrs_view, ir_program_view, ir_trigger_view,
};
use crate::text::{decimal, str_eq, u64_to_string};

verus! {

// ---------------------------------------------------------------------------------------
// Code generation, as functions on specification values
// ---------------------------------------------------------------------------------------

pub open spec fn push_op(c: ChunkV, op: OpV) -> ChunkV {
    ChunkV { ins: c.ins.push(op), ..c }
}

pub open spec fn push_const(c: ChunkV, v: ValV) -> ChunkV {
    ChunkV { consts: c.consts.push(v), ..c }
}

/// The chunk with the jump at `at` aimed at its current end.
pub open spec fn patched(c: ChunkV, at: int) -> ChunkV {
    ChunkV { ins: c.ins.update(at, retarget(c.ins[at], c.ins.len())), ..c }
}

pub open spec fn const_value(v: IrValueV) -> ValV {
    match v {
        IrValueV::Number(t) => ValV::Number(t),
        IrValueV::Str(s) => ValV::Str(s),
        IrValueV::Bool(b) => ValV::Bool(b),
    }
}

pub open spec fn binop_code(op: IrBinaryOp) -> OpV {
    match op {
        IrBinaryOp::Add => OpV::Add,
        IrBinaryOp::Sub => OpV::Sub,
        IrBinaryOp::Mul => OpV::Mul,
        IrBinaryOp::Div => OpV::Div,
        IrBinaryOp::Mod => OpV::Mod,
        IrBinaryOp::Equal => OpV::Equal,
        IrBinaryOp::NotEqual => OpV::NotEqual,
        IrBinaryOp::Less => OpV::Less,
        IrBinaryOp::LessEqual => OpV::LessEqual,
        IrBinaryOp::Greater => OpV::Greater,
        IrBinaryOp::GreaterEqual => OpV::GreaterEqual,
        IrBinaryOp::And => OpV::And,
        IrBinaryOp::Or => OpV::Or,
    }
}

pub open spec fn unop_code(op: IrUnaryOp) -> OpV {
    match op {
        IrUnaryOp::Not => OpV::Not,
        IrUnaryOp::Neg => OpV::Neg,
    }
}

/// Stack code for an expression: operands first, then the operation; constants go to the
/// pool.
pub open spec fn code_expr(c: ChunkV, e: IrExprV) -> ChunkV
    decreases e, 0nat,
{
    match e {
        IrExprV::Constant(v) => push_op(push_const(c, const_value(v)), OpV::PushConst(c.consts.len())),
        IrExprV::Var(n) => push_op(c, OpV::LoadVar(n)),
        IrExprV::Binary(l, op, r) => push_op(code_expr(code_expr(c, *l), *r), binop_code(op)),
        IrExprV::Unary(op, x) => push_op(code_expr(c, *x), unop_code(op)),
        IrExprV::CallBlock(n, args) => push_op(code_exprs(c, args, args.len()), OpV::CallBlock(n, args.len())),
    }
}

/// Code for the first `k` expressions, in order.
pub open spec fn code_exprs(c: ChunkV, es: Seq<IrExprV>, k: nat) -> ChunkV
    decreases es, k,
{
    if k == 0 || k > es.len() { c } else { code_expr(code_exprs(c, es, (k - 1) as nat), es[k - 1]) }
}

/// Code generation state: the chunk so far and the number of the last loop counter.
pub struct GenSt {
    pub chunk: ChunkV,
    pub counter: usize,
}

/// The number of the next loop counter (wrapping at the top of `usize`).
pub open spec fn next_counter(n: usize) -> usize {
    if n == usize::MAX { 0 } else { (n + 1) as usize }
}

/// The hidden variable that counts down the iterations of loop `n`.
pub open spec fn loop_var(n: usize) -> Seq<char> {
    "__loop_"@ + decimal(n as nat)
}

/// Code for a statement. A conditional jumps over its then-branch (and the else-branch is
/// jumped over at the end of the then-branch); a repeat stores its count in a fresh loop
/// variable, tests it against zero before each pass and counts it down after it.
pub open spec fn code_instr(st: GenSt, s: IrInstrV) -> GenSt
    decreases s, 0nat,
{
    match s {
        IrInstrV::Assign(t, e) => GenSt { chunk: push_op(code_expr(st.chunk, e), OpV::StoreVar(t)), ..st },
        IrInstrV::CallBlock(n, args) => GenSt {
            chunk: push_op(code_exprs(st.chunk, args, args.len()), OpV::CallBlock(n, args.len())),
            ..st
        },
        IrInstrV::If(cond, tb, eb) => {
            let c1 = code_expr(st.chunk, cond);
            let jf = c1.ins.len() as int;
            let s3 = code_block(GenSt { chunk: push_op(c1, OpV::JumpIfFalse(0)), ..st }, tb, tb.len());
            if eb.len() > 0 {
                let je = s3.chunk.ins.len() as int;
                let s5 = GenSt { chunk: patched(push_op(s3.chunk, OpV::Jump(0)), jf), ..s3 };
                let s6 = code_block(s5, eb, eb.len());
                GenSt { chunk: patched(s6.chunk, je), ..s6 }
            } else {
                GenSt { chunk: patched(s3.chunk, jf), ..s3 }
            }
        },
        IrInstrV::Repeat(count, body) => {
            let n = next_counter(st.counter);
            let v = loop_var(n);
            let c1 = push_op(code_expr(st.chunk, count), OpV::StoreVar(v));
            let start = c1.ins.len();
            let c2 = push_op(c1, OpV::LoadVar(v));
            let c3 = push_op(push_op(push_const(c2, ValV::Number("0"@)), OpV::PushConst(c2.consts.len())), OpV::Greater);
            let exit = c3.ins.len() as int;
            let s4 = code_block(GenSt { chunk: push_op(c3, OpV::JumpIfFalse(0)), counter: n }, body, body.len());
            let c5 = push_op(s4.chunk, OpV::LoadVar(v));
            let c6 = push_op(push_op(push_const(c5, ValV::Number("1"@)), OpV::PushConst(c5.consts.len())), OpV::Sub);
            let c7 = push_op(push_op(c6, OpV::StoreVar(v)), OpV::Jump(start));
            GenSt { chunk: patched(c7, exit), ..s4 }
        },
        IrInstrV::Return(v) => GenSt {
            chunk: push_op(
                match v {
                    Some(x) => code_expr(st.chunk, x),
                    None => push_op(st.chunk, OpV::PushNil),
                },
                OpV::Return,
            ),
            ..st
        },
        IrInstrV::Assert(x) => GenSt { chunk: push_op(code_expr(st.chunk, x), OpV::Assert), ..st },
    }
}

/// Code for the first `k` statements, in order.
pub open spec fn code_block(st: GenSt, ss: Seq<IrInstrV>, k: nat) -> GenSt
    decreases ss, k,
{
    if k == 0 || k > ss.len() { st } else { code_instr(code_block(st, ss, (k - 1) as nat), ss[k - 1]) }
}

pub open spec fn empty_chunk() -> ChunkV {
    ChunkV { ins: Seq::empty(), consts: Seq::empty() }
}

/// An event handler's chunk: its statements, then `Halt`.
pub open spec fn code_event(counter: usize, instrs: Seq<IrInstrV>) -> GenSt {
    let s = code_block(GenSt { chunk: empty_chunk(), counter }, instrs, instrs.len());
    GenSt { chunk: push_op(s.chunk, OpV::Halt), ..s }
}

/// A function's chunk: its statements, then a `nil` return.
pub open spec fn code_function(counter: usize, instrs: Seq<IrInstrV>) -> GenSt {
    let s = code_block(GenSt { chunk: empty_chunk(), counter }, instrs, instrs.len());
    GenSt { chunk: push_op(push_op(s.chunk, OpV::PushNil), OpV::Return), ..s }
}

} // verus!

verus! {

// ---------------------------------------------------------------------------------------
// Chunk building with the jump and constant invariant
// ---------------------------------------------------------------------------------------

/// Every instruction of `a` is still in place in `b`.
pub open spec fn kept(a: ChunkV, b: ChunkV) -> bool {
    &&& a.ins.len() <= b.ins.len()
    &&& forall|i: int| 0 <= i < a.ins.len() ==> #[trigger] b.ins[i] == a.ins[i]
}

/// Whether an instruction may be added to a chunk that will then have `len` instructions
/// and `nconsts` constants without breaking `chunk_ok`.
pub open spec fn op_fits(op: OpV, len: nat, nconsts: nat) -> bool {
    match op {
        OpV::Jump(t) => t <= len,
        OpV::JumpIfFalse(t) => t <= len,
        OpV::PushConst(k) => k < nconsts,
        _ => true,
    }
}

fn emit_op(chunk: &mut Chunk, op: OpCode)
    requires
        chunk_ok(chunk_view(*old(chunk))),
        op_fits(op_view(op), (old(chunk).instructions@.len() + 1) as nat, old(chunk).constants@.len()),
    ensures
        chunk_view(*final(chunk)) == push_op(chunk_view(*old(chunk)), op_view(op)),
        final(chunk).instructions@.len() == old(chunk).instructions@.len() + 1,
        final(chunk).constants@.len() == old(chunk).constants@.len(),
        chunk_ok(chunk_view(*final(chunk))),
{
    let ghost c0 = chunk_view(*chunk);
    chunk.emit(op);
    assert(chunk_view(*chunk).ins =~= c0.ins.push(op_view(op)));
    assert(chunk_view(*chunk).consts =~= c0.consts);
    let ghost c1 = chunk_view(*chunk);
    assert forall|i: int| 0 <= i < c1.ins.len() implies match #[trigger] c1.ins[i] {
        OpV::Jump(t) => t <= c1.ins.len(),
        OpV::JumpIfFalse(t) => t <= c1.ins.len(),
        OpV::PushConst(k) => k < c1.consts.len(),
        _ => true,
    } by {
        if i < c0.ins.len() {
            assert(c1.ins[i] == c0.ins[i]);
        }
    }
}

fn add_const(chunk: &mut Chunk, v: BytecodeValue) -> (idx: usize)
    requires
        chunk_ok(chunk_view(*old(chunk))),
    ensures
        chunk_view(*final(chunk)) == push_const(chunk_view(*old(chunk)), val_view(v)),
        idx == old(chunk).constants@.len(),
        final(chunk).constants@.len() == idx + 1,
        final(chunk).instructions@.len() == old(chunk).instructions@.len(),
        chunk_ok(chunk_view(*final(chunk))),
{
    let ghost c0 = chunk_view(*chunk);
    let ghost vv = val_view(v);
    let idx = chunk.add_constant(v);
    assert(chunk_view(*chunk).ins =~= c0.ins);
    assert(chunk_view(*chunk).consts =~= c0.consts.push(vv));
    let ghost c1 = chunk_view(*chunk);
    assert forall|i: int| 0 <= i < c1.ins.len() implies match #[trigger] c1.ins[i] {
        OpV::Jump(t) => t <= c1.ins.len(),
        OpV::JumpIfFalse(t) => t <= c1.ins.len(),
        OpV::PushConst(k) => k < c1.consts.len(),
        _ => true,
    } by {
        assert(c1.ins[i] == c0.ins[i]);
    }
    idx
}

fn patch(chunk: &mut Chunk, at: usize)
    requires
        chunk_ok(chunk_view(*old(chunk))),
        at < old(chunk).instructions@.len(),
        is_jump(chunk_view(*old(chunk)).ins[at as int]),
    ensures
        chunk_view(*final(chunk)) == patched(chunk_view(*old(chunk)), at as int),
        chunk_ok(chunk_view(*final(chunk))),
{
    let ghost c0 = chunk_view(*chunk);
    let ghost old_ins = chunk.instructions@;
    assert(c0.ins[at as int] == op_view(old_ins[at as int]));
    chunk.patch_jump(at);
    let ghost c1 = chunk_view(*chunk);
    assert forall|i: int| 0 <= i < c1.ins.len() implies #[trigger] c1.ins[i] == patched(c0, at as int).ins[i] by {
        if i != at {
            assert(chunk.instructions@[i] == old_ins[i]);
        }
    }
    assert(c1.ins =~= patched(c0, at as int).ins);
    assert(c1.consts =~= c0.consts);
    assert forall|i: int| 0 <= i < c1.ins.len() implies match #[trigger] c1.ins[i] {
        OpV::Jump(t) => t <= c1.ins.len(),
        OpV::JumpIfFalse(t) => t <= c1.ins.len(),
        OpV::PushConst(k) => k < c1.consts.len(),
        _ => true,
    } by {
        if i != at {
            assert(c1.ins[i] == c0.ins[i]);
        }
    }
}

} // verus!

verus! {

// ---------------------------------------------------------------------------------------
// Expressions
// ---------------------------------------------------------------------------------------

fn binop_opcode(op: IrBinaryOp) -> (r: OpCode)
    ensures
        op_view(r) == binop_code(op),
{
    match op {
        IrBinaryOp::Add => OpCode::Add,
        IrBinaryOp::Sub => OpCode::Sub,
        IrBinaryOp::Mul => OpCode::Mul,
        IrBinaryOp::Div => OpCode::Div,
        IrBinaryOp::Mod => OpCode::Mod,
        IrBinaryOp::Equal => OpCode::Equal,
        IrBinaryOp::NotEqual => OpCode::NotEqual,
        IrBinaryOp::Less => OpCode::Less,
        IrBinaryOp::LessEqual => OpCode::LessEqual,
        IrBinaryOp::Greater => OpCode::Greater,
        IrBinaryOp::GreaterEqual => OpCode::GreaterEqual,
        IrBinaryOp::And => OpCode::And,
        IrBinaryOp::Or => OpCode::Or,
    }
}

fn compile_expr(expr: &IrExpr, chunk: &mut Chunk)
    requires
        chunk_ok(chunk_view(*old(chunk))),
    ensures
        chunk_view(*final(chunk)) == code_expr(chunk_view(*old(chunk)), ir_expr_view(*expr)),
        chunk_ok(chunk_view(*final(chunk))),
        kept(chunk_view(*old(chunk)), chunk_view(*final(chunk))),
    decreases expr, 0nat,
{
    match expr {
        IrExpr::Constant(val) => {
            let bc = match val {
                IrValue::Number(n) => BytecodeValue::Number(n.clone()),
                IrValue::String(s) => BytecodeValue::String(s.clone()),
                IrValue::Bool(b) => BytecodeValue::Bool(*b),
            };
            let idx = add_const(chunk, bc);
            emit_op(chunk, OpCode::PushConst(idx));
        },
        IrExpr::Var(name) => {
            emit_op(chunk, OpCode::LoadVar(name.clone()));
        },
        IrExpr::Binary { left, op, right } => {
            compile_expr(left, chunk);
            compile_expr(right, chunk);
            emit_op(chunk, binop_opcode(*op));
        },
        IrExpr::Unary { op, expr: inner } => {
            compile_expr(inner, chunk);
            let code = match op {
                IrUnaryOp::Not => OpCode::Not,
                IrUnaryOp::Neg => OpCode::Neg,
            };
            emit_op(chunk, code);
        },
        IrExpr::CallBlock { name, args } => {
            proof {
                assert(ir_expr_view(*expr)->CallBlock_1 =~= ir_exprs_view(args@));
            }
            compile_args(args, chunk);
            emit_op(chunk, OpCode::CallBlock { name: name.clone(), arg_count: args.len() });
        },
    }
}

fn compile_args(args: &Vec<IrExpr>, chunk: &mut Chunk)
    requires
        chunk_ok(chunk_view(*old(chunk))),
    ensures
        chunk_view(*final(chunk)) == code_exprs(chunk_view(*old(chunk)), ir_exprs_view(args@), args@.len()),
        chunk_ok(chunk_view(*final(chunk))),
        kept(chunk_view(*old(chunk)), chunk_view(*final(chunk))),
    decreases args, 1nat,
{
    let ghost c0 = chunk_view(*chunk);
    let ghost av = ir_exprs_view(args@);
    for i in 0..args.len()
        invariant
            av == ir_exprs_view(args@),
            chunk_view(*chunk) == code_exprs(c0, av, i as nat),
            chunk_ok(chunk_view(*chunk)),
            kept(c0, chunk_view(*chunk)),
    {
        compile_expr(&args[i], chunk);
    }
}

} // verus!

verus! {

// ---------------------------------------------------------------------------------------
// Statements and programs
// ---------------------------------------------------------------------------------------

/// A compiled event handler.
#[derive(Debug, PartialEq)]
pub struct BytecodeEventHandler {
    pub trigger: IrTrigger,
    pub chunk: Chunk,
}

/// A compiled program: one chunk per event handler, and one per function name.
#[derive(Debug, PartialEq)]
pub struct BytecodeProgram {
    pub events: Vec<BytecodeEventHandler>,
    pub functions: Vec<(String, Chunk)>,
}

/// Compiles the intermediate form to bytecode, numbering the hidden counters of loops
/// across everything it compiles.
pub struct BytecodeCompiler {
    loop_counter: usize,
}

fn loop_var_exec(n: usize) -> (s: String)
    ensures
        s@ == loop_var(n),
{
    let mut s = String::from_str("__loop_");
    let d = u64_to_string(n as u64);
    s.append(d.as_str());
    s
}

impl BytecodeCompiler {
    /// The number of the last loop counter handed out.
    pub closed spec fn counter(self) -> usize {
        self.loop_counter
    }

    /// A compiler that has numbered no loop yet.
    pub fn new() -> (c: Self)
        ensures
            c.counter() == 0,
    {
        BytecodeCompiler { loop_counter: 0 }
    }

    fn compile_instruction(&mut self, instr: &IrInstruction, chunk: &mut Chunk)
        requires
            chunk_ok(chunk_view(*old(chunk))),
        ensures
            (GenSt { chunk: chunk_view(*final(chunk)), counter: final(self).loop_counter }) == code_instr(
                GenSt { chunk: chunk_view(*old(chunk)), counter: old(self).loop_counter },
                ir_instr_view(*instr),
            ),
            chunk_ok(chunk_view(*final(chunk))),
            kept(chunk_view(*old(chunk)), chunk_view(*final(chunk))),
        decreases instr, 0nat,
    {
        let ghost c0 = chunk_view(*chunk);
        match instr {
            IrInstruction::Assign { target, expr } => {
                compile_expr(expr, chunk);
                emit_op(chunk, OpCode::StoreVar(target.clone()));
            },
            IrInstruction::CallBlock { name, args } => {
                compile_args(args, chunk);
                emit_op(chunk, OpCode::CallBlock { name: name.clone(), arg_count: args.len() });
            },
            IrInstruction::If { condition, then_branch, else_branch } => {
                let ghost sv = ir_instr_view(*instr);
                assert(sv->If_1 =~= ir_instrs_view(then_branch@));
                assert(sv->If_2 =~= ir_instrs_view(else_branch@));
                compile_expr(condition, chunk);
                let jf = chunk.instructions.len();
                emit_op(chunk, OpCode::JumpIfFalse(0));
                let ghost c2 = chunk_view(*chunk);
                self.compile_block(then_branch, chunk);
                assert(chunk_view(*chunk).ins[jf as int] == c2.ins[jf as int]);
                if else_branch.len() > 0 {
                    let je = chunk.instructions.len();
                    emit_op(chunk, OpCode::Jump(0));
                    patch(chunk, jf);
                    let ghost c5 = chunk_view(*chunk);
                    self.compile_block(else_branch, chunk);
                    assert(chunk_view(*chunk).ins[je as int] == c5.ins[je as int]);
                    patch(chunk, je);
                } else {
                    patch(chunk, jf);
                }
            },
            IrInstruction::Repeat { count, body } => {
                let ghost sv = ir_instr_view(*instr);
                assert(sv->Repeat_1 =~= ir_instrs_view(body@));
                self.loop_counter = if self.loop_counter == usize::MAX { 0 } else { self.loop_counter + 1 };
                let var = loop_var_exec(self.loop_counter);
                compile_expr(count, chunk);
                emit_op(chunk, OpCode::StoreVar(var.clone()));
                let start = chunk.instructions.len();
                emit_op(chunk, OpCode::LoadVar(var.clone()));
                let zero = add_const(chunk, BytecodeValue::Number(String::from_str("0")));
                emit_op(chunk, OpCode::PushConst(zero));
                emit_op(chunk, OpCode::Greater);
                let exit = chunk.instructions.len();
                emit_op(chunk, OpCode::JumpIfFalse(0));
                let ghost c4 = chunk_view(*chunk);
                self.compile_block(body, chunk);
                assert(chunk_view(*chunk).ins[exit as int] == c4.ins[exit as int]);
                emit_op(chunk, OpCode::LoadVar(var.clone()));
                let one = add_const(chunk, BytecodeValue::Number(String::from_str("1")));
                emit_op(chunk, OpCode::PushConst(one));
                emit_op(chunk, OpCode::Sub);
                emit_op(chunk, OpCode::StoreVar(var));
                emit_op(chunk, OpCode::Jump(start));
                patch(chunk, exit);
            },
            IrInstruction::Return(value) => {
                match value {
                    Some(v) => compile_expr(v, chunk),
                    None => emit_op(chunk, OpCode::PushNil),
                }
                emit_op(chunk, OpCode::Return);
            },
            IrInstruction::Assert(x) => {
                compile_expr(x, chunk);
                emit_op(chunk, OpCode::Assert);
            },
        }
    }

    fn compile_block(&mut self, ss: &Vec<IrInstruction>, chunk: &mut Chunk)
        requires
            chunk_ok(chunk_view(*old(chunk))),
        ensures
            (GenSt { chunk: chunk_view(*final(chunk)), counter: final(self).loop_counter }) == code_block(
                GenSt { chunk: chunk_view(*old(chunk)), counter: old(self).loop_counter },
                ir_instrs_view(ss@),
                ss@.len(),
            ),
            chunk_ok(chunk_view(*final(chunk))),
            kept(chunk_view(*old(chunk)), chunk_view(*final(chunk))),
        decreases ss, 1nat,
    {
        let ghost st0 = GenSt { chunk: chunk_view(*chunk), counter: self.loop_counter };
        let ghost sv = ir_instrs_view(ss@);
        for i in 0..ss.len()
            invariant
                sv == ir_instrs_view(ss@),
                (GenSt { chunk: chunk_view(*chunk), counter: self.loop_counter }) == code_block(st0, sv, i as nat),
                chunk_ok(chunk_view(*chunk)),
                kept(st0.chunk, chunk_view(*chunk)),
        {
            self.compile_instruction(&ss[i], chunk);
        }
    }
}

} // verus!

verus! {

/// A compiled event handler as a specification value.
pub struct BcEventV {
    pub trigger: IrTriggerV,
    pub chunk: ChunkV,
}

/// A compiled program as a specification value; function chunks are listed by name.
#[verifier::ext_equal]
pub struct BcProgramV {
    pub events: Seq<BcEventV>,
    pub functions: Seq<(Seq<char>, ChunkV)>,
}

pub open spec fn bc_event_view(e: BytecodeEventHandler) -> BcEventV {
    BcEventV { trigger: ir_trigger_view(e.trigger), chunk: chunk_view(e.chunk) }
}

pub open spec fn bc_program_view(p: BytecodeProgram) -> BcProgramV {
    BcProgramV {
        events: p.events@.map_values(|e: BytecodeEventHandler| bc_event_view(e)),
        functions: p.functions@.map_values(|f: (String, Chunk)| (f.0@, chunk_view(f.1))),
    }
}

/// The event handlers' chunks for the first `k` handlers, and the loop counter after them.
pub open spec fn compiled_events(counter: usize, es: Seq<IrEventV>, k: nat) -> (Seq<BcEventV>, usize)
    decreases k,
{
    if k == 0 || k > es.len() {
        (Seq::empty(), counter)
    } else {
        let (prev, c) = compiled_events(counter, es, (k - 1) as nat);
        let g = code_event(c, es[k - 1].instructions);
        (prev.push(BcEventV { trigger: es[k - 1].trigger, chunk: g.chunk }), g.counter)
    }
}

/// The table with `name` bound to `c`: an existing entry of that name is replaced in place,
/// otherwise the entry is appended.
pub open spec fn table_insert(t: Seq<(Seq<char>, ChunkV)>, name: Seq<char>, c: ChunkV) -> Seq<(Seq<char>, ChunkV)> {
    if exists|i: int| 0 <= i < t.len() && t[i].0 == name {
        t.update(choose|i: int| 0 <= i < t.len() && t[i].0 == name, (name, c))
    } else {
        t.push((name, c))
    }
}

/// The function table after the first `k` functions, and the loop counter after them.
pub open spec fn compiled_functions(counter: usize, fs: Seq<IrFunctionV>, k: nat) -> (Seq<(Seq<char>, ChunkV)>, usize)
    decreases k,
{
    if k == 0 || k > fs.len() {
        (Seq::empty(), counter)
    } else {
        let (prev, c) = compiled_functions(counter, fs, (k - 1) as nat);
        let g = code_function(c, fs[k - 1].instructions);
        (table_insert(prev, fs[k - 1].name, g.chunk), g.counter)
    }
}

/// The compiled program and the loop counter afterwards: events first, then functions.
pub open spec fn compiled_program(counter: usize, p: IrProgramV) -> (BcProgramV, usize) {
    let (events, c1) = compiled_events(counter, p.events, p.events.len());
    let (functions, c2) = compiled_functions(c1, p.functions, p.functions.len());
    (BcProgramV { events, functions }, c2)
}

/// No two entries of a function table share a name.
pub open spec fn names_unique(t: Seq<(Seq<char>, ChunkV)>) -> bool {
    forall|i: int, j: int| 0 <= i < t.len() && 0 <= j < t.len() && #[trigger] t[i].0 == #[trigger] t[j].0 ==> i == j
}

impl BytecodeCompiler {
    fn compile_event(&mut self, event: &IrEventHandler) -> (r: BytecodeEventHandler)
        ensures
            bc_event_view(r) == (BcEventV {
                trigger: ir_trigger_view(event.trigger),
                chunk: code_event(old(self).loop_counter, ir_instrs_view(event.instructions@)).chunk,
            }),
            final(self).loop_counter == code_event(old(self).loop_counter, ir_instrs_view(event.instructions@)).counter,
            chunk_ok(chunk_view(r.chunk)),
    {
        let mut chunk = Chunk::new();
        assert(chunk_view(chunk).ins =~= Seq::<OpV>::empty());
        assert(chunk_view(chunk).consts =~= Seq::<ValV>::empty());
        self.compile_block(&event.instructions, &mut chunk);
        emit_op(&mut chunk, OpCode::Halt);
        BytecodeEventHandler { trigger: event.trigger.clone(), chunk }
    }

    fn compile_function(&mut self, f: &IrFunction) -> (r: Chunk)
        ensures
            chunk_view(r) == code_function(old(self).loop_counter, ir_instrs_view(f.instructions@)).chunk,
            final(self).loop_counter == code_function(old(self).loop_counter, ir_instrs_view(f.instructions@)).counter,
            chunk_ok(chunk_view(r)),
    {
        let mut chunk = Chunk::new();
        assert(chunk_view(chunk).ins =~= Seq::<OpV>::empty());
        assert(chunk_view(chunk).consts =~= Seq::<ValV>::empty());
        self.compile_block(&f.instructions, &mut chunk);
        emit_op(&mut chunk, OpCode::PushNil);
        emit_op(&mut chunk, OpCode::Return);
        chunk
    }

    /// Compiles every event handler (each chunk ends with `Halt`) and every function (each
    /// chunk ends by returning `nil`); a later function of the same name replaces an earlier
    /// one. In every chunk, jumps land inside the chunk or just past its end and constant
    /// references name entries of its pool.
    pub fn compile_program(&mut self, ir: &IrProgram) -> (r: BytecodeProgram)
        ensures
            bc_program_view(r) == compiled_program(old(self).counter(), ir_program_view(*ir)).0,
            final(self).counter() == compiled_program(old(self).counter(), ir_program_view(*ir)).1,
            forall|i: int| 0 <= i < r.events@.len() ==> chunk_ok(#[trigger] chunk_view(r.events@[i].chunk)),
            forall|i: int| 0 <= i < r.functions@.len() ==> chunk_ok(#[trigger] chunk_view(r.functions@[i].1)),
            names_unique(bc_program_view(r).functions),
    {
        let ghost pv = ir_program_view(*ir);
        let ghost c0 = self.loop_counter;
        let mut events: Vec<BytecodeEventHandler> = Vec::new();
        for i in 0..ir.events.len()
            invariant
                pv == ir_program_view(*ir),
                events@.map_values(|e: BytecodeEventHandler| bc_event_view(e)) == compiled_events(c0, pv.events, i as nat).0,
                self.loop_counter == compiled_events(c0, pv.events, i as nat).1,
                forall|k: int| 0 <= k < events@.len() ==> chunk_ok(#[trigger] chunk_view(events@[k].chunk)),
        {
            let ghost before = events@;
            let e = self.compile_event(&ir.events[i]);
            events.push(e);
            proof {
                assert(pv.events[i as int] == ir_event_view(ir.events@[i as int]));
                assert(events@.map_values(|e: BytecodeEventHandler| bc_event_view(e)) =~= before.map_values(
                    |e: BytecodeEventHandler| bc_event_view(e),
                ).push(bc_event_view(e)));
            }
        }
        let ghost c1 = self.loop_counter;
        let mut functions: Vec<(String, Chunk)> = Vec::new();
        for i in 0..ir.functions.len()
            invariant
                pv == ir_program_view(*ir),
                c1 == compiled_events(c0, pv.events, pv.events.len()).1,
                functions@.map_values(|f: (String, Chunk)| (f.0@, chunk_view(f.1))) == compiled_functions(c1, pv.functions, i as nat).0,
                names_unique(functions@.map_values(|f: (String, Chunk)| (f.0@, chunk_view(f.1)))),
                self.loop_counter == compiled_functions(c1, pv.functions, i as nat).1,
                forall|k: int| 0 <= k < functions@.len() ==> chunk_ok(#[trigger] chunk_view(functions@[k].1)),
        {
            let f = &ir.functions[i];
            let chunk = self.compile_function(f);
            proof {
                assert(pv.functions[i as int] == ir_function_view(*f));
            }
            insert_function(&mut functions, &f.name, chunk);
        }
        let r = BytecodeProgram { events, functions };
        assert(bc_program_view(r) =~= compiled_program(c0, pv).0);
        r
    }
}

impl Default for BytecodeCompiler {
    fn default() -> (c: Self)
        ensures
            c.counter() == 0,
    {
        BytecodeCompiler::new()
    }
}

fn insert_function(table: &mut Vec<(String, Chunk)>, name: &String, chunk: Chunk)
    requires
        names_unique(old(table)@.map_values(|f: (String, Chunk)| (f.0@, chunk_view(f.1)))),
        forall|k: int| 0 <= k < old(table)@.len() ==> chunk_ok(#[trigger] chunk_view(old(table)@[k].1)),
        chunk_ok(chunk_view(chunk)),
    ensures
        final(table)@.map_values(|f: (String, Chunk)| (f.0@, chunk_view(f.1))) == table_insert(
            old(table)@.map_values(|f: (String, Chunk)| (f.0@, chunk_view(f.1))),
            name@,
            chunk_view(chunk),
        ),
        names_unique(final(table)@.map_values(|f: (String, Chunk)| (f.0@, chunk_view(f.1)))),
        forall|k: int| 0 <= k < final(table)@.len() ==> chunk_ok(#[trigger] chunk_view(final(table)@[k].1)),
{
    let ghost tv = table@.map_values(|f: (String, Chunk)| (f.0@, chunk_view(f.1)));
    let ghost cv = chunk_view(chunk);
    let mut i: usize = 0;
    while i < table.len()
        invariant
            tv == table@.map_values(|f: (String, Chunk)| (f.0@, chunk_view(f.1))),
            i <= table@.len(),
            forall|k: int| 0 <= k < i ==> tv[k].0 != name@,
        ensures
            i <= table@.len(),
            forall|k: int| 0 <= k < i ==> tv[k].0 != name@,
            i < table@.len() ==> tv[i as int].0 == name@,
        decreases table@.len() - i,
    {
        assert(tv[i as int].0 == table@[i as int].0@);
        if str_eq(table[i].0.as_str(), name.as_str()) {
            break;
        }
        i = i + 1;
    }
    if i < table.len() {
        assert(tv[i as int].0 == name@);
        let ghost j = choose|j: int| 0 <= j < tv.len() && tv[j].0 == name@;
        assert(j == i);
        table.set(i, (name.clone(), chunk));
        assert(table@.map_values(|f: (String, Chunk)| (f.0@, chunk_view(f.1))) =~= tv.update(i as int, (name@, cv)));
    } else {
        table.push((name.clone(), chunk));
        assert(table@.map_values(|f: (String, Chunk)| (f.0@, chunk_view(f.1))) =~= tv.push((name@, cv)));
    }
}

} // verus!

verus! {

/// Compilation keeps one event chunk per handler, in order and with the same trigger, and
/// every event chunk ends with `Halt`.
pub proof fn law_compiled_events_shape(counter: usize, es: Seq<IrEventV>, k: nat)
    requires
        k <= es.len(),
    ensures
        ({
            let out = compiled_events(counter, es, k).0;
            &&& out.len() == k
            &&& forall|i: int| 0 <= i < k ==> (#[trigger] out[i]).trigger == es[i].trigger
                && out[i].chunk.ins.len() > 0 && out[i].chunk.ins.last() == OpV::Halt
        }),
    decreases k,
{
    if k > 0 {
        law_compiled_events_shape(counter, es, (k - 1) as nat);
    }
}

/// Every function chunk ends by returning `nil`.
pub proof fn law_function_chunk_returns(counter: usize, instrs: Seq<IrInstrV>)
    ensures
        ({
            let ins = code_function(counter, instrs).chunk.ins;
            &&& ins.len() >= 2
            &&& ins[ins.len() - 2] == OpV::PushNil
            &&& ins[ins.len() - 1] == OpV::Return
        }),
{
}


/// The instruction emitted for a binary operator of the intermediate form computes that
/// operator: on any two operands it pushes what the operator gives.
pub proof fn law_binary_instruction_computes_its_operator(op: IrBinaryOp, a: int, b: int)
    ensures
        crate::bytecode::opcode::opcode_binop_value(binop_code(op), a, b) == Some(crate::ir::ir_binop_value(op, a, b)),
{
}

/// The instruction emitted for a unary operator of the intermediate form computes that
/// operator.
pub proof fn law_unary_instruction_computes_its_operator(op: IrUnaryOp, a: int)
    ensures
        crate::bytecode::opcode::opcode_unop_value(unop_code(op), a) == Some(crate::ir::ir_unop_value(op, a)),
{
}

} // verus!
