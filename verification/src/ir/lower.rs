use vstd::prelude::*;
use crate::blocks::registry::BlockRegistry;
use crate::ir::{
    IrBinaryOp, IrEventHandler, IrEventV, IrExpr, IrExprV, IrFunction, IrFunctionV, IrInstrV, IrInstruction,
    IrProgram, IrProgramV, IrTrigger, IrTriggerV, IrUnaryOp, IrValue, IrValueV, ir_event_view, ir_expr_view,
    ir_exprs_view, ir_function_view, ir_instr_view, ir_instrs_view, ir_program_view, ir_trigger_view,
};
use crate::language::ast::{
    AssignOp, BinaryOp, EventDef, EventKind, EventKindV, EventV, Expr, ExprV, FuncV, Program,
    ProgramV, Statement, StmtV, UnaryOp, event_view, expr_view, exprs_view, func_view, program_view, stmt_view,
    stmts_view,
};
use crate::language::linter::{full_name, full_name_exec};

verus! {

// ---------------------------------------------------------------------------------------
// Lowering, as functions on specification values
// ---------------------------------------------------------------------------------------

pub open spec fn lowered_binop(op: BinaryOp) -> IrBinaryOp {
    match op {
        BinaryOp::Add => IrBinaryOp::Add,
        BinaryOp::Sub => IrBinaryOp::Sub,
        BinaryOp::Mul => IrBinaryOp::Mul,
        BinaryOp::Div => IrBinaryOp::Div,
        BinaryOp::Mod => IrBinaryOp::Mod,
        BinaryOp::Equal => IrBinaryOp::Equal,
        BinaryOp::NotEqual => IrBinaryOp::NotEqual,
        BinaryOp::Less => IrBinaryOp::Less,
        BinaryOp::LessEqual => IrBinaryOp::LessEqual,
        BinaryOp::Greater => IrBinaryOp::Greater,
        BinaryOp::GreaterEqual => IrBinaryOp::GreaterEqual,
        BinaryOp::And => IrBinaryOp::And,
        BinaryOp::Or => IrBinaryOp::Or,
    }
}

pub open spec fn lowered_unop(op: UnaryOp) -> IrUnaryOp {
    match op {
        UnaryOp::Not => IrUnaryOp::Not,
        UnaryOp::Neg => IrUnaryOp::Neg,
    }
}

/// An expression in the intermediate form: literals become constants, identifiers
/// variables, calls carry their full name.
pub open spec fn lowered_expr(e: ExprV) -> IrExprV
    decreases e,
{
    match e {
        ExprV::Number(t, _) => IrExprV::Constant(IrValueV::Number(t)),
        ExprV::Str(s, _) => IrExprV::Constant(IrValueV::Str(s)),
        ExprV::Bool(b, _) => IrExprV::Constant(IrValueV::Bool(b)),
        ExprV::Ident(n, _) => IrExprV::Var(n),
        ExprV::Binary(l, op, r, _) => IrExprV::Binary(Box::new(lowered_expr(*l)), lowered_binop(op), Box::new(lowered_expr(*r))),
        ExprV::Unary(op, x, _) => IrExprV::Unary(lowered_unop(op), Box::new(lowered_expr(*x))),
        ExprV::Call(t, n, args, _) => IrExprV::CallBlock(
            full_name(t, n),
            Seq::new(args.len(), |i: int| if 0 <= i < args.len() { lowered_expr(args[i]) } else { IrExprV::Var(n) }),
        ),
    }
}

pub open spec fn lowered_exprs(es: Seq<ExprV>) -> Seq<IrExprV> {
    Seq::new(es.len(), |i: int| lowered_expr(es[i]))
}

/// The value assigned by an assignment: compound forms read the target first.
pub open spec fn lowered_assign(target: Seq<char>, op: AssignOp, v: IrExprV) -> IrExprV {
    match op {
        AssignOp::Assign => v,
        AssignOp::AddAssign => IrExprV::Binary(Box::new(IrExprV::Var(target)), IrBinaryOp::Add, Box::new(v)),
        AssignOp::SubAssign => IrExprV::Binary(Box::new(IrExprV::Var(target)), IrBinaryOp::Sub, Box::new(v)),
        AssignOp::MulAssign => IrExprV::Binary(Box::new(IrExprV::Var(target)), IrBinaryOp::Mul, Box::new(v)),
        AssignOp::DivAssign => IrExprV::Binary(Box::new(IrExprV::Var(target)), IrBinaryOp::Div, Box::new(v)),
    }
}

pub open spec fn lowered_stmt(s: StmtV) -> IrInstrV
    decreases s,
{
    match s {
        StmtV::Assign(t, op, v, _) => IrInstrV::Assign(t, lowered_assign(t, op, lowered_expr(v))),
        StmtV::Call(t, n, args, _) => IrInstrV::CallBlock(full_name(t, n), lowered_exprs(args)),
        StmtV::If(c, tb, eb, _) => IrInstrV::If(
            lowered_expr(c),
            Seq::new(tb.len(), |i: int| if 0 <= i < tb.len() { lowered_stmt(tb[i]) } else { IrInstrV::Return(None) }),
            match eb {
                Some(b) => Seq::new(b.len(), |i: int| if 0 <= i < b.len() { lowered_stmt(b[i]) } else { IrInstrV::Return(None) }),
                None => Seq::empty(),
            },
        ),
        StmtV::Repeat(c, body, _) => IrInstrV::Repeat(
            lowered_expr(c),
            Seq::new(body.len(), |i: int| if 0 <= i < body.len() { lowered_stmt(body[i]) } else { IrInstrV::Return(None) }),
        ),
        StmtV::Return(v, _) => IrInstrV::Return(match v {
            Some(x) => Some(lowered_expr(x)),
            None => None,
        }),
        StmtV::Assert(x, _) => IrInstrV::Assert(lowered_expr(x)),
    }
}

pub open spec fn lowered_stmts(ss: Seq<StmtV>) -> Seq<IrInstrV> {
    Seq::new(ss.len(), |i: int| lowered_stmt(ss[i]))
}

/// The trigger of an event: custom events start like a pressed-down action.
pub open spec fn lowered_trigger(k: EventKindV) -> IrTriggerV {
    match k {
        EventKindV::Start => IrTriggerV::OnStart,
        EventKindV::Update => IrTriggerV::OnUpdate,
        EventKindV::ActionDown(a) => IrTriggerV::OnActionDown(a),
        EventKindV::ActionPress(a) => IrTriggerV::OnActionPress(a),
        EventKindV::ActionUp(a) => IrTriggerV::OnActionUp(a),
        EventKindV::Touches(a, b) => IrTriggerV::OnTouches(a, b),
        EventKindV::EverySeconds(s) => IrTriggerV::OnTimer(s, true),
        EventKindV::AfterSeconds(s) => IrTriggerV::OnTimer(s, false),
        EventKindV::Custom(c) => IrTriggerV::OnActionDown(c),
        EventKindV::Message(m) => IrTriggerV::OnMessage(m),
    }
}

pub open spec fn lowered_event(e: EventV) -> IrEventV {
    IrEventV { trigger: lowered_trigger(e.kind), instructions: lowered_stmts(e.body) }
}

pub open spec fn lowered_function(f: FuncV) -> IrFunctionV {
    IrFunctionV { name: f.name, params: f.params, instructions: lowered_stmts(f.body) }
}

/// A whole program: top-level statements, if any, form a first start handler; then one
/// handler per event and one function per function, in order.
pub open spec fn lowered_program(p: ProgramV) -> IrProgramV {
    let handlers = p.events.map_values(|e: EventV| lowered_event(e));
    IrProgramV {
        events: if p.top_level.len() > 0 {
            seq![IrEventV { trigger: IrTriggerV::OnStart, instructions: lowered_stmts(p.top_level) }] + handlers
        } else {
            handlers
        },
        functions: p.functions.map_values(|f: FuncV| lowered_function(f)),
    }
}

// ---------------------------------------------------------------------------------------
// Lowering
// ---------------------------------------------------------------------------------------

/// Why lowering failed.
#[derive(Debug)]
pub enum LowerError {
    UnknownBlock { name: String, help: String },
    Generic(String),
}

impl LowerError {
    /// The error message: `Unknown block 'name'. help` or `Semantic error: detail`.
    pub fn to_string(&self) -> (s: String)
        ensures
            s@ == match *self {
                LowerError::UnknownBlock { name, help } => "Unknown block '"@ + name@ + "'. "@ + help@,
                LowerError::Generic(d) => "Semantic error: "@ + d@,
            },
    {
        match self {
            LowerError::UnknownBlock { name, help } => {
                let mut s = String::from_str("Unknown block '");
                s.append(name.as_str());
                s.append("'. ");
                s.append(help.as_str());
                s
            },
            LowerError::Generic(d) => {
                let mut s = String::from_str("Semantic error: ");
                s.append(d.as_str());
                s
            },
        }
    }
}

fn lower_binop(op: BinaryOp) -> (r: IrBinaryOp)
    ensures
        r == lowered_binop(op),
{
    match op {
        BinaryOp::Add => IrBinaryOp::Add,
        BinaryOp::Sub => IrBinaryOp::Sub,
        BinaryOp::Mul => IrBinaryOp::Mul,
        BinaryOp::Div => IrBinaryOp::Div,
        BinaryOp::Mod => IrBinaryOp::Mod,
        BinaryOp::Equal => IrBinaryOp::Equal,
        BinaryOp::NotEqual => IrBinaryOp::NotEqual,
        BinaryOp::Less => IrBinaryOp::Less,
        BinaryOp::LessEqual => IrBinaryOp::LessEqual,
        BinaryOp::Greater => IrBinaryOp::Greater,
        BinaryOp::GreaterEqual => IrBinaryOp::GreaterEqual,
        BinaryOp::And => IrBinaryOp::And,
        BinaryOp::Or => IrBinaryOp::Or,
    }
}

fn lower_expr(expr: &Expr) -> (r: IrExpr)
    ensures
        ir_expr_view(r) == lowered_expr(expr_view(*expr)),
    decreases expr, 0nat,
{
    match expr {
        Expr::Number(n, _) => IrExpr::Constant(IrValue::Number(n.clone())),
        Expr::String(s, _) => IrExpr::Constant(IrValue::String(s.clone())),
        Expr::Bool(b, _) => IrExpr::Constant(IrValue::Bool(*b)),
        Expr::Ident(name, _) => IrExpr::Var(name.clone()),
        Expr::Binary { left, op, right, .. } => {
            let l = lower_expr(left);
            let r = lower_expr(right);
            IrExpr::Binary { left: Box::new(l), op: lower_binop(*op), right: Box::new(r) }
        },
        Expr::Unary { op, expr: inner, .. } => {
            let x = lower_expr(inner);
            let iop = match op {
                UnaryOp::Not => IrUnaryOp::Not,
                UnaryOp::Neg => IrUnaryOp::Neg,
            };
            IrExpr::Unary { op: iop, expr: Box::new(x) }
        },
        Expr::Call { target, name, args, .. } => {
            let full = full_name_exec(target, name);
            let lowered = lower_args(args);
            let ghost lv = lowered@;
            let r = IrExpr::CallBlock { name: full, args: lowered };
            proof {
                let ev = expr_view(*expr);
                assert(ev->Call_2 =~= exprs_view(args@));
                assert(ir_exprs_view(lv) == lowered_exprs(exprs_view(args@)));
                assert(ir_exprs_view(lv).len() == lv.len());
                assert(lowered_exprs(exprs_view(args@)).len() == args@.len());
                assert(lv.len() == args@.len());
                assert forall|i: int| 0 <= i < lv.len() implies ir_expr_view(lv[i]) == lowered_expr(ev->Call_2[i]) by {
                    assert(ir_exprs_view(lv)[i] == ir_expr_view(lv[i]));
                    assert(exprs_view(args@)[i] == expr_view(args@[i]));
                    assert(lowered_exprs(exprs_view(args@))[i] == lowered_expr(exprs_view(args@)[i]));
                    assert(ir_exprs_view(lv)[i] == lowered_exprs(exprs_view(args@))[i]);
                    assert(ev->Call_2[i] == exprs_view(args@)[i]);
                }
                assert(ir_expr_view(r)->CallBlock_1 =~= lowered_expr(ev)->CallBlock_1);
            }
            r
        },
    }
}

fn lower_args(args: &Vec<Expr>) -> (r: Vec<IrExpr>)
    ensures
        ir_exprs_view(r@) == lowered_exprs(exprs_view(args@)),
    decreases args, 1nat,
{
    let mut out: Vec<IrExpr> = Vec::new();
    for i in 0..args.len()
        invariant
            out@.len() == i,
            forall|k: int| 0 <= k < i ==> #[trigger] ir_expr_view(out@[k]) == lowered_expr(expr_view(args@[k])),
    {
        let x = lower_expr(&args[i]);
        out.push(x);
    }
    assert(ir_exprs_view(out@) =~= lowered_exprs(exprs_view(args@)));
    out
}

fn lower_statement(stmt: &Statement) -> (r: IrInstruction)
    ensures
        ir_instr_view(r) == lowered_stmt(stmt_view(*stmt)),
    decreases stmt, 0nat,
{
    match stmt {
        Statement::Assign { target, op, value, .. } => {
            let v = lower_expr(value);
            let e = match op {
                AssignOp::Assign => v,
                AssignOp::AddAssign => IrExpr::Binary {
                    left: Box::new(IrExpr::Var(target.clone())),
                    op: IrBinaryOp::Add,
                    right: Box::new(v),
                },
                AssignOp::SubAssign => IrExpr::Binary {
                    left: Box::new(IrExpr::Var(target.clone())),
                    op: IrBinaryOp::Sub,
                    right: Box::new(v),
                },
                AssignOp::MulAssign => IrExpr::Binary {
                    left: Box::new(IrExpr::Var(target.clone())),
                    op: IrBinaryOp::Mul,
                    right: Box::new(v),
                },
                AssignOp::DivAssign => IrExpr::Binary {
                    left: Box::new(IrExpr::Var(target.clone())),
                    op: IrBinaryOp::Div,
                    right: Box::new(v),
                },
            };
            proof {
                reveal_with_fuel(ir_expr_view, 2);
            }
            IrInstruction::Assign { target: target.clone(), expr: e }
        },
        Statement::Call { target, name, args, .. } => {
            let full = full_name_exec(target, name);
            let lowered = lower_args(args);
            IrInstruction::CallBlock { name: full, args: lowered }
        },
        Statement::If { condition, then_body, else_body, .. } => {
            let c = lower_expr(condition);
            let tb = lower_block(then_body);
            let eb = match else_body {
                Some(b) => lower_block(b),
                None => Vec::new(),
            };
            let ghost tv = tb@;
            let ghost ebv = eb@;
            let r = IrInstruction::If { condition: c, then_branch: tb, else_branch: eb };
            proof {
                let sv = stmt_view(*stmt);
                assert(sv->If_1 =~= stmts_view(then_body@));
                assert(ir_instrs_view(tv) == lowered_stmts(stmts_view(then_body@)));
                assert(ir_instrs_view(tv).len() == tv.len());
                assert(tv.len() == then_body@.len());
                assert forall|i: int| 0 <= i < tv.len() implies ir_instr_view(tv[i]) == lowered_stmt(sv->If_1[i]) by {
                    assert(ir_instrs_view(tv)[i] == ir_instr_view(tv[i]));
                    assert(stmts_view(then_body@)[i] == stmt_view(then_body@[i]));
                    assert(lowered_stmts(stmts_view(then_body@))[i] == lowered_stmt(stmts_view(then_body@)[i]));
                    assert(ir_instrs_view(tv)[i] == lowered_stmts(stmts_view(then_body@))[i]);
                    assert(sv->If_1[i] == stmts_view(then_body@)[i]);
                }
                assert(ir_instr_view(r)->If_1 =~= lowered_stmt(sv)->If_1);
                match else_body {
                    Some(b) => {
                        assert(sv->If_2->Some_0 =~= stmts_view(b@));
                        assert(ir_instrs_view(ebv) == lowered_stmts(stmts_view(b@)));
                assert(ir_instrs_view(ebv).len() == ebv.len());
                assert(ebv.len() == b@.len());
                assert forall|i: int| 0 <= i < ebv.len() implies ir_instr_view(ebv[i]) == lowered_stmt(sv->If_2->Some_0[i]) by {
                            assert(ir_instrs_view(ebv)[i] == ir_instr_view(ebv[i]));
                    assert(stmts_view(b@)[i] == stmt_view(b@[i]));
                    assert(lowered_stmts(stmts_view(b@))[i] == lowered_stmt(stmts_view(b@)[i]));
                    assert(ir_instrs_view(ebv)[i] == lowered_stmts(stmts_view(b@))[i]);
                    assert(sv->If_2->Some_0[i] == stmts_view(b@)[i]);
                        }
                    },
                    None => {},
                }
                assert(ir_instr_view(r)->If_2 =~= lowered_stmt(sv)->If_2);
            }
            r
        },
        Statement::Repeat { count, body, .. } => {
            let c = lower_expr(count);
            let b = lower_block(body);
            let ghost bv = b@;
            let r = IrInstruction::Repeat { count: c, body: b };
            proof {
                let sv = stmt_view(*stmt);
                assert(sv->Repeat_1 =~= stmts_view(body@));
                assert(ir_instrs_view(bv) == lowered_stmts(stmts_view(body@)));
                assert(ir_instrs_view(bv).len() == bv.len());
                assert(bv.len() == body@.len());
                assert forall|i: int| 0 <= i < bv.len() implies ir_instr_view(bv[i]) == lowered_stmt(sv->Repeat_1[i]) by {
                    assert(ir_instrs_view(bv)[i] == ir_instr_view(bv[i]));
                    assert(stmts_view(body@)[i] == stmt_view(body@[i]));
                    assert(lowered_stmts(stmts_view(body@))[i] == lowered_stmt(stmts_view(body@)[i]));
                    assert(ir_instrs_view(bv)[i] == lowered_stmts(stmts_view(body@))[i]);
                    assert(sv->Repeat_1[i] == stmts_view(body@)[i]);
                }
                assert(ir_instr_view(r)->Repeat_1 =~= lowered_stmt(sv)->Repeat_1);
            }
            r
        },
        Statement::Return { value, .. } => {
            let v = match value {
                Some(x) => Some(lower_expr(x)),
                None => None,
            };
            IrInstruction::Return(v)
        },
        Statement::Assert { expr, .. } => IrInstruction::Assert(lower_expr(expr)),
    }
}

fn lower_block(ss: &Vec<Statement>) -> (r: Vec<IrInstruction>)
    ensures
        ir_instrs_view(r@) == lowered_stmts(stmts_view(ss@)),
    decreases ss, 1nat,
{
    let mut out: Vec<IrInstruction> = Vec::new();
    for i in 0..ss.len()
        invariant
            out@.len() == i,
            forall|k: int| 0 <= k < i ==> #[trigger] ir_instr_view(out@[k]) == lowered_stmt(stmt_view(ss@[k])),
    {
        let x = lower_statement(&ss[i]);
        out.push(x);
    }
    assert(ir_instrs_view(out@) =~= lowered_stmts(stmts_view(ss@)));
    out
}

fn lower_trigger(k: &EventKind) -> (r: IrTrigger)
    ensures
        ir_trigger_view(r) == lowered_trigger(crate::language::ast::event_kind_view(*k)),
{
    match k {
        EventKind::Start => IrTrigger::OnStart,
        EventKind::Update => IrTrigger::OnUpdate,
        EventKind::ActionDown(a) => IrTrigger::OnActionDown(a.clone()),
        EventKind::ActionPress(a) => IrTrigger::OnActionPress(a.clone()),
        EventKind::ActionUp(a) => IrTrigger::OnActionUp(a.clone()),
        EventKind::Touches { object_a, object_b } => IrTrigger::OnTouches {
            object_a: object_a.clone(),
            object_b: object_b.clone(),
        },
        EventKind::EverySeconds(s) => IrTrigger::OnTimer { seconds: *s, repeating: true },
        EventKind::AfterSeconds(s) => IrTrigger::OnTimer { seconds: *s, repeating: false },
        EventKind::Custom(c) => IrTrigger::OnActionDown(c.clone()),
        EventKind::Message(m) => IrTrigger::OnMessage(m.clone()),
    }
}

fn lower_event(event: &EventDef) -> (r: IrEventHandler)
    ensures
        ir_event_view(r) == lowered_event(event_view(*event)),
{
    let trigger = lower_trigger(&event.kind);
    let instructions = lower_block(&event.body);
    IrEventHandler { trigger, instructions }
}

fn copy_strings(v: &Vec<String>) -> (r: Vec<String>)
    ensures
        r@.map_values(|p: String| p@) == v@.map_values(|p: String| p@),
{
    let mut r: Vec<String> = Vec::new();
    for i in 0..v.len()
        invariant
            r@.len() == i,
            forall|k: int| 0 <= k < i ==> #[trigger] r@[k]@ == v@[k]@,
    {
        r.push(v[i].clone());
    }
    assert(r@.map_values(|p: String| p@) =~= v@.map_values(|p: String| p@));
    r
}

/// Lowers a parsed program to the intermediate form. Lowering does not fail: every
/// program has a lowered form, whatever names its calls use.
pub fn lower_ast_to_ir(program: &Program, registry: &BlockRegistry) -> (r: Result<IrProgram, LowerError>)
    ensures
        r matches Ok(ir) && ir_program_view(ir) == lowered_program(program_view(*program)),
{
    let ghost pv = program_view(*program);
    let mut events: Vec<IrEventHandler> = Vec::new();
    let start = if program.top_level.len() > 0 { 1usize } else { 0usize };
    if program.top_level.len() > 0 {
        let instructions = lower_block(&program.top_level);
        events.push(IrEventHandler { trigger: IrTrigger::OnStart, instructions });
    }
    let ghost expected = lowered_program(pv).events;
    for i in 0..program.events.len()
        invariant
            pv == program_view(*program),
            expected == lowered_program(pv).events,
            start == (if pv.top_level.len() > 0 { 1usize } else { 0usize }),
            events@.len() == start + i,
            forall|k: int| 0 <= k < start + i ==> #[trigger] ir_event_view(events@[k]) == expected[k],
    {
        let e = lower_event(&program.events[i]);
        events.push(e);
        assert(pv.events[i as int] == event_view(program.events@[i as int]));
    }
    let mut functions: Vec<IrFunction> = Vec::new();
    for i in 0..program.functions.len()
        invariant
            pv == program_view(*program),
            functions@.len() == i,
            forall|k: int| 0 <= k < i ==> #[trigger] ir_function_view(functions@[k]) == lowered_function(pv.functions[k]),
    {
        let f = &program.functions[i];
        assert(pv.functions[i as int] == func_view(*f));
        let instructions = lower_block(&f.body);
        let params = copy_strings(&f.params);
        assert(f.params@.map_values(|p: String| p@) =~= crate::language::ast::strings_view(f.params@));
        let g = IrFunction { name: f.name.clone(), params, instructions };
        assert(ir_function_view(g) == lowered_function(pv.functions[i as int]));
        functions.push(g);
    }
    let ir = IrProgram { events, functions };
    assert(ir_program_view(ir) =~= lowered_program(pv));
    Ok(ir)
}


/// Lowering keeps what each binary operator computes.
pub proof fn law_lowered_operator_computes_the_same(op: BinaryOp, a: int, b: int)
    ensures
        crate::ir::ir_binop_value(lowered_binop(op), a, b) == crate::language::ast::binop_value(op, a, b),
{
}

/// Lowering keeps what each unary operator computes.
pub proof fn law_lowered_unary_operator_computes_the_same(op: UnaryOp, a: int)
    ensures
        crate::ir::ir_unop_value(lowered_unop(op), a) == crate::language::ast::unop_value(op, a),
{
}

/// An assignment `t op= v` lowers to an assignment to `t`: a plain `=` of the lowered value,
/// and a compound one of `t` combined with the lowered value by an operator that computes,
/// from any old value of `t` and any value of `v`, what the assignment stores.
pub proof fn law_assignment_lowers_to_its_operator(
    t: Seq<char>,
    op: AssignOp,
    v: ExprV,
    sp: crate::language::ast::Span,
    old: int,
    x: int,
)
    ensures
        lowered_stmt(StmtV::Assign(t, op, v, sp)) matches IrInstrV::Assign(t2, e) && t2 == t && (op
            == AssignOp::Assign ==> e == lowered_expr(v)) && (op != AssignOp::Assign ==> (e matches IrExprV::Binary(
            l,
            iop,
            r,
        ) && *l == IrExprV::Var(t) && *r == lowered_expr(v) && crate::ir::ir_binop_value(iop, old, x)
            == crate::language::ast::assign_value(op, old, x))),
{
}


/// Each event handler is lowered to a trigger for the same occasion: start and frame
/// handlers stay so, a held-down, press or release handler stays one for the same action, a
/// collision handler keeps its two objects in order, a repeating timer stays repeating and a
/// one-shot timer one-shot with the same seconds, and a message handler keeps its message.
pub proof fn law_triggers_keep_their_occasion(a: Seq<char>, b: Seq<char>, s: u64)
    ensures
        lowered_trigger(EventKindV::Start) == IrTriggerV::OnStart,
        lowered_trigger(EventKindV::Update) == IrTriggerV::OnUpdate,
        lowered_trigger(EventKindV::ActionDown(a)) == IrTriggerV::OnActionDown(a),
        lowered_trigger(EventKindV::ActionPress(a)) == IrTriggerV::OnActionPress(a),
        lowered_trigger(EventKindV::ActionUp(a)) == IrTriggerV::OnActionUp(a),
        lowered_trigger(EventKindV::Touches(a, b)) == IrTriggerV::OnTouches(a, b),
        lowered_trigger(EventKindV::EverySeconds(s)) == IrTriggerV::OnTimer(s, true),
        lowered_trigger(EventKindV::AfterSeconds(s)) == IrTriggerV::OnTimer(s, false),
        lowered_trigger(EventKindV::Message(a)) == IrTriggerV::OnMessage(a),
{
}

} // verus!

verus! {

/// Lowering keeps one handler per event, after a start handler made of the top-level
/// statements when there are any, and one function per function with the same name and
/// parameters; every handler and function keeps one instruction per statement.
pub proof fn law_lowering_shape(p: ProgramV)
    ensures
        ({
            let ir = lowered_program(p);
            let k: int = if p.top_level.len() > 0 { 1 } else { 0 };
            &&& ir.events.len() == p.events.len() + k
            &&& k == 1 ==> ir.events[0].trigger == IrTriggerV::OnStart && ir.events[0].instructions.len() == p.top_level.len()
            &&& forall|i: int| 0 <= i < p.events.len() ==> (#[trigger] ir.events[i + k]).trigger == lowered_trigger(p.events[i].kind)
                && ir.events[i + k].instructions.len() == p.events[i].body.len()
            &&& ir.functions.len() == p.functions.len()
            &&& forall|i: int| 0 <= i < p.functions.len() ==> (#[trigger] ir.functions[i]).name == p.functions[i].name
                && ir.functions[i].params == p.functions[i].params
                && ir.functions[i].instructions.len() == p.functions[i].body.len()
        }),
{
    let ir = lowered_program(p);
    let k: int = if p.top_level.len() > 0 { 1 } else { 0 };
    let handlers = p.events.map_values(|e: EventV| lowered_event(e));
    assert forall|i: int| 0 <= i < p.events.len() implies (#[trigger] ir.events[i + k]).trigger == lowered_trigger(p.events[i].kind)
        && ir.events[i + k].instructions.len() == p.events[i].body.len() by {
        assert(ir.events[i + k] == handlers[i]);
    }
}

} // verus!
