pub mod lower;

pub use lower::{lower_ast_to_ir, LowerError};



use vstd::prelude::*;

verus! {

// ---------------------------------------------------------------------------------------
// The intermediate representation
// ---------------------------------------------------------------------------------------

/// A lowered program: event handlers (top-level statements first, as a start handler) and
/// functions.
#[derive(Debug, PartialEq)]
pub struct IrProgram {
    pub events: Vec<IrEventHandler>,
    pub functions: Vec<IrFunction>,
}

/// A lowered event handler.
#[derive(Debug, PartialEq)]
pub struct IrEventHandler {
    pub trigger: IrTrigger,
    pub instructions: Vec<IrInstruction>,
}

/// What starts an event handler.
#[derive(Debug, PartialEq, Eq)]
pub enum IrTrigger {
    OnStart,
    OnUpdate,
    OnActionDown(String),
    OnActionPress(String),
    OnActionUp(String),
    OnTouches { object_a: String, object_b: String },
    OnTimer { seconds: u64, repeating: bool },
    OnMessage(String),
}

/// A lowered user function.
#[derive(Debug, PartialEq)]
pub struct IrFunction {
    pub name: String,
    pub params: Vec<String>,
    pub instructions: Vec<IrInstruction>,
}

/// A lowered statement. Compound assignments are already expanded.
#[derive(Debug, PartialEq)]
pub enum IrInstruction {
    Assign { target: String, expr: IrExpr },
    CallBlock { name: String, args: Vec<IrExpr> },
    If { condition: IrExpr, then_branch: Vec<IrInstruction>, else_branch: Vec<IrInstruction> },
    Repeat { count: IrExpr, body: Vec<IrInstruction> },
    Return(Option<IrExpr>),
    Assert(IrExpr),
}

/// A lowered expression; calls carry their full `target.name`.
#[derive(Debug, PartialEq)]
pub enum IrExpr {
    Constant(IrValue),
    Var(String),
    Binary { left: Box<IrExpr>, op: IrBinaryOp, right: Box<IrExpr> },
    Unary { op: IrUnaryOp, expr: Box<IrExpr> },
    CallBlock { name: String, args: Vec<IrExpr> },
}

/// A constant. A number keeps the decimal text of its literal.
#[derive(Debug, PartialEq)]
pub enum IrValue {
    Number(String),
    String(String),
    Bool(bool),
}

#[derive(Debug, Clone, Copy, PartialEq, Eq, Structural)]
pub enum IrBinaryOp {
    Add,
    Sub,
    Mul,
    Div,
    Mod,
    Equal,
    NotEqual,
    Less,
    LessEqual,
    Greater,
    GreaterEqual,
    And,
    Or,
}

#[derive(Debug, Clone, Copy, PartialEq, Eq, Structural)]
pub enum IrUnaryOp {
    Not,
    Neg,
}

// ---------------------------------------------------------------------------------------
// Specification values
// ---------------------------------------------------------------------------------------

pub enum IrValueV {
    Number(Seq<char>),
    Str(Seq<char>),
    Bool(bool),
}

pub enum IrExprV {
    Constant(IrValueV),
    Var(Seq<char>),
    Binary(Box<IrExprV>, IrBinaryOp, Box<IrExprV>),
    Unary(IrUnaryOp, Box<IrExprV>),
    CallBlock(Seq<char>, Seq<IrExprV>),
}

pub enum IrInstrV {
    Assign(Seq<char>, IrExprV),
    CallBlock(Seq<char>, Seq<IrExprV>),
    If(IrExprV, Seq<IrInstrV>, Seq<IrInstrV>),
    Repeat(IrExprV, Seq<IrInstrV>),
    Return(Option<IrExprV>),
    Assert(IrExprV),
}

pub enum IrTriggerV {
    OnStart,
    OnUpdate,
    OnActionDown(Seq<char>),
    OnActionPress(Seq<char>),
    OnActionUp(Seq<char>),
    OnTouches(Seq<char>, Seq<char>),
    OnTimer(u64, bool),
    OnMessage(Seq<char>),
}

pub struct IrEventV {
    pub trigger: IrTriggerV,
    pub instructions: Seq<IrInstrV>,
}

pub struct IrFunctionV {
    pub name: Seq<char>,
    pub params: Seq<Seq<char>>,
    pub instructions: Seq<IrInstrV>,
}

#[verifier::ext_equal]
pub struct IrProgramV {
    pub events: Seq<IrEventV>,
    pub functions: Seq<IrFunctionV>,
}

pub open spec fn ir_value_view(v: IrValue) -> IrValueV {
    match v {
        IrValue::Number(t) => IrValueV::Number(t@),
        IrValue::String(s) => IrValueV::Str(s@),
        IrValue::Bool(b) => IrValueV::Bool(b),
    }
}

pub open spec fn ir_expr_view(e: IrExpr) -> IrExprV
    decreases e,
{
    match e {
        IrExpr::Constant(v) => IrExprV::Constant(ir_value_view(v)),
        IrExpr::Var(n) => IrExprV::Var(n@),
        IrExpr::Binary { left, op, right } => IrExprV::Binary(Box::new(ir_expr_view(*left)), op, Box::new(ir_expr_view(*right))),
        IrExpr::Unary { op, expr } => IrExprV::Unary(op, Box::new(ir_expr_view(*expr))),
        IrExpr::CallBlock { name, args } => IrExprV::CallBlock(
            name@,
            Seq::new(args@.len(), |i: int| if 0 <= i < args@.len() { ir_expr_view(args@[i]) } else { IrExprV::Var(name@) }),
        ),
    }
}

pub open spec fn ir_exprs_view(es: Seq<IrExpr>) -> Seq<IrExprV> {
    Seq::new(es.len(), |i: int| ir_expr_view(es[i]))
}

pub open spec fn ir_instr_view(s: IrInstruction) -> IrInstrV
    decreases s,
{
    match s {
        IrInstruction::Assign { target, expr } => IrInstrV::Assign(target@, ir_expr_view(expr)),
        IrInstruction::CallBlock { name, args } => IrInstrV::CallBlock(name@, ir_exprs_view(args@)),
        IrInstruction::If { condition, then_branch, else_branch } => IrInstrV::If(
            ir_expr_view(condition),
            Seq::new(then_branch@.len(), |i: int| if 0 <= i < then_branch@.len() { ir_instr_view(then_branch@[i]) } else { IrInstrV::Return(None) }),
            Seq::new(else_branch@.len(), |i: int| if 0 <= i < else_branch@.len() { ir_instr_view(else_branch@[i]) } else { IrInstrV::Return(None) }),
        ),
        IrInstruction::Repeat { count, body } => IrInstrV::Repeat(
            ir_expr_view(count),
            Seq::new(body@.len(), |i: int| if 0 <= i < body@.len() { ir_instr_view(body@[i]) } else { IrInstrV::Return(None) }),
        ),
        IrInstruction::Return(v) => IrInstrV::Return(match v {
            Some(x) => Some(ir_expr_view(x)),
            None => None,
        }),
        IrInstruction::Assert(x) => IrInstrV::Assert(ir_expr_view(x)),
    }
}

pub open spec fn ir_instrs_view(ss: Seq<IrInstruction>) -> Seq<IrInstrV> {
    Seq::new(ss.len(), |i: int| ir_instr_view(ss[i]))
}

pub open spec fn ir_trigger_view(t: IrTrigger) -> IrTriggerV {
    match t {
        IrTrigger::OnStart => IrTriggerV::OnStart,
        IrTrigger::OnUpdate => IrTriggerV::OnUpdate,
        IrTrigger::OnActionDown(a) => IrTriggerV::OnActionDown(a@),
        IrTrigger::OnActionPress(a) => IrTriggerV::OnActionPress(a@),
        IrTrigger::OnActionUp(a) => IrTriggerV::OnActionUp(a@),
        IrTrigger::OnTouches { object_a, object_b } => IrTriggerV::OnTouches(object_a@, object_b@),
        IrTrigger::OnTimer { seconds, repeating } => IrTriggerV::OnTimer(seconds, repeating),
        IrTrigger::OnMessage(m) => IrTriggerV::OnMessage(m@),
    }
}

pub open spec fn ir_event_view(e: IrEventHandler) -> IrEventV {
    IrEventV { trigger: ir_trigger_view(e.trigger), instructions: ir_instrs_view(e.instructions@) }
}

pub open spec fn ir_function_view(f: IrFunction) -> IrFunctionV {
    IrFunctionV {
        name: f.name@,
        params: f.params@.map_values(|p: String| p@),
        instructions: ir_instrs_view(f.instructions@),
    }
}

pub open spec fn ir_program_view(p: IrProgram) -> IrProgramV {
    IrProgramV {
        events: p.events@.map_values(|e: IrEventHandler| ir_event_view(e)),
        functions: p.functions@.map_values(|f: IrFunction| ir_function_view(f)),
    }
}

impl Clone for IrTrigger {
    fn clone(&self) -> (r: Self)
        ensures
            ir_trigger_view(r) == ir_trigger_view(*self),
    {
        match self {
            IrTrigger::OnStart => IrTrigger::OnStart,
            IrTrigger::OnUpdate => IrTrigger::OnUpdate,
            IrTrigger::OnActionDown(a) => IrTrigger::OnActionDown(a.clone()),
            IrTrigger::OnActionPress(a) => IrTrigger::OnActionPress(a.clone()),
            IrTrigger::OnActionUp(a) => IrTrigger::OnActionUp(a.clone()),
            IrTrigger::OnTouches { object_a, object_b } => IrTrigger::OnTouches {
                object_a: object_a.clone(),
                object_b: object_b.clone(),
            },
            IrTrigger::OnTimer { seconds, repeating } => IrTrigger::OnTimer { seconds: *seconds, repeating: *repeating },
            IrTrigger::OnMessage(m) => IrTrigger::OnMessage(m.clone()),
        }
    }
}


/// What a binary operator of the intermediate form computes on two whole numbers (truths as
/// 1 and 0; division and remainder by zero give 0 here).
pub open spec fn ir_binop_value(op: IrBinaryOp, a: int, b: int) -> int {
    let t = |c: bool| if c { 1int } else { 0int };
    match op {
        IrBinaryOp::Add => a + b,
        IrBinaryOp::Sub => a - b,
        IrBinaryOp::Mul => a * b,
        IrBinaryOp::Div => if b == 0 { 0 } else { a / b },
        IrBinaryOp::Mod => if b == 0 { 0 } else { a % b },
        IrBinaryOp::Equal => t(a == b),
        IrBinaryOp::NotEqual => t(a != b),
        IrBinaryOp::Less => t(a < b),
        IrBinaryOp::LessEqual => t(a <= b),
        IrBinaryOp::Greater => t(a > b),
        IrBinaryOp::GreaterEqual => t(a >= b),
        IrBinaryOp::And => t(a != 0 && b != 0),
        IrBinaryOp::Or => t(a != 0 || b != 0),
    }
}

/// What a unary operator of the intermediate form computes on a whole number.
pub open spec fn ir_unop_value(op: IrUnaryOp, a: int) -> int {
    match op {
        IrUnaryOp::Not => if a == 0 { 1 } else { 0 },
        IrUnaryOp::Neg => -a,
    }
}

} // verus!
