use vstd::prelude::*;

verus! {

/// A source location: 1-based line and column of the first character, and the byte range.
#[derive(Debug, Clone, Copy, PartialEq, Eq)]
pub struct Span {
    pub line: usize,
    pub col: usize,
    pub start: usize,
    pub end: usize,
}

impl Span {
    pub fn new(line: usize, col: usize, start: usize, end: usize) -> (s: Span)
        ensures
            s == (Span { line, col, start, end }),
    {
        Span { line, col, start, end }
    }
}

impl Default for Span {
    fn default() -> (s: Span)
        ensures
            s == (Span { line: 0, col: 0, start: 0, end: 0 }),
    {
        Span { line: 0, col: 0, start: 0, end: 0 }
    }
}

/// The whole parse result of a source file.
#[derive(Debug, PartialEq)]
pub struct Program {
    pub events: Vec<EventDef>,
    pub functions: Vec<FunctionDef>,
    pub top_level: Vec<Statement>,
}

/// An event handler: trigger and body.
#[derive(Debug, PartialEq)]
pub struct EventDef {
    pub kind: EventKind,
    pub body: Vec<Statement>,
    pub span: Span,
}

/// What triggers an event handler.
#[derive(Debug, Clone, PartialEq)]
pub enum EventKind {
    Start,
    Update,
    ActionDown(String),
    ActionPress(String),
    ActionUp(String),
    Touches { object_a: String, object_b: String },
    EverySeconds(u64),
    AfterSeconds(u64),
    Custom(String),
    Message(String),
}

/// A user function.
#[derive(Debug, PartialEq)]
pub struct FunctionDef {
    pub name: String,
    pub params: Vec<String>,
    pub body: Vec<Statement>,
    pub span: Span,
}

#[derive(Debug, Clone, Copy, PartialEq, Eq, Structural)]
pub enum AssignOp {
    Assign,
    AddAssign,
    SubAssign,
    MulAssign,
    DivAssign,
}

#[derive(Debug, Clone, Copy, PartialEq, Eq, Structural)]
pub enum BinaryOp {
    Add,
    Sub,
    Mul,
    Div,
    Mod,
    Equal,
    NotEqual,
    Less,
    LessEqual,
    Greater,
    GreaterEqual,
    And,
    Or,
}

#[derive(Debug, Clone, Copy, PartialEq, Eq, Structural)]
pub enum UnaryOp {
    Not,
    Neg,
}

/// A statement.
#[derive(Debug, PartialEq)]
#[allow(inconsistent_fields)]
pub enum Statement {
    Assign { target: String, op: AssignOp, value: Expr, span: Span },
    Call { target: Option<String>, name: String, args: Vec<Expr>, span: Span },
    If { condition: Expr, then_body: Vec<Statement>, else_body: Option<Vec<Statement>>, span: Span },
    Repeat { count: Expr, body: Vec<Statement>, span: Span },
    Return { value: Option<Expr>, span: Span },
    Assert { expr: Expr, span: Span },
}

/// An expression. A number literal keeps its decimal text (`digits` or `digits.digits`).
#[derive(Debug, PartialEq)]
#[allow(inconsistent_fields)]
pub enum Expr {
    Number(String, Span),
    String(String, Span),
    Bool(bool, Span),
    Ident(String, Span),
    Binary { left: Box<Expr>, op: BinaryOp, right: Box<Expr>, span: Span },
    Unary { op: UnaryOp, expr: Box<Expr>, span: Span },
    Call { target: Option<String>, name: String, args: Vec<Expr>, span: Span },
}

impl Expr {
    pub open spec fn spec_span(self) -> Span {
        match self {
            Expr::Number(_, s) => s,
            Expr::String(_, s) => s,
            Expr::Bool(_, s) => s,
            Expr::Ident(_, s) => s,
            Expr::Binary { span, .. } => span,
            Expr::Unary { span, .. } => span,
            Expr::Call { span, .. } => span,
        }
    }

    /// The expression's source location.
    pub fn span(&self) -> (s: Span)
        ensures
            s == self.spec_span(),
    {
        match self {
            Expr::Number(_, s) => *s,
            Expr::String(_, s) => *s,
            Expr::Bool(_, s) => *s,
            Expr::Ident(_, s) => *s,
            Expr::Binary { span, .. } => *span,
            Expr::Unary { span, .. } => *span,
            Expr::Call { span, .. } => *span,
        }
    }
}

impl Statement {
    pub open spec fn spec_span(self) -> Span {
        match self {
            Statement::Assign { span, .. } => span,
            Statement::Call { span, .. } => span,
            Statement::If { span, .. } => span,
            Statement::Repeat { span, .. } => span,
            Statement::Return { span, .. } => span,
            Statement::Assert { span, .. } => span,
        }
    }

    /// The statement's source location.
    pub fn span(&self) -> (s: Span)
        ensures
            s == self.spec_span(),
    {
        match self {
            Statement::Assign { span, .. } => *span,
            Statement::Call { span, .. } => *span,
            Statement::If { span, .. } => *span,
            Statement::Repeat { span, .. } => *span,
            Statement::Return { span, .. } => *span,
            Statement::Assert { span, .. } => *span,
        }
    }
}


/// Truth as a number: 1 for true, 0 for false.
pub open spec fn truth(b: bool) -> int {
    if b { 1 } else { 0 }
}

/// What a binary operator of the language computes on two whole numbers: arithmetic, or for
/// comparisons and the logical operators a truth (non-zero counts as true). Division and
/// remainder by zero give 0 here.
pub open spec fn binop_value(op: BinaryOp, a: int, b: int) -> int {
    match op {
        BinaryOp::Add => a + b,
        BinaryOp::Sub => a - b,
        BinaryOp::Mul => a * b,
        BinaryOp::Div => if b == 0 { 0 } else { a / b },
        BinaryOp::Mod => if b == 0 { 0 } else { a % b },
        BinaryOp::Equal => truth(a == b),
        BinaryOp::NotEqual => truth(a != b),
        BinaryOp::Less => truth(a < b),
        BinaryOp::LessEqual => truth(a <= b),
        BinaryOp::Greater => truth(a > b),
        BinaryOp::GreaterEqual => truth(a >= b),
        BinaryOp::And => truth(a != 0 && b != 0),
        BinaryOp::Or => truth(a != 0 || b != 0),
    }
}

/// What a unary operator of the language computes on a whole number.
pub open spec fn unop_value(op: UnaryOp, a: int) -> int {
    match op {
        UnaryOp::Not => truth(a == 0),
        UnaryOp::Neg => -a,
    }
}

/// The value a variable holding `old` has after an assignment of `v` with operator `op`:
/// `=` stores `v`, `+=` adds it, `-=` subtracts it, `*=` multiplies by it, `/=` divides by
/// it (by zero giving 0 here).
pub open spec fn assign_value(op: AssignOp, old: int, v: int) -> int {
    match op {
        AssignOp::Assign => v,
        AssignOp::AddAssign => old + v,
        AssignOp::SubAssign => old - v,
        AssignOp::MulAssign => old * v,
        AssignOp::DivAssign => if v == 0 { 0 } else { old / v },
    }
}

} // verus!

verus! {

/// An expression as a specification value (text as character sequences).
pub enum ExprV {
    Number(Seq<char>, Span),
    Str(Seq<char>, Span),
    Bool(bool, Span),
    Ident(Seq<char>, Span),
    Binary(Box<ExprV>, BinaryOp, Box<ExprV>, Span),
    Unary(UnaryOp, Box<ExprV>, Span),
    Call(Option<Seq<char>>, Seq<char>, Seq<ExprV>, Span),
}

/// A statement as a specification value.
pub enum StmtV {
    Assign(Seq<char>, AssignOp, ExprV, Span),
    Call(Option<Seq<char>>, Seq<char>, Seq<ExprV>, Span),
    If(ExprV, Seq<StmtV>, Option<Seq<StmtV>>, Span),
    Repeat(ExprV, Seq<StmtV>, Span),
    Return(Option<ExprV>, Span),
    Assert(ExprV, Span),
}

/// An event trigger as a specification value.
pub enum EventKindV {
    Start,
    Update,
    ActionDown(Seq<char>),
    ActionPress(Seq<char>),
    ActionUp(Seq<char>),
    Touches(Seq<char>, Seq<char>),
    EverySeconds(u64),
    AfterSeconds(u64),
    Custom(Seq<char>),
    Message(Seq<char>),
}

pub struct EventV {
    pub kind: EventKindV,
    pub body: Seq<StmtV>,
    pub span: Span,
}

pub struct FuncV {
    pub name: Seq<char>,
    pub params: Seq<Seq<char>>,
    pub body: Seq<StmtV>,
    pub span: Span,
}

#[verifier::ext_equal]
pub struct ProgramV {
    pub events: Seq<EventV>,
    pub functions: Seq<FuncV>,
    pub top_level: Seq<StmtV>,
}

pub open spec fn opt_str_view(o: Option<String>) -> Option<Seq<char>> {
    match o {
        Some(s) => Some(s@),
        None => None,
    }
}

pub open spec fn expr_view(e: Expr) -> ExprV
    decreases e,
{
    match e {
        Expr::Number(s, sp) => ExprV::Number(s@, sp),
        Expr::String(s, sp) => ExprV::Str(s@, sp),
        Expr::Bool(b, sp) => ExprV::Bool(b, sp),
        Expr::Ident(s, sp) => ExprV::Ident(s@, sp),
        Expr::Binary { left, op, right, span } => ExprV::Binary(Box::new(expr_view(*left)), op, Box::new(expr_view(*right)), span),
        Expr::Unary { op, expr, span } => ExprV::Unary(op, Box::new(expr_view(*expr)), span),
        Expr::Call { target, name, args, span } => ExprV::Call(
            opt_str_view(target),
            name@,
            Seq::new(args@.len(), |i: int| if 0 <= i < args@.len() { expr_view(args@[i]) } else { ExprV::Bool(false, span) }),
            span,
        ),
    }
}

pub open spec fn exprs_view(es: Seq<Expr>) -> Seq<ExprV> {
    Seq::new(es.len(), |i: int| expr_view(es[i]))
}

pub open spec fn stmt_view(s: Statement) -> StmtV
    decreases s,
{
    match s {
        Statement::Assign { target, op, value, span } => StmtV::Assign(target@, op, expr_view(value), span),
        Statement::Call { target, name, args, span } => StmtV::Call(opt_str_view(target), name@, exprs_view(args@), span),
        Statement::If { condition, then_body, else_body, span } => StmtV::If(
            expr_view(condition),
            Seq::new(then_body@.len(), |i: int| if 0 <= i < then_body@.len() { stmt_view(then_body@[i]) } else { StmtV::Return(None, span) }),
            match else_body {
                Some(eb) => Some(Seq::new(eb@.len(), |i: int| if 0 <= i < eb@.len() { stmt_view(eb@[i]) } else { StmtV::Return(None, span) })),
                None => None,
            },
            span,
        ),
        Statement::Repeat { count, body, span } => StmtV::Repeat(
            expr_view(count),
            Seq::new(body@.len(), |i: int| if 0 <= i < body@.len() { stmt_view(body@[i]) } else { StmtV::Return(None, span) }),
            span,
        ),
        Statement::Return { value, span } => StmtV::Return(
            match value {
                Some(v) => Some(expr_view(v)),
                None => None,
            },
            span,
        ),
        Statement::Assert { expr, span } => StmtV::Assert(expr_view(expr), span),
    }
}

pub open spec fn stmts_view(ss: Seq<Statement>) -> Seq<StmtV> {
    Seq::new(ss.len(), |i: int| stmt_view(ss[i]))
}

pub open spec fn event_kind_view(k: EventKind) -> EventKindV {
    match k {
        EventKind::Start => EventKindV::Start,
        EventKind::Update => EventKindV::Update,
        EventKind::ActionDown(s) => EventKindV::ActionDown(s@),
        EventKind::ActionPress(s) => EventKindV::ActionPress(s@),
        EventKind::ActionUp(s) => EventKindV::ActionUp(s@),
        EventKind::Touches { object_a, object_b } => EventKindV::Touches(object_a@, object_b@),
        EventKind::EverySeconds(n) => EventKindV::EverySeconds(n),
        EventKind::AfterSeconds(n) => EventKindV::AfterSeconds(n),
        EventKind::Custom(s) => EventKindV::Custom(s@),
        EventKind::Message(s) => EventKindV::Message(s@),
    }
}

pub open spec fn event_view(e: EventDef) -> EventV {
    EventV { kind: event_kind_view(e.kind), body: stmts_view(e.body@), span: e.span }
}

pub open spec fn strings_view(v: Seq<String>) -> Seq<Seq<char>> {
    Seq::new(v.len(), |i: int| v[i]@)
}

pub open spec fn func_view(f: FunctionDef) -> FuncV {
    FuncV { name: f.name@, params: strings_view(f.params@), body: stmts_view(f.body@), span: f.span }
}

pub open spec fn program_view(p: Program) -> ProgramV {
    ProgramV {
        events: Seq::new(p.events@.len(), |i: int| event_view(p.events@[i])),
        functions: Seq::new(p.functions@.len(), |i: int| func_view(p.functions@[i])),
        top_level: stmts_view(p.top_level@),
    }
}

} // verus!
