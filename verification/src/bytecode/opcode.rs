use vstd::prelude::*;
use crate::language::formatter::{canon_number, canon_number_exec};

verus! {

/// A value on the virtual machine's stack or in a constant pool. A number keeps the decimal
/// text of its literal.
#[derive(Debug, PartialEq)]
pub enum BytecodeValue {
    Nil,
    Number(String),
    String(String),
    Bool(bool),
    Object(String),
    List(Vec<BytecodeValue>),
}

/// One virtual machine instruction.
#[derive(Debug, PartialEq)]
pub enum OpCode {
    /// Push a constant value onto the stack by index in chunk's constant pool
    PushConst(usize),
    /// Push nil onto the stack
    PushNil,
    /// Push true onto the stack
    PushTrue,
    /// Push false onto the stack
    PushFalse,
    /// Load variable by name onto the stack
    LoadVar(String),
    /// Store top of stack into variable by name
    StoreVar(String),
    /// Pop top of stack
    Pop,
    Add,
    Sub,
    Mul,
    Div,
    Mod,
    Equal,
    NotEqual,
    Less,
    LessEqual,
    Greater,
    GreaterEqual,
    And,
    Or,
    Not,
    Neg,
    Jump(usize),
    JumpIfFalse(usize),
    CallBlock { name: String, arg_count: usize },
    CallFunc { name: String, arg_count: usize },
    Return,
    Assert,
    Halt,
}

/// A value as a specification value.
pub enum ValV {
    Nil,
    Number(Seq<char>),
    Str(Seq<char>),
    Bool(bool),
    Object(Seq<char>),
    List(Seq<ValV>),
}

/// An instruction as a specification value.
pub enum OpV {
    PushConst(nat),
    PushNil,
    PushTrue,
    PushFalse,
    LoadVar(Seq<char>),
    StoreVar(Seq<char>),
    Pop,
    Add,
    Sub,
    Mul,
    Div,
    Mod,
    Equal,
    NotEqual,
    Less,
    LessEqual,
    Greater,
    GreaterEqual,
    And,
    Or,
    Not,
    Neg,
    Jump(nat),
    JumpIfFalse(nat),
    CallBlock(Seq<char>, nat),
    CallFunc(Seq<char>, nat),
    Return,
    Assert,
    Halt,
}

pub open spec fn val_view(v: BytecodeValue) -> ValV
    decreases v,
{
    match v {
        BytecodeValue::Nil => ValV::Nil,
        BytecodeValue::Number(t) => ValV::Number(t@),
        BytecodeValue::String(s) => ValV::Str(s@),
        BytecodeValue::Bool(b) => ValV::Bool(b),
        BytecodeValue::Object(o) => ValV::Object(o@),
        BytecodeValue::List(items) => ValV::List(
            Seq::new(items@.len(), |i: int| if 0 <= i < items@.len() { val_view(items@[i]) } else { ValV::Nil }),
        ),
    }
}

pub open spec fn op_view(op: OpCode) -> OpV {
    match op {
        OpCode::PushConst(i) => OpV::PushConst(i as nat),
        OpCode::PushNil => OpV::PushNil,
        OpCode::PushTrue => OpV::PushTrue,
        OpCode::PushFalse => OpV::PushFalse,
        OpCode::LoadVar(n) => OpV::LoadVar(n@),
        OpCode::StoreVar(n) => OpV::StoreVar(n@),
        OpCode::Pop => OpV::Pop,
        OpCode::Add => OpV::Add,
        OpCode::Sub => OpV::Sub,
        OpCode::Mul => OpV::Mul,
        OpCode::Div => OpV::Div,
        OpCode::Mod => OpV::Mod,
        OpCode::Equal => OpV::Equal,
        OpCode::NotEqual => OpV::NotEqual,
        OpCode::Less => OpV::Less,
        OpCode::LessEqual => OpV::LessEqual,
        OpCode::Greater => OpV::Greater,
        OpCode::GreaterEqual => OpV::GreaterEqual,
        OpCode::And => OpV::And,
        OpCode::Or => OpV::Or,
        OpCode::Not => OpV::Not,
        OpCode::Neg => OpV::Neg,
        OpCode::Jump(t) => OpV::Jump(t as nat),
        OpCode::JumpIfFalse(t) => OpV::JumpIfFalse(t as nat),
        OpCode::CallBlock { name, arg_count } => OpV::CallBlock(name@, arg_count as nat),
        OpCode::CallFunc { name, arg_count } => OpV::CallFunc(name@, arg_count as nat),
        OpCode::Return => OpV::Return,
        OpCode::Assert => OpV::Assert,
        OpCode::Halt => OpV::Halt,
    }
}

/// Display text of a value: `nil`, the number, the string in quotes, `true`/`false`,
/// `@object`, or `[a, b, ...]`.
pub open spec fn val_text(v: ValV) -> Seq<char>
    decreases v, 0nat,
{
    match v {
        ValV::Nil => "nil"@,
        ValV::Number(t) => canon_number(t),
        ValV::Str(s) => "\""@ + s + "\""@,
        ValV::Bool(b) => if b { "true"@ } else { "false"@ },
        ValV::Object(o) => "@"@ + o,
        ValV::List(items) => "["@ + items_text(items, items.len()) + "]"@,
    }
}

/// The display texts of the first `k` items, separated by `, `.
pub open spec fn items_text(items: Seq<ValV>, k: nat) -> Seq<char>
    decreases items, k,
{
    if k == 0 || k > items.len() {
        Seq::empty()
    } else if k == 1 {
        val_text(items[0])
    } else {
        items_text(items, (k - 1) as nat) + ", "@ + val_text(items[k - 1])
    }
}

impl BytecodeValue {
    /// The value's display text.
    pub fn to_display_string(&self) -> (s: String)
        ensures
            s@ == val_text(val_view(*self)),
        decreases self, 0nat,
    {
        match self {
            BytecodeValue::Nil => String::from_str("nil"),
            BytecodeValue::Number(t) => canon_number_exec(t),
            BytecodeValue::String(s) => {
                let mut r = String::from_str("\"");
                r.append(s.as_str());
                r.append("\"");
                r
            },
            BytecodeValue::Bool(b) => if *b { String::from_str("true") } else { String::from_str("false") },
            BytecodeValue::Object(o) => {
                let mut r = String::from_str("@");
                r.append(o.as_str());
                r
            },
            BytecodeValue::List(items) => {
                let mut r = String::from_str("[");
                let inner = list_text(items);
                r.append(inner.as_str());
                r.append("]");
                proof {
                    let iv = val_view(*self)->List_0;
                    assert(iv =~= Seq::new(items@.len(), |i: int| val_view(items@[i])));
                }
                r
            },
        }
    }
}

fn list_text(items: &Vec<BytecodeValue>) -> (s: String)
    ensures
        s@ == items_text(Seq::new(items@.len(), |i: int| val_view(items@[i])), items@.len()),
    decreases items, 1nat,
{
    let ghost iv = Seq::new(items@.len(), |i: int| val_view(items@[i]));
    let mut s = String::new();
    for i in 0..items.len()
        invariant
            iv == Seq::new(items@.len(), |i: int| val_view(items@[i])),
            s@ == items_text(iv, i as nat),
    {
        if i > 0 {
            s.append(", ");
        }
        let t = items[i].to_display_string();
        s.append(t.as_str());
        proof {
            if i == 0 {
                assert(items_text(iv, 1) == val_text(iv[0]));
            }
        }
    }
    s
}


/// What an instruction that pops two operands `a` (pushed first) and `b` pushes, on whole
/// numbers (truths as 1 and 0; division and remainder by zero give 0 here); `None` for an
/// instruction that is no binary operation.
pub open spec fn opcode_binop_value(op: OpV, a: int, b: int) -> Option<int> {
    let t = |c: bool| if c { 1int } else { 0int };
    match op {
        OpV::Add => Some(a + b),
        OpV::Sub => Some(a - b),
        OpV::Mul => Some(a * b),
        OpV::Div => Some(if b == 0 { 0 } else { a / b }),
        OpV::Mod => Some(if b == 0 { 0 } else { a % b }),
        OpV::Equal => Some(t(a == b)),
        OpV::NotEqual => Some(t(a != b)),
        OpV::Less => Some(t(a < b)),
        OpV::LessEqual => Some(t(a <= b)),
        OpV::Greater => Some(t(a > b)),
        OpV::GreaterEqual => Some(t(a >= b)),
        OpV::And => Some(t(a != 0 && b != 0)),
        OpV::Or => Some(t(a != 0 || b != 0)),
        _ => None,
    }
}

/// What an instruction that pops one operand pushes, on whole numbers; `None` for an
/// instruction that is no unary operation.
pub open spec fn opcode_unop_value(op: OpV, a: int) -> Option<int> {
    match op {
        OpV::Not => Some(if a == 0 { 1int } else { 0int }),
        OpV::Neg => Some(-a),
        _ => None,
    }
}

} // verus!
