use vstd::prelude::*;
use crate::bytecode::opcode::{BytecodeValue, OpCode, OpV, ValV, op_view, val_text, val_view};
use crate::text::{decimal, repeat_char, u64_to_string};

verus! {

/// A compiled instruction sequence with its constant pool.
#[derive(Debug, PartialEq)]
pub struct Chunk {
    pub instructions: Vec<OpCode>,
    pub constants: Vec<BytecodeValue>,
}

/// A chunk as a specification value.
pub struct ChunkV {
    pub ins: Seq<OpV>,
    pub consts: Seq<ValV>,
}

pub open spec fn chunk_view(c: Chunk) -> ChunkV {
    ChunkV {
        ins: c.instructions@.map_values(|o: OpCode| op_view(o)),
        consts: c.constants@.map_values(|v: BytecodeValue| val_view(v)),
    }
}

/// Every jump lands inside the chunk or just past its end, and every constant reference
/// names an entry of the pool.
pub open spec fn chunk_ok(c: ChunkV) -> bool {
    forall|i: int| 0 <= i < c.ins.len() ==> match #[trigger] c.ins[i] {
        OpV::Jump(t) => t <= c.ins.len(),
        OpV::JumpIfFalse(t) => t <= c.ins.len(),
        OpV::PushConst(k) => k < c.consts.len(),
        _ => true,
    }
}

/// The instruction that `patch_jump` leaves at a jump: the same kind of jump, aimed at `target`.
pub open spec fn retarget(op: OpV, target: nat) -> OpV {
    match op {
        OpV::Jump(_) => OpV::Jump(target),
        OpV::JumpIfFalse(_) => OpV::JumpIfFalse(target),
        other => other,
    }
}

pub open spec fn is_jump(op: OpV) -> bool {
    op is Jump || op is JumpIfFalse
}

/// `n` as at least four digits, zero-padded on the left.
pub open spec fn four_digits(n: nat) -> Seq<char> {
    let d = decimal(n);
    if d.len() >= 4 { d } else { repeat_char('0', (4 - d.len()) as nat) + d }
}

/// The disassembly line of one instruction (after its index).
pub open spec fn op_line(op: OpV, consts: Seq<ValV>) -> Seq<char> {
    match op {
        OpV::PushConst(k) => "OP_PUSH_CONST "@ + decimal(k) + " ("@
            + (if k < consts.len() { val_text(consts[k as int]) } else { Seq::empty() }) + ")\n"@,
        OpV::LoadVar(n) => "OP_LOAD_VAR "@ + n + "\n"@,
        OpV::StoreVar(n) => "OP_STORE_VAR "@ + n + "\n"@,
        OpV::Jump(t) => "OP_JUMP -> "@ + four_digits(t) + "\n"@,
        OpV::JumpIfFalse(t) => "OP_JUMP_IF_FALSE -> "@ + four_digits(t) + "\n"@,
        OpV::CallBlock(n, c) => "OP_CALL_BLOCK "@ + n + " (args: "@ + decimal(c) + ")\n"@,
        OpV::CallFunc(n, c) => "OP_CALL_FUNC "@ + n + " (args: "@ + decimal(c) + ")\n"@,
        other => op_name(other) + "\n"@,
    }
}

/// The name of an operand-free instruction.
pub open spec fn op_name(op: OpV) -> Seq<char> {
    match op {
        OpV::PushNil => "PushNil"@,
        OpV::PushTrue => "PushTrue"@,
        OpV::PushFalse => "PushFalse"@,
        OpV::Pop => "Pop"@,
        OpV::Add => "Add"@,
        OpV::Sub => "Sub"@,
        OpV::Mul => "Mul"@,
        OpV::Div => "Div"@,
        OpV::Mod => "Mod"@,
        OpV::Equal => "Equal"@,
        OpV::NotEqual => "NotEqual"@,
        OpV::Less => "Less"@,
        OpV::LessEqual => "LessEqual"@,
        OpV::Greater => "Greater"@,
        OpV::GreaterEqual => "GreaterEqual"@,
        OpV::And => "And"@,
        OpV::Or => "Or"@,
        OpV::Not => "Not"@,
        OpV::Neg => "Neg"@,
        OpV::Return => "Return"@,
        OpV::Assert => "Assert"@,
        OpV::Halt => "Halt"@,
        _ => Seq::empty(),
    }
}

/// The disassembly lines of the first `k` instructions.
pub open spec fn listing(c: ChunkV, k: nat) -> Seq<char>
    decreases k,
{
    if k == 0 || k > c.ins.len() {
        Seq::empty()
    } else {
        listing(c, (k - 1) as nat) + four_digits((k - 1) as nat) + " "@ + op_line(c.ins[k - 1], c.consts)
    }
}

impl Chunk {
    /// An empty chunk.
    pub fn new() -> (c: Self)
        ensures
            c.instructions@.len() == 0,
            c.constants@.len() == 0,
    {
        Chunk { instructions: Vec::new(), constants: Vec::new() }
    }

    /// Appends a constant and returns its index.
    pub fn add_constant(&mut self, val: BytecodeValue) -> (idx: usize)
        ensures
            final(self).constants@ == old(self).constants@.push(val),
            final(self).instructions@ == old(self).instructions@,
            idx == old(self).constants@.len(),
    {
        self.constants.push(val);
        self.constants.len() - 1
    }

    /// Appends an instruction and returns its index.
    pub fn emit(&mut self, op: OpCode) -> (idx: usize)
        ensures
            final(self).instructions@ == old(self).instructions@.push(op),
            final(self).constants@ == old(self).constants@,
            idx == old(self).instructions@.len(),
    {
        self.instructions.push(op);
        self.instructions.len() - 1
    }

    /// Appends a jump whose target is fixed later, and returns its index.
    pub fn emit_jump(&mut self, placeholder: OpCode) -> (idx: usize)
        ensures
            final(self).instructions@ == old(self).instructions@.push(placeholder),
            final(self).constants@ == old(self).constants@,
            idx == old(self).instructions@.len(),
    {
        self.instructions.push(placeholder);
        self.instructions.len() - 1
    }

    /// Aims the jump at `index` at the current end of the chunk.
    pub fn patch_jump(&mut self, index: usize)
        requires
            index < old(self).instructions@.len(),
            is_jump(op_view(old(self).instructions@[index as int])),
        ensures
            final(self).instructions@.len() == old(self).instructions@.len(),
            final(self).constants@ == old(self).constants@,
            forall|i: int| 0 <= i < old(self).instructions@.len() && i != index
                ==> #[trigger] final(self).instructions@[i] == old(self).instructions@[i],
            op_view(final(self).instructions@[index as int])
                == retarget(op_view(old(self).instructions@[index as int]), old(self).instructions@.len() as nat),
    {
        let target = self.instructions.len();
        let jump = matches!(self.instructions[index], OpCode::Jump(_));
        if jump {
            self.instructions[index] = OpCode::Jump(target);
        } else {
            self.instructions[index] = OpCode::JumpIfFalse(target);
        }
    }

    /// A listing of the chunk: a header naming it, then one line per instruction.
    pub fn disassemble(&self, name: &str) -> (s: String)
        ensures
            s@ == "=== Chunk: "@ + name@ + " ===\n"@ + listing(chunk_view(*self), self.instructions@.len()),
    {
        let ghost cv = chunk_view(*self);
        let mut out = String::from_str("=== Chunk: ");
        out.append(name);
        out.append(" ===\n");
        let ghost head = out@;
        for i in 0..self.instructions.len()
            invariant
                cv == chunk_view(*self),
                out@ == head + listing(cv, i as nat),
        {
            let idx = four_digits_exec(i);
            out.append(idx.as_str());
            out.append(" ");
            let line = self.op_line_exec(i);
            out.append(line.as_str());
            proof {
                assert(cv.ins[i as int] == op_view(self.instructions@[i as int]));
            }
        }
        out
    }

    fn op_line_exec(&self, i: usize) -> (s: String)
        requires
            i < self.instructions@.len(),
        ensures
            s@ == op_line(op_view(self.instructions@[i as int]), chunk_view(*self).consts),
    {
        let ghost consts = chunk_view(*self).consts;
        match &self.instructions[i] {
            OpCode::PushConst(k) => {
                let mut s = String::from_str("OP_PUSH_CONST ");
                let d = u64_to_string(*k as u64);
                s.append(d.as_str());
                s.append(" (");
                if *k < self.constants.len() {
                    let v = self.constants[*k].to_display_string();
                    s.append(v.as_str());
                }
                s.append(")\n");
                s
            },
            OpCode::LoadVar(n) => {
                let mut s = String::from_str("OP_LOAD_VAR ");
                s.append(n.as_str());
                s.append("\n");
                s
            },
            OpCode::StoreVar(n) => {
                let mut s = String::from_str("OP_STORE_VAR ");
                s.append(n.as_str());
                s.append("\n");
                s
            },
            OpCode::Jump(t) => {
                let mut s = String::from_str("OP_JUMP -> ");
                let d = four_digits_exec(*t);
                s.append(d.as_str());
                s.append("\n");
                s
            },
            OpCode::JumpIfFalse(t) => {
                let mut s = String::from_str("OP_JUMP_IF_FALSE -> ");
                let d = four_digits_exec(*t);
                s.append(d.as_str());
                s.append("\n");
                s
            },
            OpCode::CallBlock { name, arg_count } => {
                let mut s = String::from_str("OP_CALL_BLOCK ");
                s.append(name.as_str());
                s.append(" (args: ");
                let d = u64_to_string(*arg_count as u64);
                s.append(d.as_str());
                s.append(")\n");
                s
            },
            OpCode::CallFunc { name, arg_count } => {
                let mut s = String::from_str("OP_CALL_FUNC ");
                s.append(name.as_str());
                s.append(" (args: ");
                let d = u64_to_string(*arg_count as u64);
                s.append(d.as_str());
                s.append(")\n");
                s
            },
            other => {
                let mut s = String::from_str(op_name_exec(other));
                s.append("\n");
                s
            },
        }
    }
}

impl Default for Chunk {
    fn default() -> (c: Self)
        ensures
            c.instructions@.len() == 0,
            c.constants@.len() == 0,
    {
        Chunk::new()
    }
}

fn op_name_exec(op: &OpCode) -> (s: &'static str)
    ensures
        s@ == op_name(op_view(*op)),
{
    match op {
        OpCode::PushNil => "PushNil",
        OpCode::PushTrue => "PushTrue",
        OpCode::PushFalse => "PushFalse",
        OpCode::Pop => "Pop",
        OpCode::Add => "Add",
        OpCode::Sub => "Sub",
        OpCode::Mul => "Mul",
        OpCode::Div => "Div",
        OpCode::Mod => "Mod",
        OpCode::Equal => "Equal",
        OpCode::NotEqual => "NotEqual",
        OpCode::Less => "Less",
        OpCode::LessEqual => "LessEqual",
        OpCode::Greater => "Greater",
        OpCode::GreaterEqual => "GreaterEqual",
        OpCode::And => "And",
        OpCode::Or => "Or",
        OpCode::Not => "Not",
        OpCode::Neg => "Neg",
        OpCode::Return => "Return",
        OpCode::Assert => "Assert",
        OpCode::Halt => "Halt",
        _ => {
            proof {
                reveal_strlit("");
            }
            ""
        },
    }
}

fn four_digits_exec(n: usize) -> (s: String)
    ensures
        s@ == four_digits(n as nat),
{
    let d = u64_to_string(n as u64);
    let len = d.as_str().unicode_len();
    if len >= 4 {
        d
    } else {
        let mut s = String::new();
        crate::text::push_repeat(&mut s, '0', 4 - len);
        s.append(d.as_str());
        s
    }
}

} // verus!
