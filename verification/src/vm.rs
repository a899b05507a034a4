use vstd::prelude::*;
use crate::text::{decimal, u64_to_string};

verus! {

/// Why the bytecode machine stopped a handler.
#[derive(Debug, Clone, PartialEq, Eq)]
pub enum VmError {
    /// The handler ran more instructions than its budget (a guard against endless loops).
    OutOfFuel(usize),
    /// An instruction needed a value that was not on the stack.
    StackUnderflow,
    /// An `assert` statement saw a false value.
    AssertionFailed,
    /// Another failure, with its explanation.
    Runtime(String),
}

/// The message of a machine error.
pub open spec fn vm_error_text(e: VmError) -> Seq<char> {
    match e {
        VmError::OutOfFuel(n) => "Execution exceeded step limit of "@ + decimal(n as nat)
            + " instructions (infinite loop protection)"@,
        VmError::StackUnderflow => "Stack underflow"@,
        VmError::AssertionFailed => "Assertion failed"@,
        VmError::Runtime(m) => "Runtime error: "@ + m@,
    }
}

impl VmError {
    /// The error's message.
    pub fn to_string(&self) -> (s: String)
        ensures
            s@ == vm_error_text(*self),
    {
        match self {
            VmError::OutOfFuel(n) => {
                let mut s = String::from_str("Execution exceeded step limit of ");
                s.append(u64_to_string(*n as u64).as_str());
                s.append(" instructions (infinite loop protection)");
                s
            },
            VmError::StackUnderflow => String::from_str("Stack underflow"),
            VmError::AssertionFailed => String::from_str("Assertion failed"),
            VmError::Runtime(m) => {
                let mut s = String::from_str("Runtime error: ");
                s.append(m.as_str());
                s
            },
        }
    }
}

} // verus!
