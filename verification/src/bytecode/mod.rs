pub mod opcode;
pub mod chunk;
pub mod compiler;
pub mod stack;

pub use chunk::Chunk;
pub use compiler::{BytecodeCompiler, BytecodeEventHandler, BytecodeProgram};
pub use opcode::{BytecodeValue, OpCode};
