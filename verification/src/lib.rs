use vstd::prelude::*;

pub mod text;
pub mod blocks;
pub mod assets;
pub mod project;
pub mod language;
pub mod ir;
pub mod bytecode;
pub mod lsp;
pub mod cli;
pub mod vm;
pub mod runtime;
