pub mod ast;
pub mod token;
pub mod lexer;
pub mod tags;
pub mod parser;
pub mod source;
pub mod diagnostics;
pub mod formatter;
pub mod reparse;
pub mod linter;

pub use source::parse;
