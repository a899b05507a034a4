use vstd::prelude::*;
use crate::language::ast::Span;

verus! {

/// Token kinds. `Indent`, `Dedent` and `Newline` are virtual tokens derived from layout.
/// A number keeps its decimal text.
#[derive(Debug, Clone, PartialEq)]
pub enum TokenKind {
    Indent,
    Dedent,
    Newline,
    When,
    Start,
    Update,
    If,
    Else,
    Repeat,
    For,
    Function,
    Return,
    And,
    Or,
    Not,
    Assert,
    Test,
    True,
    False,
    Touches,
    Enters,
    Every,
    After,
    Seconds,
    Ident(String),
    Number(String),
    StringLit(String),
    Colon,
    LParen,
    RParen,
    Comma,
    Dot,
    LBracket,
    RBracket,
    Plus,
    Minus,
    Star,
    Slash,
    Percent,
    Assign,
    PlusAssign,
    MinusAssign,
    StarAssign,
    SlashAssign,
    Equal,
    NotEqual,
    Less,
    LessEqual,
    Greater,
    GreaterEqual,
    Eof,
}

/// A token and its location.
#[derive(Debug, Clone, PartialEq)]
pub struct Token {
    pub kind: TokenKind,
    pub span: Span,
}

impl Token {
    pub fn new(kind: TokenKind, span: Span) -> (t: Token)
        ensures
            t == (Token { kind, span }),
    {
        Token { kind, span }
    }
}

} // verus!
