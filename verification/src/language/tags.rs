use vstd::prelude::*;
use crate::language::token::TokenKind;
use crate::language::lexer::TokV;

verus! {

/// A number for each token kind, the same for all identifiers, all numbers and all string
/// literals.
pub open spec fn tag_of(k: TokenKind) -> int {
    match k {
        TokenKind::Indent => 0,
        TokenKind::Dedent => 1,
        TokenKind::Newline => 2,
        TokenKind::When => 3,
        TokenKind::Start => 4,
        TokenKind::Update => 5,
        TokenKind::If => 6,
        TokenKind::Else => 7,
        TokenKind::Repeat => 8,
        TokenKind::For => 9,
        TokenKind::Function => 10,
        TokenKind::Return => 11,
        TokenKind::And => 12,
        TokenKind::Or => 13,
        TokenKind::Not => 14,
        TokenKind::Assert => 15,
        TokenKind::Test => 16,
        TokenKind::True => 17,
        TokenKind::False => 18,
        TokenKind::Touches => 19,
        TokenKind::Enters => 20,
        TokenKind::Every => 21,
        TokenKind::After => 22,
        TokenKind::Seconds => 23,
        TokenKind::Ident(_) => 24,
        TokenKind::Number(_) => 25,
        TokenKind::StringLit(_) => 26,
        TokenKind::Colon => 27,
        TokenKind::LParen => 28,
        TokenKind::RParen => 29,
        TokenKind::Comma => 30,
        TokenKind::Dot => 31,
        TokenKind::LBracket => 32,
        TokenKind::RBracket => 33,
        TokenKind::Plus => 34,
        TokenKind::Minus => 35,
        TokenKind::Star => 36,
        TokenKind::Slash => 37,
        TokenKind::Percent => 38,
        TokenKind::Assign => 39,
        TokenKind::PlusAssign => 40,
        TokenKind::MinusAssign => 41,
        TokenKind::StarAssign => 42,
        TokenKind::SlashAssign => 43,
        TokenKind::Equal => 44,
        TokenKind::NotEqual => 45,
        TokenKind::Less => 46,
        TokenKind::LessEqual => 47,
        TokenKind::Greater => 48,
        TokenKind::GreaterEqual => 49,
        TokenKind::Eof => 50,
    }
}

pub open spec fn tokv_tag(v: TokV) -> int {
    match v {
        TokV::Plain(k) => tag_of(k),
        TokV::Ident(_) => 24,
        TokV::Number(_) => 25,
        TokV::Str(_) => 26,
    }
}

pub fn kind_tag(k: &TokenKind) -> (t: u8)
    ensures
        t == tag_of(*k),
{
    match k {
        TokenKind::Indent => 0,
        TokenKind::Dedent => 1,
        TokenKind::Newline => 2,
        TokenKind::When => 3,
        TokenKind::Start => 4,
        TokenKind::Update => 5,
        TokenKind::If => 6,
        TokenKind::Else => 7,
        TokenKind::Repeat => 8,
        TokenKind::For => 9,
        TokenKind::Function => 10,
        TokenKind::Return => 11,
        TokenKind::And => 12,
        TokenKind::Or => 13,
        TokenKind::Not => 14,
        TokenKind::Assert => 15,
        TokenKind::Test => 16,
        TokenKind::True => 17,
        TokenKind::False => 18,
        TokenKind::Touches => 19,
        TokenKind::Enters => 20,
        TokenKind::Every => 21,
        TokenKind::After => 22,
        TokenKind::Seconds => 23,
        TokenKind::Ident(_) => 24,
        TokenKind::Number(_) => 25,
        TokenKind::StringLit(_) => 26,
        TokenKind::Colon => 27,
        TokenKind::LParen => 28,
        TokenKind::RParen => 29,
        TokenKind::Comma => 30,
        TokenKind::Dot => 31,
        TokenKind::LBracket => 32,
        TokenKind::RBracket => 33,
        TokenKind::Plus => 34,
        TokenKind::Minus => 35,
        TokenKind::Star => 36,
        TokenKind::Slash => 37,
        TokenKind::Percent => 38,
        TokenKind::Assign => 39,
        TokenKind::PlusAssign => 40,
        TokenKind::MinusAssign => 41,
        TokenKind::StarAssign => 42,
        TokenKind::SlashAssign => 43,
        TokenKind::Equal => 44,
        TokenKind::NotEqual => 45,
        TokenKind::Less => 46,
        TokenKind::LessEqual => 47,
        TokenKind::Greater => 48,
        TokenKind::GreaterEqual => 49,
        TokenKind::Eof => 50,
    }
}

/// The debug name of a payload-free token kind (its variant name).
pub open spec fn plain_kind_name(k: TokenKind) -> Seq<char> {
    match k {
        TokenKind::Indent => "Indent"@,
        TokenKind::Dedent => "Dedent"@,
        TokenKind::Newline => "Newline"@,
        TokenKind::When => "When"@,
        TokenKind::Start => "Start"@,
        TokenKind::Update => "Update"@,
        TokenKind::If => "If"@,
        TokenKind::Else => "Else"@,
        TokenKind::Repeat => "Repeat"@,
        TokenKind::For => "For"@,
        TokenKind::Function => "Function"@,
        TokenKind::Return => "Return"@,
        TokenKind::And => "And"@,
        TokenKind::Or => "Or"@,
        TokenKind::Not => "Not"@,
        TokenKind::Assert => "Assert"@,
        TokenKind::Test => "Test"@,
        TokenKind::True => "True"@,
        TokenKind::False => "False"@,
        TokenKind::Touches => "Touches"@,
        TokenKind::Enters => "Enters"@,
        TokenKind::Every => "Every"@,
        TokenKind::After => "After"@,
        TokenKind::Seconds => "Seconds"@,
        TokenKind::Colon => "Colon"@,
        TokenKind::LParen => "LParen"@,
        TokenKind::RParen => "RParen"@,
        TokenKind::Comma => "Comma"@,
        TokenKind::Dot => "Dot"@,
        TokenKind::LBracket => "LBracket"@,
        TokenKind::RBracket => "RBracket"@,
        TokenKind::Plus => "Plus"@,
        TokenKind::Minus => "Minus"@,
        TokenKind::Star => "Star"@,
        TokenKind::Slash => "Slash"@,
        TokenKind::Percent => "Percent"@,
        TokenKind::Assign => "Assign"@,
        TokenKind::PlusAssign => "PlusAssign"@,
        TokenKind::MinusAssign => "MinusAssign"@,
        TokenKind::StarAssign => "StarAssign"@,
        TokenKind::SlashAssign => "SlashAssign"@,
        TokenKind::Equal => "Equal"@,
        TokenKind::NotEqual => "NotEqual"@,
        TokenKind::Less => "Less"@,
        TokenKind::LessEqual => "LessEqual"@,
        TokenKind::Greater => "Greater"@,
        TokenKind::GreaterEqual => "GreaterEqual"@,
        TokenKind::Eof => "Eof"@,
        _ => Seq::empty(),
    }
}

pub fn plain_kind_name_exec(k: &TokenKind) -> (s: String)
    ensures
        s@ == plain_kind_name(*k),
{
    match k {
        TokenKind::Indent => String::from_str("Indent"),
        TokenKind::Dedent => String::from_str("Dedent"),
        TokenKind::Newline => String::from_str("Newline"),
        TokenKind::When => String::from_str("When"),
        TokenKind::Start => String::from_str("Start"),
        TokenKind::Update => String::from_str("Update"),
        TokenKind::If => String::from_str("If"),
        TokenKind::Else => String::from_str("Else"),
        TokenKind::Repeat => String::from_str("Repeat"),
        TokenKind::For => String::from_str("For"),
        TokenKind::Function => String::from_str("Function"),
        TokenKind::Return => String::from_str("Return"),
        TokenKind::And => String::from_str("And"),
        TokenKind::Or => String::from_str("Or"),
        TokenKind::Not => String::from_str("Not"),
        TokenKind::Assert => String::from_str("Assert"),
        TokenKind::Test => String::from_str("Test"),
        TokenKind::True => String::from_str("True"),
        TokenKind::False => String::from_str("False"),
        TokenKind::Touches => String::from_str("Touches"),
        TokenKind::Enters => String::from_str("Enters"),
        TokenKind::Every => String::from_str("Every"),
        TokenKind::After => String::from_str("After"),
        TokenKind::Seconds => String::from_str("Seconds"),
        TokenKind::Colon => String::from_str("Colon"),
        TokenKind::LParen => String::from_str("LParen"),
        TokenKind::RParen => String::from_str("RParen"),
        TokenKind::Comma => String::from_str("Comma"),
        TokenKind::Dot => String::from_str("Dot"),
        TokenKind::LBracket => String::from_str("LBracket"),
        TokenKind::RBracket => String::from_str("RBracket"),
        TokenKind::Plus => String::from_str("Plus"),
        TokenKind::Minus => String::from_str("Minus"),
        TokenKind::Star => String::from_str("Star"),
        TokenKind::Slash => String::from_str("Slash"),
        TokenKind::Percent => String::from_str("Percent"),
        TokenKind::Assign => String::from_str("Assign"),
        TokenKind::PlusAssign => String::from_str("PlusAssign"),
        TokenKind::MinusAssign => String::from_str("MinusAssign"),
        TokenKind::StarAssign => String::from_str("StarAssign"),
        TokenKind::SlashAssign => String::from_str("SlashAssign"),
        TokenKind::Equal => String::from_str("Equal"),
        TokenKind::NotEqual => String::from_str("NotEqual"),
        TokenKind::Less => String::from_str("Less"),
        TokenKind::LessEqual => String::from_str("LessEqual"),
        TokenKind::Greater => String::from_str("Greater"),
        TokenKind::GreaterEqual => String::from_str("GreaterEqual"),
        TokenKind::Eof => String::from_str("Eof"),
        _ => String::new(),
    }
}

} // verus!
