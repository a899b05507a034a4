use vstd::prelude::*;
use crate::language::ast::{Program, ProgramV, Span, program_view};
use crate::language::lexer::{spec_tokenize, tokenize};
use crate::language::parser::{g_program, Parser};
use crate::text::{decimal, u64_to_string};

verus! {

/// `"<what> error at line L:C: message"`.
pub open spec fn located_message(what: Seq<char>, span: Span, message: Seq<char>) -> Seq<char> {
    what + " error at line "@ + decimal(span.line as nat) + ":"@ + decimal(span.col as nat) + ": "@ + message
}

pub open spec fn empty_program() -> ProgramV {
    ProgramV { events: Seq::empty(), functions: Seq::empty(), top_level: Seq::empty() }
}

/// The program a source text denotes, or the message of its first lexical or syntax error.
pub open spec fn spec_parse(src: Seq<char>) -> Result<ProgramV, Seq<char>> {
    match spec_tokenize(src) {
        Err(x) => Err(located_message("Lexer"@, x.span, x.message)),
        Ok(ts) => match g_program(ts) {
            Ok(v) => Ok(v),
            Err(e) => Err(located_message("Parse"@, e.span, e.message)),
        },
    }
}

fn located(what: &str, span: Span, message: &String) -> (s: String)
    ensures
        s@ == located_message(what@, span, message@),
{
    let mut s = String::from_str(what);
    s.append(" error at line ");
    let l = u64_to_string(span.line as u64);
    s.append(l.as_str());
    s.append(":");
    let c = u64_to_string(span.col as u64);
    s.append(c.as_str());
    s.append(": ");
    s.append(message.as_str());
    s
}

/// Lexes and parses a source text.
pub fn parse(source: &str) -> (r: Result<Program, String>)
    requires
        source@.len() <= usize::MAX / 4,
    ensures
        match spec_parse(source@) {
            Ok(v) => r matches Ok(p) && program_view(p) == v,
            Err(m) => r matches Err(s) && s@ == m,
        },
{
    let tokens = match tokenize(source) {
        Ok(t) => t,
        Err(e) => {
            return Err(located("Lexer", e.span, &e.message));
        },
    };
    let mut parser = Parser::with_tokens(tokens);
    match parser.parse_program() {
        Ok(p) => Ok(p),
        Err(e) => Err(located("Parse", e.span, &e.message)),
    }
}

} // verus!
