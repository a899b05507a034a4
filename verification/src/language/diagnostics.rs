use vstd::prelude::*;
use crate::language::ast::Span;
use crate::text::{
    decimal, lines, lines_of, pad_left, pad_left_exec, push_repeat, repeat_char, u64_to_string,
};

verus! {

/// A linter finding: code, message, location and an optional replacement to suggest.
#[derive(Debug, Clone, PartialEq)]
pub struct Diagnostic {
    pub code: String,
    pub message: String,
    pub span: Span,
    pub suggestion: Option<String>,
}

/// The source excerpt of a rendered diagnostic: location line, the source line with its
/// number in a four-wide field, and a caret marker under the span.
pub open spec fn excerpt(span: Span, line: Seq<char>) -> Seq<char> {
    let col_offset: nat = if span.col > 0 { (span.col - 1) as nat } else { 0 };
    let width: nat = if span.end > span.start { (span.end - span.start) as nat } else { 1 };
    "  --> Line "@ + decimal(span.line as nat) + ":"@ + decimal(span.col as nat) + "\n"@
        + "   |\n"@ + pad_left(decimal(span.line as nat), 4) + " | "@ + line + "\n   | "@
        + repeat_char(' ', col_offset) + repeat_char('^', width) + "\n"@
}

/// The text of a rendered diagnostic.
pub open spec fn spec_render(code: Seq<char>, message: Seq<char>, span: Span, suggestion: Option<Seq<char>>, source: Seq<char>) -> Seq<char> {
    let ls = lines_of(source);
    "Error ["@ + code + "]: "@ + message + "\n"@
        + (if span.line > 0 && span.line <= ls.len() { excerpt(span, ls[span.line - 1]) } else { Seq::empty() })
        + match suggestion {
            Some(s) => "\nHelp: Did you mean \""@ + s + "\"?\n"@,
            None => Seq::empty(),
        }
}

impl Diagnostic {
    /// A diagnostic without suggestion.
    pub fn new(code: &str, message: &str, span: Span) -> (d: Self)
        ensures
            d.code@ == code@,
            d.message@ == message@,
            d.span == span,
            d.suggestion is None,
    {
        Diagnostic { code: String::from_str(code), message: String::from_str(message), span, suggestion: None }
    }

    /// The same diagnostic with a suggestion.
    pub fn with_suggestion(self, suggestion: &str) -> (d: Self)
        ensures
            d.code == self.code,
            d.message == self.message,
            d.span == self.span,
            d.suggestion matches Some(s) && s@ == suggestion@,
    {
        let mut d = self;
        d.suggestion = Some(String::from_str(suggestion));
        d
    }

    /// Renders a beginner-friendly error message that quotes the offending source line.
    pub fn render(&self, source: &str) -> (s: String)
        ensures
            s@ == spec_render(self.code@, self.message@, self.span,
                match self.suggestion { Some(x) => Some(x@), None => None }, source@),
    {
        let ls = lines(source);
        let mut out = String::from_str("Error [");
        out.append(self.code.as_str());
        out.append("]: ");
        out.append(self.message.as_str());
        out.append("\n");
        let ghost head = out@;
        if self.span.line > 0 && self.span.line <= ls.len() {
            let content = &ls[self.span.line - 1];
            out.append("  --> Line ");
            let l = u64_to_string(self.span.line as u64);
            out.append(l.as_str());
            out.append(":");
            let c = u64_to_string(self.span.col as u64);
            out.append(c.as_str());
            out.append("\n");
            out.append("   |\n");
            let padded = pad_left_exec(&l, 4);
            out.append(padded.as_str());
            out.append(" | ");
            out.append(content.as_str());
            out.append("\n   | ");
            let col_offset: usize = if self.span.col > 0 { self.span.col - 1 } else { 0 };
            push_repeat(&mut out, ' ', col_offset);
            let width: usize = if self.span.end > self.span.start { self.span.end - self.span.start } else { 1 };
            push_repeat(&mut out, '^', width);
            out.append("\n");
            proof {
                assert(out@ =~= head + excerpt(self.span, lines_of(source@)[self.span.line - 1]));
            }
        } else {
            assert(out@ =~= head + Seq::<char>::empty());
        }
        let ghost mid = out@;
        match &self.suggestion {
            Some(sg) => {
                out.append("\nHelp: Did you mean \"");
                out.append(sg.as_str());
                out.append("\"?\n");
                assert(out@ =~= mid + ("\nHelp: Did you mean \""@ + sg@ + "\"?\n"@));
            },
            None => {
                assert(out@ =~= mid + Seq::<char>::empty());
            },
        }
        out
    }
}

} // verus!
