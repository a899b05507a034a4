use vstd::prelude::*;
use vstd::utf8::{encode_utf8, encode_scalar};
use crate::language::ast::Span;
use crate::language::token::{Token, TokenKind};
use crate::text::{chars_of, decimal, push_char, u64_to_string};

verus! {

// ---------------------------------------------------------------------------------------
// Characters
// ---------------------------------------------------------------------------------------

/// What `char::is_alphabetic` returns (Unicode `Alphabetic` property).
pub uninterp spec fn unicode_alphabetic(c: char) -> bool;

/// What `char::is_alphanumeric` returns (Unicode `Alphabetic` or `Numeric`).
pub uninterp spec fn unicode_alphanumeric(c: char) -> bool;

/// ASCII letters.
pub open spec fn is_ascii_letter(c: char) -> bool {
    ('a' <= c && c <= 'z') || ('A' <= c && c <= 'Z')
}

/// `char::is_alphabetic`; its result is named. Of ASCII characters exactly the letters have
/// the Unicode `Alphabetic` property; beyond ASCII nothing is stated.
#[verifier::external_body]
fn char_is_alphabetic(c: char) -> (r: bool)
    ensures
        r == unicode_alphabetic(c),
        (c as u32) < 128 ==> (r <==> is_ascii_letter(c)),
{
    c.is_alphabetic()
}

/// `char::is_alphanumeric`; its result is named. Of ASCII characters exactly the letters
/// and the digits are alphabetic or numeric; beyond ASCII nothing is stated.
#[verifier::external_body]
fn char_is_alphanumeric(c: char) -> (r: bool)
    ensures
        r == unicode_alphanumeric(c),
        (c as u32) < 128 ==> (r <==> (is_ascii_letter(c) || ('0' <= c && c <= '9'))),
{
    c.is_alphanumeric()
}

pub open spec fn is_digit(c: char) -> bool {
    '0' <= c && c <= '9'
}

pub open spec fn ident_start(c: char) -> bool {
    unicode_alphabetic(c) || c == '_'
}

pub open spec fn ident_continue(c: char) -> bool {
    unicode_alphanumeric(c) || c == '_'
}

pub fn is_ident_start(c: char) -> (r: bool)
    ensures
        r == ident_start(c),
{
    char_is_alphabetic(c) || c == '_'
}

pub fn is_ident_continue(c: char) -> (r: bool)
    ensures
        r == ident_continue(c),
{
    char_is_alphanumeric(c) || c == '_'
}

/// Length of the UTF-8 encoding of a character.
pub open spec fn utf8_width(c: char) -> nat {
    let v = c as u32;
    if v <= 0x7F { 1 } else if v <= 0x7FF { 2 } else if v <= 0xFFFF { 3 } else { 4 }
}

/// Byte offset of character `k` of `cs` in its UTF-8 encoding.
pub open spec fn bpos(cs: Seq<char>, k: int) -> nat {
    encode_utf8(cs.take(k)).len()
}

pub(crate) proof fn lemma_encode_concat(a: Seq<char>, b: Seq<char>)
    ensures
        encode_utf8(a + b) == encode_utf8(a) + encode_utf8(b),
    decreases a.len(),
{
    if a.len() == 0 {
        assert(a + b =~= b);
        assert(encode_utf8(a) =~= Seq::<u8>::empty());
        assert(encode_utf8(a) + encode_utf8(b) =~= encode_utf8(b));
    } else {
        lemma_encode_concat(a.drop_first(), b);
        assert((a + b).drop_first() =~= a.drop_first() + b);
        assert(encode_utf8(a + b) =~= encode_scalar(a[0] as u32) + encode_utf8(a.drop_first() + b));
    }
}

pub(crate) proof fn lemma_width(c: char)
    ensures
        encode_scalar(c as u32).len() == utf8_width(c),
        utf8_width(c) >= 1,
{
    vstd::utf8::char_is_scalar(c);
}

pub(crate) proof fn lemma_bpos_step(cs: Seq<char>, k: int)
    requires
        0 <= k < cs.len(),
    ensures
        bpos(cs, k + 1) == bpos(cs, k) + utf8_width(cs[k]),
{
    assert(cs.take(k + 1) =~= cs.take(k) + seq![cs[k]]);
    lemma_encode_concat(cs.take(k), seq![cs[k]]);
    assert(encode_utf8(seq![cs[k]]) =~= encode_scalar(cs[k] as u32) + encode_utf8(seq![cs[k]].drop_first()));
    assert(seq![cs[k]].drop_first() =~= Seq::<char>::empty());
    lemma_width(cs[k]);
}

pub(crate) proof fn lemma_bpos_mono(cs: Seq<char>, i: int, j: int)
    requires
        0 <= i <= j <= cs.len(),
    ensures
        bpos(cs, i) + (j - i) <= bpos(cs, j),
    decreases j - i,
{
    if i < j {
        lemma_bpos_mono(cs, i, j - 1);
        lemma_bpos_step(cs, j - 1);
    }
}

pub(crate) fn width_exec(c: char) -> (w: usize)
    ensures
        w == utf8_width(c),
{
    let v = c as u32;
    if v <= 0x7F { 1 } else if v <= 0x7FF { 2 } else if v <= 0xFFFF { 3 } else { 4 }
}

// ---------------------------------------------------------------------------------------
// Token views
// ---------------------------------------------------------------------------------------

/// A token kind as a specification value: payload-free kinds as they are, the text of
/// identifiers, numbers and string literals as character sequences.
pub enum TokV {
    Plain(TokenKind),
    Ident(Seq<char>),
    Number(Seq<char>),
    Str(Seq<char>),
}

pub open spec fn kind_view(k: TokenKind) -> TokV {
    match k {
        TokenKind::Ident(s) => TokV::Ident(s@),
        TokenKind::Number(s) => TokV::Number(s@),
        TokenKind::StringLit(s) => TokV::Str(s@),
        other => TokV::Plain(other),
    }
}

/// A token as a specification value.
pub struct TokS {
    pub kind: TokV,
    pub span: Span,
}

pub open spec fn tok_view(t: Token) -> TokS {
    TokS { kind: kind_view(t.kind), span: t.span }
}

pub open spec fn toks_view(ts: Seq<Token>) -> Seq<TokS> {
    ts.map_values(|t: Token| tok_view(t))
}

pub open spec fn span_of(line: int, col: int, start: int, end: int) -> Span {
    Span { line: line as usize, col: col as usize, start: start as usize, end: end as usize }
}

} // verus!

verus! {

// ---------------------------------------------------------------------------------------
// The lexical grammar
// ---------------------------------------------------------------------------------------

/// First position at or after `i` that is not a space or a tab.
pub open spec fn ws_end(cs: Seq<char>, i: int) -> int
    decreases cs.len() - i,
{
    if 0 <= i < cs.len() && (cs[i] == ' ' || cs[i] == '\t') { ws_end(cs, i + 1) } else { i }
}

/// Indentation width of `cs[i..j]`: a space counts one, a tab four.
pub open spec fn indent_width(cs: Seq<char>, i: int, j: int) -> int
    decreases j - i,
{
    if j <= i { 0 } else { indent_width(cs, i, j - 1) + if cs[j - 1] == '\t' { 4int } else { 1int } }
}

/// End of a comment starting at `i`: the next line break, or the end of input.
pub open spec fn comment_end(cs: Seq<char>, i: int) -> int
    decreases cs.len() - i,
{
    if 0 <= i < cs.len() && cs[i] != '\n' && cs[i] != '\r' { comment_end(cs, i + 1) } else { i }
}

/// End of the run of digits starting at `i`.
pub open spec fn digits_end(cs: Seq<char>, i: int) -> int
    decreases cs.len() - i,
{
    if 0 <= i < cs.len() && is_digit(cs[i]) { digits_end(cs, i + 1) } else { i }
}

/// End of the number text that continues at `i`: digits, and again after each dot that is
/// followed by a digit.
pub open spec fn num_end(cs: Seq<char>, i: int) -> int
    decreases cs.len() - i,
{
    let d = digits_end(cs, i);
    if i <= d && d + 1 < cs.len() && cs[d] == '.' && is_digit(cs[d + 1]) { num_end(cs, d + 1) } else { d }
}

/// Number of dots in a text.
pub open spec fn dot_count(s: Seq<char>) -> nat
    decreases s.len(),
{
    if s.len() == 0 { 0 } else { dot_count(s.drop_last()) + if s.last() == '.' { 1nat } else { 0nat } }
}

pub open spec fn msg_number() -> Seq<char> {
    "Failed to parse number: invalid float literal"@
}

/// End of the identifier characters starting at `i`.
pub open spec fn ident_end(cs: Seq<char>, i: int) -> int
    decreases cs.len() - i,
{
    if 0 <= i < cs.len() && ident_continue(cs[i]) { ident_end(cs, i + 1) } else { i }
}

/// Keyword kind of a word, or an identifier.
pub open spec fn keyword_of(w: Seq<char>) -> TokV {
    if w == "when"@ { TokV::Plain(TokenKind::When) }
    else if w == "start"@ { TokV::Plain(TokenKind::Start) }
    else if w == "update"@ { TokV::Plain(TokenKind::Update) }
    else if w == "if"@ { TokV::Plain(TokenKind::If) }
    else if w == "else"@ { TokV::Plain(TokenKind::Else) }
    else if w == "repeat"@ { TokV::Plain(TokenKind::Repeat) }
    else if w == "for"@ { TokV::Plain(TokenKind::For) }
    else if w == "function"@ { TokV::Plain(TokenKind::Function) }
    else if w == "return"@ { TokV::Plain(TokenKind::Return) }
    else if w == "and"@ { TokV::Plain(TokenKind::And) }
    else if w == "or"@ { TokV::Plain(TokenKind::Or) }
    else if w == "not"@ { TokV::Plain(TokenKind::Not) }
    else if w == "assert"@ { TokV::Plain(TokenKind::Assert) }
    else if w == "test"@ { TokV::Plain(TokenKind::Test) }
    else if w == "true"@ { TokV::Plain(TokenKind::True) }
    else if w == "false"@ { TokV::Plain(TokenKind::False) }
    else if w == "touches"@ { TokV::Plain(TokenKind::Touches) }
    else if w == "enters"@ { TokV::Plain(TokenKind::Enters) }
    else if w == "every"@ { TokV::Plain(TokenKind::Every) }
    else if w == "after"@ { TokV::Plain(TokenKind::After) }
    else if w == "seconds"@ { TokV::Plain(TokenKind::Seconds) }
    else { TokV::Ident(w) }
}

/// The character an escape sequence `\c` stands for.
pub open spec fn unescape(c: char) -> char {
    if c == 'n' { '\n' } else if c == 'r' { '\r' } else if c == 't' { '\t' } else { c }
}

/// Outcome of scanning the body of a string literal.
pub enum StrScan {
    /// The literal's value and the position after the closing quote.
    Done(Seq<char>, int),
    /// A line break at this position ended the literal.
    Newline(int),
    /// The input ended.
    Eof,
}

/// Scans a string literal's body from `i` (after the opening quote), with value `acc` so far.
pub open spec fn scan_str(cs: Seq<char>, i: int, acc: Seq<char>) -> StrScan
    decreases cs.len() - i,
{
    if i < 0 || i >= cs.len() {
        StrScan::Eof
    } else if cs[i] == '"' {
        StrScan::Done(acc, i + 1)
    } else if cs[i] == '\\' {
        if i + 1 < cs.len() { scan_str(cs, i + 2, acc.push(unescape(cs[i + 1]))) } else { StrScan::Eof }
    } else if cs[i] == '\n' {
        StrScan::Newline(i)
    } else {
        scan_str(cs, i + 1, acc.push(cs[i]))
    }
}

pub open spec fn two_char(cs: Seq<char>, i: int, second: char, both: TokenKind, one: TokenKind) -> (TokV, int) {
    if i + 1 < cs.len() && cs[i + 1] == second { (TokV::Plain(both), i + 2) } else { (TokV::Plain(one), i + 1) }
}

pub open spec fn msg_bang() -> Seq<char> {
    "Unexpected character '!'. Did you mean '!='?"@
}

pub open spec fn msg_unexpected(c: char) -> Seq<char> {
    "Unexpected character '"@.push(c) + "'"@
}

pub open spec fn msg_str_newline() -> Seq<char> {
    "Unterminated string literal: unexpected newline in string"@
}

pub open spec fn msg_str_eof() -> Seq<char> {
    "Unterminated string literal: reached end of file"@
}

pub open spec fn msg_indent(spaces: int) -> Seq<char> {
    "Inconsistent indentation: "@ + decimal(spaces as nat) + " spaces does not match any outer indentation level"@
}

/// A lexical error: message and location.
pub struct LexErrS {
    pub message: Seq<char>,
    pub span: Span,
}

/// Scans one token whose first character is at `i < cs.len()`, located at `line`:`col`:
/// its kind and end position, or an error.
pub open spec fn scan_tok(cs: Seq<char>, i: int, line: int, col: int) -> Result<(TokV, int), LexErrS> {
    let c = cs[i];
    let p = bpos(cs, i) as int;
    if c == '(' { Ok((TokV::Plain(TokenKind::LParen), i + 1)) }
    else if c == ')' { Ok((TokV::Plain(TokenKind::RParen), i + 1)) }
    else if c == '[' { Ok((TokV::Plain(TokenKind::LBracket), i + 1)) }
    else if c == ']' { Ok((TokV::Plain(TokenKind::RBracket), i + 1)) }
    else if c == ':' { Ok((TokV::Plain(TokenKind::Colon), i + 1)) }
    else if c == ',' { Ok((TokV::Plain(TokenKind::Comma), i + 1)) }
    else if c == '.' { Ok((TokV::Plain(TokenKind::Dot), i + 1)) }
    else if c == '+' { Ok(two_char(cs, i, '=', TokenKind::PlusAssign, TokenKind::Plus)) }
    else if c == '-' { Ok(two_char(cs, i, '=', TokenKind::MinusAssign, TokenKind::Minus)) }
    else if c == '*' { Ok(two_char(cs, i, '=', TokenKind::StarAssign, TokenKind::Star)) }
    else if c == '/' { Ok(two_char(cs, i, '=', TokenKind::SlashAssign, TokenKind::Slash)) }
    else if c == '%' { Ok((TokV::Plain(TokenKind::Percent), i + 1)) }
    else if c == '=' { Ok(two_char(cs, i, '=', TokenKind::Equal, TokenKind::Assign)) }
    else if c == '!' {
        if i + 1 < cs.len() && cs[i + 1] == '=' {
            Ok((TokV::Plain(TokenKind::NotEqual), i + 2))
        } else {
            Err(LexErrS { message: msg_bang(), span: span_of(line, col, p, p + 1) })
        }
    }
    else if c == '<' { Ok(two_char(cs, i, '=', TokenKind::LessEqual, TokenKind::Less)) }
    else if c == '>' { Ok(two_char(cs, i, '=', TokenKind::GreaterEqual, TokenKind::Greater)) }
    else if c == '"' {
        match scan_str(cs, i + 1, Seq::empty()) {
            StrScan::Done(v, e) => Ok((TokV::Str(v), e)),
            StrScan::Newline(e) => Err(LexErrS { message: msg_str_newline(), span: span_of(line, col, p, bpos(cs, e) as int) }),
            StrScan::Eof => Err(LexErrS { message: msg_str_eof(), span: span_of(line, col, p, bpos(cs, cs.len() as int) as int) }),
        }
    }
    else if is_digit(c) {
        let e = num_end(cs, i + 1);
        if dot_count(cs.subrange(i, e)) <= 1 {
            Ok((TokV::Number(cs.subrange(i, e)), e))
        } else {
            let q = bpos(cs, e) as int;
            Err(LexErrS { message: msg_number(), span: span_of(line, col + (e - i), q, q) })
        }
    }
    else if ident_start(c) { Ok((keyword_of(cs.subrange(i, ident_end(cs, i + 1))), ident_end(cs, i + 1))) }
    else { Err(LexErrS { message: msg_unexpected(c), span: span_of(line, col, p, p + 1) }) }
}

} // verus!

verus! {

// ---------------------------------------------------------------------------------------
// The layout state machine
// ---------------------------------------------------------------------------------------

/// Scanner state: position, line and column, indentation stack, whether the scanner is at
/// the start of a line, whether the current line produced a token, and the tokens so far.
pub struct LexSt {
    pub cursor: int,
    pub line: int,
    pub col: int,
    pub stack: Seq<usize>,
    pub at_start: bool,
    pub has_toks: bool,
    pub toks: Seq<TokS>,
}

pub enum Step {
    Next(LexSt),
    Finish(LexSt),
    Fail(LexErrS),
}

pub open spec fn plain(k: TokenKind, span: Span) -> TokS {
    TokS { kind: TokV::Plain(k), span }
}

/// Pops every indentation level above `spaces`, emitting a `Dedent` for each.
pub open spec fn dedent_to(stack: Seq<usize>, toks: Seq<TokS>, spaces: int, span: Span) -> (Seq<usize>, Seq<TokS>)
    decreases stack.len(),
{
    if stack.len() > 0 && stack.last() > spaces {
        dedent_to(stack.drop_last(), toks.push(plain(TokenKind::Dedent, span)), spaces, span)
    } else {
        (stack, toks)
    }
}

pub open spec fn top_or_zero(stack: Seq<usize>) -> int {
    if stack.len() > 0 { stack.last() as int } else { 0 }
}

/// Scans the token at the cursor.
pub open spec fn token_step(cs: Seq<char>, st: LexSt) -> Step {
    match scan_tok(cs, st.cursor, st.line, st.col) {
        Ok((k, e)) => Step::Next(LexSt {
            cursor: e,
            col: st.col + (e - st.cursor),
            has_toks: true,
            toks: st.toks.push(TokS {
                kind: k,
                span: span_of(st.line, st.col, bpos(cs, st.cursor) as int, bpos(cs, e) as int),
            }),
            ..st
        }),
        Err(x) => Step::Fail(x),
    }
}

/// One round of the scanner, from a state whose cursor is inside the input.
pub open spec fn lex_step(cs: Seq<char>, st: LexSt) -> Step {
    let n = cs.len() as int;
    let j = ws_end(cs, st.cursor);
    let colj = st.col + (j - st.cursor);
    if st.at_start {
        let spaces = indent_width(cs, st.cursor, j);
        if j >= n {
            Step::Finish(LexSt { cursor: j, col: colj, ..st })
        } else if cs[j] == '\n' || cs[j] == '\r' || cs[j] == '#' {
            let k1 = if cs[j] == '#' { comment_end(cs, j) } else { j };
            let k2 = if k1 < n && cs[k1] == '\r' { k1 + 1 } else { k1 };
            if k2 < n && cs[k2] == '\n' {
                Step::Next(LexSt { cursor: k2 + 1, line: st.line + 1, col: 1, ..st })
            } else {
                Step::Next(LexSt { cursor: k2, col: colj + (k2 - j), ..st })
            }
        } else {
            let cur = top_or_zero(st.stack);
            let sp = span_of(st.line, st.col, bpos(cs, st.cursor) as int, bpos(cs, j) as int);
            let base = LexSt { cursor: j, col: colj, at_start: false, has_toks: false, ..st };
            if spaces > cur {
                token_step(cs, LexSt {
                    stack: st.stack.push(spaces as usize),
                    toks: st.toks.push(plain(TokenKind::Indent, sp)),
                    ..base
                })
            } else if spaces < cur {
                let (s2, t2) = dedent_to(st.stack, st.toks, spaces, sp);
                if top_or_zero(s2) != spaces {
                    Step::Fail(LexErrS { message: msg_indent(spaces), span: sp })
                } else {
                    token_step(cs, LexSt { stack: s2, toks: t2, ..base })
                }
            } else {
                token_step(cs, base)
            }
        }
    } else {
        if j >= n {
            Step::Finish(LexSt { cursor: j, col: colj, ..st })
        } else if cs[j] == '#' {
            let e = comment_end(cs, j);
            Step::Next(LexSt { cursor: e, col: colj + (e - j), ..st })
        } else if cs[j] == '\n' || cs[j] == '\r' {
            let k = if cs[j] == '\r' { j + 1 } else { j };
            let colk = colj + (k - j);
            if k < n && cs[k] == '\n' {
                let t2 = if st.has_toks {
                    st.toks.push(plain(TokenKind::Newline, span_of(st.line, colk, bpos(cs, k) as int, bpos(cs, k) + 1int)))
                } else {
                    st.toks
                };
                Step::Next(LexSt { cursor: k + 1, line: st.line + 1, col: 1, at_start: true, has_toks: false, toks: t2, ..st })
            } else {
                Step::Next(LexSt { cursor: k, col: colk, ..st })
            }
        } else {
            token_step(cs, LexSt { cursor: j, col: colj, ..st })
        }
    }
}

/// Closing tokens at the end of input: a `Newline` if the last line had tokens, a `Dedent`
/// for each open indentation level, and `Eof`.
pub open spec fn lex_finish(cs: Seq<char>, st: LexSt) -> Seq<TokS> {
    let p = bpos(cs, cs.len() as int) as int;
    let sp = span_of(st.line, st.col, p, p);
    let t1 = if st.has_toks { st.toks.push(plain(TokenKind::Newline, sp)) } else { st.toks };
    let nd: int = if st.stack.len() > 1 { st.stack.len() - 1 } else { 0 };
    (t1 + Seq::new(nd as nat, |k: int| plain(TokenKind::Dedent, sp))).push(plain(TokenKind::Eof, sp))
}

/// The scanner run to completion from a state.
pub open spec fn lex_run(cs: Seq<char>, st: LexSt) -> Result<Seq<TokS>, LexErrS>
    decreases cs.len() - st.cursor,
{
    if st.cursor >= cs.len() {
        Ok(lex_finish(cs, st))
    } else {
        match lex_step(cs, st) {
            Step::Next(s2) => if st.cursor < s2.cursor <= cs.len() {
                lex_run(cs, s2)
            } else {
                Err(LexErrS { message: Seq::empty(), span: span_of(0, 0, 0, 0) })
            },
            Step::Finish(s2) => Ok(lex_finish(cs, s2)),
            Step::Fail(x) => Err(x),
        }
    }
}

/// The tokens of a source text, or the first lexical error.
pub open spec fn spec_tokenize(cs: Seq<char>) -> Result<Seq<TokS>, LexErrS> {
    lex_run(cs, LexSt { cursor: 0, line: 1, col: 1, stack: seq![0usize], at_start: true, has_toks: false, toks: Seq::empty() })
}

// ---------------------------------------------------------------------------------------
// Layout of the token stream
// ---------------------------------------------------------------------------------------

/// Indentation depth after a token sequence: its `Indent`s less its `Dedent`s.
pub open spec fn indent_depth(ts: Seq<TokS>) -> int
    decreases ts.len(),
{
    if ts.len() == 0 {
        0
    } else {
        indent_depth(ts.drop_last()) + if ts.last().kind == TokV::Plain(TokenKind::Indent) {
            1int
        } else if ts.last().kind == TokV::Plain(TokenKind::Dedent) {
            -1int
        } else {
            0int
        }
    }
}

/// No prefix of the sequence has more `Dedent`s than `Indent`s.
pub open spec fn dedents_never_exceed(ts: Seq<TokS>) -> bool
    decreases ts.len(),
{
    ts.len() == 0 || (dedents_never_exceed(ts.drop_last()) && indent_depth(ts) >= 0)
}

/// No token of the sequence is `Eof`.
pub open spec fn no_eof(ts: Seq<TokS>) -> bool {
    forall|i: int| 0 <= i < ts.len() ==> #[trigger] ts[i].kind != TokV::Plain(TokenKind::Eof)
}

/// A token that changes neither the indentation depth nor ends the stream.
pub open spec fn layout_neutral(k: TokV) -> bool {
    k != TokV::Plain(TokenKind::Indent) && k != TokV::Plain(TokenKind::Dedent) && k != TokV::Plain(TokenKind::Eof)
}

/// What the scanner keeps true of its state: the indentation stack starts at column zero,
/// there is one open `Indent` for each level above it, and no `Eof` yet.
pub open spec fn layout_inv(st: LexSt) -> bool {
    &&& st.stack.len() >= 1
    &&& st.stack[0] == 0
    &&& indent_depth(st.toks) == st.stack.len() - 1
    &&& dedents_never_exceed(st.toks)
    &&& no_eof(st.toks)
}

proof fn lemma_push_neutral(ts: Seq<TokS>, t: TokS)
    requires
        layout_neutral(t.kind),
        dedents_never_exceed(ts),
        no_eof(ts),
    ensures
        indent_depth(ts.push(t)) == indent_depth(ts),
        dedents_never_exceed(ts.push(t)),
        no_eof(ts.push(t)),
{
    assert(ts.push(t).drop_last() =~= ts);
    assert(ts.push(t).last() == t);
    assert forall|i: int| 0 <= i < ts.push(t).len() implies #[trigger] ts.push(t)[i].kind != TokV::Plain(TokenKind::Eof) by {
        if i < ts.len() {
            assert(ts.push(t)[i] == ts[i]);
        }
    }
}

proof fn lemma_push_layout(ts: Seq<TokS>, k: TokenKind, span: Span)
    requires
        k == TokenKind::Indent || (k == TokenKind::Dedent && indent_depth(ts) >= 1),
        dedents_never_exceed(ts),
        no_eof(ts),
    ensures
        indent_depth(ts.push(plain(k, span))) == indent_depth(ts) + if k == TokenKind::Indent { 1int } else { -1int },
        dedents_never_exceed(ts.push(plain(k, span))),
        no_eof(ts.push(plain(k, span))),
{
    let t = plain(k, span);
    assert(ts.push(t).drop_last() =~= ts);
    assert(ts.push(t).last() == t);
    assert forall|i: int| 0 <= i < ts.push(t).len() implies #[trigger] ts.push(t)[i].kind != TokV::Plain(TokenKind::Eof) by {
        if i < ts.len() {
            assert(ts.push(t)[i] == ts[i]);
        }
    }
}

proof fn lemma_indent_width_nonneg(cs: Seq<char>, i: int, j: int)
    ensures
        indent_width(cs, i, j) >= 0,
    decreases j - i,
{
    if j > i {
        lemma_indent_width_nonneg(cs, i, j - 1);
    }
}

proof fn lemma_scan_tok_neutral(cs: Seq<char>, i: int, line: int, col: int)
    requires
        0 <= i < cs.len(),
    ensures
        scan_tok(cs, i, line, col) matches Ok((k, _)) ==> layout_neutral(k),
{
}

proof fn lemma_token_step(cs: Seq<char>, st: LexSt)
    requires
        layout_inv(st),
        0 <= st.cursor < cs.len(),
    ensures
        token_step(cs, st) matches Step::Next(s2) ==> layout_inv(s2),
        !(token_step(cs, st) is Finish),
{
    lemma_scan_tok_neutral(cs, st.cursor, st.line, st.col);
    match scan_tok(cs, st.cursor, st.line, st.col) {
        Ok((k, e)) => {
            lemma_push_neutral(st.toks, TokS {
                kind: k,
                span: span_of(st.line, st.col, bpos(cs, st.cursor) as int, bpos(cs, e) as int),
            });
        },
        Err(_) => {},
    }
}

proof fn lemma_dedent_to(stack: Seq<usize>, toks: Seq<TokS>, spaces: int, span: Span)
    requires
        stack.len() >= 1,
        stack[0] == 0,
        spaces >= 0,
        indent_depth(toks) == stack.len() - 1,
        dedents_never_exceed(toks),
        no_eof(toks),
    ensures
        dedent_to(stack, toks, spaces, span).0.len() >= 1,
        dedent_to(stack, toks, spaces, span).0[0] == 0,
        indent_depth(dedent_to(stack, toks, spaces, span).1) == dedent_to(stack, toks, spaces, span).0.len() - 1,
        dedents_never_exceed(dedent_to(stack, toks, spaces, span).1),
        no_eof(dedent_to(stack, toks, spaces, span).1),
    decreases stack.len(),
{
    if stack.len() > 0 && stack.last() > spaces {
        assert(stack.len() >= 2);
        lemma_push_layout(toks, TokenKind::Dedent, span);
        assert(stack.drop_last()[0] == stack[0]);
        lemma_dedent_to(stack.drop_last(), toks.push(plain(TokenKind::Dedent, span)), spaces, span);
    }
}

proof fn lemma_lex_step(cs: Seq<char>, st: LexSt)
    requires
        layout_inv(st),
        0 <= st.cursor < cs.len(),
    ensures
        lex_step(cs, st) matches Step::Next(s2) ==> layout_inv(s2),
        lex_step(cs, st) matches Step::Finish(s2) ==> layout_inv(s2),
{
    let n = cs.len() as int;
    let j = ws_end(cs, st.cursor);
    let colj = st.col + (j - st.cursor);
    if st.at_start {
        let spaces = indent_width(cs, st.cursor, j);
        lemma_indent_width_nonneg(cs, st.cursor, j);
        if j >= n {
        } else if cs[j] == '\n' || cs[j] == '\r' || cs[j] == '#' {
        } else {
            let cur = top_or_zero(st.stack);
            let sp = span_of(st.line, st.col, bpos(cs, st.cursor) as int, bpos(cs, j) as int);
            let base = LexSt { cursor: j, col: colj, at_start: false, has_toks: false, ..st };
            assert(0 <= j < n) by {
                lemma_ws_end_bounds(cs, st.cursor);
            }
            if spaces > cur {
                lemma_push_layout(st.toks, TokenKind::Indent, sp);
                let s1 = LexSt {
                    stack: st.stack.push(spaces as usize),
                    toks: st.toks.push(plain(TokenKind::Indent, sp)),
                    ..base
                };
                assert(s1.stack[0] == st.stack[0]);
                lemma_token_step(cs, s1);
            } else if spaces < cur {
                lemma_dedent_to(st.stack, st.toks, spaces, sp);
                let (s2, t2) = dedent_to(st.stack, st.toks, spaces, sp);
                if top_or_zero(s2) == spaces {
                    lemma_token_step(cs, LexSt { stack: s2, toks: t2, ..base });
                }
            } else {
                lemma_token_step(cs, base);
            }
        }
    } else {
        if j >= n {
        } else if cs[j] == '#' {
        } else if cs[j] == '\n' || cs[j] == '\r' {
            let k = if cs[j] == '\r' { j + 1 } else { j };
            let colk = colj + (k - j);
            if k < n && cs[k] == '\n' && st.has_toks {
                lemma_push_neutral(st.toks, plain(TokenKind::Newline, span_of(st.line, colk, bpos(cs, k) as int, bpos(cs, k) + 1int)));
            }
        } else {
            assert(0 <= j < n) by {
                lemma_ws_end_bounds(cs, st.cursor);
            }
            lemma_token_step(cs, LexSt { cursor: j, col: colj, ..st });
        }
    }
}

proof fn lemma_ws_end_bounds(cs: Seq<char>, i: int)
    requires
        0 <= i,
    ensures
        i <= ws_end(cs, i),
        i <= cs.len() ==> ws_end(cs, i) <= cs.len(),
    decreases cs.len() - i,
{
    if 0 <= i < cs.len() && (cs[i] == ' ' || cs[i] == '\t') {
        lemma_ws_end_bounds(cs, i + 1);
    }
}

proof fn lemma_append_dedents(ts: Seq<TokS>, n: nat, sp: Span)
    requires
        indent_depth(ts) >= n,
        dedents_never_exceed(ts),
        no_eof(ts),
    ensures
        indent_depth(ts + Seq::new(n, |k: int| plain(TokenKind::Dedent, sp))) == indent_depth(ts) - n,
        dedents_never_exceed(ts + Seq::new(n, |k: int| plain(TokenKind::Dedent, sp))),
        no_eof(ts + Seq::new(n, |k: int| plain(TokenKind::Dedent, sp))),
    decreases n,
{
    if n > 0 {
        let m = (n - 1) as nat;
        lemma_append_dedents(ts, m, sp);
        let a = ts + Seq::new(m, |k: int| plain(TokenKind::Dedent, sp));
        assert(ts + Seq::new(n, |k: int| plain(TokenKind::Dedent, sp)) =~= a.push(plain(TokenKind::Dedent, sp)));
        lemma_push_layout(a, TokenKind::Dedent, sp);
    } else {
        assert(ts + Seq::new(n, |k: int| plain(TokenKind::Dedent, sp)) =~= ts);
    }
}

proof fn lemma_lex_finish(cs: Seq<char>, st: LexSt)
    requires
        layout_inv(st),
    ensures
        layout_complete(lex_finish(cs, st)),
{
    let p = bpos(cs, cs.len() as int) as int;
    let sp = span_of(st.line, st.col, p, p);
    if st.has_toks {
        lemma_push_neutral(st.toks, plain(TokenKind::Newline, sp));
    }
    let t1 = if st.has_toks { st.toks.push(plain(TokenKind::Newline, sp)) } else { st.toks };
    let nd: int = if st.stack.len() > 1 { st.stack.len() - 1 } else { 0 };
    lemma_append_dedents(t1, nd as nat, sp);
    let t2 = t1 + Seq::new(nd as nat, |k: int| plain(TokenKind::Dedent, sp));
    let ts = t2.push(plain(TokenKind::Eof, sp));
    assert(ts.drop_last() =~= t2);
    assert forall|i: int| 0 <= i < ts.len() - 1 implies #[trigger] ts[i].kind != TokV::Plain(TokenKind::Eof) by {
        assert(ts[i] == t2[i]);
    }
}

/// A finished token stream: it ends with `Eof` and has no other, every `Dedent` closes an
/// earlier `Indent`, and every `Indent` is closed.
pub open spec fn layout_complete(ts: Seq<TokS>) -> bool {
    &&& ts.len() > 0
    &&& ts.last().kind == TokV::Plain(TokenKind::Eof)
    &&& forall|i: int| 0 <= i < ts.len() - 1 ==> #[trigger] ts[i].kind != TokV::Plain(TokenKind::Eof)
    &&& indent_depth(ts) == 0
    &&& dedents_never_exceed(ts)
}

proof fn lemma_lex_run(cs: Seq<char>, st: LexSt)
    requires
        layout_inv(st),
        0 <= st.cursor,
    ensures
        lex_run(cs, st) matches Ok(ts) ==> layout_complete(ts),
    decreases cs.len() - st.cursor,
{
    if st.cursor >= cs.len() {
        lemma_lex_finish(cs, st);
    } else {
        lemma_lex_step(cs, st);
        match lex_step(cs, st) {
            Step::Next(s2) => if st.cursor < s2.cursor <= cs.len() {
                lemma_lex_run(cs, s2);
            },
            Step::Finish(s2) => lemma_lex_finish(cs, s2),
            Step::Fail(_) => {},
        }
    }
}

/// How a punctuation or operator token is spelled in source text.
pub open spec fn symbol_text(k: TokenKind) -> Option<Seq<char>> {
    match k {
        TokenKind::LParen => Some(seq!['(']),
        TokenKind::RParen => Some(seq![')']),
        TokenKind::LBracket => Some(seq!['[']),
        TokenKind::RBracket => Some(seq![']']),
        TokenKind::Colon => Some(seq![':']),
        TokenKind::Comma => Some(seq![',']),
        TokenKind::Dot => Some(seq!['.']),
        TokenKind::Plus => Some(seq!['+']),
        TokenKind::PlusAssign => Some(seq!['+'].push('=')),
        TokenKind::Minus => Some(seq!['-']),
        TokenKind::MinusAssign => Some(seq!['-'].push('=')),
        TokenKind::Star => Some(seq!['*']),
        TokenKind::StarAssign => Some(seq!['*'].push('=')),
        TokenKind::Slash => Some(seq!['/']),
        TokenKind::SlashAssign => Some(seq!['/'].push('=')),
        TokenKind::Percent => Some(seq!['%']),
        TokenKind::Assign => Some(seq!['=']),
        TokenKind::Equal => Some(seq!['='].push('=')),
        TokenKind::NotEqual => Some(seq!['!'].push('=')),
        TokenKind::Less => Some(seq!['<']),
        TokenKind::LessEqual => Some(seq!['<'].push('=')),
        TokenKind::Greater => Some(seq!['>']),
        TokenKind::GreaterEqual => Some(seq!['>'].push('=')),
        _ => None,
    }
}

/// How a keyword token is spelled in source text.
pub open spec fn keyword_text(k: TokenKind) -> Option<Seq<char>> {
    match k {
        TokenKind::When => Some("when"@),
        TokenKind::Start => Some("start"@),
        TokenKind::Update => Some("update"@),
        TokenKind::If => Some("if"@),
        TokenKind::Else => Some("else"@),
        TokenKind::Repeat => Some("repeat"@),
        TokenKind::For => Some("for"@),
        TokenKind::Function => Some("function"@),
        TokenKind::Return => Some("return"@),
        TokenKind::And => Some("and"@),
        TokenKind::Or => Some("or"@),
        TokenKind::Not => Some("not"@),
        TokenKind::Assert => Some("assert"@),
        TokenKind::Test => Some("test"@),
        TokenKind::True => Some("true"@),
        TokenKind::False => Some("false"@),
        TokenKind::Touches => Some("touches"@),
        TokenKind::Enters => Some("enters"@),
        TokenKind::Every => Some("every"@),
        TokenKind::After => Some("after"@),
        TokenKind::Seconds => Some("seconds"@),
        _ => None,
    }
}

/// How a payload-free token is spelled in source text: its symbol or its keyword.
pub open spec fn token_spelling(k: TokenKind) -> Option<Seq<char>> {
    match symbol_text(k) {
        Some(t) => Some(t),
        None => keyword_text(k),
    }
}

/// A word is read as the keyword it spells, and a keyword is read only from its spelling;
/// any other word is a name.
pub proof fn law_keywords_are_read_from_their_spelling(w: Seq<char>, k: TokenKind)
    ensures
        keyword_text(k) == Some(w) ==> keyword_of(w) == TokV::Plain(k),
        keyword_of(w) == TokV::Plain(k) ==> keyword_text(k) == Some(w),
        keyword_of(w) is Ident ==> keyword_of(w) == TokV::Ident(w),
{
    reveal_strlit("when");
    reveal_strlit("start");
    reveal_strlit("update");
    reveal_strlit("if");
    reveal_strlit("else");
    reveal_strlit("repeat");
    reveal_strlit("for");
    reveal_strlit("function");
    reveal_strlit("return");
    reveal_strlit("and");
    reveal_strlit("or");
    reveal_strlit("not");
    reveal_strlit("assert");
    reveal_strlit("test");
    reveal_strlit("true");
    reveal_strlit("false");
    reveal_strlit("touches");
    reveal_strlit("enters");
    reveal_strlit("every");
    reveal_strlit("after");
    reveal_strlit("seconds");
    match k {
        TokenKind::When => if keyword_text(k) == Some(w) {
            assert(w.len() == 4 && w[0] == 'w' && w[1] == 'h' && w[2] == 'e');
        },
        TokenKind::Start => if keyword_text(k) == Some(w) {
            assert(w.len() == 5 && w[0] == 's' && w[1] == 't' && w[2] == 'a');
        },
        TokenKind::Update => if keyword_text(k) == Some(w) {
            assert(w.len() == 6 && w[0] == 'u' && w[1] == 'p' && w[2] == 'd');
        },
        TokenKind::If => if keyword_text(k) == Some(w) {
            assert(w.len() == 2 && w[0] == 'i' && w[1] == 'f');
        },
        TokenKind::Else => if keyword_text(k) == Some(w) {
            assert(w.len() == 4 && w[0] == 'e' && w[1] == 'l' && w[2] == 's');
        },
        TokenKind::Repeat => if keyword_text(k) == Some(w) {
            assert(w.len() == 6 && w[0] == 'r' && w[1] == 'e' && w[2] == 'p');
        },
        TokenKind::For => if keyword_text(k) == Some(w) {
            assert(w.len() == 3 && w[0] == 'f' && w[1] == 'o' && w[2] == 'r');
        },
        TokenKind::Function => if keyword_text(k) == Some(w) {
            assert(w.len() == 8 && w[0] == 'f' && w[1] == 'u' && w[2] == 'n');
        },
        TokenKind::Return => if keyword_text(k) == Some(w) {
            assert(w.len() == 6 && w[0] == 'r' && w[1] == 'e' && w[2] == 't');
        },
        TokenKind::And => if keyword_text(k) == Some(w) {
            assert(w.len() == 3 && w[0] == 'a' && w[1] == 'n' && w[2] == 'd');
        },
        TokenKind::Or => if keyword_text(k) == Some(w) {
            assert(w.len() == 2 && w[0] == 'o' && w[1] == 'r');
        },
        TokenKind::Not => if keyword_text(k) == Some(w) {
            assert(w.len() == 3 && w[0] == 'n' && w[1] == 'o' && w[2] == 't');
        },
        TokenKind::Assert => if keyword_text(k) == Some(w) {
            assert(w.len() == 6 && w[0] == 'a' && w[1] == 's' && w[2] == 's');
        },
        TokenKind::Test => if keyword_text(k) == Some(w) {
            assert(w.len() == 4 && w[0] == 't' && w[1] == 'e' && w[2] == 's');
        },
        TokenKind::True => if keyword_text(k) == Some(w) {
            assert(w.len() == 4 && w[0] == 't' && w[1] == 'r' && w[2] == 'u');
        },
        TokenKind::False => if keyword_text(k) == Some(w) {
            assert(w.len() == 5 && w[0] == 'f' && w[1] == 'a' && w[2] == 'l');
        },
        TokenKind::Touches => if keyword_text(k) == Some(w) {
            assert(w.len() == 7 && w[0] == 't' && w[1] == 'o' && w[2] == 'u');
        },
        TokenKind::Enters => if keyword_text(k) == Some(w) {
            assert(w.len() == 6 && w[0] == 'e' && w[1] == 'n' && w[2] == 't');
        },
        TokenKind::Every => if keyword_text(k) == Some(w) {
            assert(w.len() == 5 && w[0] == 'e' && w[1] == 'v' && w[2] == 'e');
        },
        TokenKind::After => if keyword_text(k) == Some(w) {
            assert(w.len() == 5 && w[0] == 'a' && w[1] == 'f' && w[2] == 't');
        },
        TokenKind::Seconds => if keyword_text(k) == Some(w) {
            assert(w.len() == 7 && w[0] == 's' && w[1] == 'e' && w[2] == 'c');
        },
        _ => {},
    }
}

proof fn lemma_digits_end(cs: Seq<char>, i: int)
    requires
        0 <= i <= cs.len(),
    ensures
        i <= digits_end(cs, i) <= cs.len(),
        forall|j: int| i <= j < digits_end(cs, i) ==> is_digit(#[trigger] cs[j]),
        digits_end(cs, i) < cs.len() ==> !is_digit(cs[digits_end(cs, i)]),
    decreases cs.len() - i,
{
    if i < cs.len() && is_digit(cs[i]) {
        lemma_digits_end(cs, i + 1);
    }
}

proof fn lemma_num_end(cs: Seq<char>, i: int)
    requires
        0 <= i <= cs.len(),
    ensures
        i <= num_end(cs, i) <= cs.len(),
        forall|j: int| i <= j < num_end(cs, i) ==> is_digit(#[trigger] cs[j]) || cs[j] == '.',
        num_end(cs, i) < cs.len() ==> !is_digit(cs[num_end(cs, i)]),
    decreases cs.len() - i,
{
    lemma_digits_end(cs, i);
    let d = digits_end(cs, i);
    if i <= d && d + 1 < cs.len() && cs[d] == '.' && is_digit(cs[d + 1]) {
        lemma_num_end(cs, d + 1);
    }
}

proof fn lemma_ident_end(cs: Seq<char>, i: int)
    requires
        0 <= i <= cs.len(),
    ensures
        i <= ident_end(cs, i) <= cs.len(),
        forall|j: int| i <= j < ident_end(cs, i) ==> ident_continue(#[trigger] cs[j]),
        ident_end(cs, i) < cs.len() ==> !ident_continue(cs[ident_end(cs, i)]),
    decreases cs.len() - i,
{
    if i < cs.len() && ident_continue(cs[i]) {
        lemma_ident_end(cs, i + 1);
    }
}

/// A number token holds exactly the characters it covers: digits and dots, starting with
/// a digit and ending before any further digit. A word starting with a name character is
/// the longest run of name characters, read as the name it is or as the keyword it spells.
pub proof fn law_words_and_numbers_hold_their_text(cs: Seq<char>, i: int, line: int, col: int)
    requires
        0 <= i < cs.len(),
    ensures
        is_digit(cs[i]) ==> (scan_tok(cs, i, line, col) matches Ok((k, e)) ==> (k == TokV::Number(
            cs.subrange(i, e),
        ) && i < e <= cs.len() && (forall|j: int| i <= j < e ==> is_digit(#[trigger] cs[j]) || cs[j] == '.') && !(e
            < cs.len() && is_digit(cs[e])))),
        !is_digit(cs[i]) && !is_symbol_char(cs[i]) && cs[i] != '"' && ident_start(cs[i]) ==> (scan_tok(
            cs,
            i,
            line,
            col,
        ) matches Ok((k, e)) && i < e <= cs.len() && (k == TokV::Ident(cs.subrange(i, e)) || (k matches TokV::Plain(
            kk,
        ) && keyword_text(kk) == Some(cs.subrange(i, e)))) && !(e < cs.len() && ident_continue(cs[e]))),
{
    lemma_num_end(cs, i + 1);
    lemma_ident_end(cs, i + 1);
    let w = cs.subrange(i, ident_end(cs, i + 1));
    match keyword_of(w) {
        TokV::Plain(kk) => law_keywords_are_read_from_their_spelling(w, kk),
        _ => law_keywords_are_read_from_their_spelling(w, TokenKind::Indent),
    }
}

/// The characters that begin a punctuation or operator token.
pub open spec fn is_symbol_char(c: char) -> bool {
    c == '(' || c == ')' || c == '[' || c == ']' || c == ':' || c == ',' || c == '.' || c == '+' || c == '-'
        || c == '*' || c == '/' || c == '%' || c == '=' || c == '!' || c == '<' || c == '>'
}

/// The characters that, followed by `=`, begin a two-character operator.
pub open spec fn takes_equals(c: char) -> bool {
    c == '+' || c == '-' || c == '*' || c == '/' || c == '=' || c == '!' || c == '<' || c == '>'
}

/// Each punctuation or operator character is scanned, taking the longest match, to the
/// token that is spelled exactly by the characters it covers; `!` alone is no token.
pub proof fn law_symbols_scan_to_their_tokens(cs: Seq<char>, i: int, line: int, col: int)
    requires
        0 <= i < cs.len(),
        is_symbol_char(cs[i]),
    ensures
        cs[i] == '!' && !(i + 1 < cs.len() && cs[i + 1] == '=') ==> scan_tok(cs, i, line, col) is Err,
        !(cs[i] == '!' && !(i + 1 < cs.len() && cs[i + 1] == '=')) ==> (scan_tok(cs, i, line, col) matches Ok(
            (TokV::Plain(k), e),
        ) && i < e <= cs.len() && symbol_text(k) == Some(cs.subrange(i, e)) && (takes_equals(cs[i]) && i + 1
            < cs.len() && cs[i + 1] == '=' ==> e == i + 2)),
{
    let c = cs[i];
    if i + 1 < cs.len() && cs[i + 1] == '=' {
        assert(cs.subrange(i, i + 2) =~= seq![c].push('='));
    }
    assert(cs.subrange(i, i + 1) =~= seq![c]);
}

/// The tokens of any text that lexes end with `Eof` and have no other; every `Dedent`
/// closes an earlier `Indent`, and every `Indent` is closed by the end.
pub proof fn law_tokens_are_laid_out(cs: Seq<char>)
    ensures
        spec_tokenize(cs) matches Ok(ts) ==> layout_complete(ts),
{
    let st = LexSt { cursor: 0, line: 1, col: 1, stack: seq![0usize], at_start: true, has_toks: false, toks: Seq::empty() };
    assert(indent_depth(st.toks) == 0);
    lemma_lex_run(cs, st);
}

} // verus!

verus! {

// ---------------------------------------------------------------------------------------
// The scanner
// ---------------------------------------------------------------------------------------

/// A lexical error.
#[derive(Debug, Clone)]
pub struct LexerError {
    pub message: String,
    pub span: Span,
}

/// Splits source text into tokens, tracking indentation.
pub struct Scanner {
    chars: Vec<char>,
    offsets: Vec<usize>,
    cursor: usize,
    line: usize,
    col: usize,
    indent_stack: Vec<usize>,
}

impl Scanner {
    /// The characters being scanned.
    pub closed spec fn source_chars(self) -> Seq<char> {
        self.chars@
    }

    /// The scanner's state as the layout state machine sees it, at the start of a line.
    pub closed spec fn lex_state(self) -> LexSt {
        LexSt {
            cursor: self.cursor as int,
            line: self.line as int,
            col: self.col as int,
            stack: self.indent_stack@,
            at_start: true,
            has_toks: false,
            toks: Seq::empty(),
        }
    }

    pub closed spec fn wf(self) -> bool {
        let n = self.chars@.len();
        &&& self.offsets@.len() == n + 1
        &&& forall|k: int| 0 <= k <= n ==> #[trigger] self.offsets@[k] == bpos(self.chars@, k)
        &&& n <= usize::MAX / 4
        &&& self.cursor <= n
        &&& 1 <= self.line <= self.cursor + 1
        &&& 1 <= self.col <= self.cursor + 1
    }

    /// A scanner at the start of `source`, on line 1, column 1, with indentation level 0.
    pub fn new(source: &str) -> (s: Self)
        requires
            source@.len() <= usize::MAX / 4,
        ensures
            s.wf(),
            s.source_chars() == source@,
            s.lex_state() == (LexSt { cursor: 0, line: 1, col: 1, stack: seq![0usize], at_start: true, has_toks: false, toks: Seq::empty() }),
    {
        let chars = chars_of(source);
        let total = source.as_bytes().len();
        proof {
            assert(chars@.take(chars@.len() as int) =~= chars@);
            lemma_bpos_mono(chars@, 0, chars@.len() as int);
        }
        let mut offsets: Vec<usize> = Vec::new();
        offsets.push(0);
        let mut acc: usize = 0;
        proof {
            assert(chars@.take(0) =~= Seq::<char>::empty());
        }
        for k in 0..chars.len()
            invariant
                chars@ == source@,
                total == bpos(chars@, chars@.len() as int),
                offsets@.len() == k + 1,
                acc == bpos(chars@, k as int),
                forall|t: int| 0 <= t <= k ==> #[trigger] offsets@[t] == bpos(chars@, t),
        {
            proof {
                lemma_bpos_step(chars@, k as int);
                lemma_bpos_mono(chars@, k + 1, chars@.len() as int);
            }
            acc = acc + width_exec(chars[k]);
            offsets.push(acc);
        }
        let mut stack: Vec<usize> = Vec::new();
        stack.push(0);
        Scanner { chars, offsets, cursor: 0, line: 1, col: 1, indent_stack: stack }
    }

    /// The character at the cursor.
    fn peek(&self) -> (r: Option<char>)
        ensures
            r == if self.cursor < self.chars@.len() { Some(self.chars@[self.cursor as int]) } else { None },
    {
        if self.cursor < self.chars.len() { Some(self.chars[self.cursor]) } else { None }
    }

    /// Consumes the character at the cursor, moving one column right.
    fn advance(&mut self) -> (r: Option<char>)
        requires
            old(self).wf(),
        ensures
            final(self).wf(),
            final(self).chars == old(self).chars,
            final(self).offsets == old(self).offsets,
            final(self).line == old(self).line,
            final(self).indent_stack == old(self).indent_stack,
            old(self).cursor < old(self).chars@.len() ==> {
                &&& r == Some(old(self).chars@[old(self).cursor as int])
                &&& final(self).cursor == old(self).cursor + 1
                &&& final(self).col == old(self).col + 1
            },
            old(self).cursor >= old(self).chars@.len() ==> r is None && final(self).cursor == old(self).cursor
                && final(self).col == old(self).col,
    {
        if self.cursor < self.chars.len() {
            let c = self.chars[self.cursor];
            self.cursor = self.cursor + 1;
            self.col = self.col + 1;
            Some(c)
        } else {
            None
        }
    }

    /// Consumes the character at the cursor when it is `expected`.
    fn match_char(&mut self, expected: char) -> (r: bool)
        requires
            old(self).wf(),
        ensures
            final(self).wf(),
            final(self).chars == old(self).chars,
            final(self).offsets == old(self).offsets,
            final(self).line == old(self).line,
            final(self).indent_stack == old(self).indent_stack,
            r == (old(self).cursor < old(self).chars@.len() && old(self).chars@[old(self).cursor as int] == expected),
            r ==> final(self).cursor == old(self).cursor + 1 && final(self).col == old(self).col + 1,
            !r ==> final(self).cursor == old(self).cursor && final(self).col == old(self).col,
    {
        match self.peek() {
            Some(c) => {
                if c == expected {
                    self.advance();
                    true
                } else {
                    false
                }
            },
            None => false,
        }
    }

    /// Byte offset of the cursor in the source.
    fn current_pos(&self) -> (p: usize)
        requires
            self.wf(),
        ensures
            p == bpos(self.chars@, self.cursor as int),
    {
        self.offsets[self.cursor]
    }

    /// Skips spaces and tabs, returning their indentation width.
    fn skip_blanks(&mut self) -> (spaces: usize)
        requires
            old(self).wf(),
        ensures
            final(self).wf(),
            final(self).chars == old(self).chars,
            final(self).offsets == old(self).offsets,
            final(self).line == old(self).line,
            final(self).indent_stack == old(self).indent_stack,
            final(self).cursor == ws_end(old(self).chars@, old(self).cursor as int),
            final(self).col == old(self).col + (final(self).cursor - old(self).cursor),
            final(self).cursor >= old(self).cursor,
            spaces == indent_width(old(self).chars@, old(self).cursor as int, final(self).cursor as int),
    {
        let ghost c0 = self.cursor as int;
        let ghost col0 = self.col as int;
        let mut spaces: usize = 0;
        while self.cursor < self.chars.len() && (self.chars[self.cursor] == ' ' || self.chars[self.cursor] == '\t')
            invariant
                self.wf(),
                self.chars == old(self).chars,
                self.offsets == old(self).offsets,
                self.line == old(self).line,
                self.indent_stack == old(self).indent_stack,
                0 <= c0 <= self.cursor,
                ws_end(self.chars@, self.cursor as int) == ws_end(self.chars@, c0),
                self.col == col0 + (self.cursor - c0),
                spaces == indent_width(self.chars@, c0, self.cursor as int),
                spaces <= 4 * (self.cursor - c0),
            decreases self.chars@.len() - self.cursor,
        {
            let c = self.chars[self.cursor];
            assert(4 * (self.chars@.len() as int) <= usize::MAX) by {
                assert(self.chars@.len() <= usize::MAX / 4);
            }
            self.advance();
            assert(spaces + 4 <= 4 * (self.cursor - c0));
            assert(4 * (self.cursor - c0) <= 4 * (self.chars@.len() as int));
            if c == '\t' {
                spaces = spaces + 4;
            } else {
                spaces = spaces + 1;
            }
        }
        spaces
    }

    /// Skips to the next line break or the end of input.
    fn skip_comment(&mut self)
        requires
            old(self).wf(),
        ensures
            final(self).wf(),
            final(self).chars == old(self).chars,
            final(self).offsets == old(self).offsets,
            final(self).line == old(self).line,
            final(self).indent_stack == old(self).indent_stack,
            final(self).cursor == comment_end(old(self).chars@, old(self).cursor as int),
            final(self).col == old(self).col + (final(self).cursor - old(self).cursor),
            final(self).cursor >= old(self).cursor,
            (old(self).cursor < old(self).chars@.len() && old(self).chars@[old(self).cursor as int] != '\n'
                && old(self).chars@[old(self).cursor as int] != '\r') ==> final(self).cursor > old(self).cursor,
    {
        let ghost c0 = self.cursor as int;
        let ghost col0 = self.col as int;
        while self.cursor < self.chars.len() && self.chars[self.cursor] != '\n' && self.chars[self.cursor] != '\r'
            invariant
                self.wf(),
                self.chars == old(self).chars,
                self.offsets == old(self).offsets,
                self.line == old(self).line,
                self.indent_stack == old(self).indent_stack,
                c0 <= self.cursor,
                comment_end(self.chars@, self.cursor as int) == comment_end(self.chars@, c0),
                self.col == col0 + (self.cursor - c0),
            decreases self.chars@.len() - self.cursor,
        {
            self.advance();
        }
    }
}

} // verus!

verus! {

/// The token kind of a word: a keyword or an identifier.
fn keyword_kind(w: String) -> (k: TokenKind)
    ensures
        kind_view(k) == keyword_of(w@),
{
    let s = w.as_str();
    if crate::text::str_eq(s, "when") { TokenKind::When }
    else if crate::text::str_eq(s, "start") { TokenKind::Start }
    else if crate::text::str_eq(s, "update") { TokenKind::Update }
    else if crate::text::str_eq(s, "if") { TokenKind::If }
    else if crate::text::str_eq(s, "else") { TokenKind::Else }
    else if crate::text::str_eq(s, "repeat") { TokenKind::Repeat }
    else if crate::text::str_eq(s, "for") { TokenKind::For }
    else if crate::text::str_eq(s, "function") { TokenKind::Function }
    else if crate::text::str_eq(s, "return") { TokenKind::Return }
    else if crate::text::str_eq(s, "and") { TokenKind::And }
    else if crate::text::str_eq(s, "or") { TokenKind::Or }
    else if crate::text::str_eq(s, "not") { TokenKind::Not }
    else if crate::text::str_eq(s, "assert") { TokenKind::Assert }
    else if crate::text::str_eq(s, "test") { TokenKind::Test }
    else if crate::text::str_eq(s, "true") { TokenKind::True }
    else if crate::text::str_eq(s, "false") { TokenKind::False }
    else if crate::text::str_eq(s, "touches") { TokenKind::Touches }
    else if crate::text::str_eq(s, "enters") { TokenKind::Enters }
    else if crate::text::str_eq(s, "every") { TokenKind::Every }
    else if crate::text::str_eq(s, "after") { TokenKind::After }
    else if crate::text::str_eq(s, "seconds") { TokenKind::Seconds }
    else { TokenKind::Ident(w) }
}

fn unescape_exec(c: char) -> (r: char)
    ensures
        r == unescape(c),
{
    if c == 'n' { '\n' } else if c == 'r' { '\r' } else if c == 't' { '\t' } else { c }
}

fn is_digit_exec(c: char) -> (r: bool)
    ensures
        r == is_digit(c),
{
    '0' <= c && c <= '9'
}

proof fn lemma_dot_count_push(s: Seq<char>, c: char)
    ensures
        dot_count(s.push(c)) == dot_count(s) + if c == '.' { 1nat } else { 0nat },
{
    assert(s.push(c).drop_last() =~= s);
}

} // verus!

verus! {

impl Scanner {
    /// Scans a string literal whose opening quote at `i` was consumed; the token starts at
    /// `line`:`col0`, byte `p`.
    fn scan_string(&mut self, i: Ghost<int>, col0: usize, p: usize) -> (r: Result<TokenKind, LexerError>)
        requires
            old(self).wf(),
            old(self).cursor == i@ + 1,
            0 <= i@ < old(self).chars@.len(),
            old(self).chars@[i@] == '"',
            p == bpos(old(self).chars@, i@),
            old(self).col == col0 + 1,
        ensures
            final(self).wf(),
            final(self).chars == old(self).chars,
            final(self).offsets == old(self).offsets,
            final(self).line == old(self).line,
            final(self).indent_stack == old(self).indent_stack,
            match scan_tok(old(self).chars@, i@, old(self).line as int, col0 as int) {
                Ok((k, e)) => r matches Ok(t) && kind_view(t) == k && final(self).cursor == e
                    && final(self).col == col0 + (e - i@),
                Err(x) => r matches Err(er) && er.message@ == x.message && er.span == x.span,
            },
            final(self).cursor > i@,
    {
        let ghost cs = self.chars@;
        let mut value = String::new();
        loop
            invariant
                self.wf(),
                self.chars == old(self).chars,
                self.offsets == old(self).offsets,
                self.line == old(self).line,
                self.indent_stack == old(self).indent_stack,
                cs == self.chars@,
                0 <= i@ < cs.len(),
                cs[i@] == '"',
                p == bpos(cs, i@),
                i@ + 1 <= self.cursor,
                self.col == col0 + (self.cursor - i@),
                scan_str(cs, self.cursor as int, value@) == scan_str(cs, i@ + 1, Seq::empty()),
            decreases cs.len() - self.cursor,
        {
            match self.peek() {
                None => {
                    let q = self.current_pos();
                    return Err(LexerError {
                        message: String::from_str("Unterminated string literal: reached end of file"),
                        span: Span::new(self.line, col0, p, q),
                    });
                },
                Some(c) => {
                    if c == '"' {
                        self.advance();
                        return Ok(TokenKind::StringLit(value));
                    } else if c == '\\' {
                        self.advance();
                        match self.peek() {
                            Some(e) => {
                                self.advance();
                                push_char(&mut value, unescape_exec(e));
                            },
                            None => {
                                let q = self.current_pos();
                                return Err(LexerError {
                                    message: String::from_str("Unterminated string literal: reached end of file"),
                                    span: Span::new(self.line, col0, p, q),
                                });
                            },
                        }
                    } else if c == '\n' {
                        let q = self.current_pos();
                        return Err(LexerError {
                            message: String::from_str("Unterminated string literal: unexpected newline in string"),
                            span: Span::new(self.line, col0, p, q),
                        });
                    } else {
                        push_char(&mut value, c);
                        self.advance();
                    }
                },
            }
        }
    }

    /// Scans a number literal whose first digit at `i` was consumed.
    fn scan_number(&mut self, first: char, i: Ghost<int>, col0: usize) -> (r: Result<TokenKind, LexerError>)
        requires
            old(self).wf(),
            old(self).cursor == i@ + 1,
            0 <= i@ < old(self).chars@.len(),
            old(self).chars@[i@] == first,
            is_digit(first),
            old(self).col == col0 + 1,
        ensures
            final(self).wf(),
            final(self).chars == old(self).chars,
            final(self).offsets == old(self).offsets,
            final(self).line == old(self).line,
            final(self).indent_stack == old(self).indent_stack,
            match scan_tok(old(self).chars@, i@, old(self).line as int, col0 as int) {
                Ok((k, e)) => r matches Ok(t) && kind_view(t) == k && final(self).cursor == e
                    && final(self).col == col0 + (e - i@),
                Err(x) => r matches Err(er) && er.message@ == x.message && er.span == x.span,
            },
            final(self).cursor > i@,
    {
        let ghost cs = self.chars@;
        let mut text = String::new();
        push_char(&mut text, first);
        let mut dots: usize = 0;
        proof {
            assert(cs.subrange(i@, i@ + 1) =~= seq![first]);
            assert(seq![first] =~= Seq::<char>::empty().push(first));
            lemma_dot_count_push(Seq::<char>::empty(), first);
        }
        loop
            invariant_except_break
                self.wf(),
                self.chars == old(self).chars,
                self.offsets == old(self).offsets,
                self.line == old(self).line,
                self.indent_stack == old(self).indent_stack,
                cs == self.chars@,
                0 <= i@ < cs.len(),
                i@ + 1 <= self.cursor,
                self.col == col0 + (self.cursor - i@),
                text@ == cs.subrange(i@, self.cursor as int),
                dots == dot_count(text@),
                dots <= self.cursor,
                num_end(cs, self.cursor as int) == num_end(cs, i@ + 1),
            ensures
                self.wf(),
                self.chars == old(self).chars,
                self.offsets == old(self).offsets,
                self.line == old(self).line,
                self.indent_stack == old(self).indent_stack,
                i@ + 1 <= self.cursor,
                self.col == col0 + (self.cursor - i@),
                text@ == cs.subrange(i@, self.cursor as int),
                dots == dot_count(text@),
                self.cursor == num_end(cs, i@ + 1),
            decreases cs.len() - self.cursor,
        {
            let ghost run = self.cursor as int;
            while self.cursor < self.chars.len() && is_digit_exec(self.chars[self.cursor])
                invariant
                    self.wf(),
                    self.chars == old(self).chars,
                    self.offsets == old(self).offsets,
                    self.line == old(self).line,
                    self.indent_stack == old(self).indent_stack,
                    cs == self.chars@,
                    0 <= i@ < cs.len(),
                    i@ + 1 <= run <= self.cursor,
                    self.col == col0 + (self.cursor - i@),
                    text@ == cs.subrange(i@, self.cursor as int),
                    dots == dot_count(text@),
                    dots <= self.cursor,
                    digits_end(cs, self.cursor as int) == digits_end(cs, run),
                decreases cs.len() - self.cursor,
            {
                let c = self.chars[self.cursor];
                proof {
                    assert(cs.subrange(i@, self.cursor + 1) =~= text@.push(c));
                    lemma_dot_count_push(text@, c);
                }
                push_char(&mut text, c);
                self.advance();
            }
            proof {
                assert(digits_end(cs, self.cursor as int) == self.cursor);
                assert(num_end(cs, run) == num_end(cs, self.cursor as int));
            }
            if self.cursor + 1 < self.chars.len() && self.chars[self.cursor] == '.'
                && is_digit_exec(self.chars[self.cursor + 1]) {
                proof {
                    assert(cs.subrange(i@, self.cursor + 1) =~= text@.push('.'));
                    lemma_dot_count_push(text@, '.');
                }
                push_char(&mut text, '.');
                dots = dots + 1;
                self.advance();
            } else {
                break;
            }
        }
        let e = self.cursor;
        if dots > 1 {
            let q = self.current_pos();
            Err(LexerError {
                message: String::from_str("Failed to parse number: invalid float literal"),
                span: Span::new(self.line, self.col, q, q),
            })
        } else {
            Ok(TokenKind::Number(text))
        }
    }

    /// Scans a word whose first character at `i` was consumed.
    fn scan_ident_or_keyword(&mut self, first: char, i: Ghost<int>, col0: usize) -> (k: TokenKind)
        requires
            old(self).wf(),
            old(self).cursor == i@ + 1,
            0 <= i@ < old(self).chars@.len(),
            old(self).chars@[i@] == first,
            old(self).col == col0 + 1,
        ensures
            final(self).wf(),
            final(self).chars == old(self).chars,
            final(self).offsets == old(self).offsets,
            final(self).line == old(self).line,
            final(self).indent_stack == old(self).indent_stack,
            final(self).cursor == ident_end(old(self).chars@, i@ + 1),
            final(self).col == col0 + (final(self).cursor - i@),
            kind_view(k) == keyword_of(old(self).chars@.subrange(i@, final(self).cursor as int)),
            final(self).cursor > i@,
    {
        let ghost cs = self.chars@;
        let mut text = String::new();
        push_char(&mut text, first);
        proof {
            assert(cs.subrange(i@, i@ + 1) =~= seq![first]);
            assert(seq![first] =~= Seq::<char>::empty().push(first));
        }
        while self.cursor < self.chars.len() && is_ident_continue(self.chars[self.cursor])
            invariant
                self.wf(),
                self.chars == old(self).chars,
                self.offsets == old(self).offsets,
                self.line == old(self).line,
                self.indent_stack == old(self).indent_stack,
                cs == self.chars@,
                0 <= i@ < cs.len(),
                i@ + 1 <= self.cursor,
                self.col == col0 + (self.cursor - i@),
                text@ == cs.subrange(i@, self.cursor as int),
                ident_end(cs, self.cursor as int) == ident_end(cs, i@ + 1),
            decreases cs.len() - self.cursor,
        {
            let c = self.chars[self.cursor];
            proof {
                assert(cs.subrange(i@, self.cursor + 1) =~= text@.push(c));
            }
            push_char(&mut text, c);
            self.advance();
        }
        keyword_kind(text)
    }
}

} // verus!

verus! {

impl Scanner {
    /// Scans one token at the cursor, which must be inside the input.
    fn scan_token(&mut self) -> (r: Result<Token, LexerError>)
        requires
            old(self).wf(),
            old(self).cursor < old(self).chars@.len(),
        ensures
            final(self).wf(),
            final(self).chars == old(self).chars,
            final(self).offsets == old(self).offsets,
            final(self).line == old(self).line,
            final(self).indent_stack == old(self).indent_stack,
            match scan_tok(old(self).chars@, old(self).cursor as int, old(self).line as int, old(self).col as int) {
                Ok((k, e)) => r matches Ok(t) && tok_view(t) == (TokS {
                    kind: k,
                    span: span_of(old(self).line as int, old(self).col as int,
                        bpos(old(self).chars@, old(self).cursor as int) as int, bpos(old(self).chars@, e) as int),
                }) && final(self).cursor == e && final(self).col == old(self).col + (e - old(self).cursor),
                Err(x) => r matches Err(er) && er.message@ == x.message && er.span == x.span,
            },
            r is Ok ==> final(self).cursor > old(self).cursor,
    {
        let ghost cs = self.chars@;
        let ghost i = self.cursor as int;
        let start_pos = self.current_pos();
        let start_line = self.line;
        let start_col = self.col;
        proof {
            lemma_bpos_step(cs, i);
            lemma_bpos_mono(cs, i + 1, cs.len() as int);
            assert(self.offsets@[cs.len() as int] == bpos(cs, cs.len() as int));
        }
        let ch = self.advance().unwrap();
        let kind: TokenKind = if ch == '(' {
            TokenKind::LParen
        } else if ch == ')' {
            TokenKind::RParen
        } else if ch == '[' {
            TokenKind::LBracket
        } else if ch == ']' {
            TokenKind::RBracket
        } else if ch == ':' {
            TokenKind::Colon
        } else if ch == ',' {
            TokenKind::Comma
        } else if ch == '.' {
            TokenKind::Dot
        } else if ch == '+' {
            if self.match_char('=') { TokenKind::PlusAssign } else { TokenKind::Plus }
        } else if ch == '-' {
            if self.match_char('=') { TokenKind::MinusAssign } else { TokenKind::Minus }
        } else if ch == '*' {
            if self.match_char('=') { TokenKind::StarAssign } else { TokenKind::Star }
        } else if ch == '/' {
            if self.match_char('=') { TokenKind::SlashAssign } else { TokenKind::Slash }
        } else if ch == '%' {
            TokenKind::Percent
        } else if ch == '=' {
            if self.match_char('=') { TokenKind::Equal } else { TokenKind::Assign }
        } else if ch == '!' {
            if self.match_char('=') {
                TokenKind::NotEqual
            } else {
                return Err(LexerError {
                    message: String::from_str("Unexpected character '!'. Did you mean '!='?"),
                    span: Span::new(start_line, start_col, start_pos, start_pos + 1),
                });
            }
        } else if ch == '<' {
            if self.match_char('=') { TokenKind::LessEqual } else { TokenKind::Less }
        } else if ch == '>' {
            if self.match_char('=') { TokenKind::GreaterEqual } else { TokenKind::Greater }
        } else if ch == '"' {
            self.scan_string(Ghost(i), start_col, start_pos)?
        } else if is_digit_exec(ch) {
            self.scan_number(ch, Ghost(i), start_col)?
        } else if is_ident_start(ch) {
            self.scan_ident_or_keyword(ch, Ghost(i), start_col)
        } else {
            let mut message = String::from_str("Unexpected character '");
            push_char(&mut message, ch);
            message.append("'");
            return Err(LexerError { message, span: Span::new(start_line, start_col, start_pos, start_pos + 1) });
        };
        let end_pos = self.current_pos();
        Ok(Token::new(kind, Span::new(start_line, start_col, start_pos, end_pos)))
    }
}

} // verus!

verus! {

proof fn lemma_toks_push(ts: Seq<Token>, t: Token)
    ensures
        toks_view(ts.push(t)) == toks_view(ts).push(tok_view(t)),
{
    assert(toks_view(ts.push(t)) =~= toks_view(ts).push(tok_view(t)));
}

impl Scanner {
    pub closed spec fn state_with(self, toks: Seq<Token>, at: bool, has: bool) -> LexSt {
        LexSt {
            cursor: self.cursor as int,
            line: self.line as int,
            col: self.col as int,
            stack: self.indent_stack@,
            at_start: at,
            has_toks: has,
            toks: toks_view(toks),
        }
    }

    /// One round of scanning at the start of a line (the cursor is inside the input).
    fn line_start_round(&mut self, tokens: &mut Vec<Token>) -> (r: Result<bool, LexerError>)
        requires
            old(self).wf(),
            old(self).cursor < old(self).chars@.len(),
        ensures
            final(self).wf(),
            final(self).chars == old(self).chars,
            final(self).offsets == old(self).offsets,
            match lex_step(old(self).chars@, old(self).state_with(old(tokens)@, true, false)) {
                Step::Next(s2) => r matches Ok(at) && final(self).state_with(final(tokens)@, at, !at) == s2,
                Step::Finish(s2) => r matches Ok(at) && at && final(self).state_with(final(tokens)@, at, false) == s2,
                Step::Fail(x) => r matches Err(er) && er.message@ == x.message && er.span == x.span,
            },
            r is Ok ==> final(self).cursor > old(self).cursor,
            r is Ok ==> final(tokens)@.len() + final(self).indent_stack@.len()
                <= old(tokens)@.len() + old(self).indent_stack@.len() + 3 * (final(self).cursor - old(self).cursor),
    {
        let ghost cs = self.chars@;
        let ghost c0 = self.cursor as int;
        let ghost st0 = self.state_with(tokens@, true, false);
        let indent_col = self.col;
        let indent_pos = self.current_pos();
        let spaces = self.skip_blanks();
        let ghost colj = self.col;
        if self.cursor >= self.chars.len() {
            return Ok(true);
        }
        let ch = self.chars[self.cursor];
        if ch == '\n' || ch == '\r' || ch == '#' {
            if ch == '#' {
                self.skip_comment();
            }
            if self.cursor < self.chars.len() && self.chars[self.cursor] == '\r' {
                self.advance();
            }
            if self.cursor < self.chars.len() && self.chars[self.cursor] == '\n' {
                self.advance();
                self.line = self.line + 1;
                self.col = 1;
            }
            return Ok(true);
        }
        let current_indent: usize = if self.indent_stack.len() > 0 {
            self.indent_stack[self.indent_stack.len() - 1]
        } else {
            0
        };
        let span = Span::new(self.line, indent_col, indent_pos, self.current_pos());
        if spaces > current_indent {
            self.indent_stack.push(spaces);
            proof { lemma_toks_push(tokens@, Token { kind: TokenKind::Indent, span }); }
            tokens.push(Token::new(TokenKind::Indent, span));
        } else if spaces < current_indent {
            let ghost goal = dedent_to(st0.stack, st0.toks, spaces as int, span);
            while self.indent_stack.len() > 0 && self.indent_stack[self.indent_stack.len() - 1] > spaces
                invariant
                    self.wf(),
                    self.chars == old(self).chars,
                    self.offsets == old(self).offsets,
                    self.cursor == ws_end(cs, c0),
                    self.cursor < cs.len(),
                    cs == self.chars@,
                    self.line == old(self).line,
                    self.col == colj,
                    dedent_to(self.indent_stack@, toks_view(tokens@), spaces as int, span) == goal,
                    tokens@.len() + self.indent_stack@.len() == old(tokens)@.len() + old(self).indent_stack@.len(),
                decreases self.indent_stack@.len(),
            {
                self.indent_stack.pop();
                proof { lemma_toks_push(tokens@, Token { kind: TokenKind::Dedent, span }); }
                tokens.push(Token::new(TokenKind::Dedent, span));
            }
            let top: usize = if self.indent_stack.len() > 0 {
                self.indent_stack[self.indent_stack.len() - 1]
            } else {
                0
            };
            if top != spaces {
                let mut message = String::from_str("Inconsistent indentation: ");
                let num = u64_to_string(spaces as u64);
                message.append(num.as_str());
                message.append(" spaces does not match any outer indentation level");
                return Err(LexerError { message, span });
            }
        }
        let tok = self.scan_token()?;
        proof { lemma_toks_push(tokens@, tok); }
        tokens.push(tok);
        Ok(false)
    }
}

} // verus!

verus! {

impl Scanner {
    /// One round of scanning inside a line (the cursor is inside the input).
    fn mid_line_round(&mut self, tokens: &mut Vec<Token>, has: bool) -> (r: Result<(bool, bool), LexerError>)
        requires
            old(self).wf(),
            old(self).cursor < old(self).chars@.len(),
        ensures
            final(self).wf(),
            final(self).chars == old(self).chars,
            final(self).offsets == old(self).offsets,
            match lex_step(old(self).chars@, old(self).state_with(old(tokens)@, false, has)) {
                Step::Next(s2) => r matches Ok((at, h)) && final(self).state_with(final(tokens)@, at, h) == s2,
                Step::Finish(s2) => r matches Ok((at, h)) && final(self).state_with(final(tokens)@, at, h) == s2,
                Step::Fail(x) => r matches Err(er) && er.message@ == x.message && er.span == x.span,
            },
            r is Ok ==> final(self).cursor > old(self).cursor,
            r is Ok ==> final(tokens)@.len() + final(self).indent_stack@.len()
                <= old(tokens)@.len() + old(self).indent_stack@.len() + 3 * (final(self).cursor - old(self).cursor),
    {
        let ghost cs = self.chars@;
        self.skip_blanks();
        if self.cursor >= self.chars.len() {
            return Ok((false, has));
        }
        let ch = self.chars[self.cursor];
        if ch == '#' {
            self.skip_comment();
            return Ok((false, has));
        }
        if ch == '\n' || ch == '\r' {
            if ch == '\r' {
                self.advance();
            }
            if self.cursor < self.chars.len() && self.chars[self.cursor] == '\n' {
                let start_pos = self.current_pos();
                let line = self.line;
                let col = self.col;
                proof {
                    lemma_bpos_step(cs, self.cursor as int);
                    lemma_bpos_mono(cs, self.cursor + 1, cs.len() as int);
                    assert(self.offsets@[cs.len() as int] == bpos(cs, cs.len() as int));
                }
                self.advance();
                self.line = self.line + 1;
                self.col = 1;
                if has {
                    let t = Token::new(TokenKind::Newline, Span::new(line, col, start_pos, start_pos + 1));
                    proof { lemma_toks_push(tokens@, t); }
                    tokens.push(t);
                }
                return Ok((true, false));
            }
            return Ok((false, has));
        }
        let tok = self.scan_token()?;
        proof { lemma_toks_push(tokens@, tok); }
        tokens.push(tok);
        Ok((false, true))
    }

    /// Splits the remaining input into tokens, starting at the beginning of a line: layout
    /// tokens (`Indent`, `Dedent`, `Newline`), the scanned tokens, and a final `Eof`; or the
    /// first lexical error.
    pub fn tokenize(&mut self) -> (r: Result<Vec<Token>, LexerError>)
        requires
            old(self).wf(),
        ensures
            match lex_run(old(self).source_chars(), old(self).lex_state()) {
                Ok(ts) => r matches Ok(v) && toks_view(v@) == ts,
                Err(x) => r matches Err(er) && er.message@ == x.message && er.span == x.span,
            },
            r matches Ok(v) ==> v@.len() <= old(self).lex_state().stack.len() + 3 * old(self).source_chars().len() + 2,
    {
        let ghost cs = self.chars@;
        let mut tokens: Vec<Token> = Vec::new();
        let mut at_line_start = true;
        let mut line_has_tokens = false;
        proof {
            assert(toks_view(tokens@) =~= Seq::<TokS>::empty());
            assert(self.state_with(tokens@, true, false) == self.lex_state());
        }
        let ghost target = lex_run(cs, self.lex_state());
        while self.cursor < self.chars.len()
            invariant
                self.wf(),
                cs == self.chars@,
                target == lex_run(cs, self.state_with(tokens@, at_line_start, line_has_tokens)),
                target == lex_run(old(self).source_chars(), old(self).lex_state()),
                at_line_start ==> !line_has_tokens,
                tokens@.len() + self.indent_stack@.len() <= old(self).indent_stack@.len() + 3 * (self.cursor - old(self).cursor),
                self.cursor >= old(self).cursor,
            decreases cs.len() - self.cursor,
        {
            let ghost st0 = self.state_with(tokens@, at_line_start, line_has_tokens);
            if at_line_start {
                let at = self.line_start_round(&mut tokens)?;
                at_line_start = at;
                line_has_tokens = !at;
            } else {
                let (at, h) = self.mid_line_round(&mut tokens, line_has_tokens)?;
                at_line_start = at;
                line_has_tokens = h;
            }
            proof {
                let st1 = self.state_with(tokens@, at_line_start, line_has_tokens);
                assert(lex_run(cs, st0) == lex_run(cs, st1));
            }
        }
        let end_pos = self.current_pos();
        let end_span = Span::new(self.line, self.col, end_pos, end_pos);
        let ghost st_end = self.state_with(tokens@, at_line_start, line_has_tokens);
        if line_has_tokens {
            let t = Token::new(TokenKind::Newline, end_span);
            proof { lemma_toks_push(tokens@, t); }
            tokens.push(t);
        }
        let ghost t1 = toks_view(tokens@);
        let ghost nd: int = if self.indent_stack@.len() > 1 { self.indent_stack@.len() - 1 } else { 0 };
        let mut k: usize = 0;
        let stack_len = self.indent_stack.len();
        assert(nd <= stack_len);
        while self.indent_stack.len() > 1
            invariant
                self.wf(),
                cs == self.chars@,
                self.indent_stack@.len() >= 1 ==> k + self.indent_stack@.len() - 1 == nd,
                self.indent_stack@.len() == 0 ==> nd == 0 && k == 0,
                nd <= usize::MAX,
                toks_view(tokens@) == t1 + Seq::new(k as nat, |q: int| plain(TokenKind::Dedent, end_span)),
                tokens@.len() + self.indent_stack@.len() <= old(self).indent_stack@.len() + 3 * cs.len() + 1,
            decreases self.indent_stack@.len(),
        {
            self.indent_stack.pop();
            let t = Token::new(TokenKind::Dedent, end_span);
            proof {
                lemma_toks_push(tokens@, t);
                assert(t1 + Seq::new((k + 1) as nat, |q: int| plain(TokenKind::Dedent, end_span))
                    =~= (t1 + Seq::new(k as nat, |q: int| plain(TokenKind::Dedent, end_span))).push(tok_view(t)));
            }
            tokens.push(t);
            k = k + 1;
        }
        let t = Token::new(TokenKind::Eof, end_span);
        proof { lemma_toks_push(tokens@, t); }
        tokens.push(t);
        proof {
            assert(k == nd);
            assert(toks_view(tokens@) == lex_finish(cs, st_end));
        }
        Ok(tokens)
    }
}

/// The tokens of a source text, or the first lexical error.
pub fn tokenize(source: &str) -> (r: Result<Vec<Token>, LexerError>)
    requires
        source@.len() <= usize::MAX / 4,
    ensures
        match spec_tokenize(source@) {
            Ok(ts) => r matches Ok(v) && toks_view(v@) == ts,
            Err(x) => r matches Err(er) && er.message@ == x.message && er.span == x.span,
        },
        r matches Ok(v) ==> v@.len() <= 3 * source@.len() + 3,
{
    let mut scanner = Scanner::new(source);
    scanner.tokenize()
}

} // verus!
