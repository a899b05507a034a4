use vstd::prelude::*;
use crate::language::ast::{
    AssignOp, BinaryOp, EventDef, EventKind, EventKindV, EventV, Expr, ExprV, FuncV, FunctionDef, Program,
    ProgramV, Statement, StmtV, UnaryOp, event_kind_view, event_view, expr_view, exprs_view, func_view,
    opt_str_view, program_view, stmt_view, stmts_view, strings_view,
};
use crate::language::parser::until_dot;
use crate::language::lexer::{scan_str, scan_tok, unescape, StrScan, TokS, TokV};
use crate::language::parser::{assign_op_of, one_token, op_at};
use crate::text::{chars_of, decimal, push_char, u64_to_string};

verus! {

// ---------------------------------------------------------------------------------------
// Canonical text of programs
// ---------------------------------------------------------------------------------------

pub open spec fn strip_leading_zeros(s: Seq<char>) -> Seq<char>
    decreases s.len(),
{
    if s.len() > 1 && s[0] == '0' { strip_leading_zeros(s.drop_first()) } else { s }
}

pub open spec fn strip_trailing_zeros(s: Seq<char>) -> Seq<char>
    decreases s.len(),
{
    if s.len() > 0 && s.last() == '0' { strip_trailing_zeros(s.drop_last()) } else { s }
}

/// The shortest decimal text of a number literal: no leading zeros in the integer part, no
/// trailing zeros in the fraction, and no fraction when it is zero.
pub open spec fn canon_number(t: Seq<char>) -> Seq<char> {
    let d = until_dot(t, 0);
    let whole = strip_leading_zeros(t.take(d));
    let frac = if d < t.len() { strip_trailing_zeros(t.skip(d + 1)) } else { Seq::empty() };
    if frac.len() == 0 { whole } else { whole + "."@ + frac }
}

/// A string value's character as it is written between quotes: a backslash, a quote and a
/// line feed are written as escapes, so that the text reads back as the same value.
pub open spec fn escape_char(c: char) -> Seq<char> {
    if c == '\\' {
        seq!['\\', '\\']
    } else if c == '"' {
        seq!['\\', '"']
    } else if c == '\n' {
        seq!['\\', 'n']
    } else {
        seq![c]
    }
}

/// A string value as it is written between quotes (see `escape_char`).
pub open spec fn escape_text(s: Seq<char>) -> Seq<char>
    decreases s.len(),
{
    if s.len() == 0 {
        Seq::empty()
    } else {
        escape_text(s.drop_last()) + escape_char(s.last())
    }
}

proof fn lemma_escape_concat(a: Seq<char>, b: Seq<char>)
    ensures
        escape_text(a + b) == escape_text(a) + escape_text(b),
    decreases b.len(),
{
    if b.len() == 0 {
        assert(a + b =~= a);
        assert(escape_text(a) + escape_text(b) =~= escape_text(a));
    } else {
        lemma_escape_concat(a, b.drop_last());
        assert((a + b).drop_last() =~= a + b.drop_last());
        assert((a + b).last() == b.last());
        assert(escape_text(a) + escape_text(b) =~= escape_text(a) + escape_text(b.drop_last()) + escape_char(
            b.last(),
        ));
    }
}

proof fn lemma_escape_first(s: Seq<char>)
    requires
        s.len() > 0,
    ensures
        escape_text(s) == escape_char(s[0]) + escape_text(s.drop_first()),
{
    lemma_escape_concat(seq![s[0]], s.drop_first());
    assert(seq![s[0]] + s.drop_first() =~= s);
    let one = seq![s[0]];
    assert(one.drop_last() =~= Seq::<char>::empty());
    assert(one.last() == s[0]);
    assert(escape_text(one.drop_last()) == Seq::<char>::empty());
    assert(escape_text(one) == escape_text(one.drop_last()) + escape_char(s[0]));
    assert(escape_text(one) =~= escape_char(s[0]));
}

proof fn lemma_scan_escaped(cs: Seq<char>, i: int, acc: Seq<char>, s: Seq<char>)
    requires
        0 <= i,
        i + escape_text(s).len() < cs.len(),
        cs.subrange(i, i + escape_text(s).len()) == escape_text(s),
        cs[i + escape_text(s).len()] == '"',
    ensures
        scan_str(cs, i, acc) == StrScan::Done(acc + s, i + escape_text(s).len() + 1),
    decreases s.len(),
{
    if s.len() == 0 {
        assert(acc + s =~= acc);
    } else {
        lemma_escape_first(s);
        let c = s[0];
        let e = escape_char(c);
        let t = s.drop_first();
        let n = escape_text(s).len();
        assert(cs.subrange(i, i + n)[0] == cs[i]);
        assert(acc.push(c) + t =~= acc + s);
        if c == '\\' || c == '"' || c == '\n' {
            assert(cs.subrange(i, i + n)[1] == cs[i + 1]);
            assert(cs.subrange(i + 2, i + 2 + escape_text(t).len()) =~= escape_text(t)) by {
                assert forall|k: int| 0 <= k < escape_text(t).len() implies cs.subrange(i + 2, i + 2 + escape_text(
                    t,
                ).len())[k] == escape_text(t)[k] by {
                    assert(cs.subrange(i, i + n)[k + 2] == cs[i + 2 + k]);
                }
            }
            lemma_scan_escaped(cs, i + 2, acc.push(c), t);
        } else {
            assert(cs.subrange(i + 1, i + 1 + escape_text(t).len()) =~= escape_text(t)) by {
                assert forall|k: int| 0 <= k < escape_text(t).len() implies cs.subrange(i + 1, i + 1 + escape_text(
                    t,
                ).len())[k] == escape_text(t)[k] by {
                    assert(cs.subrange(i, i + n)[k + 1] == cs[i + 1 + k]);
                }
            }
            lemma_scan_escaped(cs, i + 1, acc.push(c), t);
        }
    }
}

/// A string value written between quotes as the formatter writes it reads back, in the
/// lexer, as the same value, ending after the closing quote, whatever follows.
pub proof fn law_escaped_string_reads_back(s: Seq<char>, rest: Seq<char>)
    ensures
        scan_str(escape_text(s) + seq!['"'] + rest, 0, Seq::empty()) == StrScan::Done(s, (escape_text(s).len() + 1) as int),
{
    let cs = escape_text(s) + seq!['"'] + rest;
    assert(cs.subrange(0, escape_text(s).len() as int) =~= escape_text(s));
    lemma_scan_escaped(cs, 0, Seq::empty(), s);
    assert(Seq::<char>::empty() + s =~= s);
}

/// An assignment operator as the formatter writes it, followed by a space or the end, is
/// scanned to one token that the parser reads as the same operator.
pub proof fn law_assignment_operator_text_reads_back(op: AssignOp, rest: Seq<char>, line: int, col: int)
    requires
        rest.len() == 0 || rest[0] == ' ',
    ensures
        scan_tok(assignop_text(op) + rest, 0, line, col) matches Ok((k, e)) && e == assignop_text(op).len()
            && assign_op_of(one_token(k), 0) == Some(op),
{
    reveal_strlit("=");
    reveal_strlit("+=");
    reveal_strlit("-=");
    reveal_strlit("*=");
    reveal_strlit("/=");
    let t = assignop_text(op);
    let cs = t + rest;
    assert(cs[0] == t[0]);
    if t.len() == 2 {
        assert(cs[1] == t[1]);
    }
}

/// A binary operator written with symbols (all but `and` and `or`) as the formatter writes
/// it, followed by a space or the end, is scanned to one token that the parser reads, at the
/// operator's precedence level, as the same operator.
pub proof fn law_operator_text_reads_back(op: BinaryOp, rest: Seq<char>, line: int, col: int)
    requires
        op != BinaryOp::And && op != BinaryOp::Or,
        rest.len() == 0 || rest[0] == ' ',
    ensures
        scan_tok(binop_text(op) + rest, 0, line, col) matches Ok((k, e)) && e == binop_text(op).len() && op_at(
            one_token(k),
            0,
            binop_level(op),
        ) == Some(op),
{
    reveal_strlit("+");
    reveal_strlit("-");
    reveal_strlit("*");
    reveal_strlit("/");
    reveal_strlit("%");
    reveal_strlit("==");
    reveal_strlit("!=");
    reveal_strlit("<");
    reveal_strlit("<=");
    reveal_strlit(">");
    reveal_strlit(">=");
    let t = binop_text(op);
    let cs = t + rest;
    assert(cs[0] == t[0]);
    if t.len() == 2 {
        assert(cs[1] == t[1]);
    }
}

pub open spec fn binop_text(op: BinaryOp) -> Seq<char> {
    match op {
        BinaryOp::Add => "+"@,
        BinaryOp::Sub => "-"@,
        BinaryOp::Mul => "*"@,
        BinaryOp::Div => "/"@,
        BinaryOp::Mod => "%"@,
        BinaryOp::Equal => "=="@,
        BinaryOp::NotEqual => "!="@,
        BinaryOp::Less => "<"@,
        BinaryOp::LessEqual => "<="@,
        BinaryOp::Greater => ">"@,
        BinaryOp::GreaterEqual => ">="@,
        BinaryOp::And => "and"@,
        BinaryOp::Or => "or"@,
    }
}

pub open spec fn assignop_text(op: AssignOp) -> Seq<char> {
    match op {
        AssignOp::Assign => "="@,
        AssignOp::AddAssign => "+="@,
        AssignOp::SubAssign => "-="@,
        AssignOp::MulAssign => "*="@,
        AssignOp::DivAssign => "/="@,
    }
}

pub open spec fn call_head(target: Option<Seq<char>>, name: Seq<char>) -> Seq<char> {
    match target {
        Some(t) => t + "."@ + name,
        None => name,
    }
}

/// Precedence level of a binary operator, as the parser climbs it: 0 `or`, 1 `and`,
/// 2 equality, 3 comparison, 4 `+ -`, 5 `* / %`.
pub open spec fn binop_level(op: BinaryOp) -> int {
    match op {
        BinaryOp::Or => 0,
        BinaryOp::And => 1,
        BinaryOp::Equal | BinaryOp::NotEqual => 2,
        BinaryOp::Less | BinaryOp::LessEqual | BinaryOp::Greater | BinaryOp::GreaterEqual => 3,
        BinaryOp::Add | BinaryOp::Sub => 4,
        BinaryOp::Mul | BinaryOp::Div | BinaryOp::Mod => 5,
    }
}

/// How tightly an expression binds: a binary expression at its operator's level, anything
/// else (unary, literal, name, call) above every binary level.
pub open spec fn expr_level(e: ExprV) -> int {
    match e {
        ExprV::Binary(_, op, _, _) => binop_level(op),
        _ => 6,
    }
}

/// `t` in parentheses when `wrap` holds.
pub open spec fn paren_if(wrap: bool, t: Seq<char>) -> Seq<char> {
    if wrap { "("@ + t + ")"@ } else { t }
}

/// Source text of an expression. A binary operand is put in parentheses when it binds less
/// tightly than its operator (on the right also when it binds equally, since operators
/// associate to the left), and the operand of `not` or `-` when it is a binary expression,
/// so that the text parses back to the same tree.
pub open spec fn fmt_expr(e: ExprV) -> Seq<char>
    decreases e, 0nat,
{
    match e {
        ExprV::Number(t, _) => canon_number(t),
        ExprV::Str(s, _) => "\""@ + escape_text(s) + "\""@,
        ExprV::Bool(b, _) => if b { "true"@ } else { "false"@ },
        ExprV::Ident(id, _) => id,
        ExprV::Binary(l, op, r, _) => paren_if(expr_level(*l) < binop_level(op), fmt_expr(*l)) + " "@
            + binop_text(op) + " "@ + paren_if(expr_level(*r) <= binop_level(op), fmt_expr(*r)),
        ExprV::Unary(op, x, _) => match op {
            UnaryOp::Not => "not "@ + paren_if(expr_level(*x) < 6, fmt_expr(*x)),
            UnaryOp::Neg => "-"@ + paren_if(expr_level(*x) < 6, fmt_expr(*x)),
        },
        ExprV::Call(t, n, args, _) => call_head(t, n) + "("@ + fmt_args(args, args.len()) + ")"@,
    }
}

/// The first `k` arguments, separated by `, `.
pub open spec fn fmt_args(args: Seq<ExprV>, k: nat) -> Seq<char>
    decreases args, k,
{
    if k == 0 || k > args.len() {
        Seq::empty()
    } else if k == 1 {
        fmt_expr(args[0])
    } else {
        fmt_args(args, (k - 1) as nat) + ", "@ + fmt_expr(args[k - 1])
    }
}

pub open spec fn four() -> Seq<char> {
    "    "@
}

/// Source text of a statement at indentation `ind`, without a final line break.
pub open spec fn fmt_stmt(s: StmtV, ind: Seq<char>) -> Seq<char>
    decreases s, 0nat,
{
    match s {
        StmtV::Assign(t, op, v, _) => ind + t + " "@ + assignop_text(op) + " "@ + fmt_expr(v),
        StmtV::Call(t, n, a, _) => ind + call_head(t, n) + "("@ + fmt_args(a, a.len()) + ")"@,
        StmtV::If(c, tb, eb, _) => (ind + "if "@ + fmt_expr(c) + ":\n"@ + fmt_block(tb, ind + four(), tb.len())
            + match eb {
                Some(b) => ind + "else:\n"@ + fmt_block(b, ind + four(), b.len()),
                None => Seq::empty(),
            }).drop_last(),
        StmtV::Repeat(c, b, _) => (ind + "repeat "@ + fmt_expr(c) + ":\n"@ + fmt_block(b, ind + four(), b.len())).drop_last(),
        StmtV::Return(v, _) => match v {
            Some(x) => ind + "return "@ + fmt_expr(x),
            None => ind + "return"@,
        },
        StmtV::Assert(x, _) => ind + "assert "@ + fmt_expr(x),
    }
}

/// The first `k` statements, each on its own line.
pub open spec fn fmt_block(ss: Seq<StmtV>, ind: Seq<char>, k: nat) -> Seq<char>
    decreases ss, k,
{
    if k == 0 || k > ss.len() {
        Seq::empty()
    } else {
        fmt_block(ss, ind, (k - 1) as nat) + fmt_stmt(ss[k - 1], ind) + "\n"@
    }
}

pub open spec fn event_header(k: EventKindV) -> Seq<char> {
    match k {
        EventKindV::Start => "when start:"@,
        EventKindV::Update => "when update:"@,
        EventKindV::ActionDown(a) => "when action.down(\""@ + a + "\"):"@,
        EventKindV::ActionPress(a) => "when action.press(\""@ + a + "\"):"@,
        EventKindV::ActionUp(a) => "when action.up(\""@ + a + "\"):"@,
        EventKindV::Touches(a, b) => "when "@ + a + " touches "@ + b + ":"@,
        EventKindV::EverySeconds(n) => "every "@ + decimal(n as nat) + " seconds:"@,
        EventKindV::AfterSeconds(n) => "after "@ + decimal(n as nat) + " seconds:"@,
        EventKindV::Custom(c) => "when "@ + c + ":"@,
        EventKindV::Message(m) => "when message(\""@ + m + "\"):"@,
    }
}

pub open spec fn fmt_event(e: EventV) -> Seq<char> {
    event_header(e.kind) + "\n"@ + fmt_block(e.body, four(), e.body.len())
}

/// The first `k` names, separated by `, `.
pub open spec fn join_names(ns: Seq<Seq<char>>, k: nat) -> Seq<char>
    decreases k,
{
    if k == 0 || k > ns.len() {
        Seq::empty()
    } else if k == 1 {
        ns[0]
    } else {
        join_names(ns, (k - 1) as nat) + ", "@ + ns[k - 1]
    }
}

pub open spec fn fmt_function(f: FuncV) -> Seq<char> {
    "function "@ + f.name + "("@ + join_names(f.params, f.params.len()) + "):"@ + "\n"@
        + fmt_block(f.body, four(), f.body.len())
}

/// Top-level statements, one per line, with a blank line after the last one when events
/// follow.
pub open spec fn fmt_top(ts: Seq<StmtV>, k: nat, has_events: bool) -> Seq<char>
    decreases k,
{
    if k == 0 || k > ts.len() {
        Seq::empty()
    } else {
        fmt_top(ts, (k - 1) as nat, has_events) + fmt_stmt(ts[k - 1], Seq::empty()) + "\n"@
            + if k == ts.len() && has_events { "\n"@ } else { Seq::empty() }
    }
}

/// Functions, separated by blank lines (and followed by one when events follow).
pub open spec fn fmt_functions(fs: Seq<FuncV>, k: nat, has_events: bool) -> Seq<char>
    decreases k,
{
    if k == 0 || k > fs.len() {
        Seq::empty()
    } else {
        fmt_functions(fs, (k - 1) as nat, has_events) + fmt_function(fs[k - 1])
            + if k < fs.len() || has_events { "\n\n"@ } else { Seq::empty() }
    }
}

/// Event handlers, separated by blank lines.
pub open spec fn fmt_events(es: Seq<EventV>, k: nat) -> Seq<char>
    decreases k,
{
    if k == 0 || k > es.len() {
        Seq::empty()
    } else {
        fmt_events(es, (k - 1) as nat) + fmt_event(es[k - 1]) + if k < es.len() { "\n"@ } else { Seq::empty() }
    }
}

/// The canonical source text of a program, ending with a line break.
pub open spec fn fmt_program(p: ProgramV) -> Seq<char> {
    let has_ev = p.events.len() > 0;
    let body = fmt_top(p.top_level, p.top_level.len(), has_ev) + fmt_functions(p.functions, p.functions.len(), has_ev)
        + fmt_events(p.events, p.events.len());
    if body.len() > 0 && body.last() == '\n' { body } else { body.push('\n') }
}

} // verus!

verus! {

/// Wraps `String::pop`: removes the last character, if any.
#[verifier::external_body]
fn string_pop(s: &mut String) -> (r: Option<char>)
    ensures
        old(s)@.len() > 0 ==> r == Some(old(s)@.last()) && final(s)@ == old(s)@.drop_last(),
        old(s)@.len() == 0 ==> r is None && final(s)@ == old(s)@,
{
    s.pop()
}

proof fn lemma_strip_leading_zeros_skip(s: Seq<char>, i: int)
    requires
        0 <= i < s.len(),
        forall|k: int| 0 <= k < i ==> s[k] == '0',
    ensures
        strip_leading_zeros(s) == strip_leading_zeros(s.skip(i)),
    decreases i,
{
    if i > 0 {
        assert(s.drop_first().skip(i - 1) =~= s.skip(i));
        lemma_strip_leading_zeros_skip(s.drop_first(), i - 1);
    } else {
        assert(s.skip(0) =~= s);
    }
}

proof fn lemma_strip_trailing_zeros_take(s: Seq<char>, j: int)
    requires
        0 <= j <= s.len(),
        forall|k: int| j <= k < s.len() ==> s[k] == '0',
    ensures
        strip_trailing_zeros(s) == strip_trailing_zeros(s.take(j)),
    decreases s.len() - j,
{
    if j < s.len() {
        assert(s.drop_last().take(j) =~= s.take(j));
        lemma_strip_trailing_zeros_take(s.drop_last(), j);
    } else {
        assert(s.take(j) =~= s);
    }
}

/// The shortest decimal text of a number literal.
pub fn canon_number_exec(t: &String) -> (r: String)
    ensures
        r@ == canon_number(t@),
{
    let cs = chars_of(t.as_str());
    let n = cs.len();
    let mut d: usize = 0;
    while d < n && cs[d] != '.'
        invariant
            cs@ == t@,
            n == cs@.len(),
            d <= n,
            until_dot(cs@, d as int) == until_dot(cs@, 0),
        decreases n - d,
    {
        d = d + 1;
    }
    let ghost whole = cs@.take(d as int);
    let mut a: usize = 0;
    while a + 1 < d && cs[a] == '0'
        invariant
            cs@ == t@,
            n == cs@.len(),
            d <= n,
            a < d || (a == 0 && d == 0),
            forall|k: int| 0 <= k < a ==> whole[k] == '0',
            whole == cs@.take(d as int),
        decreases d - a,
    {
        a = a + 1;
    }
    let ghost w2 = if d > 0 { whole.skip(a as int) } else { whole };
    proof {
        if d > 0 {
            lemma_strip_leading_zeros_skip(whole, a as int);
            let w = whole.skip(a as int);
            assert(!(w.len() > 1 && w[0] == '0'));
            assert(strip_leading_zeros(w) == w);
        } else {
            assert(whole.len() == 0);
        }
    }
    let mut r = String::new();
    for k in a..d
        invariant
            cs@ == t@,
            n == cs@.len(),
            a <= d <= n,
            r@ == cs@.subrange(a as int, k as int),
    {
        push_char(&mut r, cs[k]);
        assert(cs@.subrange(a as int, k + 1) =~= cs@.subrange(a as int, k as int).push(cs@[k as int]));
    }
    proof {
        if d > 0 {
            assert(r@ =~= w2);
        } else {
            assert(r@ =~= whole);
        }
    }
    if d < n {
        let ghost frac = cs@.skip(d + 1);
        let mut e: usize = n;
        while e > d + 1 && cs[e - 1] == '0'
            invariant
                cs@ == t@,
                n == cs@.len(),
                d < n,
                d + 1 <= e <= n,
                frac == cs@.skip(d + 1),
                forall|k: int| e <= k < n ==> cs@[k] == '0',
            decreases e,
        {
            e = e - 1;
        }
        proof {
            lemma_strip_trailing_zeros_take(frac, e - d - 1);
            let f = frac.take(e - d - 1);
            assert(!(f.len() > 0 && f.last() == '0'));
            assert(strip_trailing_zeros(f) == f);
        }
        if e > d + 1 {
            r.append(".");
            let ghost before = r@;
            for k in d + 1..e
                invariant
                    cs@ == t@,
                    n == cs@.len(),
                    d + 1 <= e <= n,
                    r@ == before + cs@.subrange(d + 1, k as int),
            {
                push_char(&mut r, cs[k]);
                assert(cs@.subrange(d + 1, k + 1) =~= cs@.subrange(d + 1, k as int).push(cs@[k as int]));
            }
            proof {
                assert(cs@.subrange(d + 1, e as int) =~= frac.take(e - d - 1));
            }
        } else {
            proof {
                assert(frac.take(e - d - 1).len() == 0);
            }
        }
    }
    r
}

} // verus!

verus! {

fn binop_str(op: BinaryOp) -> (s: &'static str)
    ensures
        s@ == binop_text(op),
{
    match op {
        BinaryOp::Add => "+",
        BinaryOp::Sub => "-",
        BinaryOp::Mul => "*",
        BinaryOp::Div => "/",
        BinaryOp::Mod => "%",
        BinaryOp::Equal => "==",
        BinaryOp::NotEqual => "!=",
        BinaryOp::Less => "<",
        BinaryOp::LessEqual => "<=",
        BinaryOp::Greater => ">",
        BinaryOp::GreaterEqual => ">=",
        BinaryOp::And => "and",
        BinaryOp::Or => "or",
    }
}

fn binop_level_exec(op: BinaryOp) -> (l: u8)
    ensures
        l == binop_level(op),
{
    match op {
        BinaryOp::Or => 0,
        BinaryOp::And => 1,
        BinaryOp::Equal | BinaryOp::NotEqual => 2,
        BinaryOp::Less | BinaryOp::LessEqual | BinaryOp::Greater | BinaryOp::GreaterEqual => 3,
        BinaryOp::Add | BinaryOp::Sub => 4,
        BinaryOp::Mul | BinaryOp::Div | BinaryOp::Mod => 5,
    }
}

fn expr_level_exec(e: &Expr) -> (l: u8)
    ensures
        l == expr_level(expr_view(*e)),
{
    match e {
        Expr::Binary { op, .. } => binop_level_exec(*op),
        _ => 6,
    }
}

fn paren_if_exec(wrap: bool, t: String) -> (r: String)
    ensures
        r@ == paren_if(wrap, t@),
{
    if wrap {
        let mut r = String::from_str("(");
        r.append(t.as_str());
        r.append(")");
        r
    } else {
        t
    }
}

fn assignop_str(op: AssignOp) -> (s: &'static str)
    ensures
        s@ == assignop_text(op),
{
    match op {
        AssignOp::Assign => "=",
        AssignOp::AddAssign => "+=",
        AssignOp::SubAssign => "-=",
        AssignOp::MulAssign => "*=",
        AssignOp::DivAssign => "/=",
    }
}

fn push_call(out: &mut String, target: &Option<String>, name: &String, args: &Vec<Expr>)
    ensures
        final(out)@ == old(out)@ + call_head(opt_str_view(*target), name@) + "("@
            + fmt_args(exprs_view(args@), args@.len()) + ")"@,
    decreases args, 1nat,
{
    let ghost o0 = out@;
    match target {
        Some(t) => {
            out.append(t.as_str());
            out.append(".");
        },
        None => {},
    }
    out.append(name.as_str());
    out.append("(");
    let ghost head = out@;
    let ghost av = exprs_view(args@);
    for i in 0..args.len()
        invariant
            av == exprs_view(args@),
            out@ == head + fmt_args(av, i as nat),
    {
        if i > 0 {
            out.append(", ");
        }
        let s = format_expr(&args[i]);
        out.append(s.as_str());
        proof {
            if i == 0 {
                assert(fmt_args(av, 1) == fmt_expr(av[0]));
            }
        }
    }
    out.append(")");
    proof {
        assert(out@ =~= o0 + call_head(opt_str_view(*target), name@) + "("@ + fmt_args(av, args@.len()) + ")"@);
    }
}

/// Appends a string value as it is written between quotes.
fn append_escaped(out: &mut String, t: &str)
    ensures
        final(out)@ == old(out)@ + escape_text(t@),
{
    let cs = chars_of(t);
    let ghost o0 = out@;
    for i in 0..cs.len()
        invariant
            cs@ == t@,
            out@ == o0 + escape_text(cs@.take(i as int)),
    {
        let c = cs[i];
        assert(cs@.take(i + 1).drop_last() =~= cs@.take(i as int));
        if c == '\\' {
            push_char(out, '\\');
            push_char(out, '\\');
        } else if c == '"' {
            push_char(out, '\\');
            push_char(out, '"');
        } else if c == '\n' {
            push_char(out, '\\');
            push_char(out, 'n');
        } else {
            push_char(out, c);
        }
        assert(out@ =~= o0 + escape_text(cs@.take(i + 1)));
    }
    assert(cs@.take(cs@.len() as int) =~= cs@);
}

/// Source text of an expression.
pub fn format_expr(e: &Expr) -> (s: String)
    ensures
        s@ == fmt_expr(expr_view(*e)),
    decreases e, 0nat,
{
    match e {
        Expr::Number(t, _) => canon_number_exec(t),
        Expr::String(t, _) => {
            let mut s = String::from_str("\"");
            append_escaped(&mut s, t.as_str());
            s.append("\"");
            s
        },
        Expr::Bool(b, _) => if *b { String::from_str("true") } else { String::from_str("false") },
        Expr::Ident(id, _) => id.clone(),
        Expr::Binary { left, op, right, .. } => {
            let lvl = binop_level_exec(*op);
            let l = format_expr(left);
            let mut s = paren_if_exec(expr_level_exec(left) < lvl, l);
            s.append(" ");
            s.append(binop_str(*op));
            s.append(" ");
            let r = format_expr(right);
            let r2 = paren_if_exec(expr_level_exec(right) <= lvl, r);
            s.append(r2.as_str());
            s
        },
        Expr::Unary { op, expr, .. } => {
            let mut s = match op {
                UnaryOp::Not => String::from_str("not "),
                UnaryOp::Neg => String::from_str("-"),
            };
            let x = format_expr(expr);
            let x2 = paren_if_exec(expr_level_exec(expr) < 6, x);
            s.append(x2.as_str());
            s
        },
        Expr::Call { target, name, args, .. } => {
            let mut s = String::new();
            push_call(&mut s, target, name, args);
            proof {
                assert(expr_view(*e)->Call_2 =~= exprs_view(args@));
            }
            s
        },
    }
}

} // verus!

verus! {

fn format_statement(out: &mut String, s: &Statement, ind: &String)
    ensures
        final(out)@ == old(out)@ + fmt_stmt(stmt_view(*s), ind@),
    decreases s, 0nat,
{
    let ghost o0 = out@;
    match s {
        Statement::Assign { target, op, value, .. } => {
            out.append(ind.as_str());
            out.append(target.as_str());
            out.append(" ");
            out.append(assignop_str(*op));
            out.append(" ");
            let v = format_expr(value);
            out.append(v.as_str());
            assert(out@ =~= o0 + fmt_stmt(stmt_view(*s), ind@));
        },
        Statement::Call { target, name, args, .. } => {
            out.append(ind.as_str());
            push_call(out, target, name, args);
            assert(out@ =~= o0 + fmt_stmt(stmt_view(*s), ind@));
        },
        Statement::If { condition, then_body, else_body, .. } => {
            let mut t = ind.clone();
            t.append("if ");
            let c = format_expr(condition);
            t.append(c.as_str());
            t.append(":\n");
            let mut inner = ind.clone();
            inner.append("    ");
            format_block(&mut t, then_body, &inner);
            match else_body {
                Some(eb) => {
                    t.append(ind.as_str());
                    t.append("else:\n");
                    format_block(&mut t, eb, &inner);
                    assert(stmt_view(*s)->If_2->0 =~= stmts_view(eb@));
                },
                None => {},
            }
            let ghost full = t@;
            proof {
                reveal_strlit(":\n");
                assert(full.len() > 0);
            }
            string_pop(&mut t);
            out.append(t.as_str());
            proof {
                assert(stmt_view(*s)->If_1 =~= stmts_view(then_body@));
                assert(full =~= ind@ + "if "@ + fmt_expr(expr_view(*condition)) + ":\n"@
                    + fmt_block(stmts_view(then_body@), ind@ + four(), then_body@.len())
                    + match else_body {
                        Some(b) => ind@ + "else:\n"@ + fmt_block(stmts_view(b@), ind@ + four(), b@.len()),
                        None => Seq::empty(),
                    });
                assert(fmt_stmt(stmt_view(*s), ind@) == full.drop_last());
                assert(out@ =~= o0 + full.drop_last());
            }
        },
        Statement::Repeat { count, body, .. } => {
            let mut t = ind.clone();
            t.append("repeat ");
            let c = format_expr(count);
            t.append(c.as_str());
            t.append(":\n");
            let mut inner = ind.clone();
            inner.append("    ");
            format_block(&mut t, body, &inner);
            let ghost full = t@;
            proof {
                reveal_strlit(":\n");
                assert(full.len() > 0);
            }
            string_pop(&mut t);
            out.append(t.as_str());
            proof {
                assert(stmt_view(*s)->Repeat_1 =~= stmts_view(body@));
                assert(full =~= ind@ + "repeat "@ + fmt_expr(expr_view(*count)) + ":\n"@
                    + fmt_block(stmts_view(body@), ind@ + four(), body@.len()));
                assert(fmt_stmt(stmt_view(*s), ind@) == full.drop_last());
                assert(out@ =~= o0 + full.drop_last());
            }
        },
        Statement::Return { value, .. } => {
            out.append(ind.as_str());
            match value {
                Some(v) => {
                    out.append("return ");
                    let x = format_expr(v);
                    out.append(x.as_str());
                },
                None => {
                    out.append("return");
                },
            }
            assert(out@ =~= o0 + fmt_stmt(stmt_view(*s), ind@));
        },
        Statement::Assert { expr, .. } => {
            out.append(ind.as_str());
            out.append("assert ");
            let x = format_expr(expr);
            out.append(x.as_str());
            assert(out@ =~= o0 + fmt_stmt(stmt_view(*s), ind@));
        },
    }
}

fn format_block(out: &mut String, ss: &Vec<Statement>, ind: &String)
    ensures
        final(out)@ == old(out)@ + fmt_block(stmts_view(ss@), ind@, ss@.len()),
    decreases ss, 1nat,
{
    let ghost o0 = out@;
    let ghost sv = stmts_view(ss@);
    for i in 0..ss.len()
        invariant
            sv == stmts_view(ss@),
            out@ == o0 + fmt_block(sv, ind@, i as nat),
    {
        format_statement(out, &ss[i], ind);
        out.append("\n");
        assert(out@ =~= o0 + fmt_block(sv, ind@, (i + 1) as nat));
    }
}

} // verus!

verus! {

fn event_header_exec(k: &EventKind) -> (s: String)
    ensures
        s@ == event_header(event_kind_view(*k)),
{
    match k {
        EventKind::Start => String::from_str("when start:"),
        EventKind::Update => String::from_str("when update:"),
        EventKind::ActionDown(a) => {
            let mut s = String::from_str("when action.down(\"");
            s.append(a.as_str());
            s.append("\"):");
            s
        },
        EventKind::ActionPress(a) => {
            let mut s = String::from_str("when action.press(\"");
            s.append(a.as_str());
            s.append("\"):");
            s
        },
        EventKind::ActionUp(a) => {
            let mut s = String::from_str("when action.up(\"");
            s.append(a.as_str());
            s.append("\"):");
            s
        },
        EventKind::Touches { object_a, object_b } => {
            let mut s = String::from_str("when ");
            s.append(object_a.as_str());
            s.append(" touches ");
            s.append(object_b.as_str());
            s.append(":");
            s
        },
        EventKind::EverySeconds(n) => {
            let mut s = String::from_str("every ");
            let d = u64_to_string(*n);
            s.append(d.as_str());
            s.append(" seconds:");
            s
        },
        EventKind::AfterSeconds(n) => {
            let mut s = String::from_str("after ");
            let d = u64_to_string(*n);
            s.append(d.as_str());
            s.append(" seconds:");
            s
        },
        EventKind::Custom(c) => {
            let mut s = String::from_str("when ");
            s.append(c.as_str());
            s.append(":");
            s
        },
        EventKind::Message(m) => {
            let mut s = String::from_str("when message(\"");
            s.append(m.as_str());
            s.append("\"):");
            s
        },
    }
}

fn format_event(out: &mut String, e: &EventDef)
    ensures
        final(out)@ == old(out)@ + fmt_event(event_view(*e)),
{
    let ghost o0 = out@;
    let h = event_header_exec(&e.kind);
    out.append(h.as_str());
    out.append("\n");
    let four = String::from_str("    ");
    format_block(out, &e.body, &four);
    assert(out@ =~= o0 + fmt_event(event_view(*e)));
}

fn format_function(out: &mut String, f: &FunctionDef)
    ensures
        final(out)@ == old(out)@ + fmt_function(func_view(*f)),
{
    let ghost o0 = out@;
    out.append("function ");
    out.append(f.name.as_str());
    out.append("(");
    let ghost head = out@;
    let ghost ps = strings_view(f.params@);
    for i in 0..f.params.len()
        invariant
            ps == strings_view(f.params@),
            out@ == head + join_names(ps, i as nat),
    {
        if i > 0 {
            out.append(", ");
        }
        out.append(f.params[i].as_str());
    }
    out.append("):");
    out.append("\n");
    let four = String::from_str("    ");
    format_block(out, &f.body, &four);
    assert(out@ =~= o0 + fmt_function(func_view(*f)));
}

/// A pretty-printer for programs.
pub struct Formatter {
    indent: String,
    output: String,
}

impl Formatter {
    /// The text written so far.
    pub closed spec fn text(self) -> Seq<char> {
        self.output@
    }

    /// The current indentation.
    pub closed spec fn indentation(self) -> Seq<char> {
        self.indent@
    }

    /// A formatter with empty output at indentation zero.
    pub fn new() -> (f: Self)
        ensures
            f.text().len() == 0,
            f.indentation().len() == 0,
    {
        Formatter { indent: String::new(), output: String::new() }
    }

    /// The canonical source text of a program: top-level statements, functions and event
    /// handlers, four spaces per indentation level, ending with a line break.
    pub fn format_program(program: &Program) -> (s: String)
        ensures
            s@ == fmt_program(program_view(*program)),
    {
        let mut f = Formatter::new();
        let ghost pv = program_view(*program);
        let has_ev = program.events.len() > 0;
        let nt = program.top_level.len();
        let ghost tv = stmts_view(program.top_level@);
        for i in 0..nt
            invariant
                pv == program_view(*program),
                tv == pv.top_level,
                nt == tv.len(),
                has_ev == (pv.events.len() > 0),
                f.indent@.len() == 0,
                f.output@ == fmt_top(tv, i as nat, has_ev),
        {
            assert(f.indent@ =~= Seq::<char>::empty());
            format_statement(&mut f.output, &program.top_level[i], &f.indent);
            f.output.append("\n");
            if i + 1 == nt && has_ev {
                f.output.append("\n");
            }
            assert(f.output@ =~= fmt_top(tv, (i + 1) as nat, has_ev));
        }
        let ghost after_top = f.output@;
        let nf = program.functions.len();
        for i in 0..nf
            invariant
                pv == program_view(*program),
                nf == pv.functions.len(),
                has_ev == (pv.events.len() > 0),
                f.output@ == after_top + fmt_functions(pv.functions, i as nat, has_ev),
        {
            assert(pv.functions[i as int] == func_view(program.functions@[i as int]));
            format_function(&mut f.output, &program.functions[i]);
            if i + 1 < nf || has_ev {
                f.output.append("\n\n");
            }
            assert(f.output@ =~= after_top + fmt_functions(pv.functions, (i + 1) as nat, has_ev));
        }
        let ghost after_fn = f.output@;
        let ne = program.events.len();
        for i in 0..ne
            invariant
                pv == program_view(*program),
                ne == pv.events.len(),
                f.output@ == after_fn + fmt_events(pv.events, i as nat),
        {
            assert(pv.events[i as int] == event_view(program.events@[i as int]));
            format_event(&mut f.output, &program.events[i]);
            if i + 1 < ne {
                f.output.append("\n");
            }
            assert(f.output@ =~= after_fn + fmt_events(pv.events, (i + 1) as nat));
        }
        let ghost body = f.output@;
        let mut out = f.output;
        let last = string_pop(&mut out);
        match last {
            Some(c) => {
                crate::text::push_char(&mut out, c);
                if c != '\n' {
                    crate::text::push_char(&mut out, '\n');
                }
                assert(body.drop_last().push(body.last()) =~= body);
            },
            None => {
                crate::text::push_char(&mut out, '\n');
            },
        }
        out
    }
}

/// Parses a source text and returns its canonical formatting, or the parse error message.
pub fn format_source(source: &str) -> (r: Result<String, String>)
    requires
        source@.len() <= usize::MAX / 4,
    ensures
        match crate::language::source::spec_parse(source@) {
            Ok(p) => r matches Ok(s) && s@ == fmt_program(p),
            Err(m) => r matches Err(s) && s@ == m,
        },
{
    let program = crate::language::parse(source)?;
    Ok(Formatter::format_program(&program))
}

} // verus!
