use vstd::prelude::*;
use crate::language::ast::{BinaryOp, ExprV, UnaryOp};
use crate::language::formatter::{binop_level, expr_level};
use crate::language::lexer::{TokS, TokV};
use crate::language::parser::{
    check, g_args, g_args_rest, g_bin, g_bin_tail, g_expr, g_primary, g_unary, no_span, op_at, span_at, until_dot, PErr,
};
use crate::language::token::TokenKind;

verus! {

// ---------------------------------------------------------------------------------------
// Expressions written by the formatter read back by the parser
//
// `expr_toks` is the token sequence of an expression as `fmt_expr` writes it, with the same
// parentheses; the law at the end shows that the expression grammar reads it back as the
// same tree, source locations aside.
// ---------------------------------------------------------------------------------------

/// The token of a binary operator.
pub open spec fn binop_token(op: BinaryOp) -> TokenKind {
    match op {
        BinaryOp::Add => TokenKind::Plus,
        BinaryOp::Sub => TokenKind::Minus,
        BinaryOp::Mul => TokenKind::Star,
        BinaryOp::Div => TokenKind::Slash,
        BinaryOp::Mod => TokenKind::Percent,
        BinaryOp::Equal => TokenKind::Equal,
        BinaryOp::NotEqual => TokenKind::NotEqual,
        BinaryOp::Less => TokenKind::Less,
        BinaryOp::LessEqual => TokenKind::LessEqual,
        BinaryOp::Greater => TokenKind::Greater,
        BinaryOp::GreaterEqual => TokenKind::GreaterEqual,
        BinaryOp::And => TokenKind::And,
        BinaryOp::Or => TokenKind::Or,
    }
}

/// Tokens in parentheses when `w` holds.
pub open spec fn wrap(w: bool, t: Seq<TokV>) -> Seq<TokV> {
    if w {
        seq![TokV::Plain(TokenKind::LParen)] + t + seq![TokV::Plain(TokenKind::RParen)]
    } else {
        t
    }
}

/// The tokens of a name: a dotted name `a.b` is written as `a`, `.`, `b`.
pub open spec fn name_toks(n: Seq<char>) -> Seq<TokV> {
    let d = until_dot(n, 0);
    if d < n.len() {
        seq![TokV::Ident(n.take(d)), TokV::Plain(TokenKind::Dot), TokV::Ident(n.skip(d + 1))]
    } else {
        seq![TokV::Ident(n)]
    }
}

/// The tokens of an expression as the formatter writes it, parentheses included (see
/// `fmt_expr`).
pub open spec fn expr_toks(e: ExprV) -> Seq<TokV>
    decreases e,
{
    match e {
        ExprV::Number(t, _) => seq![TokV::Number(t)],
        ExprV::Str(s, _) => seq![TokV::Str(s)],
        ExprV::Bool(b, _) => seq![TokV::Plain(if b { TokenKind::True } else { TokenKind::False })],
        ExprV::Ident(n, _) => name_toks(n),
        ExprV::Binary(l, op, r, _) => wrap(expr_level(*l) < binop_level(op), expr_toks(*l)) + seq![
            TokV::Plain(binop_token(op)),
        ] + wrap(expr_level(*r) <= binop_level(op), expr_toks(*r)),
        ExprV::Unary(op, x, _) => seq![
            TokV::Plain(if op == UnaryOp::Not { TokenKind::Not } else { TokenKind::Minus }),
        ] + wrap(expr_level(*x) < 6, expr_toks(*x)),
        ExprV::Call(t, n, args, _) => head_toks(t, n) + seq![TokV::Plain(TokenKind::LParen)] + args_toks_from(
            args,
            0,
        ) + seq![TokV::Plain(TokenKind::RParen)],
    }
}

/// The tokens of a call's head: the name, after the target and a dot when there is one.
pub open spec fn head_toks(t: Option<Seq<char>>, n: Seq<char>) -> Seq<TokV> {
    match t {
        Some(o) => seq![TokV::Ident(o), TokV::Plain(TokenKind::Dot), TokV::Ident(n)],
        None => seq![TokV::Ident(n)],
    }
}

/// The tokens of the arguments from the `i`-th on, separated by commas.
pub open spec fn args_toks_from(args: Seq<ExprV>, i: int) -> Seq<TokV>
    decreases args, args.len() - i,
{
    if i < 0 || i >= args.len() {
        Seq::empty()
    } else if i + 1 == args.len() {
        expr_toks(args[i])
    } else {
        expr_toks(args[i]) + seq![TokV::Plain(TokenKind::Comma)] + args_toks_from(args, i + 1)
    }
}

/// The arguments from the `i`-th on, without their source locations.
pub open spec fn erase_from(args: Seq<ExprV>, i: int) -> Seq<ExprV>
    decreases args, args.len() - i,
{
    if i < 0 || i >= args.len() {
        Seq::empty()
    } else {
        seq![erase(args[i])] + erase_from(args, i + 1)
    }
}

/// The expression without its source locations.
pub open spec fn erase(e: ExprV) -> ExprV
    decreases e,
{
    match e {
        ExprV::Number(t, _) => ExprV::Number(t, no_span()),
        ExprV::Str(s, _) => ExprV::Str(s, no_span()),
        ExprV::Bool(b, _) => ExprV::Bool(b, no_span()),
        ExprV::Ident(n, _) => ExprV::Ident(n, no_span()),
        ExprV::Binary(l, op, r, _) => ExprV::Binary(Box::new(erase(*l)), op, Box::new(erase(*r)), no_span()),
        ExprV::Unary(op, x, _) => ExprV::Unary(op, Box::new(erase(*x)), no_span()),
        ExprV::Call(t, n, args, _) => ExprV::Call(t, n, erase_from(args, 0), no_span()),
    }
}

/// An expression the parser can give: a name has at most one dot.
pub open spec fn plain_expr(e: ExprV) -> bool
    decreases e,
{
    match e {
        ExprV::Ident(n, _) => {
            let d = until_dot(n, 0);
            d < n.len() ==> until_dot(n.skip(d + 1), 0) == n.len() - d - 1
        },
        ExprV::Binary(l, _, r, _) => plain_expr(*l) && plain_expr(*r),
        ExprV::Unary(_, x, _) => plain_expr(*x),
        ExprV::Call(_, _, args, _) => plain_from(args, 0),
        _ => true,
    }
}

/// The arguments from the `i`-th on are expressions the parser can give.
pub open spec fn plain_from(args: Seq<ExprV>, i: int) -> bool
    decreases args, args.len() - i,
{
    if i < 0 || i >= args.len() {
        true
    } else {
        plain_expr(args[i]) && plain_from(args, i + 1)
    }
}

/// The tokens `t` stand in `ts` from position `p`.
pub open spec fn toks_at(ts: Seq<TokS>, p: int, t: Seq<TokV>) -> bool {
    &&& 0 <= p
    &&& p + t.len() <= ts.len()
    &&& forall|i: int| 0 <= i < t.len() ==> #[trigger] ts[p + i].kind == t[i]
}

/// The token at `q` ends an expression parsed at precedence level `lvl`: it is no binary
/// operator of that level or above, no `.` and no `(`.
pub open spec fn stops(ts: Seq<TokS>, q: int, lvl: int) -> bool {
    &&& !check(ts, q, TokenKind::Dot)
    &&& !check(ts, q, TokenKind::LParen)
    &&& (lvl <= 0 ==> op_at(ts, q, 0) is None)
    &&& (lvl <= 1 ==> op_at(ts, q, 1) is None)
    &&& (lvl <= 2 ==> op_at(ts, q, 2) is None)
    &&& (lvl <= 3 ==> op_at(ts, q, 3) is None)
    &&& (lvl <= 4 ==> op_at(ts, q, 4) is None)
    &&& (lvl <= 5 ==> op_at(ts, q, 5) is None)
}

proof fn lemma_until_dot(n: Seq<char>, i: int)
    requires
        0 <= i <= n.len(),
    ensures
        i <= until_dot(n, i) <= n.len(),
        until_dot(n, i) < n.len() ==> n[until_dot(n, i)] == '.',
    decreases n.len() - i,
{
    if i < n.len() && n[i] != '.' {
        lemma_until_dot(n, i + 1);
    }
}

proof fn lemma_sub_toks(ts: Seq<TokS>, p: int, a: Seq<TokV>, b: Seq<TokV>)
    requires
        toks_at(ts, p, a + b),
    ensures
        toks_at(ts, p, a),
        toks_at(ts, p + a.len(), b),
{
    assert forall|i: int| 0 <= i < a.len() implies #[trigger] ts[p + i].kind == a[i] by {
        assert(ts[p + i].kind == (a + b)[i]);
    }
    assert forall|i: int| 0 <= i < b.len() implies #[trigger] ts[p + a.len() + i].kind == b[i] by {
        assert(ts[p + (a.len() + i)].kind == (a + b)[a.len() + i]);
    }
}

proof fn lemma_join_toks(ts: Seq<TokS>, p: int, a: Seq<TokV>, b: Seq<TokV>)
    requires
        toks_at(ts, p, a),
        toks_at(ts, p + a.len(), b),
    ensures
        toks_at(ts, p, a + b),
{
    assert forall|i: int| 0 <= i < (a + b).len() implies #[trigger] ts[p + i].kind == (a + b)[i] by {
        if i < a.len() {
            assert(ts[p + i].kind == a[i]);
        } else {
            assert(ts[p + a.len() + (i - a.len())].kind == b[i - a.len()]);
        }
    }
}

/// The tokens of an expression start with a token that can start one: never `)` or `,`.
proof fn lemma_first_tok(e: ExprV)
    ensures
        expr_toks(e).len() > 0,
        expr_toks(e)[0] != TokV::Plain(TokenKind::RParen),
        expr_toks(e)[0] != TokV::Plain(TokenKind::Comma),
    decreases e,
{
    match e {
        ExprV::Binary(l, op, r, _) => {
            lemma_first_tok(*l);
        },
        ExprV::Ident(n, _) => {},
        ExprV::Call(t, n, args, _) => {},
        _ => {},
    }
}

/// Reading the arguments from the `i`-th on, after those already read into `acc`, up to and
/// including the closing parenthesis.
proof fn lemma_read_args(ts: Seq<TokS>, p: int, args: Seq<ExprV>, i: int, acc: Seq<ExprV>) -> (res: Seq<ExprV>)
    requires
        0 <= i < args.len(),
        plain_from(args, i),
        toks_at(ts, p, args_toks_from(args, i) + seq![TokV::Plain(TokenKind::RParen)]),
    ensures
        g_args_rest(ts, acc, p) == Ok::<(Seq<ExprV>, int), PErr>((res, p + args_toks_from(args, i).len() + 1)),
        res.len() == acc.len() + args.len() - i,
        res.take(acc.len() as int) == acc,
        erase_from(res, acc.len() as int) == erase_from(args, i),
    decreases args, 0int, args.len() - i,
{
    let x = args[i];
    let tx = expr_toks(x);
    let a = args_toks_from(args, i);
    let rp = seq![TokV::Plain(TokenKind::RParen)];
    lemma_sub_toks(ts, p, a, rp);
    assert(ts[p + a.len() + 0].kind == rp[0]);
    if i + 1 == args.len() {
        assert(a == tx);
        lemma_read(ts, p, x, 0);
        let (x2, q) = g_bin(ts, p, 0)->Ok_0;
        assert(g_expr(ts, p) == g_bin(ts, p, 0));
        assert(!check(ts, q, TokenKind::Comma));
        let res = acc.push(x2);
        assert(res.take(acc.len() as int) =~= acc);
        assert(erase_from(res, (acc.len() + 1) as int) == Seq::<ExprV>::empty());
        assert(erase_from(args, i + 1) == Seq::<ExprV>::empty());
        assert(erase_from(res, acc.len() as int) =~= erase_from(args, i));
        res
    } else {
        let c = seq![TokV::Plain(TokenKind::Comma)];
        let b = args_toks_from(args, i + 1);
        assert(a == tx + c + b);
        lemma_sub_toks(ts, p, tx + c, b);
        lemma_sub_toks(ts, p, tx, c);
        assert(ts[p + tx.len() + 0].kind == c[0]);
        lemma_read(ts, p, x, 0);
        let (x2, q) = g_bin(ts, p, 0)->Ok_0;
        assert(g_expr(ts, p) == g_bin(ts, p, 0));
        assert(check(ts, q, TokenKind::Comma));
        lemma_join_toks(ts, q + 1, b, rp);
        let res = lemma_read_args(ts, q + 1, args, i + 1, acc.push(x2));
        assert(res.take((acc.len() + 1) as int)[acc.len() as int] == x2);
        assert(res[acc.len() as int] == x2);
        assert(res.take(acc.len() as int) =~= acc) by {
            assert forall|j: int| 0 <= j < acc.len() implies res.take(acc.len() as int)[j] == acc[j] by {
                assert(res.take((acc.len() + 1) as int)[j] == acc.push(x2)[j]);
            }
        }
        assert(erase_from(res, acc.len() as int) == seq![erase(res[acc.len() as int])] + erase_from(res, (acc.len() + 1) as int));
        res
    }
}

/// A token of a binary operator of level `lvl` stops every higher level, and is read as that
/// operator at its own level.
proof fn lemma_op_token(ts: Seq<TokS>, q: int, op: BinaryOp)
    requires
        0 <= q < ts.len(),
        ts[q].kind == TokV::Plain(binop_token(op)),
    ensures
        stops(ts, q, binop_level(op) + 1),
        op_at(ts, q, binop_level(op)) == Some(op),
{
}

/// An expression that is no binary one, once read at the unary level, is read the same at
/// any level `lvl` when the next token stops it there.
proof fn lemma_lift(ts: Seq<TokS>, p: int, lvl: int)
    requires
        0 <= lvl <= 6,
        0 <= p <= ts.len(),
        g_unary(ts, p) matches Ok((a, q)) && p <= q <= ts.len() && stops(ts, q, lvl),
    ensures
        g_bin(ts, p, lvl) == g_unary(ts, p),
    decreases 6 - lvl,
{
    let (a, q) = g_unary(ts, p)->Ok_0;
    if lvl < 6 {
        lemma_lift(ts, p, lvl + 1);
        assert(op_at(ts, q, lvl) is None);
        assert(g_bin_tail(ts, a, q, lvl) == Ok::<(ExprV, int), PErr>((a, q)));
    }
}

/// Reading an expression that is no binary one at the unary level gives it back.
proof fn lemma_read_unary(ts: Seq<TokS>, p: int, e: ExprV)
    requires
        plain_expr(e),
        expr_level(e) == 6,
        toks_at(ts, p, expr_toks(e)),
        stops(ts, p + expr_toks(e).len(), 6),
    ensures
        g_unary(ts, p) matches Ok((e2, q)) && q == p + expr_toks(e).len() && erase(e2) == erase(e),
    decreases e, 0int,
{
    let t = expr_toks(e);
    assert(ts[p + 0].kind == t[0]);
    match e {
        ExprV::Ident(n, _) => {
            let d = until_dot(n, 0);
            lemma_until_dot(n, 0);
            assert(g_unary(ts, p) == g_primary(ts, p));
            if d < n.len() {
                assert(t.len() == 3);
                assert(ts[p + 1].kind == t[1]);
                assert(ts[p + 2].kind == t[2]);
                reveal_strlit(".");
                assert(n.take(d) + "."@ + n.skip(d + 1) =~= n);
                assert(check(ts, p + 1, TokenKind::Dot));
                assert(!check(ts, p + 3, TokenKind::LParen));
                assert(g_primary(ts, p) == Ok::<(ExprV, int), PErr>((
                    ExprV::Ident(n.take(d) + "."@ + n.skip(d + 1), crate::language::parser::span_at(ts, p)),
                    p + 3,
                )));
                let e2 = ExprV::Ident(n.take(d) + "."@ + n.skip(d + 1), crate::language::parser::span_at(ts, p));
                assert(erase(e2) == erase(e));
            } else {
                assert(t.len() == 1);
                assert(!check(ts, p + 1, TokenKind::Dot));
                assert(!check(ts, p + 1, TokenKind::LParen));
                assert(g_primary(ts, p) == Ok::<(ExprV, int), PErr>((ExprV::Ident(n, crate::language::parser::span_at(ts, p)), p + 1)));
            }
        },
        ExprV::Unary(op, x, _) => {
            lemma_sub_toks(ts, p, seq![t[0]], wrap(expr_level(*x) < 6, expr_toks(*x)));
            assert(seq![t[0]] + wrap(expr_level(*x) < 6, expr_toks(*x)) =~= t);
            if expr_level(*x) < 6 {
                let inner = expr_toks(*x);
                lemma_sub_toks(ts, p + 1, seq![TokV::Plain(TokenKind::LParen)], inner + seq![TokV::Plain(TokenKind::RParen)]);
                assert(seq![TokV::Plain(TokenKind::LParen)] + (inner + seq![TokV::Plain(TokenKind::RParen)]) =~= wrap(true, inner));
                lemma_sub_toks(ts, p + 2, inner, seq![TokV::Plain(TokenKind::RParen)]);
                assert(ts[p + 2 + inner.len() + 0].kind == TokV::Plain(TokenKind::RParen));
                assert(ts[p + 1 + 0].kind == TokV::Plain(TokenKind::LParen));
                lemma_read(ts, p + 2, *x, 0);
                assert(g_unary(ts, p + 1) == g_primary(ts, p + 1));
                assert(g_expr(ts, p + 2) == g_bin(ts, p + 2, 0));
                let (x2, q) = g_bin(ts, p + 2, 0)->Ok_0;
                assert(check(ts, q, TokenKind::RParen));
                assert(g_primary(ts, p + 1) == Ok::<(ExprV, int), PErr>((x2, q + 1)));
            } else {
                lemma_read_unary(ts, p + 1, *x);
            }
            let (x2, q) = g_unary(ts, p + 1)->Ok_0;
            assert(t.len() == 1 + wrap(expr_level(*x) < 6, expr_toks(*x)).len());
            let sp = crate::language::parser::span_at(ts, p);
            assert(g_unary(ts, p) == Ok::<(ExprV, int), PErr>((ExprV::Unary(op, Box::new(x2), sp), q)));
            assert(erase(ExprV::Unary(op, Box::new(x2), sp)) == erase(e));
        },
        ExprV::Call(tg, n, args, _) => {
            let hd = head_toks(tg, n);
            let lp = seq![TokV::Plain(TokenKind::LParen)];
            let rp = seq![TokV::Plain(TokenKind::RParen)];
            let a = args_toks_from(args, 0);
            assert(t == hd + lp + a + rp);
            lemma_sub_toks(ts, p, hd + lp + a, rp);
            lemma_sub_toks(ts, p, hd + lp, a);
            lemma_sub_toks(ts, p, hd, lp);
            let h = p + hd.len() + 1;
            assert(ts[p + hd.len() + 0].kind == lp[0]);
            assert(ts[h + a.len() + 0].kind == rp[0]);
            assert(g_unary(ts, p) == g_primary(ts, p));
            let sp = span_at(ts, p);
            match tg {
                Some(o) => {
                    assert(ts[p + 1].kind == hd[1]);
                    assert(ts[p + 2].kind == hd[2]);
                    assert(g_primary(ts, p) == match g_args(ts, h) {
                        Ok((args2, q3)) => Ok::<(ExprV, int), PErr>((ExprV::Call(Some(o), n, args2, sp), q3)),
                        Err(x) => Err(x),
                    });
                },
                None => {
                    assert(!check(ts, p + 1, TokenKind::Dot));
                    assert(g_primary(ts, p) == match g_args(ts, h) {
                        Ok((args2, q3)) => Ok::<(ExprV, int), PErr>((ExprV::Call(None, n, args2, sp), q3)),
                        Err(x) => Err(x),
                    });
                },
            }
            if args.len() == 0 {
                assert(a.len() == 0);
                assert(g_args(ts, h) == Ok::<(Seq<ExprV>, int), PErr>((Seq::empty(), h + 1)));
                assert(erase_from(Seq::<ExprV>::empty(), 0) == Seq::<ExprV>::empty());
                assert(erase_from(args, 0) == Seq::<ExprV>::empty());
            } else {
                lemma_first_tok(args[0]);
                if args.len() == 1 {
                    assert(a == expr_toks(args[0]));
                } else {
                    assert(a == expr_toks(args[0]) + seq![TokV::Plain(TokenKind::Comma)] + args_toks_from(args, 1));
                }
                assert(ts[h + 0].kind == a[0]);
                assert(!check(ts, h, TokenKind::RParen));
                lemma_join_toks(ts, h, a, rp);
                let res = lemma_read_args(ts, h, args, 0, Seq::empty());
                assert(g_args(ts, h) == g_args_rest(ts, Seq::empty(), h));
            }
        },
        ExprV::Number(x, _) => {
            assert(g_unary(ts, p) == g_primary(ts, p));
            assert(g_primary(ts, p) == Ok::<(ExprV, int), PErr>((ExprV::Number(x, crate::language::parser::span_at(ts, p)), p + 1)));
        },
        ExprV::Str(x, _) => {
            assert(g_unary(ts, p) == g_primary(ts, p));
            assert(g_primary(ts, p) == Ok::<(ExprV, int), PErr>((ExprV::Str(x, crate::language::parser::span_at(ts, p)), p + 1)));
        },
        ExprV::Bool(b, _) => {
            assert(g_unary(ts, p) == g_primary(ts, p));
            assert(g_primary(ts, p) == Ok::<(ExprV, int), PErr>((ExprV::Bool(b, crate::language::parser::span_at(ts, p)), p + 1)));
        },
        _ => {},
    }
}

/// The first operand of a binary expression at level `lvl` whose operators along the left
/// edge are all of that level, and the number of its tokens.
pub open spec fn first_operand(e: ExprV, lvl: int) -> (ExprV, nat)
    decreases e,
{
    match e {
        ExprV::Binary(l, op, _, _) => if expr_level(*l) == lvl {
            first_operand(*l, lvl)
        } else {
            (*l, wrap(expr_level(*l) < lvl, expr_toks(*l)).len())
        },
        _ => (e, 0),
    }
}

/// Reading an operand, in parentheses when `w` holds, at level `lvl`.
proof fn lemma_read_operand(ts: Seq<TokS>, p: int, x: ExprV, w: bool, lvl: int)
    requires
        plain_expr(x),
        0 <= lvl <= 6,
        w || expr_level(x) >= lvl,
        toks_at(ts, p, wrap(w, expr_toks(x))),
        stops(ts, p + wrap(w, expr_toks(x)).len(), lvl),
    ensures
        g_bin(ts, p, lvl) matches Ok((x2, q)) && q == p + wrap(w, expr_toks(x)).len() && erase(x2) == erase(x),
    decreases x, 2int,
{
    if w {
        let inner = expr_toks(x);
        lemma_sub_toks(ts, p, seq![TokV::Plain(TokenKind::LParen)], inner + seq![TokV::Plain(TokenKind::RParen)]);
        assert(seq![TokV::Plain(TokenKind::LParen)] + (inner + seq![TokV::Plain(TokenKind::RParen)]) =~= wrap(true, inner));
        lemma_sub_toks(ts, p + 1, inner, seq![TokV::Plain(TokenKind::RParen)]);
        assert(ts[p + 1 + inner.len() + 0].kind == TokV::Plain(TokenKind::RParen));
        assert(ts[p + 0].kind == TokV::Plain(TokenKind::LParen));
        lemma_read(ts, p + 1, x, 0);
        assert(g_unary(ts, p) == g_primary(ts, p));
        lemma_lift(ts, p, lvl);
    } else {
        lemma_read(ts, p, x, lvl);
    }
}

/// Reading an expression at a level it binds at least as tightly as gives it back, when the
/// next token stops it there.
proof fn lemma_read(ts: Seq<TokS>, p: int, e: ExprV, lvl: int)
    requires
        plain_expr(e),
        0 <= lvl <= 6,
        expr_level(e) >= lvl,
        toks_at(ts, p, expr_toks(e)),
        stops(ts, p + expr_toks(e).len(), lvl),
    ensures
        g_bin(ts, p, lvl) matches Ok((e2, q)) && q == p + expr_toks(e).len() && erase(e2) == erase(e),
    decreases e, 1int, 6 - lvl,
{
    if expr_level(e) == 6 {
        lemma_read_unary(ts, p, e);
        lemma_lift(ts, p, lvl);
    } else if expr_level(e) > lvl {
        lemma_read(ts, p, e, lvl + 1);
        let (e2, q) = g_bin(ts, p, lvl + 1)->Ok_0;
        assert(op_at(ts, q, lvl) is None);
        assert(g_bin_tail(ts, e2, q, lvl) == Ok::<(ExprV, int), PErr>((e2, q)));
        assert(g_bin(ts, p, lvl) == g_bin_tail(ts, e2, q, lvl));
    } else {
        let n = first_operand(e, lvl).1;
        let f2 = lemma_read_first(ts, p, e, lvl);
        let e2 = lemma_read_tail(ts, p, e, lvl, f2);
        let end = p + expr_toks(e).len();
        assert(op_at(ts, end, lvl) is None);
        assert(g_bin_tail(ts, e2, end, lvl) == Ok::<(ExprV, int), PErr>((e2, end)));
        assert(p <= p + n <= ts.len());
        assert(g_bin(ts, p, lvl) == g_bin_tail(ts, f2, p + n, lvl));
    }
}

/// The first operand of a binary expression at level `lvl` reads back at the next level.
proof fn lemma_read_first(ts: Seq<TokS>, p: int, e: ExprV, lvl: int) -> (f2: ExprV)
    requires
        plain_expr(e),
        0 <= lvl < 6,
        expr_level(e) == lvl,
        toks_at(ts, p, expr_toks(e)),
    ensures
        g_bin(ts, p, lvl + 1) == Ok::<(ExprV, int), PErr>((f2, p + first_operand(e, lvl).1)),
        erase(f2) == erase(first_operand(e, lvl).0),
    decreases e, 0int, 0int,
{
    match e {
        ExprV::Binary(l, op, r, _) => {
            let wl = wrap(expr_level(*l) < lvl, expr_toks(*l));
            let rest = seq![TokV::Plain(binop_token(op))] + wrap(expr_level(*r) <= lvl, expr_toks(*r));
            assert(expr_toks(e) =~= wl + rest);
            lemma_sub_toks(ts, p, wl, rest);
            assert(ts[p + wl.len() + 0].kind == rest[0]);
            lemma_op_token(ts, p + wl.len(), op);
            if expr_level(*l) == lvl {
                lemma_read_first(ts, p, *l, lvl)
            } else {
                lemma_read_operand(ts, p, *l, expr_level(*l) < lvl, lvl + 1);
                let (x2, q) = g_bin(ts, p, lvl + 1)->Ok_0;
                x2
            }
        },
        _ => e,
    }
}

/// Reading on from the first operand of a binary expression at level `lvl` reads the whole
/// expression: the tail after it continues as after the expression, with it as the left
/// operand.
proof fn lemma_read_tail(ts: Seq<TokS>, p: int, e: ExprV, lvl: int, f2: ExprV) -> (e2: ExprV)
    requires
        plain_expr(e),
        0 <= lvl < 6,
        expr_level(e) == lvl,
        toks_at(ts, p, expr_toks(e)),
        stops(ts, p + expr_toks(e).len(), lvl + 1),
        erase(f2) == erase(first_operand(e, lvl).0),
    ensures
        erase(e2) == erase(e),
        g_bin_tail(ts, f2, p + first_operand(e, lvl).1, lvl) == g_bin_tail(ts, e2, p + expr_toks(e).len(), lvl),
    decreases e, 0int, 1int,
{
    match e {
        ExprV::Binary(l, op, r, _) => {
            let wl = wrap(expr_level(*l) < lvl, expr_toks(*l));
            let wr = wrap(expr_level(*r) <= lvl, expr_toks(*r));
            let rest = seq![TokV::Plain(binop_token(op))] + wr;
            assert(expr_toks(e) =~= wl + rest);
            lemma_sub_toks(ts, p, wl, rest);
            lemma_sub_toks(ts, p + wl.len(), seq![TokV::Plain(binop_token(op))], wr);
            let q = p + wl.len();
            assert(ts[q + 0].kind == rest[0]);
            lemma_op_token(ts, q, op);
            let l2 = if expr_level(*l) == lvl {
                lemma_read_tail(ts, p, *l, lvl, f2)
            } else {
                f2
            };
            lemma_read_operand(ts, q + 1, *r, expr_level(*r) <= lvl, lvl + 1);
            let (r2, q2) = g_bin(ts, q + 1, lvl + 1)->Ok_0;
            let sp = crate::language::parser::span_at(ts, q + 1);
            let e2 = ExprV::Binary(Box::new(l2), op, Box::new(r2), sp);
            assert(g_bin_tail(ts, l2, q, lvl) == g_bin_tail(ts, e2, q2, lvl));
            e2
        },
        _ => f2,
    }
}

/// An expression written as the formatter writes it, parentheses included, reads back as
/// the same expression, source locations aside, when the token after it ends an expression.
pub proof fn law_written_expression_reads_back(ts: Seq<TokS>, p: int, e: ExprV)
    requires
        plain_expr(e),
        toks_at(ts, p, expr_toks(e)),
        stops(ts, p + expr_toks(e).len(), 0),
    ensures
        g_expr(ts, p) matches Ok((e2, q)) && q == p + expr_toks(e).len() && erase(e2) == erase(e),
{
    lemma_read(ts, p, e, 0);
}

} // verus!
