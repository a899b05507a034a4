use vstd::prelude::*;
use crate::language::ast::{
    AssignOp, BinaryOp, EventDef, EventKind, EventKindV, EventV, Expr, ExprV, FuncV, FunctionDef, Program,
    ProgramV, Span, Statement, StmtV, UnaryOp, event_view, expr_view, exprs_view, func_view, program_view,
    stmt_view, stmts_view, strings_view, opt_str_view, event_kind_view, truth, binop_value, unop_value, assign_value,
};
use crate::language::lexer::{TokS, TokV, toks_view, token_spelling};
use crate::language::tags::{kind_tag, plain_kind_name, plain_kind_name_exec, tag_of, tokv_tag};
use crate::language::token::{Token, TokenKind};

verus! {

// ---------------------------------------------------------------------------------------
// The grammar, over token views
// ---------------------------------------------------------------------------------------

/// A syntax error: message and location.
pub struct PErr {
    pub message: Seq<char>,
    pub span: Span,
}

pub open spec fn no_span() -> Span {
    Span { line: 0, col: 0, start: 0, end: 0 }
}

pub open spec fn kind_at(ts: Seq<TokS>, p: int) -> TokV {
    if 0 <= p < ts.len() { ts[p].kind } else { TokV::Plain(TokenKind::Eof) }
}

pub open spec fn span_at(ts: Seq<TokS>, p: int) -> Span {
    if 0 <= p < ts.len() { ts[p].span } else { no_span() }
}

pub open spec fn is_k(ts: Seq<TokS>, p: int, k: TokenKind) -> bool {
    0 <= p < ts.len() && tokv_tag(ts[p].kind) == tag_of(k)
}

pub open spec fn at_end(ts: Seq<TokS>, p: int) -> bool {
    p >= ts.len() || is_k(ts, p, TokenKind::Eof)
}

/// The token at `p` is of payload-free kind `k` (and the input has not ended).
pub open spec fn check(ts: Seq<TokS>, p: int, k: TokenKind) -> bool {
    !at_end(ts, p) && is_k(ts, p, k)
}

pub open spec fn perr(ts: Seq<TokS>, p: int, msg: Seq<char>) -> PErr {
    PErr { message: msg, span: span_at(ts, p) }
}

pub open spec fn junk<T>() -> Result<T, PErr> {
    Err(PErr { message: Seq::empty(), span: no_span() })
}

/// Position after a token of kind `k` at `p`, or the error `msg` there.
pub open spec fn consume(ts: Seq<TokS>, p: int, k: TokenKind, msg: Seq<char>) -> Result<int, PErr> {
    if check(ts, p, k) { Ok(p + 1) } else { Err(perr(ts, p, msg)) }
}

pub open spec fn match_tok(ts: Seq<TokS>, p: int, k: TokenKind) -> int {
    if check(ts, p, k) { p + 1 } else { p }
}

/// Position after any newlines at `p`.
pub open spec fn skip_nl(ts: Seq<TokS>, p: int) -> int
    decreases ts.len() - p,
{
    if 0 <= p && check(ts, p, TokenKind::Newline) { skip_nl(ts, p + 1) } else { p }
}

pub open spec fn fits(ts: Seq<TokS>, lo: int, q: int) -> bool {
    lo <= q <= ts.len()
}

/// The binary operator at `q` for precedence level `lvl` (0: `or`, 1: `and`, 2: equality,
/// 3: comparison, 4: `+ -`, 5: `* / %`).
pub open spec fn op_at(ts: Seq<TokS>, q: int, lvl: int) -> Option<BinaryOp> {
    if lvl == 0 {
        if check(ts, q, TokenKind::Or) { Some(BinaryOp::Or) } else { None }
    } else if lvl == 1 {
        if check(ts, q, TokenKind::And) { Some(BinaryOp::And) } else { None }
    } else if lvl == 2 {
        if check(ts, q, TokenKind::Equal) { Some(BinaryOp::Equal) }
        else if check(ts, q, TokenKind::NotEqual) { Some(BinaryOp::NotEqual) }
        else { None }
    } else if lvl == 3 {
        if check(ts, q, TokenKind::Less) { Some(BinaryOp::Less) }
        else if check(ts, q, TokenKind::LessEqual) { Some(BinaryOp::LessEqual) }
        else if check(ts, q, TokenKind::Greater) { Some(BinaryOp::Greater) }
        else if check(ts, q, TokenKind::GreaterEqual) { Some(BinaryOp::GreaterEqual) }
        else { None }
    } else if lvl == 4 {
        if check(ts, q, TokenKind::Plus) { Some(BinaryOp::Add) }
        else if check(ts, q, TokenKind::Minus) { Some(BinaryOp::Sub) }
        else { None }
    } else {
        if check(ts, q, TokenKind::Star) { Some(BinaryOp::Mul) }
        else if check(ts, q, TokenKind::Slash) { Some(BinaryOp::Div) }
        else if check(ts, q, TokenKind::Percent) { Some(BinaryOp::Mod) }
        else { None }
    }
}

pub open spec fn g_expr(ts: Seq<TokS>, p: int) -> Result<(ExprV, int), PErr>
    decreases ts.len() - p, 30int,
{
    if fits(ts, 0, p) { g_bin(ts, p, 0) } else { junk() }
}

/// Left-associative binary expressions of precedence level `lvl` and above.
pub open spec fn g_bin(ts: Seq<TokS>, p: int, lvl: int) -> Result<(ExprV, int), PErr>
    decreases ts.len() - p, 21 - 2 * lvl,
{
    if !fits(ts, 0, p) || lvl < 0 || lvl > 6 {
        junk()
    } else if lvl == 6 {
        g_unary(ts, p)
    } else {
        match g_bin(ts, p, lvl + 1) {
            Ok((l, q)) => if fits(ts, p, q) { g_bin_tail(ts, l, q, lvl) } else { junk() },
            Err(e) => Err(e),
        }
    }
}

pub open spec fn g_bin_tail(ts: Seq<TokS>, left: ExprV, q: int, lvl: int) -> Result<(ExprV, int), PErr>
    decreases ts.len() - q, 20 - 2 * lvl,
{
    if !fits(ts, 0, q) || lvl < 0 || lvl > 5 {
        junk()
    } else {
        match op_at(ts, q, lvl) {
            Some(op) => {
                let sp = span_at(ts, q + 1);
                match g_bin(ts, q + 1, lvl + 1) {
                    Ok((r, q2)) => if fits(ts, q + 1, q2) {
                        g_bin_tail(ts, ExprV::Binary(Box::new(left), op, Box::new(r), sp), q2, lvl)
                    } else {
                        junk()
                    },
                    Err(e) => Err(e),
                }
            },
            None => Ok((left, q)),
        }
    }
}

pub open spec fn g_unary(ts: Seq<TokS>, p: int) -> Result<(ExprV, int), PErr>
    decreases ts.len() - p, 7int,
{
    if !fits(ts, 0, p) {
        junk()
    } else {
        let sp = span_at(ts, p);
        if check(ts, p, TokenKind::Not) {
            match g_unary(ts, p + 1) {
                Ok((e, q)) => Ok((ExprV::Unary(UnaryOp::Not, Box::new(e), sp), q)),
                Err(x) => Err(x),
            }
        } else if check(ts, p, TokenKind::Minus) {
            match g_unary(ts, p + 1) {
                Ok((e, q)) => Ok((ExprV::Unary(UnaryOp::Neg, Box::new(e), sp), q)),
                Err(x) => Err(x),
            }
        } else {
            g_primary(ts, p)
        }
    }
}

pub open spec fn g_primary(ts: Seq<TokS>, p: int) -> Result<(ExprV, int), PErr>
    decreases ts.len() - p, 6int,
{
    if !fits(ts, 0, p) {
        junk()
    } else {
        let sp = span_at(ts, p);
        match kind_at(ts, p) {
            TokV::Number(s) => Ok((ExprV::Number(s, sp), p + 1)),
            TokV::Str(s) => Ok((ExprV::Str(s, sp), p + 1)),
            TokV::Ident(name) => {
                let q = p + 1;
                if check(ts, q, TokenKind::Dot) {
                    match kind_at(ts, q + 1) {
                        TokV::Ident(m) => if check(ts, q + 2, TokenKind::LParen) {
                            match g_args(ts, q + 3) {
                                Ok((args, q3)) => Ok((ExprV::Call(Some(name), m, args, sp), q3)),
                                Err(e) => Err(e),
                            }
                        } else {
                            Ok((ExprV::Ident(name + "."@ + m, sp), q + 2))
                        },
                        _ => Err(perr(ts, q + 1, "Expected property or method name after '.'"@)),
                    }
                } else if check(ts, q, TokenKind::LParen) {
                    match g_args(ts, q + 1) {
                        Ok((args, q3)) => Ok((ExprV::Call(None, name, args, sp), q3)),
                        Err(e) => Err(e),
                    }
                } else {
                    Ok((ExprV::Ident(name, sp), q))
                }
            },
            TokV::Plain(k) => {
                if tag_of(k) == tag_of(TokenKind::True) {
                    Ok((ExprV::Bool(true, sp), p + 1))
                } else if tag_of(k) == tag_of(TokenKind::False) {
                    Ok((ExprV::Bool(false, sp), p + 1))
                } else if tag_of(k) == tag_of(TokenKind::LParen) {
                    match g_expr(ts, p + 1) {
                        Ok((e, q)) => if check(ts, q, TokenKind::RParen) {
                            Ok((e, q + 1))
                        } else {
                            Err(perr(ts, q, "Expected ')' after grouped expression"@))
                        },
                        Err(x) => Err(x),
                    }
                } else {
                    Err(perr(ts, p, "Unexpected token: "@ + plain_kind_name(k)))
                }
            },
        }
    }
}

/// An argument list after its opening parenthesis, up to and including the closing one.
pub open spec fn g_args(ts: Seq<TokS>, p: int) -> Result<(Seq<ExprV>, int), PErr>
    decreases ts.len() - p, 33int,
{
    if !fits(ts, 0, p) {
        junk()
    } else if check(ts, p, TokenKind::RParen) {
        Ok((Seq::empty(), p + 1))
    } else {
        g_args_rest(ts, Seq::empty(), p)
    }
}

pub open spec fn g_args_rest(ts: Seq<TokS>, acc: Seq<ExprV>, p: int) -> Result<(Seq<ExprV>, int), PErr>
    decreases ts.len() - p, 32int,
{
    if !fits(ts, 0, p) {
        junk()
    } else {
        match g_expr(ts, p) {
            Ok((e, q)) => if check(ts, q, TokenKind::Comma) {
                if fits(ts, p + 1, q + 1) { g_args_rest(ts, acc.push(e), q + 1) } else { junk() }
            } else if check(ts, q, TokenKind::RParen) {
                Ok((acc.push(e), q + 1))
            } else {
                Err(perr(ts, q, "Expected ')' after arguments"@))
            },
            Err(x) => Err(x),
        }
    }
}

} // verus!

verus! {

pub open spec fn digit_val(c: char) -> nat {
    if '0' <= c && c <= '9' { (c as u32 - 48) as nat } else { 0 }
}

/// Value of a digit string.
pub open spec fn dec_value(s: Seq<char>) -> nat
    decreases s.len(),
{
    if s.len() == 0 { 0 } else { dec_value(s.drop_last()) * 10 + digit_val(s.last()) }
}

/// Position of the first dot at or after `i`, or the length.
pub open spec fn until_dot(s: Seq<char>, i: int) -> int
    decreases s.len() - i,
{
    if 0 <= i < s.len() && s[i] != '.' { until_dot(s, i + 1) } else { i }
}

/// Whole seconds of a number literal: its integer part, saturated to `u64::MAX`.
pub open spec fn whole_seconds(s: Seq<char>) -> u64 {
    let v = dec_value(s.take(until_dot(s, 0)));
    if v > u64::MAX { u64::MAX } else { v as u64 }
}

pub open spec fn stmt_end(ts: Seq<TokS>, q: int) -> int {
    match_tok(ts, q, TokenKind::Newline)
}

pub open spec fn assign_op_of(ts: Seq<TokS>, q: int) -> Option<AssignOp> {
    if is_k(ts, q, TokenKind::Assign) { Some(AssignOp::Assign) }
    else if is_k(ts, q, TokenKind::PlusAssign) { Some(AssignOp::AddAssign) }
    else if is_k(ts, q, TokenKind::MinusAssign) { Some(AssignOp::SubAssign) }
    else if is_k(ts, q, TokenKind::StarAssign) { Some(AssignOp::MulAssign) }
    else if is_k(ts, q, TokenKind::SlashAssign) { Some(AssignOp::DivAssign) }
    else { None }
}

pub open spec fn expr_v_span(e: ExprV) -> Span {
    match e {
        ExprV::Number(_, s) => s,
        ExprV::Str(_, s) => s,
        ExprV::Bool(_, s) => s,
        ExprV::Ident(_, s) => s,
        ExprV::Binary(_, _, _, s) => s,
        ExprV::Unary(_, _, s) => s,
        ExprV::Call(_, _, _, s) => s,
    }
}

/// A statement, after any leading newlines.
pub open spec fn g_stmt(ts: Seq<TokS>, p0: int) -> Result<(StmtV, int), PErr>
    decreases ts.len() - p0, 40int,
{
    let p = skip_nl(ts, p0);
    if !fits(ts, 0, p0) || !fits(ts, p0, p) {
        junk()
    } else {
        let sp = span_at(ts, p);
        if check(ts, p, TokenKind::If) {
            match g_expr(ts, p + 1) {
                Ok((cond, q)) => match consume(ts, q, TokenKind::Colon, "Expected ':' after if condition"@) {
                    Ok(q1) => if fits(ts, p + 1, q1) {
                        match g_block(ts, q1) {
                            Ok((then_b, q2)) => if check(ts, q2, TokenKind::Else) {
                                match consume(ts, q2 + 1, TokenKind::Colon, "Expected ':' after else"@) {
                                    Ok(q3) => if fits(ts, p + 1, q3) {
                                        match g_block(ts, q3) {
                                            Ok((else_b, q4)) => Ok((StmtV::If(cond, then_b, Some(else_b), sp), q4)),
                                            Err(x) => Err(x),
                                        }
                                    } else {
                                        junk()
                                    },
                                    Err(x) => Err(x),
                                }
                            } else {
                                Ok((StmtV::If(cond, then_b, None, sp), q2))
                            },
                            Err(x) => Err(x),
                        }
                    } else {
                        junk()
                    },
                    Err(x) => Err(x),
                },
                Err(x) => Err(x),
            }
        } else if check(ts, p, TokenKind::Repeat) {
            match g_expr(ts, p + 1) {
                Ok((count, q)) => match consume(ts, q, TokenKind::Colon, "Expected ':' after repeat count"@) {
                    Ok(q1) => if fits(ts, p + 1, q1) {
                        match g_block(ts, q1) {
                            Ok((body, q2)) => Ok((StmtV::Repeat(count, body, sp), q2)),
                            Err(x) => Err(x),
                        }
                    } else {
                        junk()
                    },
                    Err(x) => Err(x),
                },
                Err(x) => Err(x),
            }
        } else if check(ts, p, TokenKind::Return) {
            let p1 = p + 1;
            if check(ts, p1, TokenKind::Newline) || check(ts, p1, TokenKind::Dedent) || at_end(ts, p1) {
                Ok((StmtV::Return(None, sp), stmt_end(ts, p1)))
            } else {
                match g_expr(ts, p1) {
                    Ok((v, q)) => Ok((StmtV::Return(Some(v), sp), stmt_end(ts, q))),
                    Err(x) => Err(x),
                }
            }
        } else if check(ts, p, TokenKind::Assert) {
            match g_expr(ts, p + 1) {
                Ok((e, q)) => Ok((StmtV::Assert(e, sp), stmt_end(ts, q))),
                Err(x) => Err(x),
            }
        } else if p + 1 < ts.len() && (kind_at(ts, p) is Ident) && (assign_op_of(ts, p + 1) is Some
            || is_k(ts, p + 1, TokenKind::Dot) || is_k(ts, p + 1, TokenKind::LParen)) {
            let name = kind_at(ts, p)->Ident_0;
            match assign_op_of(ts, p + 1) {
                Some(op) => match g_expr(ts, p + 2) {
                    Ok((v, q)) => Ok((StmtV::Assign(name, op, v, sp), stmt_end(ts, q))),
                    Err(x) => Err(x),
                },
                None => if is_k(ts, p + 1, TokenKind::Dot) {
                    match kind_at(ts, p + 2) {
                        TokV::Ident(m) => match consume(ts, p + 3, TokenKind::LParen, "Expected '(' after method name"@) {
                            Ok(q) => match g_args(ts, q) {
                                Ok((args, q2)) => Ok((StmtV::Call(Some(name), m, args, sp), stmt_end(ts, q2))),
                                Err(x) => Err(x),
                            },
                            Err(x) => Err(x),
                        },
                        _ => Err(perr(ts, p + 2, "Expected method name after '.'"@)),
                    }
                } else {
                    match g_args(ts, p + 2) {
                        Ok((args, q2)) => Ok((StmtV::Call(None, name, args, sp), stmt_end(ts, q2))),
                        Err(x) => Err(x),
                    }
                },
            }
        } else {
            match g_expr(ts, p) {
                Ok((e, q)) => match e {
                    ExprV::Call(t, n, a, s) => Ok((StmtV::Call(t, n, a, s), stmt_end(ts, q))),
                    other => Err(PErr { message: "Unexpected expression statement"@, span: expr_v_span(other) }),
                },
                Err(x) => Err(x),
            }
        }
    }
}

/// An indented block: a newline, an `Indent`, statements, a `Dedent`.
pub open spec fn g_block(ts: Seq<TokS>, p: int) -> Result<(Seq<StmtV>, int), PErr>
    decreases ts.len() - p, 45int,
{
    if !fits(ts, 0, p) {
        junk()
    } else {
        match consume(ts, p, TokenKind::Newline, "Expected newline after ':'"@) {
            Ok(p1) => {
                let p2 = skip_nl(ts, p1);
                match consume(ts, p2, TokenKind::Indent, "Expected indented block"@) {
                    Ok(p3) => {
                        let p4 = skip_nl(ts, p3);
                        if fits(ts, p + 1, p4) { g_block_rest(ts, Seq::empty(), p4) } else { junk() }
                    },
                    Err(x) => Err(x),
                }
            },
            Err(x) => Err(x),
        }
    }
}

pub open spec fn g_block_rest(ts: Seq<TokS>, acc: Seq<StmtV>, q: int) -> Result<(Seq<StmtV>, int), PErr>
    decreases ts.len() - q, 44int,
{
    if !fits(ts, 0, q) {
        junk()
    } else if !check(ts, q, TokenKind::Dedent) && !at_end(ts, q) {
        match g_stmt(ts, q) {
            Ok((s, q2)) => {
                let q3 = skip_nl(ts, q2);
                if fits(ts, q + 1, q3) { g_block_rest(ts, acc.push(s), q3) } else { junk() }
            },
            Err(x) => Err(x),
        }
    } else {
        match consume(ts, q, TokenKind::Dedent, "Expected end of indented block"@) {
            Ok(q1) => Ok((acc, q1)),
            Err(x) => Err(x),
        }
    }
}

} // verus!

verus! {

pub open spec fn g_number_literal(ts: Seq<TokS>, p: int) -> Result<(u64, int), PErr> {
    match kind_at(ts, p) {
        TokV::Number(s) => Ok((whole_seconds(s), p + 1)),
        _ => Err(perr(ts, p, "Expected number literal"@)),
    }
}

/// The message that a scene switch broadcasts: `__scene_switched:` and the scene's name. A
/// `when scene.switched("name"):` handler is the handler of this message.
pub open spec fn scene_switched_message(scene: Seq<char>) -> Seq<char> {
    "__scene_switched:"@ + scene
}

/// The message that a click on an object broadcasts: `__click:` and the object's name. A
/// `when click(Name):` handler is the handler of this message.
pub open spec fn click_message(object: Seq<char>) -> Seq<char> {
    "__click:"@ + object
}

/// The trigger of an event handler, from its first token.
#[verifier::opaque]
pub open spec fn g_event_kind(ts: Seq<TokS>, p: int) -> Result<(EventKindV, int), PErr> {
    if check(ts, p, TokenKind::When) {
        let q = p + 1;
        match kind_at(ts, q) {
            TokV::Ident(id) => if id == "action"@ || id == "key"@ {
                match consume(ts, q + 1, TokenKind::Dot, "Expected '.' after 'action' or 'key'"@) {
                    Ok(q2) => match kind_at(ts, q2) {
                        TokV::Ident(mode) => match consume(ts, q2 + 1, TokenKind::LParen, "Expected '(' after action method"@) {
                            Ok(q4) => {
                                let nm: Option<Seq<char>> = match kind_at(ts, q4) {
                                    TokV::Str(s) => Some(s),
                                    TokV::Ident(s) => Some(s),
                                    _ => None,
                                };
                                match nm {
                                    Some(name) => match consume(ts, q4 + 1, TokenKind::RParen, "Expected ')' after action name"@) {
                                        Ok(q6) => if mode == "down"@ {
                                            Ok((EventKindV::ActionDown(name), q6))
                                        } else if mode == "press"@ {
                                            Ok((EventKindV::ActionPress(name), q6))
                                        } else if mode == "up"@ {
                                            Ok((EventKindV::ActionUp(name), q6))
                                        } else {
                                            Err(perr(ts, q6, "Unknown action event '"@ + mode + "'"@))
                                        },
                                        Err(x) => Err(x),
                                    },
                                    None => Err(perr(ts, q4, "Expected action name string in parentheses"@)),
                                }
                            },
                            Err(x) => Err(x),
                        },
                        _ => Err(perr(ts, q2, "Expected 'down', 'press', or 'up' after action dot"@)),
                    },
                    Err(x) => Err(x),
                }
            } else if id == "message"@ && check(ts, q + 1, TokenKind::LParen) {
                match kind_at(ts, q + 2) {
                    TokV::Str(m) => match consume(ts, q + 3, TokenKind::RParen, "Expected ')' after message name"@) {
                        Ok(q4) => Ok((EventKindV::Message(m), q4)),
                        Err(x) => Err(x),
                    },
                    _ => Err(perr(ts, q + 2, "Expected message name string in parentheses"@)),
                }
            } else if id == "scene"@ && check(ts, q + 1, TokenKind::Dot) && kind_at(ts, q + 2) == TokV::Ident(
                "switched"@,
            ) && check(ts, q + 3, TokenKind::LParen) {
                match kind_at(ts, q + 4) {
                    TokV::Str(m) => match consume(ts, q + 5, TokenKind::RParen, "Expected ')' after scene name"@) {
                        Ok(q6) => Ok((EventKindV::Message(scene_switched_message(m)), q6)),
                        Err(x) => Err(x),
                    },
                    _ => Err(perr(ts, q + 4, "Expected scene name string in parentheses"@)),
                }
            } else if id == "click"@ && check(ts, q + 1, TokenKind::LParen) {
                match kind_at(ts, q + 2) {
                    TokV::Ident(o) => match consume(ts, q + 3, TokenKind::RParen, "Expected ')' after object name"@) {
                        Ok(q4) => Ok((EventKindV::Message(click_message(o)), q4)),
                        Err(x) => Err(x),
                    },
                    _ => Err(perr(ts, q + 2, "Expected object name in parentheses"@)),
                }
            } else {
                if check(ts, q + 1, TokenKind::Touches) {
                    match kind_at(ts, q + 2) {
                        TokV::Ident(b) => Ok((EventKindV::Touches(id, b), q + 3)),
                        _ => Err(perr(ts, q + 2, "Expected target object identifier after 'touches'"@)),
                    }
                } else {
                    Err(perr(ts, q + 1, "Expected 'touches' or action after object '"@ + id + "'"@))
                }
            },
            TokV::Plain(k) => if tag_of(k) == tag_of(TokenKind::Start) {
                Ok((EventKindV::Start, q + 1))
            } else if tag_of(k) == tag_of(TokenKind::Update) {
                Ok((EventKindV::Update, q + 1))
            } else {
                Err(perr(ts, q, "Expected event condition after 'when'"@))
            },
            _ => Err(perr(ts, q, "Expected event condition after 'when'"@)),
        }
    } else if check(ts, p, TokenKind::Every) {
        match g_number_literal(ts, p + 1) {
            Ok((secs, q)) => match consume(ts, q, TokenKind::Seconds, "Expected 'seconds' after number in every event"@) {
                Ok(q2) => Ok((EventKindV::EverySeconds(secs), q2)),
                Err(x) => Err(x),
            },
            Err(x) => Err(x),
        }
    } else if check(ts, p, TokenKind::After) {
        match g_number_literal(ts, p + 1) {
            Ok((secs, q)) => match consume(ts, q, TokenKind::Seconds, "Expected 'seconds' after number in after event"@) {
                Ok(q2) => Ok((EventKindV::AfterSeconds(secs), q2)),
                Err(x) => Err(x),
            },
            Err(x) => Err(x),
        }
    } else {
        Err(perr(ts, p, "Expected 'when', 'every', or 'after'"@))
    }
}

/// An action handler's header `when action.MODE(NAME)` (or `key.MODE`) gives the kind that
/// its mode names: `down` a held-down handler, `press` a press handler, `up` a release
/// handler, each for that action; any other mode is an error. The three kinds differ.
pub proof fn law_action_event_modes(ts: Seq<TokS>, p: int, id: Seq<char>, mode: Seq<char>, name: Seq<char>)
    requires
        0 <= p,
        p + 7 <= ts.len(),
        kind_at(ts, p) == TokV::Plain(TokenKind::When),
        kind_at(ts, p + 1) == TokV::Ident(id),
        id == "action"@ || id == "key"@,
        kind_at(ts, p + 2) == TokV::Plain(TokenKind::Dot),
        kind_at(ts, p + 3) == TokV::Ident(mode),
        kind_at(ts, p + 4) == TokV::Plain(TokenKind::LParen),
        kind_at(ts, p + 5) == TokV::Str(name) || kind_at(ts, p + 5) == TokV::Ident(name),
        kind_at(ts, p + 6) == TokV::Plain(TokenKind::RParen),
    ensures
        mode == "down"@ ==> g_event_kind(ts, p) == Ok::<(EventKindV, int), PErr>((EventKindV::ActionDown(name), p + 7)),
        mode == "press"@ ==> g_event_kind(ts, p) == Ok::<(EventKindV, int), PErr>((EventKindV::ActionPress(name), p + 7)),
        mode == "up"@ ==> g_event_kind(ts, p) == Ok::<(EventKindV, int), PErr>((EventKindV::ActionUp(name), p + 7)),
        mode != "down"@ && mode != "press"@ && mode != "up"@ ==> g_event_kind(ts, p) is Err,
{
    reveal(g_event_kind);
    reveal_strlit("down");
    reveal_strlit("press");
    reveal_strlit("up");
    assert(ts[p].kind == TokV::Plain(TokenKind::When));
    assert(ts[p + 2].kind == TokV::Plain(TokenKind::Dot));
    assert(ts[p + 4].kind == TokV::Plain(TokenKind::LParen));
    assert(ts[p + 6].kind == TokV::Plain(TokenKind::RParen));
    assert("down"@.len() == 4 && "press"@.len() == 5 && "up"@.len() == 2);
    if mode == "press"@ || mode == "up"@ {
        assert(mode != "down"@);
    }
    if mode == "up"@ {
        assert(mode != "press"@);
    }
}

/// The other event headers give the kind they name: `when start` and `when update` the
/// start and frame handlers, `when A touches B` a collision handler of `A` with `B` in that
/// order, `when message("m")` a handler of message `m`, and `every N seconds` / `after N
/// seconds` a repeating / one-shot timer of `N` whole seconds.
pub proof fn law_event_headers(ts: Seq<TokS>, p: int, a: Seq<char>, b: Seq<char>, n: Seq<char>)
    requires
        0 <= p,
        p + 5 <= ts.len(),
    ensures
        kind_at(ts, p) == TokV::Plain(TokenKind::When) && kind_at(ts, p + 1) == TokV::Plain(TokenKind::Start)
            ==> g_event_kind(ts, p) == Ok::<(EventKindV, int), PErr>((EventKindV::Start, p + 2)),
        kind_at(ts, p) == TokV::Plain(TokenKind::When) && kind_at(ts, p + 1) == TokV::Plain(TokenKind::Update)
            ==> g_event_kind(ts, p) == Ok::<(EventKindV, int), PErr>((EventKindV::Update, p + 2)),
        kind_at(ts, p) == TokV::Plain(TokenKind::When) && kind_at(ts, p + 1) == TokV::Ident(a) && a != "action"@
            && a != "key"@ && kind_at(ts, p + 2) == TokV::Plain(TokenKind::Touches) && kind_at(ts, p + 3)
            == TokV::Ident(b) ==> g_event_kind(ts, p) == Ok::<(EventKindV, int), PErr>((EventKindV::Touches(a, b), p + 4)),
        kind_at(ts, p) == TokV::Plain(TokenKind::When) && kind_at(ts, p + 1) == TokV::Ident("message"@) && kind_at(
            ts,
            p + 2,
        ) == TokV::Plain(TokenKind::LParen) && kind_at(ts, p + 3) == TokV::Str(a) && kind_at(ts, p + 4) == TokV::Plain(
            TokenKind::RParen,
        ) ==> g_event_kind(ts, p) == Ok::<(EventKindV, int), PErr>((EventKindV::Message(a), p + 5)),
        kind_at(ts, p) == TokV::Plain(TokenKind::Every) && kind_at(ts, p + 1) == TokV::Number(n) && kind_at(ts, p + 2)
            == TokV::Plain(TokenKind::Seconds) ==> g_event_kind(ts, p) == Ok::<(EventKindV, int), PErr>((
            EventKindV::EverySeconds(whole_seconds(n)),
            p + 3,
        )),
        kind_at(ts, p) == TokV::Plain(TokenKind::After) && kind_at(ts, p + 1) == TokV::Number(n) && kind_at(ts, p + 2)
            == TokV::Plain(TokenKind::Seconds) ==> g_event_kind(ts, p) == Ok::<(EventKindV, int), PErr>((
            EventKindV::AfterSeconds(whole_seconds(n)),
            p + 3,
        )),
{
    reveal(g_event_kind);
    reveal_strlit("action");
    reveal_strlit("key");
    reveal_strlit("message");
    assert("message"@.len() == 7 && "action"@.len() == 6 && "key"@.len() == 3);
    assert("message"@ != "action"@ && "message"@ != "key"@);
    assert(ts[p].kind == kind_at(ts, p));
    assert(ts[p + 1].kind == kind_at(ts, p + 1));
    assert(ts[p + 2].kind == kind_at(ts, p + 2));
    assert(ts[p + 3].kind == kind_at(ts, p + 3));
    assert(ts[p + 4].kind == kind_at(ts, p + 4));
}

/// A token sequence holding one token of kind `k`.
pub open spec fn one_token(k: TokV) -> Seq<TokS> {
    seq![TokS { kind: k, span: no_span() }]
}

/// What a binary operator spelled `s` computes on two whole numbers (truths as 1 and 0;
/// division and remainder by zero give 0 here); `None` for a spelling of no binary operator.
pub open spec fn spelled_binop_value(s: Seq<char>, a: int, b: int) -> Option<int> {
    if s == seq!['+'] {
        Some(a + b)
    } else if s == seq!['-'] {
        Some(a - b)
    } else if s == seq!['*'] {
        Some(a * b)
    } else if s == seq!['/'] {
        Some(if b == 0 { 0 } else { a / b })
    } else if s == seq!['%'] {
        Some(if b == 0 { 0 } else { a % b })
    } else if s == seq!['='].push('=') {
        Some(truth(a == b))
    } else if s == seq!['!'].push('=') {
        Some(truth(a != b))
    } else if s == seq!['<'] {
        Some(truth(a < b))
    } else if s == seq!['<'].push('=') {
        Some(truth(a <= b))
    } else if s == seq!['>'] {
        Some(truth(a > b))
    } else if s == seq!['>'].push('=') {
        Some(truth(a >= b))
    } else if s == "and"@ {
        Some(truth(a != 0 && b != 0))
    } else if s == "or"@ {
        Some(truth(a != 0 || b != 0))
    } else {
        None
    }
}

/// What an assignment spelled `s` stores, from the old value and the assigned one.
pub open spec fn spelled_assign_value(s: Seq<char>, old: int, v: int) -> Option<int> {
    if s == seq!['='] {
        Some(v)
    } else if s == seq!['+'].push('=') {
        Some(old + v)
    } else if s == seq!['-'].push('=') {
        Some(old - v)
    } else if s == seq!['*'].push('=') {
        Some(old * v)
    } else if s == seq!['/'].push('=') {
        Some(if v == 0 { 0 } else { old / v })
    } else {
        None
    }
}

/// What a prefix operator spelled `s` computes on a whole number.
pub open spec fn spelled_unop_value(s: Seq<char>, a: int) -> Option<int> {
    if s == seq!['-'] {
        Some(-a)
    } else if s == "not"@ {
        Some(truth(a == 0))
    } else {
        None
    }
}

/// The parser reads an operator token, at whatever precedence level, as the operator that
/// computes what the token's spelling says.
pub proof fn law_operator_tokens_mean_their_spelling(k: TokenKind, lvl: int, a: int, b: int)
    ensures
        op_at(one_token(TokV::Plain(k)), 0, lvl) matches Some(op) ==> (token_spelling(k) matches Some(s)
            && spelled_binop_value(s, a, b) == Some(binop_value(op, a, b))),
{
    reveal_strlit("and");
    reveal_strlit("or");
    let ts = one_token(TokV::Plain(k));
    assert(ts[0].kind == TokV::Plain(k));
    match k {
        TokenKind::Indent => {},
        TokenKind::Dedent => {},
        TokenKind::Newline => {},
        TokenKind::When => {},
        TokenKind::Start => {},
        TokenKind::Update => {},
        TokenKind::If => {},
        TokenKind::Else => {},
        TokenKind::Repeat => {},
        TokenKind::For => {},
        TokenKind::Function => {},
        TokenKind::Return => {},
        TokenKind::And => {
            let sp = token_spelling(k)->0;
            assert(sp.len() == 3 && sp[0] == 'a' && sp[1] == 'n' && sp[2] == 'd');
        },
        TokenKind::Or => {
            let sp = token_spelling(k)->0;
            assert(sp.len() == 2 && sp[0] == 'o' && sp[1] == 'r');
        },
        TokenKind::Not => {},
        TokenKind::Assert => {},
        TokenKind::Test => {},
        TokenKind::True => {},
        TokenKind::False => {},
        TokenKind::Touches => {},
        TokenKind::Enters => {},
        TokenKind::Every => {},
        TokenKind::After => {},
        TokenKind::Seconds => {},
        TokenKind::Colon => {},
        TokenKind::LParen => {},
        TokenKind::RParen => {},
        TokenKind::Comma => {},
        TokenKind::Dot => {},
        TokenKind::LBracket => {},
        TokenKind::RBracket => {},
        TokenKind::Plus => {
            let sp = token_spelling(k)->0;
            assert(sp.len() == 1 && sp[0] == '+');
        },
        TokenKind::Minus => {
            let sp = token_spelling(k)->0;
            assert(sp.len() == 1 && sp[0] == '-');
        },
        TokenKind::Star => {
            let sp = token_spelling(k)->0;
            assert(sp.len() == 1 && sp[0] == '*');
        },
        TokenKind::Slash => {
            let sp = token_spelling(k)->0;
            assert(sp.len() == 1 && sp[0] == '/');
        },
        TokenKind::Percent => {
            let sp = token_spelling(k)->0;
            assert(sp.len() == 1 && sp[0] == '%');
        },
        TokenKind::Assign => {},
        TokenKind::PlusAssign => {},
        TokenKind::MinusAssign => {},
        TokenKind::StarAssign => {},
        TokenKind::SlashAssign => {},
        TokenKind::Equal => {
            let sp = token_spelling(k)->0;
            assert(sp.len() == 2 && sp[0] == '=' && sp[1] == '=');
        },
        TokenKind::NotEqual => {
            let sp = token_spelling(k)->0;
            assert(sp.len() == 2 && sp[0] == '!' && sp[1] == '=');
        },
        TokenKind::Less => {
            let sp = token_spelling(k)->0;
            assert(sp.len() == 1 && sp[0] == '<');
        },
        TokenKind::LessEqual => {
            let sp = token_spelling(k)->0;
            assert(sp.len() == 2 && sp[0] == '<' && sp[1] == '=');
        },
        TokenKind::Greater => {
            let sp = token_spelling(k)->0;
            assert(sp.len() == 1 && sp[0] == '>');
        },
        TokenKind::GreaterEqual => {
            let sp = token_spelling(k)->0;
            assert(sp.len() == 2 && sp[0] == '>' && sp[1] == '=');
        },
        TokenKind::Ident(_) => {},
        TokenKind::Number(_) => {},
        TokenKind::StringLit(_) => {},
        TokenKind::Eof => {},
    }
}

/// The parser reads an assignment token as the assignment that stores what the token's
/// spelling says.
pub proof fn law_assignment_tokens_mean_their_spelling(k: TokenKind, old: int, v: int)
    ensures
        assign_op_of(one_token(TokV::Plain(k)), 0) matches Some(op) ==> (token_spelling(k) matches Some(s)
            && spelled_assign_value(s, old, v) == Some(assign_value(op, old, v))),
{
    let ts = one_token(TokV::Plain(k));
    assert(ts[0].kind == TokV::Plain(k));
    match k {
        TokenKind::Indent => {
            assert(ts.len() == 1);
            assert(tag_of(TokenKind::Indent) == 0);
            assert(!is_k(ts, 0, TokenKind::Assign));
            assert(assign_op_of(ts, 0) is None);
        },
        TokenKind::Dedent => {},
        TokenKind::Newline => {},
        TokenKind::When => {},
        TokenKind::Start => {},
        TokenKind::Update => {},
        TokenKind::If => {},
        TokenKind::Else => {},
        TokenKind::Repeat => {},
        TokenKind::For => {},
        TokenKind::Function => {},
        TokenKind::Return => {},
        TokenKind::And => {},
        TokenKind::Or => {},
        TokenKind::Not => {},
        TokenKind::Assert => {},
        TokenKind::Test => {},
        TokenKind::True => {},
        TokenKind::False => {},
        TokenKind::Touches => {},
        TokenKind::Enters => {},
        TokenKind::Every => {},
        TokenKind::After => {},
        TokenKind::Seconds => {},
        TokenKind::Colon => {},
        TokenKind::LParen => {},
        TokenKind::RParen => {},
        TokenKind::Comma => {},
        TokenKind::Dot => {},
        TokenKind::LBracket => {},
        TokenKind::RBracket => {},
        TokenKind::Plus => {},
        TokenKind::Minus => {},
        TokenKind::Star => {},
        TokenKind::Slash => {},
        TokenKind::Percent => {},
        TokenKind::Assign => {
            let sp = token_spelling(k)->0;
            assert(sp.len() == 1 && sp[0] == '=');
        },
        TokenKind::PlusAssign => {
            let sp = token_spelling(k)->0;
            assert(sp.len() == 2 && sp[0] == '+' && sp[1] == '=');
        },
        TokenKind::MinusAssign => {
            let sp = token_spelling(k)->0;
            assert(sp.len() == 2 && sp[0] == '-' && sp[1] == '=');
        },
        TokenKind::StarAssign => {
            let sp = token_spelling(k)->0;
            assert(sp.len() == 2 && sp[0] == '*' && sp[1] == '=');
        },
        TokenKind::SlashAssign => {
            let sp = token_spelling(k)->0;
            assert(sp.len() == 2 && sp[0] == '/' && sp[1] == '=');
        },
        TokenKind::Equal => {},
        TokenKind::NotEqual => {},
        TokenKind::Less => {},
        TokenKind::LessEqual => {},
        TokenKind::Greater => {},
        TokenKind::GreaterEqual => {},
        TokenKind::Ident(_) => {},
        TokenKind::Number(_) => {},
        TokenKind::StringLit(_) => {},
        TokenKind::Eof => {},
    }
}

/// The parser reads a prefix operator token (`not` or `-`) starting an operand as the unary
/// operator that computes what the token's spelling says.
pub proof fn law_prefix_tokens_mean_their_spelling(ts: Seq<TokS>, p: int, k: TokenKind, a: int)
    requires
        0 <= p < ts.len(),
        ts[p].kind == TokV::Plain(k),
        k == TokenKind::Not || k == TokenKind::Minus,
    ensures
        g_unary(ts, p) matches Ok((e, _)) ==> (e matches ExprV::Unary(op, _, _) && token_spelling(k) matches Some(
            s,
        ) && spelled_unop_value(s, a) == Some(unop_value(op, a))),
{
    reveal_strlit("not");
    reveal_strlit("and");
    reveal_strlit("or");
    match k {
        TokenKind::Indent => {},
        TokenKind::Dedent => {},
        TokenKind::Newline => {},
        TokenKind::When => {},
        TokenKind::Start => {},
        TokenKind::Update => {},
        TokenKind::If => {},
        TokenKind::Else => {},
        TokenKind::Repeat => {},
        TokenKind::For => {},
        TokenKind::Function => {},
        TokenKind::Return => {},
        TokenKind::And => {},
        TokenKind::Or => {},
        TokenKind::Not => {
            let sp = token_spelling(k)->0;
            assert(sp.len() == 3 && sp[0] == 'n' && sp[1] == 'o' && sp[2] == 't');
        },
        TokenKind::Assert => {},
        TokenKind::Test => {},
        TokenKind::True => {},
        TokenKind::False => {},
        TokenKind::Touches => {},
        TokenKind::Enters => {},
        TokenKind::Every => {},
        TokenKind::After => {},
        TokenKind::Seconds => {},
        TokenKind::Colon => {},
        TokenKind::LParen => {},
        TokenKind::RParen => {},
        TokenKind::Comma => {},
        TokenKind::Dot => {},
        TokenKind::LBracket => {},
        TokenKind::RBracket => {},
        TokenKind::Plus => {},
        TokenKind::Minus => {
            let sp = token_spelling(k)->0;
            assert(sp.len() == 1 && sp[0] == '-');
        },
        TokenKind::Star => {},
        TokenKind::Slash => {},
        TokenKind::Percent => {},
        TokenKind::Assign => {},
        TokenKind::PlusAssign => {},
        TokenKind::MinusAssign => {},
        TokenKind::StarAssign => {},
        TokenKind::SlashAssign => {},
        TokenKind::Equal => {},
        TokenKind::NotEqual => {},
        TokenKind::Less => {},
        TokenKind::LessEqual => {},
        TokenKind::Greater => {},
        TokenKind::GreaterEqual => {},
        TokenKind::Ident(_) => {},
        TokenKind::Number(_) => {},
        TokenKind::StringLit(_) => {},
        TokenKind::Eof => {},
    }
}

/// An event handler: trigger, colon, block.
#[verifier::opaque]
pub open spec fn g_event(ts: Seq<TokS>, p: int) -> Result<(EventV, int), PErr> {
    if !fits(ts, 0, p) {
        junk()
    } else {
        match g_event_kind(ts, p) {
            Ok((kind, q)) => match consume(ts, q, TokenKind::Colon, "Expected ':' after event declaration"@) {
                Ok(q1) => if fits(ts, p + 1, q1) {
                    match g_block(ts, q1) {
                        Ok((body, q2)) => Ok((EventV { kind, body, span: span_at(ts, p) }, q2)),
                        Err(x) => Err(x),
                    }
                } else {
                    junk()
                },
                Err(x) => Err(x),
            },
            Err(x) => Err(x),
        }
    }
}

/// A parameter list up to (not including) the closing parenthesis.
pub open spec fn g_params(ts: Seq<TokS>, acc: Seq<Seq<char>>, q: int) -> Result<(Seq<Seq<char>>, int), PErr>
    decreases ts.len() - q,
{
    if !fits(ts, 0, q) {
        junk()
    } else {
        match kind_at(ts, q) {
            TokV::Ident(pn) => if check(ts, q + 1, TokenKind::Comma) {
                g_params(ts, acc.push(pn), q + 2)
            } else {
                Ok((acc.push(pn), q + 1))
            },
            _ => Err(perr(ts, q, "Expected parameter name"@)),
        }
    }
}

/// A function definition.
#[verifier::opaque]
pub open spec fn g_function(ts: Seq<TokS>, p: int) -> Result<(FuncV, int), PErr> {
    if !fits(ts, 0, p) {
        junk()
    } else {
        let sp = span_at(ts, p);
        match consume(ts, p, TokenKind::Function, "Expected 'function'"@) {
            Ok(q) => match kind_at(ts, q) {
                TokV::Ident(name) => match consume(ts, q + 1, TokenKind::LParen, "Expected '(' after function name"@) {
                    Ok(q2) => {
                        let ps: Result<(Seq<Seq<char>>, int), PErr> = if !check(ts, q2, TokenKind::RParen) {
                            g_params(ts, Seq::empty(), q2)
                        } else {
                            Ok((Seq::empty(), q2))
                        };
                        match ps {
                            Ok((params, q3)) => match consume(ts, q3, TokenKind::RParen, "Expected ')' after parameter list"@) {
                                Ok(q4) => match consume(ts, q4, TokenKind::Colon, "Expected ':' after function signature"@) {
                                    Ok(q5) => if fits(ts, p + 1, q5) {
                                        match g_block(ts, q5) {
                                            Ok((body, q6)) => Ok((FuncV { name, params, body, span: sp }, q6)),
                                            Err(x) => Err(x),
                                        }
                                    } else {
                                        junk()
                                    },
                                    Err(x) => Err(x),
                                },
                                Err(x) => Err(x),
                            },
                            Err(x) => Err(x),
                        }
                    },
                    Err(x) => Err(x),
                },
                _ => Err(perr(ts, q, "Expected function name"@)),
            },
            Err(x) => Err(x),
        }
    }
}

/// One program item at `p` (an event handler, a function or a statement) added to `acc`,
/// and the position after it and any newlines.
#[verifier::opaque]
pub open spec fn g_item(ts: Seq<TokS>, acc: ProgramV, p: int) -> Result<(ProgramV, int), PErr> {
    if check(ts, p, TokenKind::When) || check(ts, p, TokenKind::Every) || check(ts, p, TokenKind::After) {
        match g_event(ts, p) {
            Ok((ev, q)) => Ok((ProgramV { events: acc.events.push(ev), ..acc }, skip_nl(ts, q))),
            Err(x) => Err(x),
        }
    } else if check(ts, p, TokenKind::Function) {
        match g_function(ts, p) {
            Ok((f, q)) => Ok((ProgramV { functions: acc.functions.push(f), ..acc }, skip_nl(ts, q))),
            Err(x) => Err(x),
        }
    } else {
        match g_stmt(ts, p) {
            Ok((st, q)) => Ok((ProgramV { top_level: acc.top_level.push(st), ..acc }, skip_nl(ts, q))),
            Err(x) => Err(x),
        }
    }
}

/// The rest of a program from `p`, added to what was parsed so far.
pub open spec fn g_program_rest(ts: Seq<TokS>, acc: ProgramV, p: int) -> Result<ProgramV, PErr>
    decreases ts.len() - p,
{
    if !fits(ts, 0, p) {
        junk()
    } else if at_end(ts, p) {
        Ok(acc)
    } else {
        match g_item(ts, acc, p) {
            Ok((acc2, q)) => if fits(ts, p + 1, q) { g_program_rest(ts, acc2, q) } else { junk() },
            Err(x) => Err(x),
        }
    }
}

/// A whole program from a token sequence.
pub open spec fn g_program(ts: Seq<TokS>) -> Result<ProgramV, PErr> {
    g_program_rest(ts, ProgramV { events: Seq::empty(), functions: Seq::empty(), top_level: Seq::empty() }, skip_nl(ts, 0))
}

} // verus!

verus! {

// ---------------------------------------------------------------------------------------
// The parser
// ---------------------------------------------------------------------------------------

/// A syntax error.
#[derive(Debug, Clone)]
pub struct ParseError {
    pub message: String,
    pub span: Span,
}

/// Recursive-descent parser over a token vector.
pub struct Parser {
    tokens: Vec<Token>,
    cursor: usize,
}

pub open spec fn err_is(e: ParseError, x: PErr) -> bool {
    e.message@ == x.message && e.span == x.span
}

pub open spec fn expr_res(r: Result<(Expr, usize), ParseError>, s: Result<(ExprV, int), PErr>) -> bool {
    match s {
        Ok((v, q)) => r matches Ok((e, q2)) && expr_view(e) == v && q2 == q,
        Err(x) => r matches Err(er) && err_is(er, x),
    }
}

pub open spec fn moved(r: Result<(Expr, usize), ParseError>, p: int, n: int) -> bool {
    r matches Ok((_, q)) ==> p < q <= n
}

proof fn lemma_tag_view(k: TokenKind)
    ensures
        tokv_tag(crate::language::lexer::kind_view(k)) == tag_of(k),
{
}

impl Parser {
    /// The tokens as specification values.
    pub closed spec fn toks(self) -> Seq<TokS> {
        toks_view(self.tokens@)
    }

    /// Position of the next token.
    pub closed spec fn pos(self) -> int {
        self.cursor as int
    }

    /// A parser at the first token.
    pub fn new(tokens: Vec<Token>) -> (p: Self)
        ensures
            p.toks() == toks_view(tokens@),
            p.pos() == 0,
            tokens@.len() < usize::MAX ==> p.wf(),
    {
        Parser { tokens, cursor: 0 }
    }

    fn is_k(&self, p: usize, k: &TokenKind) -> (r: bool)
        ensures
            r == is_k(self.toks(), p as int, *k),
    {
        if p < self.tokens.len() {
            proof { lemma_tag_view(self.tokens@[p as int].kind); }
            kind_tag(&self.tokens[p].kind) == kind_tag(k)
        } else {
            false
        }
    }

    fn at_end(&self, p: usize) -> (r: bool)
        ensures
            r == at_end(self.toks(), p as int),
    {
        p >= self.tokens.len() || self.is_k(p, &TokenKind::Eof)
    }

    fn check(&self, p: usize, k: &TokenKind) -> (r: bool)
        ensures
            r == check(self.toks(), p as int, *k),
    {
        !self.at_end(p) && self.is_k(p, k)
    }

    fn ident_is(&self, p: usize, name: &str) -> (r: bool)
        ensures
            r == (kind_at(self.toks(), p as int) == TokV::Ident(name@)),
    {
        if p < self.tokens.len() {
            match &self.tokens[p].kind {
                TokenKind::Ident(s) => crate::text::str_eq(s.as_str(), name),
                _ => false,
            }
        } else {
            false
        }
    }

    fn span_at(&self, p: usize) -> (s: Span)
        ensures
            s == span_at(self.toks(), p as int),
    {
        if p < self.tokens.len() { self.tokens[p].span } else { Span::new(0, 0, 0, 0) }
    }

    fn error_at(&self, p: usize, msg: &str) -> (e: ParseError)
        ensures
            err_is(e, perr(self.toks(), p as int, msg@)),
    {
        ParseError { message: String::from_str(msg), span: self.span_at(p) }
    }

    fn consume(&self, p: usize, k: &TokenKind, msg: &str) -> (r: Result<usize, ParseError>)
        requires
            self.tokens@.len() < usize::MAX,
        ensures
            match consume(self.toks(), p as int, *k, msg@) {
                Ok(q) => r == Ok::<usize, ParseError>(q as usize),
                Err(x) => r matches Err(er) && err_is(er, x),
            },
    {
        if self.check(p, k) { Ok(p + 1) } else { Err(self.error_at(p, msg)) }
    }

    fn match_tok(&self, p: usize, k: &TokenKind) -> (q: usize)
        requires
            self.tokens@.len() < usize::MAX,
        ensures
            q == match_tok(self.toks(), p as int, *k),
    {
        if self.check(p, k) { p + 1 } else { p }
    }

    fn skip_newlines(&self, p: usize) -> (q: usize)
        requires
            p <= self.tokens@.len() < usize::MAX,
        ensures
            q == skip_nl(self.toks(), p as int),
            p <= q <= self.tokens@.len(),
    {
        let mut q = p;
        while self.check(q, &TokenKind::Newline)
            invariant
                p <= q <= self.tokens@.len() < usize::MAX,
                skip_nl(self.toks(), q as int) == skip_nl(self.toks(), p as int),
            decreases self.tokens@.len() - q,
        {
            q = q + 1;
        }
        q
    }

    fn op_at(&self, q: usize, lvl: usize) -> (r: Option<BinaryOp>)
        ensures
            r == op_at(self.toks(), q as int, lvl as int),
    {
        if lvl == 0 {
            if self.check(q, &TokenKind::Or) { Some(BinaryOp::Or) } else { None }
        } else if lvl == 1 {
            if self.check(q, &TokenKind::And) { Some(BinaryOp::And) } else { None }
        } else if lvl == 2 {
            if self.check(q, &TokenKind::Equal) { Some(BinaryOp::Equal) }
            else if self.check(q, &TokenKind::NotEqual) { Some(BinaryOp::NotEqual) }
            else { None }
        } else if lvl == 3 {
            if self.check(q, &TokenKind::Less) { Some(BinaryOp::Less) }
            else if self.check(q, &TokenKind::LessEqual) { Some(BinaryOp::LessEqual) }
            else if self.check(q, &TokenKind::Greater) { Some(BinaryOp::Greater) }
            else if self.check(q, &TokenKind::GreaterEqual) { Some(BinaryOp::GreaterEqual) }
            else { None }
        } else if lvl == 4 {
            if self.check(q, &TokenKind::Plus) { Some(BinaryOp::Add) }
            else if self.check(q, &TokenKind::Minus) { Some(BinaryOp::Sub) }
            else { None }
        } else {
            if self.check(q, &TokenKind::Star) { Some(BinaryOp::Mul) }
            else if self.check(q, &TokenKind::Slash) { Some(BinaryOp::Div) }
            else if self.check(q, &TokenKind::Percent) { Some(BinaryOp::Mod) }
            else { None }
        }
    }
}

} // verus!

verus! {

pub open spec fn args_res(r: Result<(Vec<Expr>, usize), ParseError>, s: Result<(Seq<ExprV>, int), PErr>) -> bool {
    match s {
        Ok((v, q)) => r matches Ok((a, q2)) && exprs_view(a@) == v && q2 == q,
        Err(x) => r matches Err(er) && err_is(er, x),
    }
}

proof fn lemma_call_view(target: Option<String>, name: String, args: Vec<Expr>, span: Span)
    ensures
        expr_view(Expr::Call { target, name, args, span }) == ExprV::Call(opt_str_view(target), name@, exprs_view(args@), span),
{
    let v = expr_view(Expr::Call { target, name, args, span });
    assert(v->Call_2 =~= exprs_view(args@));
}

impl Parser {
    fn parse_expr_at(&self, p: usize) -> (r: Result<(Expr, usize), ParseError>)
        requires
            p <= self.tokens@.len() < usize::MAX,
        ensures
            expr_res(r, g_expr(self.toks(), p as int)),
            moved(r, p as int, self.tokens@.len() as int),
        decreases self.tokens@.len() - p, 30int,
    {
        self.parse_bin(p, 0)
    }

    fn parse_bin(&self, p: usize, lvl: usize) -> (r: Result<(Expr, usize), ParseError>)
        requires
            p <= self.tokens@.len() < usize::MAX,
            lvl <= 6,
        ensures
            expr_res(r, g_bin(self.toks(), p as int, lvl as int)),
            moved(r, p as int, self.tokens@.len() as int),
        decreases self.tokens@.len() - p, 21 - 2 * lvl,
    {
        if lvl == 6 {
            return self.parse_unary(p);
        }
        let (l, q) = self.parse_bin(p, lvl + 1)?;
        self.parse_bin_tail(l, q, lvl, Ghost(p as int))
    }

    fn parse_bin_tail(&self, left: Expr, q: usize, lvl: usize, p: Ghost<int>) -> (r: Result<(Expr, usize), ParseError>)
        requires
            p@ < q <= self.tokens@.len() < usize::MAX,
            lvl <= 5,
        ensures
            expr_res(r, g_bin_tail(self.toks(), expr_view(left), q as int, lvl as int)),
            moved(r, p@, self.tokens@.len() as int),
        decreases self.tokens@.len() - q, 20 - 2 * lvl,
    {
        match self.op_at(q, lvl) {
            Some(op) => {
                let sp = self.span_at(q + 1);
                if q + 1 > self.tokens.len() {
                    return Err(ParseError { message: String::new(), span: Span::new(0, 0, 0, 0) });
                }
                let (r, q2) = self.parse_bin(q + 1, lvl + 1)?;
                self.parse_bin_tail(Expr::Binary { left: Box::new(left), op, right: Box::new(r), span: sp }, q2, lvl, p)
            },
            None => Ok((left, q)),
        }
    }

    fn parse_unary(&self, p: usize) -> (r: Result<(Expr, usize), ParseError>)
        requires
            p <= self.tokens@.len() < usize::MAX,
        ensures
            expr_res(r, g_unary(self.toks(), p as int)),
            moved(r, p as int, self.tokens@.len() as int),
        decreases self.tokens@.len() - p, 7int,
    {
        let span = self.span_at(p);
        if self.check(p, &TokenKind::Not) {
            let (e, q) = self.parse_unary(p + 1)?;
            return Ok((Expr::Unary { op: UnaryOp::Not, expr: Box::new(e), span }, q));
        }
        if self.check(p, &TokenKind::Minus) {
            let (e, q) = self.parse_unary(p + 1)?;
            return Ok((Expr::Unary { op: UnaryOp::Neg, expr: Box::new(e), span }, q));
        }
        self.parse_primary(p)
    }

    fn parse_primary(&self, p: usize) -> (r: Result<(Expr, usize), ParseError>)
        requires
            p <= self.tokens@.len() < usize::MAX,
        ensures
            expr_res(r, g_primary(self.toks(), p as int)),
            moved(r, p as int, self.tokens@.len() as int),
        decreases self.tokens@.len() - p, 6int,
    {
        let span = self.span_at(p);
        if p >= self.tokens.len() {
            let mut msg = String::from_str("Unexpected token: ");
            msg.append("Eof");
            return Err(ParseError { message: msg, span });
        }
        match &self.tokens[p].kind {
            TokenKind::Number(n) => Ok((Expr::Number(n.clone(), span), p + 1)),
            TokenKind::StringLit(s) => Ok((Expr::String(s.clone(), span), p + 1)),
            TokenKind::True => Ok((Expr::Bool(true, span), p + 1)),
            TokenKind::False => Ok((Expr::Bool(false, span), p + 1)),
            TokenKind::LParen => {
                let (e, q) = self.parse_expr_at(p + 1)?;
                if self.check(q, &TokenKind::RParen) {
                    Ok((e, q + 1))
                } else {
                    Err(self.error_at(q, "Expected ')' after grouped expression"))
                }
            },
            TokenKind::Ident(name) => {
                let q = p + 1;
                if self.check(q, &TokenKind::Dot) {
                    if q + 1 < self.tokens.len() {
                        match &self.tokens[q + 1].kind {
                            TokenKind::Ident(m) => {
                                if self.check(q + 2, &TokenKind::LParen) {
                                    let (args, q3) = self.parse_args(q + 3)?;
                                    proof { lemma_call_view(Some(*name), *m, args, span); }
                                    Ok((Expr::Call { target: Some(name.clone()), name: m.clone(), args, span }, q3))
                                } else {
                                    let mut full = name.clone();
                                    full.append(".");
                                    full.append(m.as_str());
                                    Ok((Expr::Ident(full, span), q + 2))
                                }
                            },
                            _ => Err(self.error_at(q + 1, "Expected property or method name after '.'")),
                        }
                    } else {
                        Err(self.error_at(q + 1, "Expected property or method name after '.'"))
                    }
                } else if self.check(q, &TokenKind::LParen) {
                    let (args, q3) = self.parse_args(q + 1)?;
                    proof { lemma_call_view(None, *name, args, span); }
                    Ok((Expr::Call { target: None, name: name.clone(), args, span }, q3))
                } else {
                    Ok((Expr::Ident(name.clone(), span), q))
                }
            },
            other => {
                let mut msg = String::from_str("Unexpected token: ");
                let nm = plain_kind_name_exec(other);
                msg.append(nm.as_str());
                Err(ParseError { message: msg, span })
            },
        }
    }

    fn parse_args(&self, p: usize) -> (r: Result<(Vec<Expr>, usize), ParseError>)
        requires
            p <= self.tokens@.len() < usize::MAX,
        ensures
            args_res(r, g_args(self.toks(), p as int)),
            r matches Ok((_, q)) ==> p < q <= self.tokens@.len(),
        decreases self.tokens@.len() - p, 33int,
    {
        if self.check(p, &TokenKind::RParen) {
            let v: Vec<Expr> = Vec::new();
            proof { assert(exprs_view(v@) =~= Seq::<ExprV>::empty()); }
            return Ok((v, p + 1));
        }
        let v: Vec<Expr> = Vec::new();
        proof { assert(exprs_view(v@) =~= Seq::<ExprV>::empty()); }
        self.parse_args_rest(v, p)
    }

    fn parse_args_rest(&self, acc: Vec<Expr>, p: usize) -> (r: Result<(Vec<Expr>, usize), ParseError>)
        requires
            p <= self.tokens@.len() < usize::MAX,
        ensures
            args_res(r, g_args_rest(self.toks(), exprs_view(acc@), p as int)),
            r matches Ok((_, q)) ==> p < q <= self.tokens@.len(),
        decreases self.tokens@.len() - p, 32int,
    {
        let mut acc = acc;
        let (e, q) = self.parse_expr_at(p)?;
        let ghost ev = expr_view(e);
        let ghost old_acc = exprs_view(acc@);
        acc.push(e);
        proof { assert(exprs_view(acc@) =~= old_acc.push(ev)); }
        if self.check(q, &TokenKind::Comma) {
            self.parse_args_rest(acc, q + 1)
        } else if self.check(q, &TokenKind::RParen) {
            Ok((acc, q + 1))
        } else {
            Err(self.error_at(q, "Expected ')' after arguments"))
        }
    }
}

} // verus!

verus! {

pub open spec fn stmt_res(r: Result<(Statement, usize), ParseError>, s: Result<(StmtV, int), PErr>) -> bool {
    match s {
        Ok((v, q)) => r matches Ok((e, q2)) && stmt_view(e) == v && q2 == q,
        Err(x) => r matches Err(er) && err_is(er, x),
    }
}

pub open spec fn block_res(r: Result<(Vec<Statement>, usize), ParseError>, s: Result<(Seq<StmtV>, int), PErr>) -> bool {
    match s {
        Ok((v, q)) => r matches Ok((e, q2)) && stmts_view(e@) == v && q2 == q,
        Err(x) => r matches Err(er) && err_is(er, x),
    }
}

proof fn lemma_if_view(condition: Expr, then_body: Vec<Statement>, else_body: Option<Vec<Statement>>, span: Span)
    ensures
        stmt_view(Statement::If { condition, then_body, else_body, span }) == StmtV::If(
            expr_view(condition),
            stmts_view(then_body@),
            match else_body { Some(eb) => Some(stmts_view(eb@)), None => None },
            span,
        ),
{
    let v = stmt_view(Statement::If { condition, then_body, else_body, span });
    assert(v->If_1 =~= stmts_view(then_body@));
    match else_body {
        Some(eb) => { assert(v->If_2->0 =~= stmts_view(eb@)); },
        None => {},
    }
}

proof fn lemma_repeat_view(count: Expr, body: Vec<Statement>, span: Span)
    ensures
        stmt_view(Statement::Repeat { count, body, span }) == StmtV::Repeat(expr_view(count), stmts_view(body@), span),
{
    let v = stmt_view(Statement::Repeat { count, body, span });
    assert(v->Repeat_1 =~= stmts_view(body@));
}

fn assign_op_kind(k: &TokenKind) -> (r: Option<AssignOp>)
    ensures
        r == (if tag_of(*k) == tag_of(TokenKind::Assign) { Some(AssignOp::Assign) }
        else if tag_of(*k) == tag_of(TokenKind::PlusAssign) { Some(AssignOp::AddAssign) }
        else if tag_of(*k) == tag_of(TokenKind::MinusAssign) { Some(AssignOp::SubAssign) }
        else if tag_of(*k) == tag_of(TokenKind::StarAssign) { Some(AssignOp::MulAssign) }
        else if tag_of(*k) == tag_of(TokenKind::SlashAssign) { Some(AssignOp::DivAssign) }
        else { None }),
{
    match k {
        TokenKind::Assign => Some(AssignOp::Assign),
        TokenKind::PlusAssign => Some(AssignOp::AddAssign),
        TokenKind::MinusAssign => Some(AssignOp::SubAssign),
        TokenKind::StarAssign => Some(AssignOp::MulAssign),
        TokenKind::SlashAssign => Some(AssignOp::DivAssign),
        _ => None,
    }
}

impl Parser {
    fn parse_statement_at(&self, p0: usize) -> (r: Result<(Statement, usize), ParseError>)
        requires
            p0 <= self.tokens@.len() < usize::MAX,
        ensures
            stmt_res(r, g_stmt(self.toks(), p0 as int)),
            r matches Ok((_, q)) ==> p0 < q <= self.tokens@.len(),
        decreases self.tokens@.len() - p0, 40int,
    {
        let p = self.skip_newlines(p0);
        let span = self.span_at(p);
        if self.check(p, &TokenKind::If) {
            let (condition, q) = self.parse_expr_at(p + 1)?;
            let q1 = self.consume(q, &TokenKind::Colon, "Expected ':' after if condition")?;
            let (then_body, q2) = self.parse_block_at(q1)?;
            if self.check(q2, &TokenKind::Else) {
                let q3 = self.consume(q2 + 1, &TokenKind::Colon, "Expected ':' after else")?;
                let (else_b, q4) = self.parse_block_at(q3)?;
                proof { lemma_if_view(condition, then_body, Some(else_b), span); }
                return Ok((Statement::If { condition, then_body, else_body: Some(else_b), span }, q4));
            }
            proof { lemma_if_view(condition, then_body, None, span); }
            return Ok((Statement::If { condition, then_body, else_body: None, span }, q2));
        }
        if self.check(p, &TokenKind::Repeat) {
            let (count, q) = self.parse_expr_at(p + 1)?;
            let q1 = self.consume(q, &TokenKind::Colon, "Expected ':' after repeat count")?;
            let (body, q2) = self.parse_block_at(q1)?;
            proof { lemma_repeat_view(count, body, span); }
            return Ok((Statement::Repeat { count, body, span }, q2));
        }
        if self.check(p, &TokenKind::Return) {
            let p1 = p + 1;
            if self.check(p1, &TokenKind::Newline) || self.check(p1, &TokenKind::Dedent) || self.at_end(p1) {
                let q = self.match_tok(p1, &TokenKind::Newline);
                return Ok((Statement::Return { value: None, span }, q));
            }
            let (v, q) = self.parse_expr_at(p1)?;
            let q2 = self.match_tok(q, &TokenKind::Newline);
            return Ok((Statement::Return { value: Some(v), span }, q2));
        }
        if self.check(p, &TokenKind::Assert) {
            let (e, q) = self.parse_expr_at(p + 1)?;
            let q2 = self.match_tok(q, &TokenKind::Newline);
            return Ok((Statement::Assert { expr: e, span }, q2));
        }
        if p + 1 < self.tokens.len() {
            match &self.tokens[p].kind {
                TokenKind::Ident(name) => {
                    let next = &self.tokens[p + 1].kind;
                    proof { lemma_tag_view(*next); }
                    match assign_op_kind(next) {
                        Some(op) => {
                            let (value, q) = self.parse_expr_at(p + 2)?;
                            let q2 = self.match_tok(q, &TokenKind::Newline);
                            return Ok((Statement::Assign { target: name.clone(), op, value, span }, q2));
                        },
                        None => {},
                    }
                    if self.is_k(p + 1, &TokenKind::Dot) {
                        if p + 2 < self.tokens.len() {
                            match &self.tokens[p + 2].kind {
                                TokenKind::Ident(m) => {
                                    let q = self.consume(p + 3, &TokenKind::LParen, "Expected '(' after method name")?;
                                    let (args, q2) = self.parse_args(q)?;
                                    let q3 = self.match_tok(q2, &TokenKind::Newline);
                                    return Ok((Statement::Call { target: Some(name.clone()), name: m.clone(), args, span }, q3));
                                },
                                _ => {
                                    return Err(self.error_at(p + 2, "Expected method name after '.'"));
                                },
                            }
                        }
                        return Err(self.error_at(p + 2, "Expected method name after '.'"));
                    }
                    if self.is_k(p + 1, &TokenKind::LParen) {
                        let (args, q2) = self.parse_args(p + 2)?;
                        let q3 = self.match_tok(q2, &TokenKind::Newline);
                        return Ok((Statement::Call { target: None, name: name.clone(), args, span }, q3));
                    }
                },
                _ => {},
            }
        }
        let (e, q) = self.parse_expr_at(p)?;
        let q2 = self.match_tok(q, &TokenKind::Newline);
        match e {
            Expr::Call { target, name, args, span } => {
                proof { lemma_call_view(target, name, args, span); }
                Ok((Statement::Call { target, name, args, span }, q2))
            },
            other => {
                let sp = other.span();
                Err(ParseError { message: String::from_str("Unexpected expression statement"), span: sp })
            },
        }
    }

    fn parse_block_at(&self, p: usize) -> (r: Result<(Vec<Statement>, usize), ParseError>)
        requires
            p <= self.tokens@.len() < usize::MAX,
        ensures
            block_res(r, g_block(self.toks(), p as int)),
            r matches Ok((_, q)) ==> p < q <= self.tokens@.len(),
        decreases self.tokens@.len() - p, 45int,
    {
        let p1 = self.consume(p, &TokenKind::Newline, "Expected newline after ':'")?;
        let p2 = self.skip_newlines(p1);
        let p3 = self.consume(p2, &TokenKind::Indent, "Expected indented block")?;
        let p4 = self.skip_newlines(p3);
        let v: Vec<Statement> = Vec::new();
        proof { assert(stmts_view(v@) =~= Seq::<StmtV>::empty()); }
        self.parse_block_rest(v, p4)
    }

    fn parse_block_rest(&self, acc: Vec<Statement>, q: usize) -> (r: Result<(Vec<Statement>, usize), ParseError>)
        requires
            q <= self.tokens@.len() < usize::MAX,
        ensures
            block_res(r, g_block_rest(self.toks(), stmts_view(acc@), q as int)),
            r matches Ok((_, q2)) ==> q < q2 <= self.tokens@.len(),
        decreases self.tokens@.len() - q, 44int,
    {
        if !self.check(q, &TokenKind::Dedent) && !self.at_end(q) {
            let mut acc = acc;
            let (s, q2) = self.parse_statement_at(q)?;
            let q3 = self.skip_newlines(q2);
            let ghost sv = stmt_view(s);
            let ghost old_acc = stmts_view(acc@);
            acc.push(s);
            proof { assert(stmts_view(acc@) =~= old_acc.push(sv)); }
            self.parse_block_rest(acc, q3)
        } else {
            let q1 = self.consume(q, &TokenKind::Dedent, "Expected end of indented block")?;
            Ok((acc, q1))
        }
    }
}

} // verus!

verus! {

proof fn lemma_dec_value_push(s: Seq<char>, c: char)
    ensures
        dec_value(s.push(c)) == dec_value(s) * 10 + digit_val(c),
{
    assert(s.push(c).drop_last() =~= s);
}

/// Whole seconds of a number literal: its integer part, saturated to `u64::MAX`.
fn whole_seconds_exec(s: &String) -> (r: u64)
    ensures
        r == whole_seconds(s@),
{
    let cs = crate::text::chars_of(s.as_str());
    let mut acc: u64 = 0;
    let mut i: usize = 0;
    proof { assert(cs@.take(0) =~= Seq::<char>::empty()); }
    while i < cs.len() && cs[i] != '.'
        invariant
            cs@ == s@,
            i <= cs@.len(),
            until_dot(cs@, i as int) == until_dot(cs@, 0),
            acc == (if dec_value(cs@.take(i as int)) > u64::MAX { u64::MAX as nat } else { dec_value(cs@.take(i as int)) }),
        decreases cs@.len() - i,
    {
        let c = cs[i];
        let d: u64 = if '0' <= c && c <= '9' { (c as u64) - 48 } else { 0 };
        assert(d == digit_val(c));
        proof {
            assert(cs@.take(i + 1) =~= cs@.take(i as int).push(c));
            lemma_dec_value_push(cs@.take(i as int), c);
        }
        let m = acc.checked_mul(10);
        acc = match m {
            Some(x) => x.saturating_add(d),
            None => u64::MAX,
        };
        proof {
            let dv = dec_value(cs@.take(i as int));
            if dv > u64::MAX {
                assert(dv * 10 + d > u64::MAX) by (nonlinear_arith) requires dv > u64::MAX, d >= 0;
            }
        }
        i = i + 1;
    }
    acc
}

pub open spec fn event_res(r: Result<(EventDef, usize), ParseError>, s: Result<(EventV, int), PErr>) -> bool {
    match s {
        Ok((v, q)) => r matches Ok((e, q2)) && event_view(e) == v && q2 == q,
        Err(x) => r matches Err(er) && err_is(er, x),
    }
}

pub open spec fn func_res(r: Result<(FunctionDef, usize), ParseError>, s: Result<(FuncV, int), PErr>) -> bool {
    match s {
        Ok((v, q)) => r matches Ok((e, q2)) && func_view(e) == v && q2 == q,
        Err(x) => r matches Err(er) && err_is(er, x),
    }
}

impl Parser {
    fn parse_event_kind(&self, p: usize) -> (r: Result<(EventKind, usize), ParseError>)
        requires
            p <= self.tokens@.len() < usize::MAX,
        ensures
            match g_event_kind(self.toks(), p as int) {
                Ok((v, q)) => r matches Ok((k, q2)) && event_kind_view(k) == v && q2 == q,
                Err(x) => r matches Err(er) && err_is(er, x),
            },
            r matches Ok((_, q)) ==> p < q <= self.tokens@.len(),
    {
        reveal(g_event_kind);
        if self.check(p, &TokenKind::When) {
            let q = p + 1;
            if q >= self.tokens.len() {
                return Err(self.error_at(q, "Expected event condition after 'when'"));
            }
            match &self.tokens[q].kind {
                TokenKind::Start => Ok((EventKind::Start, q + 1)),
                TokenKind::Update => Ok((EventKind::Update, q + 1)),
                TokenKind::Ident(id) => {
                    if crate::text::str_eq(id.as_str(), "action") || crate::text::str_eq(id.as_str(), "key") {
                        let q2 = self.consume(q + 1, &TokenKind::Dot, "Expected '.' after 'action' or 'key'")?;
                        if q2 >= self.tokens.len() {
                            return Err(self.error_at(q2, "Expected 'down', 'press', or 'up' after action dot"));
                        }
                        let mode = match &self.tokens[q2].kind {
                            TokenKind::Ident(sub) => sub.clone(),
                            _ => {
                                return Err(self.error_at(q2, "Expected 'down', 'press', or 'up' after action dot"));
                            },
                        };
                        let q4 = self.consume(q2 + 1, &TokenKind::LParen, "Expected '(' after action method")?;
                        if q4 >= self.tokens.len() {
                            return Err(self.error_at(q4, "Expected action name string in parentheses"));
                        }
                        let name = match &self.tokens[q4].kind {
                            TokenKind::StringLit(s) => s.clone(),
                            TokenKind::Ident(s) => s.clone(),
                            _ => {
                                return Err(self.error_at(q4, "Expected action name string in parentheses"));
                            },
                        };
                        let q6 = self.consume(q4 + 1, &TokenKind::RParen, "Expected ')' after action name")?;
                        if crate::text::str_eq(mode.as_str(), "down") {
                            Ok((EventKind::ActionDown(name), q6))
                        } else if crate::text::str_eq(mode.as_str(), "press") {
                            Ok((EventKind::ActionPress(name), q6))
                        } else if crate::text::str_eq(mode.as_str(), "up") {
                            Ok((EventKind::ActionUp(name), q6))
                        } else {
                            let mut msg = String::from_str("Unknown action event '");
                            msg.append(mode.as_str());
                            msg.append("'");
                            Err(ParseError { message: msg, span: self.span_at(q6) })
                        }
                    } else if crate::text::str_eq(id.as_str(), "message") && self.check(q + 1, &TokenKind::LParen) {
                        if q + 2 >= self.tokens.len() {
                            return Err(self.error_at(q + 2, "Expected message name string in parentheses"));
                        }
                        let m = match &self.tokens[q + 2].kind {
                            TokenKind::StringLit(s) => s.clone(),
                            _ => {
                                return Err(self.error_at(q + 2, "Expected message name string in parentheses"));
                            },
                        };
                        let q4 = self.consume(q + 3, &TokenKind::RParen, "Expected ')' after message name")?;
                        Ok((EventKind::Message(m), q4))
                    } else if crate::text::str_eq(id.as_str(), "scene") && self.check(q + 1, &TokenKind::Dot)
                        && self.ident_is(q + 2, "switched") && self.check(q + 3, &TokenKind::LParen) {
                        if q + 4 >= self.tokens.len() {
                            return Err(self.error_at(q + 4, "Expected scene name string in parentheses"));
                        }
                        let m = match &self.tokens[q + 4].kind {
                            TokenKind::StringLit(s) => s.clone(),
                            _ => {
                                return Err(self.error_at(q + 4, "Expected scene name string in parentheses"));
                            },
                        };
                        let q6 = self.consume(q + 5, &TokenKind::RParen, "Expected ')' after scene name")?;
                        let mut name = String::from_str("__scene_switched:");
                        name.append(m.as_str());
                        Ok((EventKind::Message(name), q6))
                    } else if crate::text::str_eq(id.as_str(), "click") && self.check(q + 1, &TokenKind::LParen) {
                        if q + 2 >= self.tokens.len() {
                            return Err(self.error_at(q + 2, "Expected object name in parentheses"));
                        }
                        let o = match &self.tokens[q + 2].kind {
                            TokenKind::Ident(o) => o.clone(),
                            _ => {
                                return Err(self.error_at(q + 2, "Expected object name in parentheses"));
                            },
                        };
                        let q4 = self.consume(q + 3, &TokenKind::RParen, "Expected ')' after object name")?;
                        let mut name = String::from_str("__click:");
                        name.append(o.as_str());
                        Ok((EventKind::Message(name), q4))
                    } else if self.check(q + 1, &TokenKind::Touches) {
                        if q + 2 < self.tokens.len() {
                            match &self.tokens[q + 2].kind {
                                TokenKind::Ident(b) => Ok((EventKind::Touches { object_a: id.clone(), object_b: b.clone() }, q + 3)),
                                _ => Err(self.error_at(q + 2, "Expected target object identifier after 'touches'")),
                            }
                        } else {
                            Err(self.error_at(q + 2, "Expected target object identifier after 'touches'"))
                        }
                    } else {
                        let mut msg = String::from_str("Expected 'touches' or action after object '");
                        msg.append(id.as_str());
                        msg.append("'");
                        Err(ParseError { message: msg, span: self.span_at(q + 1) })
                    }
                },
                _ => Err(self.error_at(q, "Expected event condition after 'when'")),
            }
        } else if self.check(p, &TokenKind::Every) || self.check(p, &TokenKind::After) {
            let every = self.check(p, &TokenKind::Every);
            let secs: u64 = if p + 1 < self.tokens.len() {
                match &self.tokens[p + 1].kind {
                    TokenKind::Number(s) => whole_seconds_exec(s),
                    _ => {
                        return Err(self.error_at(p + 1, "Expected number literal"));
                    },
                }
            } else {
                return Err(self.error_at(p + 1, "Expected number literal"));
            };
            if every {
                let q2 = self.consume(p + 2, &TokenKind::Seconds, "Expected 'seconds' after number in every event")?;
                Ok((EventKind::EverySeconds(secs), q2))
            } else {
                let q2 = self.consume(p + 2, &TokenKind::Seconds, "Expected 'seconds' after number in after event")?;
                Ok((EventKind::AfterSeconds(secs), q2))
            }
        } else {
            Err(self.error_at(p, "Expected 'when', 'every', or 'after'"))
        }
    }

    fn parse_event(&self, p: usize) -> (r: Result<(EventDef, usize), ParseError>)
        requires
            p <= self.tokens@.len() < usize::MAX,
        ensures
            event_res(r, g_event(self.toks(), p as int)),
            r matches Ok((_, q)) ==> p < q <= self.tokens@.len(),
    {
        reveal(g_event);
        let span = self.span_at(p);
        let (kind, q) = self.parse_event_kind(p)?;
        let q1 = self.consume(q, &TokenKind::Colon, "Expected ':' after event declaration")?;
        let (body, q2) = self.parse_block_at(q1)?;
        Ok((EventDef { kind, body, span }, q2))
    }

    fn parse_params(&self, acc: Vec<String>, q: usize) -> (r: Result<(Vec<String>, usize), ParseError>)
        requires
            q <= self.tokens@.len() < usize::MAX,
        ensures
            match g_params(self.toks(), strings_view(acc@), q as int) {
                Ok((v, q1)) => r matches Ok((a, q2)) && strings_view(a@) == v && q2 == q1,
                Err(x) => r matches Err(er) && err_is(er, x),
            },
            r matches Ok((_, q2)) ==> q < q2 <= self.tokens@.len(),
        decreases self.tokens@.len() - q,
    {
        if q >= self.tokens.len() {
            return Err(self.error_at(q, "Expected parameter name"));
        }
        match &self.tokens[q].kind {
            TokenKind::Ident(pn) => {
                let mut acc = acc;
                let ghost old_acc = strings_view(acc@);
                acc.push(pn.clone());
                proof { assert(strings_view(acc@) =~= old_acc.push(pn@)); }
                if self.check(q + 1, &TokenKind::Comma) {
                    if q + 2 > self.tokens.len() {
                        return Err(ParseError { message: String::new(), span: Span::new(0, 0, 0, 0) });
                    }
                    self.parse_params(acc, q + 2)
                } else {
                    Ok((acc, q + 1))
                }
            },
            _ => Err(self.error_at(q, "Expected parameter name")),
        }
    }

    fn parse_function(&self, p: usize) -> (r: Result<(FunctionDef, usize), ParseError>)
        requires
            p <= self.tokens@.len() < usize::MAX,
        ensures
            func_res(r, g_function(self.toks(), p as int)),
            r matches Ok((_, q)) ==> p < q <= self.tokens@.len(),
    {
        reveal(g_function);
        let span = self.span_at(p);
        let q = self.consume(p, &TokenKind::Function, "Expected 'function'")?;
        if q >= self.tokens.len() {
            return Err(self.error_at(q, "Expected function name"));
        }
        let name = match &self.tokens[q].kind {
            TokenKind::Ident(id) => id.clone(),
            _ => {
                return Err(self.error_at(q, "Expected function name"));
            },
        };
        let q2 = self.consume(q + 1, &TokenKind::LParen, "Expected '(' after function name")?;
        let empty: Vec<String> = Vec::new();
        proof { assert(strings_view(empty@) =~= Seq::<Seq<char>>::empty()); }
        let (params, q3) = if !self.check(q2, &TokenKind::RParen) {
            self.parse_params(empty, q2)?
        } else {
            (empty, q2)
        };
        let q4 = self.consume(q3, &TokenKind::RParen, "Expected ')' after parameter list")?;
        let q5 = self.consume(q4, &TokenKind::Colon, "Expected ':' after function signature")?;
        let (body, q6) = self.parse_block_at(q5)?;
        Ok((FunctionDef { name, params, body, span }, q6))
    }
}

} // verus!

verus! {

pub open spec fn prog_acc(events: Seq<EventDef>, functions: Seq<FunctionDef>, top: Seq<Statement>) -> ProgramV {
    ProgramV {
        events: Seq::new(events.len(), |i: int| event_view(events[i])),
        functions: Seq::new(functions.len(), |i: int| func_view(functions[i])),
        top_level: stmts_view(top),
    }
}

impl Parser {
    fn parse_item(
        &self,
        p: usize,
        events: &mut Vec<EventDef>,
        functions: &mut Vec<FunctionDef>,
        top_level: &mut Vec<Statement>,
    ) -> (r: Result<usize, ParseError>)
        requires
            p <= self.tokens@.len() < usize::MAX,
        ensures
            match g_item(self.toks(), prog_acc(old(events)@, old(functions)@, old(top_level)@), p as int) {
                Ok((acc2, q)) => r matches Ok(q2) && q2 == q
                    && prog_acc(final(events)@, final(functions)@, final(top_level)@) == acc2,
                Err(x) => r matches Err(er) && err_is(er, x),
            },
            r matches Ok(q) ==> p < q <= self.tokens@.len(),
    {
        reveal(g_item);
        let ghost acc = prog_acc(events@, functions@, top_level@);
        if self.check(p, &TokenKind::When) || self.check(p, &TokenKind::Every) || self.check(p, &TokenKind::After) {
            let (ev, q) = self.parse_event(p)?;
            let ghost evv = event_view(ev);
            events.push(ev);
            proof {
                assert(prog_acc(events@, functions@, top_level@) =~= ProgramV { events: acc.events.push(evv), ..acc });
            }
            Ok(self.skip_newlines(q))
        } else if self.check(p, &TokenKind::Function) {
            let (f, q) = self.parse_function(p)?;
            let ghost fv = func_view(f);
            functions.push(f);
            proof {
                assert(prog_acc(events@, functions@, top_level@) =~= ProgramV { functions: acc.functions.push(fv), ..acc });
            }
            Ok(self.skip_newlines(q))
        } else {
            let (st, q) = self.parse_statement_at(p)?;
            let ghost sv = stmt_view(st);
            top_level.push(st);
            proof {
                assert(prog_acc(events@, functions@, top_level@) =~= ProgramV { top_level: acc.top_level.push(sv), ..acc });
            }
            Ok(self.skip_newlines(q))
        }
    }

    pub closed spec fn wf(self) -> bool {
        self.cursor <= self.tokens@.len() < usize::MAX
    }

    /// A parser at the first of `tokens`.
    pub fn with_tokens(tokens: Vec<Token>) -> (p: Self)
        requires
            tokens@.len() < usize::MAX,
        ensures
            p.wf(),
            p.toks() == toks_view(tokens@),
            p.pos() == 0,
    {
        Parser { tokens, cursor: 0 }
    }

    /// Parses the remaining tokens as a program: event handlers, functions and top-level
    /// statements, separated by newlines, up to the end of input.
    pub fn parse_program(&mut self) -> (r: Result<Program, ParseError>)
        requires
            old(self).wf(),
        ensures
            final(self).wf(),
            final(self).toks() == old(self).toks(),
            match g_program_rest(old(self).toks(), ProgramV { events: Seq::empty(), functions: Seq::empty(), top_level: Seq::empty() },
                skip_nl(old(self).toks(), old(self).pos())) {
                Ok(v) => r matches Ok(prog) && program_view(prog) == v,
                Err(x) => r matches Err(er) && err_is(er, x),
            },
    {
        let ghost ts = self.toks();
        let mut events: Vec<EventDef> = Vec::new();
        let mut functions: Vec<FunctionDef> = Vec::new();
        let mut top_level: Vec<Statement> = Vec::new();
        let mut p = self.skip_newlines(self.cursor);
        let ghost target = g_program_rest(ts, ProgramV { events: Seq::empty(), functions: Seq::empty(), top_level: Seq::empty() }, p as int);
        proof {
            assert(prog_acc(events@, functions@, top_level@) =~= ProgramV { events: Seq::empty(), functions: Seq::empty(), top_level: Seq::empty() });
        }
        while !self.at_end(p)
            invariant
                self.wf(),
                self.toks() == ts,
                ts == old(self).toks(),
                target == g_program_rest(old(self).toks(), ProgramV { events: Seq::empty(), functions: Seq::empty(), top_level: Seq::empty() },
                    skip_nl(old(self).toks(), old(self).pos())),
                p <= self.tokens@.len(),
                target == g_program_rest(ts, prog_acc(events@, functions@, top_level@), p as int),
            decreases self.tokens@.len() - p,
        {
            let ghost acc0 = prog_acc(events@, functions@, top_level@);
            let ghost p0 = p as int;
            match self.parse_item(p, &mut events, &mut functions, &mut top_level) {
                Ok(q) => {
                    proof {
                        let acc2 = prog_acc(events@, functions@, top_level@);
                        assert(g_item(ts, acc0, p0) == Ok::<(ProgramV, int), PErr>((acc2, q as int)));
                        assert(g_program_rest(ts, acc0, p0) == g_program_rest(ts, acc2, q as int));
                    }
                    p = q;
                },
                Err(e) => {
                    self.cursor = p;
                    return Err(e);
                },
            }
        }
        self.cursor = p;
        let prog = Program { events, functions, top_level };
        proof {
            assert(program_view(prog) =~= prog_acc(prog.events@, prog.functions@, prog.top_level@));
        }
        Ok(prog)
    }

    /// Parses one expression at the current token, moving past it.
    pub fn parse_expression(&mut self) -> (r: Result<Expr, ParseError>)
        requires
            old(self).wf(),
        ensures
            final(self).wf(),
            final(self).toks() == old(self).toks(),
            match g_expr(old(self).toks(), old(self).pos()) {
                Ok((v, q)) => r matches Ok(e) && expr_view(e) == v && final(self).pos() == q,
                Err(x) => r matches Err(er) && err_is(er, x) && final(self).pos() == old(self).pos(),
            },
    {
        match self.parse_expr_at(self.cursor) {
            Ok((e, q)) => {
                self.cursor = q;
                Ok(e)
            },
            Err(x) => Err(x),
        }
    }
}

} // verus!
