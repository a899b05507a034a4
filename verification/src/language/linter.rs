use vstd::prelude::*;
use crate::blocks::block::required_param_count;
use crate::blocks::registry::BlockRegistry;
use crate::blocks::types::BlockType;
use crate::language::ast::{
    EventDef, EventKind, EventKindV, EventV, Expr, ExprV, FuncV, Program, ProgramV, Span, Statement, StmtV,
    event_view, expr_view, exprs_view, func_view, opt_str_view, program_view, stmt_view, stmts_view,
};
use crate::language::diagnostics::Diagnostic;
use crate::language::formatter::{canon_number, canon_number_exec};
use crate::language::source::{parse, spec_parse};
use crate::text::{chars_of, decimal, is_closest, str_eq, string_views, u64_to_string};

verus! {

// ---------------------------------------------------------------------------------------
// What the linter reports
// ---------------------------------------------------------------------------------------

/// A diagnostic as a specification value.
pub struct DiagV {
    pub code: Seq<char>,
    pub message: Seq<char>,
    pub span: Span,
    pub suggestion: Option<Seq<char>>,
}

pub open spec fn diag_view(d: Diagnostic) -> DiagV {
    DiagV {
        code: d.code@,
        message: d.message@,
        span: d.span,
        suggestion: match d.suggestion { Some(s) => Some(s@), None => None },
    }
}

pub open spec fn diags_view(ds: Seq<Diagnostic>) -> Seq<DiagV> {
    Seq::new(ds.len(), |i: int| diag_view(ds[i]))
}

/// Adds `x` to a set kept as a sequence in insertion order.
pub open spec fn set_add(s: Seq<Seq<char>>, x: Seq<char>) -> Seq<Seq<char>> {
    if s.contains(x) { s } else { s.push(x) }
}

/// The candidate that the closest-match search picks, if any.
pub open spec fn closest(query: Seq<char>, cands: Seq<Seq<char>>) -> Option<Seq<char>> {
    if exists|i: int| is_closest(query, cands, i) {
        Some(cands[choose|i: int| is_closest(query, cands, i)])
    } else {
        None
    }
}

/// The fixed inputs of a lint run: the block registry, known objects and actions, and the
/// declared functions.
pub struct LintCtx {
    pub registry: BlockRegistry,
    pub objects: Seq<Seq<char>>,
    pub actions: Seq<Seq<char>>,
    pub functions: Seq<Seq<char>>,
}

/// Lint state: assigned variables (in order of first assignment) and the findings so far.
pub struct LintSt {
    pub defined: Seq<Seq<char>>,
    pub diags: Seq<DiagV>,
}

pub open spec fn report(st: LintSt, code: Seq<char>, message: Seq<char>, span: Span, suggestion: Option<Seq<char>>) -> LintSt {
    LintSt { diags: st.diags.push(DiagV { code, message, span, suggestion }), ..st }
}

pub open spec fn full_name(target: Option<Seq<char>>, name: Seq<char>) -> Seq<char> {
    match target {
        Some(t) => t + "."@ + name,
        None => name,
    }
}

pub open spec fn is_known_callable(ctx: LintCtx, n: Seq<char>) -> bool {
    ctx.registry.has(n) || ctx.functions.contains(n)
}

/// Checks an expression: identifiers must be assigned variables, known objects, blocks or
/// declared functions; called names must be blocks or declared functions.
pub open spec fn lint_expr(ctx: LintCtx, st: LintSt, e: ExprV) -> LintSt
    decreases e, 0nat,
{
    match e {
        ExprV::Ident(id, sp) => if !st.defined.contains(id) && !ctx.objects.contains(id) && !is_known_callable(ctx, id) {
            report(st, "SL002"@, "Variable \""@ + id + "\" used before being assigned a value."@, sp, closest(id, st.defined))
        } else {
            st
        },
        ExprV::Binary(l, _, r, _) => lint_expr(ctx, lint_expr(ctx, st, *l), *r),
        ExprV::Unary(_, x, _) => lint_expr(ctx, st, *x),
        ExprV::Call(t, n, args, sp) => {
            let full = full_name(t, n);
            let st1 = if !is_known_callable(ctx, full) {
                report(st, "SL003"@, "Unknown game function \""@ + full + "\"."@, sp, closest(full, ctx.registry.names()))
            } else {
                st
            };
            lint_exprs(ctx, st1, args, args.len())
        },
        _ => st,
    }
}

/// Checks the first `k` expressions in order.
pub open spec fn lint_exprs(ctx: LintCtx, st: LintSt, es: Seq<ExprV>, k: nat) -> LintSt
    decreases es, k,
{
    if k == 0 || k > es.len() { st } else { lint_expr(ctx, lint_exprs(ctx, st, es, (k - 1) as nat), es[k - 1]) }
}

pub open spec fn check_object(ctx: LintCtx, st: LintSt, name: Seq<char>, span: Span) -> LintSt {
    if !ctx.objects.contains(name) {
        report(st, "SL001"@, "Unknown object \""@ + name + "\"."@, span, closest(name, ctx.objects))
    } else {
        st
    }
}

/// Whether argument `i` of the named block is declared as an object.
pub open spec fn object_param(ctx: LintCtx, full: Seq<char>, i: int) -> bool {
    match ctx.registry.lookup(full) {
        Some(def) => 0 <= i < def.parameters@.len() && def.parameters@[i].param_type == BlockType::Object,
        None => false,
    }
}

/// Checks the first `k` call arguments: an identifier given for an object parameter must be a
/// known object; other arguments are checked as expressions.
pub open spec fn lint_call_args(ctx: LintCtx, st: LintSt, full: Seq<char>, args: Seq<ExprV>, k: nat) -> LintSt
    decreases args, k,
{
    if k == 0 || k > args.len() {
        st
    } else {
        let st1 = lint_call_args(ctx, st, full, args, (k - 1) as nat);
        let a = args[k - 1];
        if object_param(ctx, full, k - 1) && a is Ident {
            check_object(ctx, st1, a->Ident_0, a->Ident_1)
        } else {
            lint_expr(ctx, st1, a)
        }
    }
}

/// Whether a number literal denotes zero (it has no non-zero digit).
pub open spec fn is_zero_literal(t: Seq<char>) -> bool {
    forall|i: int| 0 <= i < t.len() ==> (t[i] == '0' || t[i] == '.')
}

pub open spec fn call_checks(ctx: LintCtx, st: LintSt, full: Seq<char>, nargs: nat, sp: Span, is_update: bool) -> LintSt {
    if !is_known_callable(ctx, full) {
        report(st, "SL003"@, "Unknown game command or function \""@ + full + "\"."@, sp, closest(full, ctx.registry.names()))
    } else {
        match ctx.registry.lookup(full) {
            Some(def) => {
                let min = required_param_count(def.parameters@);
                let max = def.parameters@.len();
                let st1 = if nargs < min || nargs > max {
                    report(st, "SL004"@, "Command \""@ + full + "\" expects between "@ + decimal(min) + " and "@
                        + decimal(max) + " arguments, but got "@ + decimal(nargs) + "."@, sp, None)
                } else {
                    st
                };
                if is_update && (full == "scene.switch"@ || full == "scene.restart"@) {
                    report(st1, "SL007"@, "Potential per-frame misuse: Calling \""@ + full
                        + "\" inside 'when update' will trigger every frame."@, sp, None)
                } else {
                    st1
                }
            },
            None => st,
        }
    }
}

/// Checks a statement; assignments define their target.
pub open spec fn lint_stmt(ctx: LintCtx, st: LintSt, s: StmtV, is_update: bool) -> LintSt
    decreases s, 0nat,
{
    match s {
        StmtV::Assign(t, _, v, _) => {
            let st1 = lint_expr(ctx, st, v);
            LintSt { defined: set_add(st1.defined, t), ..st1 }
        },
        StmtV::Call(t, n, args, sp) => {
            let full = full_name(t, n);
            lint_call_args(ctx, call_checks(ctx, st, full, args.len(), sp, is_update), full, args, args.len())
        },
        StmtV::If(c, tb, eb, _) => {
            let st1 = lint_stmts(ctx, lint_expr(ctx, st, c), tb, tb.len(), is_update);
            match eb {
                Some(b) => lint_stmts(ctx, st1, b, b.len(), is_update),
                None => st1,
            }
        },
        StmtV::Repeat(count, body, sp) => {
            let st1 = lint_expr(ctx, st, count);
            let st2 = match count {
                ExprV::Number(t, _) => if is_zero_literal(t) {
                    report(st1, "SL008"@, "Repeat count is "@ + canon_number(t) + " <= 0, body will never execute."@, sp, None)
                } else {
                    st1
                },
                _ => st1,
            };
            lint_stmts(ctx, st2, body, body.len(), is_update)
        },
        StmtV::Return(v, _) => match v {
            Some(x) => lint_expr(ctx, st, x),
            None => st,
        },
        StmtV::Assert(x, _) => lint_expr(ctx, st, x),
    }
}

/// Checks the first `k` statements in order.
pub open spec fn lint_stmts(ctx: LintCtx, st: LintSt, ss: Seq<StmtV>, k: nat, is_update: bool) -> LintSt
    decreases ss, k,
{
    if k == 0 || k > ss.len() { st } else { lint_stmt(ctx, lint_stmts(ctx, st, ss, (k - 1) as nat, is_update), ss[k - 1], is_update) }
}

pub open spec fn stmt_v_span(s: StmtV) -> Span {
    match s {
        StmtV::Assign(_, _, _, sp) => sp,
        StmtV::Call(_, _, _, sp) => sp,
        StmtV::If(_, _, _, sp) => sp,
        StmtV::Repeat(_, _, sp) => sp,
        StmtV::Return(_, sp) => sp,
        StmtV::Assert(_, sp) => sp,
    }
}

/// Index of the first `return` among the first `k` statements, if any.
pub open spec fn first_return(ss: Seq<StmtV>, k: nat) -> Option<int>
    decreases k,
{
    if k == 0 || k > ss.len() {
        None
    } else {
        match first_return(ss, (k - 1) as nat) {
            Some(i) => Some(i),
            None => if ss[k - 1] is Return { Some(k - 1) } else { None },
        }
    }
}

/// Checks the first `k` statements of an event body, reporting each statement that follows a
/// `return`.
pub open spec fn lint_body(ctx: LintCtx, st: LintSt, ss: Seq<StmtV>, k: nat, is_update: bool) -> LintSt
    decreases k,
{
    if k == 0 || k > ss.len() {
        st
    } else {
        let st1 = lint_body(ctx, st, ss, (k - 1) as nat, is_update);
        let st2 = if first_return(ss, (k - 1) as nat) is Some {
            report(st1, "SL006"@, "Unreachable code detected."@, stmt_v_span(ss[k - 1]), None)
        } else {
            st1
        };
        lint_stmt(ctx, st2, ss[k - 1], is_update)
    }
}

/// Checks an event handler: its trigger's action or objects, then its body.
pub open spec fn lint_event(ctx: LintCtx, st: LintSt, ev: EventV) -> LintSt {
    let st1 = match ev.kind {
        EventKindV::ActionDown(a) => check_action(ctx, st, a, ev.span),
        EventKindV::ActionPress(a) => check_action(ctx, st, a, ev.span),
        EventKindV::ActionUp(a) => check_action(ctx, st, a, ev.span),
        EventKindV::Touches(a, b) => check_object(ctx, check_object(ctx, st, a, ev.span), b, ev.span),
        _ => st,
    };
    lint_body(ctx, st1, ev.body, ev.body.len(), ev.kind is Update)
}

pub open spec fn check_action(ctx: LintCtx, st: LintSt, a: Seq<char>, span: Span) -> LintSt {
    if !ctx.actions.contains(a) {
        report(st, "SL010"@, "Unknown input action \""@ + a + "\"."@, span, closest(a, ctx.actions))
    } else {
        st
    }
}

pub open spec fn lint_events(ctx: LintCtx, st: LintSt, es: Seq<EventV>, k: nat) -> LintSt
    decreases k,
{
    if k == 0 || k > es.len() { st } else { lint_event(ctx, lint_events(ctx, st, es, (k - 1) as nat), es[k - 1]) }
}

/// Checks the first `k` functions; parameters count as assigned inside their function only.
pub open spec fn lint_functions(ctx: LintCtx, st: LintSt, fs: Seq<FuncV>, k: nat) -> LintSt
    decreases k,
{
    if k == 0 || k > fs.len() {
        st
    } else {
        let st1 = lint_functions(ctx, st, fs, (k - 1) as nat);
        let f = fs[k - 1];
        let inner = LintSt { defined: add_all(st1.defined, f.params, f.params.len()), ..st1 };
        let st2 = lint_stmts(ctx, inner, f.body, f.body.len(), false);
        LintSt { defined: st1.defined, ..st2 }
    }
}

pub open spec fn add_all(s: Seq<Seq<char>>, xs: Seq<Seq<char>>, k: nat) -> Seq<Seq<char>>
    decreases k,
{
    if k == 0 || k > xs.len() { s } else { set_add(add_all(s, xs, (k - 1) as nat), xs[k - 1]) }
}

/// The findings for a whole program: top-level statements, then functions, then events.
pub open spec fn lint_program(registry: BlockRegistry, objects: Seq<Seq<char>>, actions: Seq<Seq<char>>, p: ProgramV) -> Seq<DiagV> {
    let fnames = add_all(Seq::empty(), p.functions.map_values(|f: FuncV| f.name), p.functions.len());
    let ctx = LintCtx { registry, objects, actions, functions: fnames };
    let st0 = LintSt { defined: Seq::empty(), diags: Seq::empty() };
    let st1 = lint_stmts(ctx, st0, p.top_level, p.top_level.len(), false);
    let st2 = lint_functions(ctx, st1, p.functions, p.functions.len());
    lint_events(ctx, st2, p.events, p.events.len()).diags
}

} // verus!

verus! {

// ---------------------------------------------------------------------------------------
// Set helpers
// ---------------------------------------------------------------------------------------

proof fn lemma_closest_unique(q: Seq<char>, cs: Seq<Seq<char>>, i: int, j: int)
    requires
        is_closest(q, cs, i),
        is_closest(q, cs, j),
    ensures
        i == j,
{
    if i < j {
        assert(crate::text::edit_distance(q, cs[j]) < crate::text::edit_distance(q, cs[i]));
    } else if j < i {
        assert(crate::text::edit_distance(q, cs[i]) < crate::text::edit_distance(q, cs[j]));
    }
}

/// Whether `x` is in a vector of strings.
pub(crate) fn vec_has(v: &Vec<String>, x: &str) -> (r: bool)
    ensures
        r == string_views(v@).contains(x@),
{
    let ghost sv = string_views(v@);
    for i in 0..v.len()
        invariant
            sv == string_views(v@),
            forall|k: int| 0 <= k < i ==> sv[k] != x@,
    {
        if crate::text::str_eq(v[i].as_str(), x) {
            assert(sv[i as int] == x@);
            return true;
        }
    }
    false
}

/// Adds `x` to a vector of strings used as a set.
fn vec_add(v: &mut Vec<String>, x: &String)
    ensures
        string_views(final(v)@) == set_add(string_views(old(v)@), x@),
{
    if !vec_has(v, x.as_str()) {
        let ghost old_v = string_views(v@);
        v.push(x.clone());
        assert(string_views(v@) =~= old_v.push(x@));
    }
}

/// The entry of `v` closest to `query`, as the closest-match search picks it.
fn closest_in(v: &Vec<String>, query: &str) -> (r: Option<String>)
    ensures
        match closest(query@, string_views(v@)) {
            Some(s) => r matches Some(x) && x@ == s,
            None => r is None,
        },
{
    match crate::text::closest_match(query, v) {
        Some(i) => {
            proof {
                let cs = string_views(v@);
                let j = choose|j: int| is_closest(query@, cs, j);
                lemma_closest_unique(query@, cs, i as int, j);
            }
            Some(v[i].clone())
        },
        None => None,
    }
}

fn registry_similar(registry: &BlockRegistry, query: &str) -> (r: Option<String>)
    ensures
        match closest(query@, registry.names()) {
            Some(s) => r matches Some(x) && x@ == s,
            None => r is None,
        },
{
    match registry.find_similar(query) {
        Some(s) => {
            proof {
                let cs = registry.names();
                let i = choose|i: int| is_closest(query@, cs, i) && cs[i] == s@;
                let j = choose|j: int| is_closest(query@, cs, j);
                lemma_closest_unique(query@, cs, i, j);
            }
            Some(String::from_str(s))
        },
        None => {
            proof {
                let cs = registry.names();
                if exists|j: int| is_closest(query@, cs, j) {
                    let j = choose|j: int| is_closest(query@, cs, j);
                    assert(crate::text::edit_distance(query@, cs[j]) > 3);
                }
            }
            None
        },
    }
}

} // verus!

verus! {

// ---------------------------------------------------------------------------------------
// The linter
// ---------------------------------------------------------------------------------------

/// Objects known to every linter.
pub open spec fn default_objects() -> Seq<Seq<char>> {
    seq!["Player"@, "Enemy"@, "Coin"@, "Goal"@, "Door"@]
}

/// Input actions known to every linter.
pub open spec fn default_actions() -> Seq<Seq<char>> {
    seq!["left"@, "right"@, "up"@, "down"@, "jump"@, "action"@, "pause"@]
}

proof fn lemma_diags_push(ds: Seq<Diagnostic>, d: Diagnostic)
    ensures
        diags_view(ds.push(d)) == diags_view(ds).push(diag_view(d)),
{
    assert(diags_view(ds.push(d)) =~= diags_view(ds).push(diag_view(d)));
}

/// Static checker for programs: unknown objects, variables, commands and actions, argument
/// counts, unreachable code and per-frame misuse.
pub struct Linter<'a> {
    registry: &'a BlockRegistry,
    known_objects: Vec<String>,
    known_actions: Vec<String>,
    diagnostics: Vec<Diagnostic>,
    defined_vars: Vec<String>,
    declared_functions: Vec<String>,
}

impl<'a> Linter<'a> {
    /// The block registry the linter checks against.
    pub closed spec fn registry_view(self) -> BlockRegistry {
        *self.registry
    }

    /// The known object names.
    pub closed spec fn objects(self) -> Seq<Seq<char>> {
        string_views(self.known_objects@)
    }

    /// The known input actions.
    pub closed spec fn actions(self) -> Seq<Seq<char>> {
        string_views(self.known_actions@)
    }

    closed spec fn ctx(self) -> LintCtx {
        LintCtx {
            registry: *self.registry,
            objects: self.objects(),
            actions: self.actions(),
            functions: string_views(self.declared_functions@),
        }
    }

    closed spec fn st(self) -> LintSt {
        LintSt { defined: string_views(self.defined_vars@), diags: diags_view(self.diagnostics@) }
    }

    /// The fields that checking a program part leaves alone.
    closed spec fn same_ctx(self, other: Self) -> bool {
        &&& self.registry == other.registry
        &&& self.known_objects == other.known_objects
        &&& self.known_actions == other.known_actions
        &&& self.declared_functions == other.declared_functions
    }

    /// A linter with the default objects and actions.
    pub fn new(registry: &'a BlockRegistry) -> (l: Self)
        ensures
            l.registry_view() == *registry,
            l.objects() == default_objects(),
            l.actions() == default_actions(),
    {
        let mut known_objects: Vec<String> = Vec::new();
        known_objects.push(String::from_str("Player"));
        known_objects.push(String::from_str("Enemy"));
        known_objects.push(String::from_str("Coin"));
        known_objects.push(String::from_str("Goal"));
        known_objects.push(String::from_str("Door"));
        let mut known_actions: Vec<String> = Vec::new();
        known_actions.push(String::from_str("left"));
        known_actions.push(String::from_str("right"));
        known_actions.push(String::from_str("up"));
        known_actions.push(String::from_str("down"));
        known_actions.push(String::from_str("jump"));
        known_actions.push(String::from_str("action"));
        known_actions.push(String::from_str("pause"));
        let l = Linter {
            registry,
            known_objects,
            known_actions,
            diagnostics: Vec::new(),
            defined_vars: Vec::new(),
            declared_functions: Vec::new(),
        };
        assert(l.objects() =~= default_objects());
        assert(l.actions() =~= default_actions());
        l
    }

    /// The same linter with more known objects.
    pub fn with_objects(self, objects: Vec<String>) -> (l: Self)
        ensures
            l.registry_view() == self.registry_view(),
            l.actions() == self.actions(),
            l.objects() == add_all(self.objects(), string_views(objects@), objects@.len()),
    {
        let mut l = self;
        let ghost o0 = l.objects();
        let ghost xs = string_views(objects@);
        for i in 0..objects.len()
            invariant
                xs == string_views(objects@),
                l.registry == self.registry,
                l.known_actions == self.known_actions,
                l.objects() == add_all(o0, xs, i as nat),
        {
            vec_add(&mut l.known_objects, &objects[i]);
        }
        l
    }

    fn push_diag(&mut self, d: Diagnostic)
        ensures
            final(self).same_ctx(*old(self)),
            final(self).defined_vars == old(self).defined_vars,
            final(self).st() == report(old(self).st(), d.code@, d.message@, d.span, opt_str_view(d.suggestion)),
    {
        proof {
            lemma_diags_push(self.diagnostics@, d);
        }
        self.diagnostics.push(d);
    }

    fn check_object(&mut self, name: &String, span: Span)
        ensures
            final(self).same_ctx(*old(self)),
            final(self).defined_vars == old(self).defined_vars,
            final(self).st() == check_object(old(self).ctx(), old(self).st(), name@, span),
    {
        if !vec_has(&self.known_objects, name.as_str()) {
            let mut m = String::from_str("Unknown object \"");
            m.append(name.as_str());
            m.append("\".");
            let d0 = Diagnostic::new("SL001", m.as_str(), span);
            let d = match closest_in(&self.known_objects, name.as_str()) {
                Some(c) => d0.with_suggestion(c.as_str()),
                None => d0,
            };
            self.push_diag(d);
        }
    }

    fn check_action(&mut self, action: &String, span: Span)
        ensures
            final(self).same_ctx(*old(self)),
            final(self).defined_vars == old(self).defined_vars,
            final(self).st() == check_action(old(self).ctx(), old(self).st(), action@, span),
    {
        if !vec_has(&self.known_actions, action.as_str()) {
            let mut m = String::from_str("Unknown input action \"");
            m.append(action.as_str());
            m.append("\".");
            let d0 = Diagnostic::new("SL010", m.as_str(), span);
            let d = match closest_in(&self.known_actions, action.as_str()) {
                Some(c) => d0.with_suggestion(c.as_str()),
                None => d0,
            };
            self.push_diag(d);
        }
    }

    fn lint_expr(&mut self, expr: &Expr)
        requires
            old(self).registry.wf(),
        ensures
            final(self).same_ctx(*old(self)),
            final(self).st() == lint_expr(old(self).ctx(), old(self).st(), expr_view(*expr)),
        decreases expr, 0nat,
    {
        match expr {
            Expr::Ident(id, span) => {
                if !vec_has(&self.defined_vars, id.as_str()) && !vec_has(&self.known_objects, id.as_str())
                    && !self.known_callable(id) {
                    let mut m = String::from_str("Variable \"");
                    m.append(id.as_str());
                    m.append("\" used before being assigned a value.");
                    let d0 = Diagnostic::new("SL002", m.as_str(), *span);
                    let d = match closest_in(&self.defined_vars, id.as_str()) {
                        Some(c) => d0.with_suggestion(c.as_str()),
                        None => d0,
                    };
                    self.push_diag(d);
                }
            },
            Expr::Binary { left, right, .. } => {
                self.lint_expr(left);
                self.lint_expr(right);
            },
            Expr::Unary { expr: inner, .. } => {
                self.lint_expr(inner);
            },
            Expr::Call { target, name, args, span } => {
                let ghost ctx = self.ctx();
                let full = full_name_exec(target, name);
                if !self.known_callable(&full) {
                    let mut m = String::from_str("Unknown game function \"");
                    m.append(full.as_str());
                    m.append("\".");
                    let d0 = Diagnostic::new("SL003", m.as_str(), *span);
                    let d = match registry_similar(self.registry, full.as_str()) {
                        Some(c) => d0.with_suggestion(c.as_str()),
                        None => d0,
                    };
                    self.push_diag(d);
                }
                assert(expr_view(*expr)->Call_2 =~= exprs_view(args@));
                self.lint_args(args);
            },
            _ => {},
        }
    }

    fn lint_args(&mut self, args: &Vec<Expr>)
        requires
            old(self).registry.wf(),
        ensures
            final(self).same_ctx(*old(self)),
            final(self).st() == lint_exprs(old(self).ctx(), old(self).st(), exprs_view(args@), args@.len()),
        decreases args, 1nat,
    {
        let ghost ctx = self.ctx();
        let ghost st1 = self.st();
        let ghost av = exprs_view(args@);
        let ghost s0 = *self;
        for i in 0..args.len()
            invariant
                self.registry.wf(),
                self.same_ctx(s0),
                ctx == self.ctx(),
                ctx == s0.ctx(),
                st1 == s0.st(),
                av == exprs_view(args@),
                self.st() == lint_exprs(ctx, st1, av, i as nat),
        {
            self.lint_expr(&args[i]);
        }
    }

    fn call_checks(&mut self, full: &String, nargs: usize, span: Span, is_update: bool)
        requires
            old(self).registry.wf(),
        ensures
            final(self).same_ctx(*old(self)),
            final(self).defined_vars == old(self).defined_vars,
            final(self).st() == call_checks(old(self).ctx(), old(self).st(), full@, nargs as nat, span, is_update),
    {
        if !self.known_callable(full) {
            let mut m = String::from_str("Unknown game command or function \"");
            m.append(full.as_str());
            m.append("\".");
            let d0 = Diagnostic::new("SL003", m.as_str(), span);
            let d = match registry_similar(self.registry, full.as_str()) {
                Some(c) => d0.with_suggestion(c.as_str()),
                None => d0,
            };
            self.push_diag(d);
        } else {
            let reg = self.registry;
            match reg.get(full.as_str()) {
                Some(def) => {
                    let min = def.min_params();
                    let max = def.parameters.len();
                    if nargs < min || nargs > max {
                        let mut m = String::from_str("Command \"");
                        m.append(full.as_str());
                        m.append("\" expects between ");
                        let a = u64_to_string(min as u64);
                        m.append(a.as_str());
                        m.append(" and ");
                        let b = u64_to_string(max as u64);
                        m.append(b.as_str());
                        m.append(" arguments, but got ");
                        let c = u64_to_string(nargs as u64);
                        m.append(c.as_str());
                        m.append(".");
                        let d = Diagnostic::new("SL004", m.as_str(), span);
                        self.push_diag(d);
                    }
                    if is_update && (str_eq(full.as_str(), "scene.switch") || str_eq(full.as_str(), "scene.restart")) {
                        let mut m = String::from_str("Potential per-frame misuse: Calling \"");
                        m.append(full.as_str());
                        m.append("\" inside 'when update' will trigger every frame.");
                        let d = Diagnostic::new("SL007", m.as_str(), span);
                        self.push_diag(d);
                    }
                },
                None => {},
            }
        }
    }

    fn lint_call_args(&mut self, full: &String, args: &Vec<Expr>)
        requires
            old(self).registry.wf(),
        ensures
            final(self).same_ctx(*old(self)),
            final(self).st() == lint_call_args(old(self).ctx(), old(self).st(), full@, exprs_view(args@), args@.len()),
    {
        let ghost ctx = self.ctx();
        let ghost st1 = self.st();
        let ghost av = exprs_view(args@);
        let ghost s0 = *self;
        let reg = self.registry;
        let def = reg.get(full.as_str());
        for i in 0..args.len()
            invariant
                self.registry.wf(),
                self.same_ctx(s0),
                ctx == self.ctx(),
                ctx == s0.ctx(),
                st1 == s0.st(),
                av == exprs_view(args@),
                reg == s0.registry,
                match def {
                    Some(d) => ctx.registry.lookup(full@) == Some(*d),
                    None => ctx.registry.lookup(full@) is None,
                },
                self.st() == lint_call_args(ctx, st1, full@, av, i as nat),
        {
            let is_obj = match def {
                Some(d) => i < d.parameters.len() && matches!(d.parameters[i].param_type, BlockType::Object),
                None => false,
            };
            assert(is_obj == object_param(ctx, full@, i as int));
            if is_obj {
                match &args[i] {
                    Expr::Ident(obj, sp) => {
                        self.check_object(obj, *sp);
                    },
                    _ => {
                        self.lint_expr(&args[i]);
                    },
                }
            } else {
                self.lint_expr(&args[i]);
            }
        }
    }

    fn lint_statement(&mut self, stmt: &Statement, is_update: bool)
        requires
            old(self).registry.wf(),
        ensures
            final(self).same_ctx(*old(self)),
            final(self).st() == lint_stmt(old(self).ctx(), old(self).st(), stmt_view(*stmt), is_update),
        decreases stmt, 0nat,
    {
        match stmt {
            Statement::Assign { target, value, .. } => {
                self.lint_expr(value);
                vec_add(&mut self.defined_vars, target);
            },
            Statement::Call { target, name, args, span } => {
                assert(stmt_view(*stmt)->Call_2 =~= exprs_view(args@));
                let full = full_name_exec(target, name);
                self.call_checks(&full, args.len(), *span, is_update);
                self.lint_call_args(&full, args);
            },
            Statement::If { condition, then_body, else_body, .. } => {
                assert(stmt_view(*stmt)->If_1 =~= stmts_view(then_body@));
                self.lint_expr(condition);
                self.lint_block(then_body, is_update);
                match else_body {
                    Some(eb) => {
                        assert(stmt_view(*stmt)->If_2 == Some(stmts_view(eb@))) by {
                            assert(stmt_view(*stmt)->If_2->Some_0 =~= stmts_view(eb@));
                        }
                        self.lint_block(eb, is_update);
                    },
                    None => {},
                }
            },
            Statement::Repeat { count, body, span } => {
                assert(stmt_view(*stmt)->Repeat_1 =~= stmts_view(body@));
                self.lint_expr(count);
                match count {
                    Expr::Number(n, _) => {
                        if is_zero_text(n) {
                            let mut m = String::from_str("Repeat count is ");
                            let c = canon_number_exec(n);
                            m.append(c.as_str());
                            m.append(" <= 0, body will never execute.");
                            let d = Diagnostic::new("SL008", m.as_str(), *span);
                            self.push_diag(d);
                        }
                    },
                    _ => {},
                }
                self.lint_block(body, is_update);
            },
            Statement::Return { value, .. } => {
                match value {
                    Some(v) => {
                        self.lint_expr(v);
                    },
                    None => {},
                }
            },
            Statement::Assert { expr, .. } => {
                self.lint_expr(expr);
            },
        }
    }

    fn lint_block(&mut self, ss: &Vec<Statement>, is_update: bool)
        requires
            old(self).registry.wf(),
        ensures
            final(self).same_ctx(*old(self)),
            final(self).st() == lint_stmts(old(self).ctx(), old(self).st(), stmts_view(ss@), ss@.len(), is_update),
        decreases ss, 1nat,
    {
        let ghost ctx = self.ctx();
        let ghost st1 = self.st();
        let ghost sv = stmts_view(ss@);
        let ghost s0 = *self;
        for i in 0..ss.len()
            invariant
                self.registry.wf(),
                self.same_ctx(s0),
                ctx == self.ctx(),
                ctx == s0.ctx(),
                st1 == s0.st(),
                sv == stmts_view(ss@),
                self.st() == lint_stmts(ctx, st1, sv, i as nat, is_update),
        {
            self.lint_statement(&ss[i], is_update);
        }
    }

    fn lint_event(&mut self, event: &EventDef)
        requires
            old(self).registry.wf(),
        ensures
            final(self).same_ctx(*old(self)),
            final(self).st() == lint_event(old(self).ctx(), old(self).st(), event_view(*event)),
    {
        let ghost ctx = self.ctx();
        let ghost ev = event_view(*event);
        match &event.kind {
            EventKind::ActionDown(a) => self.check_action(a, event.span),
            EventKind::ActionPress(a) => self.check_action(a, event.span),
            EventKind::ActionUp(a) => self.check_action(a, event.span),
            EventKind::Touches { object_a, object_b } => {
                self.check_object(object_a, event.span);
                self.check_object(object_b, event.span);
            },
            _ => {},
        }
        let is_update = matches!(event.kind, EventKind::Update);
        let ghost st1 = self.st();
        let ghost s0 = *self;
        let mut unreachable = false;
        for i in 0..event.body.len()
            invariant
                self.registry.wf(),
                self.same_ctx(s0),
                ctx == self.ctx(),
                ctx == s0.ctx(),
                ev == event_view(*event),
                is_update == (ev.kind is Update),
                unreachable == (first_return(ev.body, i as nat) is Some),
                self.st() == lint_body(ctx, st1, ev.body, i as nat, is_update),
        {
            let stmt = &event.body[i];
            assert(ev.body[i as int] == stmt_view(*stmt));
            if unreachable {
                let sp = stmt.span();
                assert(sp == stmt_v_span(stmt_view(*stmt)));
                let d = Diagnostic::new("SL006", "Unreachable code detected.", sp);
                self.push_diag(d);
            }
            self.lint_statement(stmt, is_update);
            if matches!(stmt, Statement::Return { .. }) {
                unreachable = true;
            }
        }
    }

    /// Checks a whole program: top-level statements, then functions (whose parameters count
    /// as assigned inside them only), then event handlers. Returns the findings in order.
    pub fn lint_program(&mut self, program: &Program) -> (r: Vec<Diagnostic>)
        requires
            old(self).registry_view().wf(),
        ensures
            diags_view(r@) == lint_program(old(self).registry_view(), old(self).objects(), old(self).actions(),
                program_view(*program)),
            final(self).registry_view() == old(self).registry_view(),
            final(self).objects() == old(self).objects(),
            final(self).actions() == old(self).actions(),
    {
        let ghost pv = program_view(*program);
        let ghost fnames = pv.functions.map_values(|f: FuncV| f.name);
        self.diagnostics = Vec::new();
        self.defined_vars = Vec::new();
        self.declared_functions = Vec::new();
        for i in 0..program.functions.len()
            invariant
                pv == program_view(*program),
                fnames == pv.functions.map_values(|f: FuncV| f.name),
                string_views(self.declared_functions@) == add_all(Seq::empty(), fnames, i as nat),
                self.diagnostics@.len() == 0,
                self.defined_vars@.len() == 0,
                self.registry == old(self).registry,
                self.known_objects == old(self).known_objects,
                self.known_actions == old(self).known_actions,
                self.registry.wf(),
        {
            assert(fnames[i as int] == program.functions@[i as int].name@);
            vec_add(&mut self.declared_functions, &program.functions[i].name);
        }
        let ghost ctx = self.ctx();
        assert(self.st().diags =~= Seq::<DiagV>::empty());
        assert(self.st().defined =~= Seq::<Seq<char>>::empty());
        assert(pv.top_level == stmts_view(program.top_level@));
        self.lint_block(&program.top_level, false);
        let ghost st1 = self.st();
        let ghost s0 = *self;
        for i in 0..program.functions.len()
            invariant
                self.registry.wf(),
                self.same_ctx(s0),
                ctx == self.ctx(),
                ctx == s0.ctx(),
                pv == program_view(*program),
                self.st() == lint_functions(ctx, st1, pv.functions, i as nat),
        {
            let f = &program.functions[i];
            let ghost fv = pv.functions[i as int];
            assert(fv == func_view(*f));
            let outer = clone_strings(&self.defined_vars);
            let ghost before = self.st();
            for j in 0..f.params.len()
                invariant
                    self.same_ctx(s0),
                    diags_view(self.diagnostics@) == before.diags,
                    fv == func_view(*f),
                    string_views(self.defined_vars@) == add_all(before.defined, fv.params, j as nat),
            {
                assert(fv.params[j as int] == f.params@[j as int]@);
                vec_add(&mut self.defined_vars, &f.params[j]);
            }
            assert(fv.body == stmts_view(f.body@));
            self.lint_block(&f.body, false);
            self.defined_vars = outer;
        }
        for i in 0..program.events.len()
            invariant
                self.registry.wf(),
                self.same_ctx(s0),
                ctx == self.ctx(),
                pv == program_view(*program),
                self.st() == lint_events(ctx, lint_functions(ctx, st1, pv.functions, pv.functions.len()), pv.events, i as nat),
        {
            assert(pv.events[i as int] == event_view(program.events@[i as int]));
            self.lint_event(&program.events[i]);
        }
        let mut out: Vec<Diagnostic> = Vec::new();
        std::mem::swap(&mut out, &mut self.diagnostics);
        out
    }

    fn known_callable(&self, name: &String) -> (r: bool)
        requires
            self.registry.wf(),
        ensures
            r == is_known_callable(self.ctx(), name@),
    {
        self.registry.contains(name.as_str()) || vec_has(&self.declared_functions, name.as_str())
    }
}

/// A copy of a vector of strings.
pub(crate) fn clone_strings(v: &Vec<String>) -> (r: Vec<String>)
    ensures
        string_views(r@) == string_views(v@),
{
    let mut r: Vec<String> = Vec::new();
    for i in 0..v.len()
        invariant
            r@.len() == i,
            forall|k: int| 0 <= k < i ==> #[trigger] r@[k]@ == v@[k]@,
    {
        r.push(v[i].clone());
    }
    assert(string_views(r@) =~= string_views(v@));
    r
}

/// Whether a number literal's text has no non-zero digit.
fn is_zero_text(t: &String) -> (r: bool)
    ensures
        r == is_zero_literal(t@),
{
    let cs = chars_of(t.as_str());
    for i in 0..cs.len()
        invariant
            cs@ == t@,
            forall|k: int| 0 <= k < i ==> (cs@[k] == '0' || cs@[k] == '.'),
    {
        if cs[i] != '0' && cs[i] != '.' {
            return false;
        }
    }
    true
}

/// `target.name`, or `name` alone.
pub(crate) fn full_name_exec(target: &Option<String>, name: &String) -> (r: String)
    ensures
        r@ == full_name(opt_str_view(*target), name@),
{
    match target {
        Some(t) => {
            let mut s = t.clone();
            s.append(".");
            s.append(name.as_str());
            s
        },
        None => name.clone(),
    }
}

} // verus!

verus! {

/// Parses a source text and lints it with a fresh linter (default objects and actions).
pub fn lint_source(source: &str, registry: &BlockRegistry) -> (r: Result<Vec<Diagnostic>, String>)
    requires
        source@.len() <= usize::MAX / 4,
        registry.wf(),
    ensures
        match spec_parse(source@) {
            Ok(p) => r matches Ok(v) && diags_view(v@) == lint_program(*registry, default_objects(), default_actions(), p),
            Err(m) => r matches Err(s) && s@ == m,
        },
{
    let program = match parse(source) {
        Ok(p) => p,
        Err(e) => {
            return Err(e);
        },
    };
    let mut linter = Linter::new(registry);
    Ok(linter.lint_program(&program))
}

} // verus!
