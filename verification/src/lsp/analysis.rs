use vstd::prelude::*;
use crate::blocks::block::{BlockDefinition, ParameterDefinition};
use crate::blocks::registry::BlockRegistry;
use crate::blocks::types::{BlockType, spec_category_name};
use crate::language::ast::{EventKind, EventKindV, event_view, program_view};
use crate::language::linter::{DiagV, Linter, add_all, default_actions, default_objects, diag_view, diags_view, lint_program};
use crate::language::source::{parse, spec_parse};
use crate::lsp::protocol::{
    CompletionItem, CompletionItemKind, CompletionV, Diagnostic as LspDiagnostic, DiagnosticSeverity, DocumentSymbol,
    Hover, InsertTextFormat, LspDiagV, MarkupContent, MarkupKind, MarkupV, Position, Range, SymbolKind, SymbolV,
    TextEdit, completion_view, lsp_diag_view, markup_view, symbol_view,
};
use crate::text::{lines, lines_of, string_views};

verus! {

// ---------------------------------------------------------------------------------------
// Documents
// ---------------------------------------------------------------------------------------

/// An open text document.
#[derive(Debug)]
pub struct Document {
    pub uri: String,
    pub version: i64,
    pub text: String,
}

impl Document {
    pub fn new(uri: String, version: i64, text: String) -> (d: Self)
        ensures
            d.uri == uri,
            d.version == version,
            d.text == text,
    {
        Document { uri, version, text }
    }

    /// Line `line_index` (zero-based) of the text, as `str::lines` splits it.
    pub fn get_line(&self, line_index: usize) -> (r: Option<String>)
        ensures
            match r {
                Some(l) => line_index < lines_of(self.text@).len() && l@ == lines_of(self.text@)[line_index as int],
                None => line_index >= lines_of(self.text@).len(),
            },
    {
        let ls = lines(self.text.as_str());
        if line_index < ls.len() {
            Some(ls[line_index].clone())
        } else {
            None
        }
    }

    /// The number of lines, at least one.
    pub fn line_count(&self) -> (n: usize)
        ensures
            n == if lines_of(self.text@).len() == 0 { 1 } else { lines_of(self.text@).len() },
    {
        let ls = lines(self.text.as_str());
        if ls.len() == 0 { 1 } else { ls.len() }
    }

    /// The length in bytes of the last line, or zero for an empty text.
    pub fn last_line_len(&self) -> (n: usize)
        ensures
            n == if lines_of(self.text@).len() == 0 {
                0
            } else {
                vstd::utf8::encode_utf8(lines_of(self.text@).last()).len() as usize
            },
    {
        let ls = lines(self.text.as_str());
        if ls.len() == 0 {
            0
        } else {
            ls[ls.len() - 1].as_str().len()
        }
    }
}

// ---------------------------------------------------------------------------------------
// Positions in error messages
// ---------------------------------------------------------------------------------------

pub open spec fn is_digit(c: char) -> bool {
    '0' <= c <= '9'
}

/// The value of a string of decimal digits.
pub open spec fn digits_value(d: Seq<char>) -> nat
    decreases d.len(),
{
    if d.len() == 0 { 0 } else { digits_value(d.drop_last()) * 10 + (d.last() as nat - '0' as nat) as nat }
}

/// The text without one leading `+`.
pub open spec fn unsigned_part(s: Seq<char>) -> Seq<char> {
    if s.len() > 0 && s[0] == '+' { s.drop_first() } else { s }
}

pub open spec fn all_digits(d: Seq<char>) -> bool {
    forall|i: int| 0 <= i < d.len() ==> is_digit(#[trigger] d[i])
}

/// What `str::parse::<u32>` gives: an optional `+`, then one or more decimal digits of a
/// value that fits.
pub open spec fn parse_u32(s: Seq<char>) -> Option<u32> {
    let d = unsigned_part(s);
    if d.len() > 0 && all_digits(d) && digits_value(d) <= u32::MAX {
        Some(digits_value(d) as u32)
    } else {
        None
    }
}

/// Index of the first occurrence of `needle` in `hay` at or after `i`.
pub open spec fn find_from(hay: Seq<char>, needle: Seq<char>, i: int) -> Option<int>
    decreases hay.len() + 1 - i,
{
    if i < 0 || i + needle.len() > hay.len() {
        None
    } else if hay.subrange(i, i + needle.len()) == needle {
        Some(i)
    } else {
        find_from(hay, needle, i + 1)
    }
}

/// Length of the run of decimal digits at the start of `s`.
pub open spec fn digit_run(s: Seq<char>) -> nat
    decreases s.len(),
{
    if s.len() > 0 && is_digit(s[0]) { 1 + digit_run(s.drop_first()) } else { 0 }
}

/// The zero-based line and column named after `line ` in an error message, as
/// `line:column`; a part that does not read as a number counts as 1; `(0, 0)` without
/// such a position.
pub open spec fn line_col_of(msg: Seq<char>) -> (u32, u32) {
    match find_from(msg, "line "@, 0) {
        Some(p) => {
            let rest = msg.skip(p + 5);
            match find_from(rest, ":"@, 0) {
                Some(c) => {
                    let after = rest.skip(c + 1);
                    let line = match parse_u32(rest.take(c)) { Some(v) => v, None => 1u32 };
                    let col = match parse_u32(after.take(digit_run(after) as int)) { Some(v) => v, None => 1u32 };
                    (line.saturating_sub(1), col.saturating_sub(1))
                },
                None => (0, 0),
            }
        },
        None => (0, 0),
    }
}

} // verus!

verus! {

proof fn lemma_digits_prefix(d: Seq<char>, k: int)
    requires
        0 <= k <= d.len(),
        forall|i: int| 0 <= i < d.len() ==> is_digit(#[trigger] d[i]),
    ensures
        digits_value(d.take(k)) <= digits_value(d),
    decreases d.len(),
{
    if k < d.len() {
        let e = d.drop_last();
        assert(e.take(k) =~= d.take(k));
        assert forall|i: int| 0 <= i < e.len() implies is_digit(#[trigger] e[i]) by {
            assert(e[i] == d[i]);
        }
        lemma_digits_prefix(e, k);
    } else {
        assert(d.take(k) =~= d);
    }
}

/// `str::parse::<u32>` of the characters `cs[from..to]`.
pub(crate) fn parse_u32_range(cs: &Vec<char>, from: usize, to: usize) -> (r: Option<u32>)
    requires
        from <= to <= cs@.len(),
    ensures
        r == parse_u32(cs@.subrange(from as int, to as int)),
{
    let ghost s = cs@.subrange(from as int, to as int);
    let mut start = from;
    if from < to && cs[from] == '+' {
        start = from + 1;
    }
    let ghost d = cs@.subrange(start as int, to as int);
    assert(d =~= unsigned_part(s));
    if start == to {
        return None;
    }
    let mut v: u64 = 0;
    for i in start..to
        invariant
            start <= to <= cs@.len(),
            d == cs@.subrange(start as int, to as int),
            s == cs@.subrange(from as int, to as int),
            d == unsigned_part(s),
            v == digits_value(d.take(i - start)),
            v <= u32::MAX,
            forall|j: int| 0 <= j < i - start ==> is_digit(#[trigger] d[j]),
    {
        let c = cs[i];
        assert(d[i - start] == c);
        if !('0' <= c && c <= '9') {
            assert(!is_digit(d[(i - start) as int]));
            assert(!all_digits(d));
            return None;
        }
        let digit = (c as u64) - ('0' as u64);
        assert(d.take(i - start + 1).drop_last() =~= d.take(i - start));
        assert(d.take(i - start + 1).last() == c);
        v = v * 10 + digit;
        assert(v == digits_value(d.take(i - start + 1)));
        if v > 0xFFFF_FFFFu64 {
            proof {
                if all_digits(d) {
                    lemma_digits_prefix(d, i - start + 1);
                }
            }
            return None;
        }
    }
    assert(d.take(d.len() as int) =~= d);
    assert(all_digits(d));
    Some(v as u32)
}

fn matches_at(hay: &Vec<char>, needle: &Vec<char>, i: usize) -> (r: bool)
    requires
        i + needle@.len() <= hay@.len(),
    ensures
        r == (hay@.subrange(i as int, i + needle@.len()) == needle@),
{
    let n = needle.len();
    let hl = hay.len();
    for k in 0..n
        invariant
            n == needle@.len(),
            i + n <= hay@.len(),
            hl == hay@.len(),
            forall|t: int| 0 <= t < k ==> hay@[i + t] == needle@[t],
    {
        if hay[i + k] != needle[k] {
            assert(hay@.subrange(i as int, i + n)[k as int] != needle@[k as int]);
            return false;
        }
    }
    assert(hay@.subrange(i as int, i + n) =~= needle@);
    true
}

/// Index of the first occurrence of `needle` in `hay` at or after `from`.
fn find_chars(hay: &Vec<char>, needle: &Vec<char>, from: usize) -> (r: Option<usize>)
    requires
        from <= hay@.len(),
    ensures
        match find_from(hay@, needle@, from as int) {
            Some(i) => r == Some(i as usize),
            None => r is None,
        },
{
    let n = needle.len();
    if n > hay.len() {
        proof {
            lemma_find_from_bounds(hay@, needle@, from as int);
        }
        return None;
    }
    if n == 0 {
        assert(hay@.subrange(from as int, from as int) =~= needle@);
        return Some(from);
    }
    let mut i = from;
    let hl = hay.len();
    while i <= hay.len() - n
        invariant
            from <= i,
            i <= hay@.len() + 1,
            n == needle@.len(),
            n <= hay@.len(),
            0 < n,
            hl == hay@.len(),
            find_from(hay@, needle@, from as int) == find_from(hay@, needle@, i as int),
        decreases hay@.len() + 1 - i,
    {
        if matches_at(hay, needle, i) {
            return Some(i);
        }
        i = i + 1;
    }
    proof {
        lemma_find_from_bounds(hay@, needle@, i as int);
    }
    None
}

proof fn lemma_find_from_bounds(hay: Seq<char>, needle: Seq<char>, i: int)
    ensures
        match find_from(hay, needle, i) {
            Some(j) => i <= j && j + needle.len() <= hay.len() && hay.subrange(j, j + needle.len()) == needle,
            None => true,
        },
        i + needle.len() > hay.len() ==> find_from(hay, needle, i) is None,
    decreases hay.len() + 1 - i,
{
    if i < 0 || i + needle.len() > hay.len() {
    } else if hay.subrange(i, i + needle.len()) == needle {
    } else {
        lemma_find_from_bounds(hay, needle, i + 1);
    }
}

/// The zero-based line and column of an error message's `line L:C` position.
fn parse_line_col_from_err(err_msg: &str) -> (r: (u32, u32))
    ensures
        r == line_col_of(err_msg@),
{
    let cs = crate::text::chars_of(err_msg);
    let pat = crate::text::chars_of("line ");
    proof {
        reveal_strlit("line ");
    }
    proof {
        lemma_find_from_bounds(cs@, pat@, 0);
    }
    match find_chars(&cs, &pat, 0) {
        Some(p) => {
            let rest_start = p + 5;
            let ghost rest = cs@.skip(rest_start as int);
            let colon = crate::text::chars_of(":");
            proof {
                reveal_strlit(":");
            }
            let mut rest_chars: Vec<char> = Vec::new();
            for t in rest_start..cs.len()
                invariant
                    rest_start <= cs@.len(),
                    rest_chars@ == cs@.subrange(rest_start as int, t as int),
            {
                rest_chars.push(cs[t]);
                assert(cs@.subrange(rest_start as int, t + 1) =~= cs@.subrange(rest_start as int, t as int).push(cs@[t as int]));
            }
            assert(rest_chars@ =~= rest);
            proof {
                lemma_find_from_bounds(rest_chars@, colon@, 0);
            }
            match find_chars(&rest_chars, &colon, 0) {
                Some(c) => {
                    let line = match parse_u32_range(&rest_chars, 0, c) {
                        Some(v) => v,
                        None => 1u32,
                    };
                    let mut e = c + 1;
                    while e < rest_chars.len() && '0' <= rest_chars[e] && rest_chars[e] <= '9'
                        invariant
                            c + 1 <= e <= rest_chars@.len(),
                            digit_run(rest_chars@.skip(c + 1)) == (e - (c + 1)) + digit_run(rest_chars@.skip(e as int)),
                        decreases rest_chars@.len() - e,
                    {
                        assert(rest_chars@.skip(e as int).drop_first() =~= rest_chars@.skip(e + 1));
                        e = e + 1;
                    }
                    assert(digit_run(rest_chars@.skip(e as int)) == 0);
                    let col = match parse_u32_range(&rest_chars, c + 1, e) {
                        Some(v) => v,
                        None => 1u32,
                    };
                    assert(rest.take(c as int) =~= rest_chars@.subrange(0, c as int));
                    assert(rest.skip(c + 1).take(digit_run(rest.skip(c + 1)) as int) =~= rest_chars@.subrange(c + 1, e as int));
                    (line.saturating_sub(1), col.saturating_sub(1))
                },
                None => (0, 0),
            }
        },
        None => (0, 0),
    }
}

} // verus!

verus! {

// ---------------------------------------------------------------------------------------
// The analyzer and its diagnostics
// ---------------------------------------------------------------------------------------

/// Language services over open documents: diagnostics, completion, hover, formatting and
/// outline.
pub struct Analyzer {
    registry: BlockRegistry,
    known_objects: Vec<String>,
    known_actions: Vec<String>,
    known_assets: Vec<String>,
    known_scenes: Vec<String>,
}

/// The objects an analyzer starts with.
pub open spec fn analyzer_objects() -> Seq<Seq<char>> {
    seq!["Player"@, "Enemy"@, "Coin"@, "Hazard"@, "Ground"@, "Door"@, "Goal"@]
}

/// The input actions an analyzer starts with.
pub open spec fn analyzer_actions() -> Seq<Seq<char>> {
    seq!["left"@, "right"@, "up"@, "down"@, "jump"@, "action"@]
}

/// The assets an analyzer starts with.
pub open spec fn analyzer_assets() -> Seq<Seq<char>> {
    seq!["forest"@, "dungeon"@, "sky"@, "coin"@, "jump"@, "hit"@]
}

/// The scenes an analyzer starts with.
pub open spec fn analyzer_scenes() -> Seq<Seq<char>> {
    seq!["main"@, "level1"@, "level2"@, "gameover"@]
}

/// An editor diagnostic from a linter finding: zero-based position, width of the span (4
/// when it is empty), and the suggestion appended to the message.
pub open spec fn lint_item_to_lsp(d: DiagV) -> LspDiagV {
    let line = (if d.span.line >= 1 { d.span.line - 1 } else { 0 }) as u32;
    let col = (if d.span.col >= 1 { d.span.col - 1 } else { 0 }) as u32;
    let width: u32 = if d.span.end > d.span.start { (d.span.end - d.span.start) as u32 } else { 4 };
    LspDiagV {
        range: Range {
            start: Position { line, character: col },
            end: Position { line, character: col.wrapping_add(width) },
        },
        severity: Some(DiagnosticSeverity::Warning),
        code: Some(d.code),
        source: Some("scratch-linter"@),
        message: d.message + match d.suggestion {
            Some(s) => "\n\n💡 Suggestion: Did you mean '"@ + s + "'?"@,
            None => Seq::empty(),
        },
    }
}

/// The diagnostics of a document: one syntax error where it does not parse, else the linter's
/// findings (with the given objects known besides the linter's own).
pub open spec fn document_diagnostics(registry: BlockRegistry, objects: Seq<Seq<char>>, text: Seq<char>) -> Seq<LspDiagV> {
    match spec_parse(text) {
        Err(m) => {
            let (line, col) = line_col_of(m);
            seq![LspDiagV {
                range: Range {
                    start: Position { line, character: col },
                    end: Position { line, character: col.wrapping_add(4) },
                },
                severity: Some(DiagnosticSeverity::Error),
                code: Some("SYNTAX"@),
                source: Some("scratch-lang"@),
                message: m,
            }]
        },
        Ok(p) => lint_program(registry, add_all(default_objects(), objects, objects.len()), default_actions(), p)
            .map_values(|d: DiagV| lint_item_to_lsp(d)),
    }
}

impl Analyzer {
    #[verifier::type_invariant]
    spec fn registry_valid(self) -> bool {
        self.registry.wf()
    }

    /// The block registry.
    pub closed spec fn registry_view(self) -> BlockRegistry {
        self.registry
    }

    pub closed spec fn objects(self) -> Seq<Seq<char>> {
        string_views(self.known_objects@)
    }

    pub closed spec fn actions(self) -> Seq<Seq<char>> {
        string_views(self.known_actions@)
    }

    pub closed spec fn assets(self) -> Seq<Seq<char>> {
        string_views(self.known_assets@)
    }

    pub closed spec fn scenes(self) -> Seq<Seq<char>> {
        string_views(self.known_scenes@)
    }

    /// An analyzer over the core blocks with the default objects, actions, assets and scenes.
    pub fn new() -> (a: Self)
        ensures
            a.registry_view().wf(),
            forall|n: Seq<char>| #[trigger] a.registry_view().has(n) <==> crate::blocks::catalog::is_core_block_name(n),
            forall|n: Seq<char>| #[trigger] a.registry_view().lookup_def(n)
                == crate::blocks::core_catalogue::core_catalogue(n),
            a.objects() == analyzer_objects(),
            a.actions() == analyzer_actions(),
            a.assets() == analyzer_assets(),
            a.scenes() == analyzer_scenes(),
    {
        let registry = BlockRegistry::core_blocks();
        let mut known_objects: Vec<String> = Vec::new();
        known_objects.push(String::from_str("Player"));
        known_objects.push(String::from_str("Enemy"));
        known_objects.push(String::from_str("Coin"));
        known_objects.push(String::from_str("Hazard"));
        known_objects.push(String::from_str("Ground"));
        known_objects.push(String::from_str("Door"));
        known_objects.push(String::from_str("Goal"));
        let mut known_actions: Vec<String> = Vec::new();
        known_actions.push(String::from_str("left"));
        known_actions.push(String::from_str("right"));
        known_actions.push(String::from_str("up"));
        known_actions.push(String::from_str("down"));
        known_actions.push(String::from_str("jump"));
        known_actions.push(String::from_str("action"));
        let mut known_assets: Vec<String> = Vec::new();
        known_assets.push(String::from_str("forest"));
        known_assets.push(String::from_str("dungeon"));
        known_assets.push(String::from_str("sky"));
        known_assets.push(String::from_str("coin"));
        known_assets.push(String::from_str("jump"));
        known_assets.push(String::from_str("hit"));
        let mut known_scenes: Vec<String> = Vec::new();
        known_scenes.push(String::from_str("main"));
        known_scenes.push(String::from_str("level1"));
        known_scenes.push(String::from_str("level2"));
        known_scenes.push(String::from_str("gameover"));
        let a = Analyzer { registry, known_objects, known_actions, known_assets, known_scenes };
        assert(a.objects() =~= analyzer_objects());
        assert(a.actions() =~= analyzer_actions());
        assert(a.assets() =~= analyzer_assets());
        assert(a.scenes() =~= analyzer_scenes());
        a
    }

    pub fn set_known_actions(&mut self, actions: Vec<String>)
        ensures
            final(self).actions() == string_views(actions@),
            final(self).objects() == old(self).objects(),
            final(self).assets() == old(self).assets(),
            final(self).scenes() == old(self).scenes(),
            final(self).registry_view() == old(self).registry_view(),
    {
        proof {
            use_type_invariant(&*self);
        }
        self.known_actions = actions;
    }

    pub fn set_known_assets(&mut self, assets: Vec<String>)
        ensures
            final(self).assets() == string_views(assets@),
            final(self).objects() == old(self).objects(),
            final(self).actions() == old(self).actions(),
            final(self).scenes() == old(self).scenes(),
            final(self).registry_view() == old(self).registry_view(),
    {
        proof {
            use_type_invariant(&*self);
        }
        self.known_assets = assets;
    }

    pub fn set_known_scenes(&mut self, scenes: Vec<String>)
        ensures
            final(self).scenes() == string_views(scenes@),
            final(self).objects() == old(self).objects(),
            final(self).actions() == old(self).actions(),
            final(self).assets() == old(self).assets(),
            final(self).registry_view() == old(self).registry_view(),
    {
        proof {
            use_type_invariant(&*self);
        }
        self.known_scenes = scenes;
    }

    pub fn set_known_objects(&mut self, objects: Vec<String>)
        ensures
            final(self).objects() == string_views(objects@),
            final(self).actions() == old(self).actions(),
            final(self).assets() == old(self).assets(),
            final(self).scenes() == old(self).scenes(),
            final(self).registry_view() == old(self).registry_view(),
    {
        proof {
            use_type_invariant(&*self);
        }
        self.known_objects = objects;
    }

    /// The document's diagnostics: a syntax error, or the linter's findings.
    pub fn compute_diagnostics(&self, doc: &Document) -> (r: Vec<LspDiagnostic>)
        requires
            doc.text@.len() <= usize::MAX / 4,
        ensures
            r@.map_values(|d: LspDiagnostic| lsp_diag_view(d)) == document_diagnostics(
                self.registry_view(),
                self.objects(),
                doc.text@,
            ),
    {
        proof {
            use_type_invariant(self);
        }
        let mut out: Vec<LspDiagnostic> = Vec::new();
        match parse(doc.text.as_str()) {
            Err(msg) => {
                let (line, col) = parse_line_col_from_err(msg.as_str());
                out.push(LspDiagnostic {
                    range: Range {
                        start: Position { line, character: col },
                        end: Position { line, character: col.wrapping_add(4) },
                    },
                    severity: Some(DiagnosticSeverity::Error),
                    code: Some(String::from_str("SYNTAX")),
                    source: Some(String::from_str("scratch-lang")),
                    message: msg,
                });
                assert(out@.map_values(|d: LspDiagnostic| lsp_diag_view(d)) =~= document_diagnostics(
                    self.registry_view(),
                    self.objects(),
                    doc.text@,
                ));
            },
            Ok(program) => {
                let objs = crate::language::linter::clone_strings(&self.known_objects);
                let mut linter = Linter::new(&self.registry).with_objects(objs);
                let items = linter.lint_program(&program);
                let ghost iv = diags_view(items@);
                for i in 0..items.len()
                    invariant
                        iv == diags_view(items@),
                        out@.len() == i,
                        forall|k: int| 0 <= k < i ==> #[trigger] lsp_diag_view(out@[k]) == lint_item_to_lsp(iv[k]),
                {
                    let d = lint_item_lsp(&items[i]);
                    out.push(d);
                }
                assert(out@.map_values(|d: LspDiagnostic| lsp_diag_view(d)) =~= iv.map_values(|d: DiagV| lint_item_to_lsp(d)));
            },
        }
        out
    }
}

fn lint_item_lsp(item: &crate::language::diagnostics::Diagnostic) -> (r: LspDiagnostic)
    ensures
        lsp_diag_view(r) == lint_item_to_lsp(diag_view(*item)),
{
    let line = (if item.span.line >= 1 { item.span.line - 1 } else { 0 }) as u32;
    let col = (if item.span.col >= 1 { item.span.col - 1 } else { 0 }) as u32;
    let width: u32 = if item.span.end > item.span.start { (item.span.end - item.span.start) as u32 } else { 4 };
    let mut msg = item.message.clone();
    match &item.suggestion {
        Some(sug) => {
            msg.append("\n\n💡 Suggestion: Did you mean '");
            msg.append(sug.as_str());
            msg.append("'?");
            assert(msg@ =~= item.message@ + ("\n\n💡 Suggestion: Did you mean '"@ + sug@ + "'?"@));
        },
        None => {
            assert(msg@ =~= item.message@ + Seq::<char>::empty());
        },
    }
    LspDiagnostic {
        range: Range {
            start: Position { line, character: col },
            end: Position { line, character: col.wrapping_add(width) },
        },
        severity: Some(DiagnosticSeverity::Warning),
        code: Some(item.code.clone()),
        source: Some(String::from_str("scratch-linter")),
        message: msg,
    }
}

} // verus!

verus! {

// ---------------------------------------------------------------------------------------
// Completion
// ---------------------------------------------------------------------------------------

/// The parts joined with `sep` between them.
pub open spec fn join(parts: Seq<Seq<char>>, sep: Seq<char>) -> Seq<char>
    decreases parts.len(),
{
    if parts.len() == 0 {
        Seq::empty()
    } else if parts.len() == 1 {
        parts[0]
    } else {
        join(parts.drop_last(), sep) + sep + parts.last()
    }
}

/// The debug name of a block type, as `List(Number)` for lists.
pub open spec fn type_debug(t: BlockType) -> Seq<char>
    decreases t,
{
    match t {
        BlockType::Void => "Void"@,
        BlockType::Number => "Number"@,
        BlockType::String => "String"@,
        BlockType::Boolean => "Boolean"@,
        BlockType::Object => "Object"@,
        BlockType::List(inner) => "List("@ + type_debug(*inner) + ")"@,
        BlockType::Any => "Any"@,
    }
}

/// The placeholder offered for an argument of the given type.
pub open spec fn default_arg(t: BlockType) -> Seq<char> {
    match t {
        BlockType::Object => "Player"@,
        BlockType::Number => "5"@,
        BlockType::String => "\"sound\""@,
        BlockType::Boolean => "true"@,
        _ => "0"@,
    }
}

pub open spec fn param_snippets(ps: Seq<ParameterDefinition>) -> Seq<Seq<char>> {
    Seq::new(ps.len(), |i: int| "${"@ + crate::text::decimal((i + 1) as nat) + ":"@ + default_arg(ps[i].param_type) + "}"@)
}

pub open spec fn param_signatures(ps: Seq<ParameterDefinition>) -> Seq<Seq<char>> {
    Seq::new(ps.len(), |i: int| ps[i].name@ + ": "@ + type_debug(ps[i].param_type))
}

/// `name(param: Type, ...)`.
pub open spec fn block_signature(b: BlockDefinition) -> Seq<char> {
    b.name@ + "("@ + join(param_signatures(b.parameters@), ", "@) + ")"@
}

/// A block's completion: a snippet with a placeholder per parameter, its signature, and a
/// Markdown card with category, description and examples.
pub open spec fn block_completion(b: BlockDefinition) -> CompletionV {
    let sig = block_signature(b);
    CompletionV {
        label: b.name@,
        kind: Some(CompletionItemKind::Function),
        detail: Some(sig),
        documentation: Some(MarkupV {
            kind: MarkupKind::Markdown,
            value: "### `"@ + sig + "`\n**Category**: "@ + spec_category_name(b.category) + "\n\n"@ + b.description@
                + "\n\n#### Examples\n```sch\n"@ + join(string_views(b.examples@), "\n"@) + "\n```"@,
        }),
        insert_text: Some(b.name@ + "("@ + join(param_snippets(b.parameters@), ", "@) + ")"@),
        insert_text_format: Some(InsertTextFormat::Snippet),
    }
}

pub open spec fn plain_item(label: Seq<char>, kind: CompletionItemKind, detail: Seq<char>, doc: Seq<char>, insert: Seq<char>) -> CompletionV {
    CompletionV {
        label,
        kind: Some(kind),
        detail: Some(detail),
        documentation: Some(MarkupV { kind: MarkupKind::PlainText, value: doc }),
        insert_text: Some(insert),
        insert_text_format: Some(InsertTextFormat::PlainText),
    }
}

pub open spec fn snippet_item(label: Seq<char>, kind: CompletionItemKind, detail: Seq<char>, doc: MarkupV, insert: Seq<char>) -> CompletionV {
    CompletionV {
        label,
        kind: Some(kind),
        detail: Some(detail),
        documentation: Some(doc),
        insert_text: Some(insert),
        insert_text_format: Some(InsertTextFormat::Snippet),
    }
}

pub open spec fn event_item(label: Seq<char>, snippet: Seq<char>, doc: Seq<char>) -> CompletionV {
    snippet_item(label, CompletionItemKind::Event, "Event Trigger"@, MarkupV { kind: MarkupKind::Markdown, value: doc }, snippet)
}

/// The event-header snippets.
pub open spec fn event_completions() -> Seq<CompletionV> {
    seq![
        event_item("when start:"@, "when start:\n    ${0}"@, "Runs once when the game or scene starts"@),
        event_item("when update:"@, "when update:\n    ${0}"@, "Runs every single frame (60 FPS)"@),
        event_item("when action.down(\"right\"):"@, "when action.down(\"${1:right}\"):\n    ${0}"@,
            "Triggers while the specified input action is held down"@),
        event_item("when action.press(\"jump\"):"@, "when action.press(\"${1:jump}\"):\n    ${0}"@,
            "Triggers once when the specified input action is pressed"@),
        event_item("when action.up(\"jump\"):"@, "when action.up(\"${1:jump}\"):\n    ${0}"@,
            "Triggers once when the specified input action is released"@),
        event_item("when Player touches Enemy:"@, "when ${1:Player} touches ${2:Enemy}:\n    ${0}"@,
            "Triggers when two objects collide"@),
        event_item("every 1 seconds:"@, "every ${1:1} seconds:\n    ${0}"@, "Repeats periodically at fixed time intervals"@),
        event_item("after 2 seconds:"@, "after ${1:2} seconds:\n    ${0}"@, "Triggers once after a specified duration"@),
    ]
}

pub open spec fn when_keyword_item() -> CompletionV {
    plain_item("when"@, CompletionItemKind::Keyword, "Keyword"@, "Defines a game event handler"@, "when "@)
}

/// The control-flow keyword snippets.
pub open spec fn keyword_completions() -> Seq<CompletionV> {
    seq![
        snippet_item("if"@, CompletionItemKind::Keyword, "Conditional block"@,
            MarkupV { kind: MarkupKind::PlainText, value: "Executes statements when condition is true"@ },
            "if ${1:condition}:\n    ${0}"@),
        snippet_item("repeat"@, CompletionItemKind::Keyword, "Loop block"@,
            MarkupV { kind: MarkupKind::PlainText, value: "Repeats statements N times"@ }, "repeat ${1:5}:\n    ${0}"@),
        plain_item("return"@, CompletionItemKind::Keyword, "Return keyword"@, "Exits early from event handler"@, "return"@),
    ]
}

pub open spec fn action_completions() -> Seq<CompletionV> {
    analyzer_actions().map_values(|a: Seq<char>| plain_item(a, CompletionItemKind::Value, "Input Action"@,
        "Physical key mapping for '"@ + a + "'"@, a))
}

pub open spec fn scene_completions(scenes: Seq<Seq<char>>) -> Seq<CompletionV> {
    scenes.map_values(|s: Seq<char>| plain_item(s, CompletionItemKind::File, "Game Scene"@, "Switch to scene '"@ + s + "'"@, s))
}

pub open spec fn asset_completions(assets: Seq<Seq<char>>) -> Seq<CompletionV> {
    assets.map_values(|s: Seq<char>| plain_item(s, CompletionItemKind::File, "Indexed Asset"@, "Asset '"@ + s + "'"@, s))
}

pub open spec fn object_completions(objects: Seq<Seq<char>>) -> Seq<CompletionV> {
    objects.map_values(|s: Seq<char>| plain_item(s, CompletionItemKind::Class, "Game Object"@,
        "Active scene entity '"@ + s + "'"@, s))
}

/// The completions offered after the (left-trimmed) text before the cursor: inside a string
/// argument of an action, a scene switch, or a sound or background, the matching names;
/// otherwise event headers (at the start of a line or after `when`), all blocks, keywords
/// and objects.
pub open spec fn completions_for(
    registry: BlockRegistry,
    objects: Seq<Seq<char>>,
    assets: Seq<Seq<char>>,
    scenes: Seq<Seq<char>>,
    trimmed: Seq<char>,
) -> Seq<CompletionV> {
    let in_string = crate::text::has_substring(trimmed, "(\""@) || (trimmed.len() > 0 && trimmed.last() == '"');
    if in_string && crate::text::has_substring(trimmed, "action."@) {
        action_completions()
    } else if in_string && crate::text::has_substring(trimmed, "scene.switch"@) {
        scene_completions(scenes)
    } else if in_string && (crate::text::has_substring(trimmed, "sound.play"@) || crate::text::has_substring(trimmed, "background.set"@)) {
        asset_completions(assets)
    } else {
        let events = if trimmed.len() == 0 {
            event_completions().push(when_keyword_item())
        } else if trimmed == "when"@ || trimmed == "when "@ {
            event_completions()
        } else {
            Seq::empty()
        };
        events + registry.defs().map_values(|b: BlockDefinition| block_completion(b)) + keyword_completions()
            + object_completions(objects)
    }
}

/// The line's text before byte offset `b`, or the whole line when `b` lies past its end.
pub open spec fn text_before(line: Seq<char>, b: nat) -> Seq<char> {
    if b <= crate::language::lexer::bpos(line, line.len() as int) {
        line.take(choose|k: int| 0 <= k <= line.len() && crate::language::lexer::bpos(line, k) == b)
    } else {
        line
    }
}

/// Byte offset `b` of the line falls between two characters, or past its end.
pub open spec fn on_boundary(line: Seq<char>, b: nat) -> bool {
    b <= crate::language::lexer::bpos(line, line.len() as int) ==> exists|k: int|
        0 <= k <= line.len() && crate::language::lexer::bpos(line, k) == b
}

/// Line `i` of a text, or nothing past its last line.
pub open spec fn line_at(text: Seq<char>, i: nat) -> Seq<char> {
    if i < lines_of(text).len() { lines_of(text)[i as int] } else { Seq::empty() }
}

} // verus!

verus! {

fn type_debug_exec(t: &BlockType) -> (s: String)
    ensures
        s@ == type_debug(*t),
    decreases t,
{
    match t {
        BlockType::Void => String::from_str("Void"),
        BlockType::Number => String::from_str("Number"),
        BlockType::String => String::from_str("String"),
        BlockType::Boolean => String::from_str("Boolean"),
        BlockType::Object => String::from_str("Object"),
        BlockType::List(inner) => {
            let mut s = String::from_str("List(");
            let i = type_debug_exec(inner);
            s.append(i.as_str());
            s.append(")");
            s
        },
        BlockType::Any => String::from_str("Any"),
    }
}

fn default_arg_exec(t: &BlockType) -> (s: &'static str)
    ensures
        s@ == default_arg(*t),
{
    match t {
        BlockType::Object => "Player",
        BlockType::Number => "5",
        BlockType::String => "\"sound\"",
        BlockType::Boolean => "true",
        _ => "0",
    }
}

/// Appends `parts` joined with `sep`.
fn push_joined(out: &mut String, parts: &Vec<String>, sep: &str)
    ensures
        final(out)@ == old(out)@ + join(string_views(parts@), sep@),
{
    let ghost o0 = out@;
    let ghost pv = string_views(parts@);
    for i in 0..parts.len()
        invariant
            pv == string_views(parts@),
            out@ == o0 + join(pv.take(i as int), sep@),
    {
        if i > 0 {
            out.append(sep);
        }
        out.append(parts[i].as_str());
        proof {
            assert(pv.take(i + 1).drop_last() =~= pv.take(i as int));
            assert(pv.take(i + 1).last() == parts@[i as int]@);
            if i == 0 {
                assert(join(pv.take(1), sep@) == pv.take(1)[0]);
            }
            assert(out@ =~= o0 + join(pv.take(i + 1), sep@));
        }
    }
    assert(pv.take(parts@.len() as int) =~= pv);
}

fn block_completion_exec(b: &BlockDefinition) -> (c: CompletionItem)
    ensures
        completion_view(c) == block_completion(*b),
{
    let ps = &b.parameters;
    let mut snippets: Vec<String> = Vec::new();
    let mut sigs: Vec<String> = Vec::new();
    for i in 0..ps.len()
        invariant
            snippets@.len() == i,
            sigs@.len() == i,
            ps@.len() <= usize::MAX,
            forall|k: int| 0 <= k < i ==> #[trigger] snippets@[k]@ == param_snippets(ps@)[k],
            forall|k: int| 0 <= k < i ==> #[trigger] sigs@[k]@ == param_signatures(ps@)[k],
    {
        let p = &ps[i];
        let mut sn = String::from_str("${");
        let num = crate::text::u64_to_string((i as u64) + 1);
        sn.append(num.as_str());
        sn.append(":");
        sn.append(default_arg_exec(&p.param_type));
        sn.append("}");
        snippets.push(sn);
        let mut sg = p.name.clone();
        sg.append(": ");
        let td = type_debug_exec(&p.param_type);
        sg.append(td.as_str());
        sigs.push(sg);
    }
    assert(string_views(snippets@) =~= param_snippets(ps@));
    assert(string_views(sigs@) =~= param_signatures(ps@));
    let mut snippet = b.name.clone();
    snippet.append("(");
    push_joined(&mut snippet, &snippets, ", ");
    snippet.append(")");
    let mut signature = b.name.clone();
    signature.append("(");
    push_joined(&mut signature, &sigs, ", ");
    signature.append(")");
    let mut md = String::from_str("### `");
    md.append(signature.as_str());
    md.append("`\n**Category**: ");
    let cat = b.category.to_string();
    md.append(cat.as_str());
    md.append("\n\n");
    md.append(b.description.as_str());
    md.append("\n\n#### Examples\n```sch\n");
    push_joined(&mut md, &b.examples, "\n");
    md.append("\n```");
    CompletionItem {
        label: b.name.clone(),
        kind: Some(CompletionItemKind::Function),
        detail: Some(signature),
        documentation: Some(MarkupContent { kind: MarkupKind::Markdown, value: md }),
        insert_text: Some(snippet),
        insert_text_format: Some(InsertTextFormat::Snippet),
    }
}

fn plain_item_exec(label: &str, kind: CompletionItemKind, detail: &str, doc: &str, insert: &str) -> (c: CompletionItem)
    ensures
        completion_view(c) == plain_item(label@, kind, detail@, doc@, insert@),
{
    CompletionItem {
        label: String::from_str(label),
        kind: Some(kind),
        detail: Some(String::from_str(detail)),
        documentation: Some(MarkupContent::plaintext(doc)),
        insert_text: Some(String::from_str(insert)),
        insert_text_format: Some(InsertTextFormat::PlainText),
    }
}

fn snippet_item_exec(label: &str, kind: CompletionItemKind, detail: &str, doc: MarkupContent, insert: &str) -> (c: CompletionItem)
    ensures
        completion_view(c) == snippet_item(label@, kind, detail@, markup_view(doc), insert@),
{
    CompletionItem {
        label: String::from_str(label),
        kind: Some(kind),
        detail: Some(String::from_str(detail)),
        documentation: Some(doc),
        insert_text: Some(String::from_str(insert)),
        insert_text_format: Some(InsertTextFormat::Snippet),
    }
}

fn event_item_exec(label: &str, snippet: &str, doc: &str) -> (c: CompletionItem)
    ensures
        completion_view(c) == event_item(label@, snippet@, doc@),
{
    snippet_item_exec(label, CompletionItemKind::Event, "Event Trigger", MarkupContent::markdown(doc), snippet)
}

/// Items named by `names`, each built from its name.
fn name_items(names: &Vec<String>, kind: CompletionItemKind, detail: &str, doc_head: &str, doc_tail: &str) -> (r: Vec<CompletionItem>)
    ensures
        r@.map_values(|c: CompletionItem| completion_view(c)) == string_views(names@).map_values(
            |s: Seq<char>| plain_item(s, kind, detail@, doc_head@ + s + doc_tail@, s),
        ),
{
    let mut r: Vec<CompletionItem> = Vec::new();
    for i in 0..names.len()
        invariant
            r@.len() == i,
            forall|k: int| 0 <= k < i ==> #[trigger] completion_view(r@[k]) == plain_item(
                names@[k]@, kind, detail@, doc_head@ + names@[k]@ + doc_tail@, names@[k]@),
    {
        let n = &names[i];
        let mut d = String::from_str(doc_head);
        d.append(n.as_str());
        d.append(doc_tail);
        r.push(plain_item_exec(n.as_str(), kind, detail, d.as_str(), n.as_str()));
    }
    assert(r@.map_values(|c: CompletionItem| completion_view(c)) =~= string_views(names@).map_values(
        |s: Seq<char>| plain_item(s, kind, detail@, doc_head@ + s + doc_tail@, s),
    ));
    r
}

/// The text of a line before byte offset `b`.
fn text_before_exec(line: &String, b: u32) -> (r: String)
    requires
        on_boundary(line@, b as nat),
    ensures
        r@ == text_before(line@, b as nat),
{
    let cs = crate::text::chars_of(line.as_str());
    let mut k: usize = 0;
    let mut acc: u64 = 0;
    while k < cs.len() && acc < b as u64
        invariant
            cs@ == line@,
            k <= cs@.len(),
            acc == crate::language::lexer::bpos(cs@, k as int),
            acc <= b as u64 + 4,
            k > 0 ==> crate::language::lexer::bpos(cs@, k - 1) < b,
        decreases cs@.len() - k,
    {
        proof {
            crate::language::lexer::lemma_bpos_step(cs@, k as int);
        }
        acc = acc + crate::language::lexer::width_exec(cs[k]) as u64;
        k = k + 1;
    }
    proof {
        let total = crate::language::lexer::bpos(cs@, cs@.len() as int);
        if b as nat <= total {
            let j = choose|j: int| 0 <= j <= cs@.len() && crate::language::lexer::bpos(cs@, j) == b as nat;
            if j < k {
                crate::language::lexer::lemma_bpos_mono(cs@, j, k - 1);
            } else if j > k {
                crate::language::lexer::lemma_bpos_mono(cs@, k as int, j);
            }
            assert(j == k);
        } else {
            crate::language::lexer::lemma_bpos_mono(cs@, k as int, cs@.len() as int);
            assert(k == cs@.len());
        }
    }
    if acc >= b as u64 {
        crate::text::string_of_range(&cs, 0, k)
    } else {
        line.clone()
    }
}

} // verus!


verus! {

fn append_items(out: &mut Vec<CompletionItem>, items: Vec<CompletionItem>)
    ensures
        final(out)@.map_values(|c: CompletionItem| completion_view(c)) == old(out)@.map_values(
            |c: CompletionItem| completion_view(c),
        ) + items@.map_values(|c: CompletionItem| completion_view(c)),
{
    let ghost o0 = out@;
    let ghost iv = items@;
    let mut items = items;
    out.append(&mut items);
    assert(out@ == o0 + iv);
    assert(out@.map_values(|c: CompletionItem| completion_view(c)) =~= o0.map_values(|c: CompletionItem| completion_view(c))
        + iv.map_values(|c: CompletionItem| completion_view(c)));
}

fn literal_strings(a: &str, b: &str, c: &str, d: &str, e: &str, f: &str) -> (r: Vec<String>)
    ensures
        string_views(r@) == seq![a@, b@, c@, d@, e@, f@],
{
    let mut r: Vec<String> = Vec::new();
    r.push(String::from_str(a));
    r.push(String::from_str(b));
    r.push(String::from_str(c));
    r.push(String::from_str(d));
    r.push(String::from_str(e));
    r.push(String::from_str(f));
    assert(string_views(r@) =~= seq![a@, b@, c@, d@, e@, f@]);
    r
}

fn event_items() -> (r: Vec<CompletionItem>)
    ensures
        r@.map_values(|c: CompletionItem| completion_view(c)) == event_completions(),
{
    let mut r: Vec<CompletionItem> = Vec::new();
    r.push(event_item_exec("when start:", "when start:\n    ${0}", "Runs once when the game or scene starts"));
    r.push(event_item_exec("when update:", "when update:\n    ${0}", "Runs every single frame (60 FPS)"));
    r.push(event_item_exec("when action.down(\"right\"):", "when action.down(\"${1:right}\"):\n    ${0}",
        "Triggers while the specified input action is held down"));
    r.push(event_item_exec("when action.press(\"jump\"):", "when action.press(\"${1:jump}\"):\n    ${0}",
        "Triggers once when the specified input action is pressed"));
    r.push(event_item_exec("when action.up(\"jump\"):", "when action.up(\"${1:jump}\"):\n    ${0}",
        "Triggers once when the specified input action is released"));
    r.push(event_item_exec("when Player touches Enemy:", "when ${1:Player} touches ${2:Enemy}:\n    ${0}",
        "Triggers when two objects collide"));
    r.push(event_item_exec("every 1 seconds:", "every ${1:1} seconds:\n    ${0}", "Repeats periodically at fixed time intervals"));
    r.push(event_item_exec("after 2 seconds:", "after ${1:2} seconds:\n    ${0}", "Triggers once after a specified duration"));
    assert(r@.map_values(|c: CompletionItem| completion_view(c)) =~= event_completions());
    r
}

fn keyword_items() -> (r: Vec<CompletionItem>)
    ensures
        r@.map_values(|c: CompletionItem| completion_view(c)) == keyword_completions(),
{
    let mut r: Vec<CompletionItem> = Vec::new();
    r.push(snippet_item_exec("if", CompletionItemKind::Keyword, "Conditional block",
        MarkupContent::plaintext("Executes statements when condition is true"), "if ${1:condition}:\n    ${0}"));
    r.push(snippet_item_exec("repeat", CompletionItemKind::Keyword, "Loop block",
        MarkupContent::plaintext("Repeats statements N times"), "repeat ${1:5}:\n    ${0}"));
    r.push(plain_item_exec("return", CompletionItemKind::Keyword, "Return keyword", "Exits early from event handler", "return"));
    assert(r@.map_values(|c: CompletionItem| completion_view(c)) =~= keyword_completions());
    r
}

fn block_items(defs: &Vec<BlockDefinition>) -> (r: Vec<CompletionItem>)
    ensures
        r@.map_values(|c: CompletionItem| completion_view(c)) == defs@.map_values(|b: BlockDefinition| block_completion(b)),
{
    let mut r: Vec<CompletionItem> = Vec::new();
    for i in 0..defs.len()
        invariant
            r@.len() == i,
            forall|k: int| 0 <= k < i ==> #[trigger] completion_view(r@[k]) == block_completion(defs@[k]),
    {
        r.push(block_completion_exec(&defs[i]));
    }
    assert(r@.map_values(|c: CompletionItem| completion_view(c)) =~= defs@.map_values(|b: BlockDefinition| block_completion(b)));
    r
}

impl Analyzer {
    /// Completion items at a cursor position (see `completions_for`).
    pub fn compute_completions(&self, doc: &Document, pos: Position) -> (r: Vec<CompletionItem>)
        requires
            on_boundary(line_at(doc.text@, pos.line as nat), pos.character as nat),
        ensures
            r@.map_values(|c: CompletionItem| completion_view(c)) == completions_for(
                self.registry_view(),
                self.objects(),
                self.assets(),
                self.scenes(),
                crate::text::spec_trim_start(text_before(line_at(doc.text@, pos.line as nat), pos.character as nat)),
            ),
    {
        let line_text = match doc.get_line(pos.line as usize) {
            Some(l) => l,
            None => String::new(),
        };
        assert(line_text@ == line_at(doc.text@, pos.line as nat));
        let prefix = text_before_exec(&line_text, pos.character);
        let trimmed = crate::text::trim_start_str(prefix.as_str());
        let t = trimmed.as_str();
        let tc = crate::text::chars_of(t);
        let ends_quote = tc.len() > 0 && tc[tc.len() - 1] == '"';
        let in_string = crate::text::contains_str(t, "(\"") || ends_quote;
        if in_string && crate::text::contains_str(t, "action.") {
            let names = literal_strings("left", "right", "up", "down", "jump", "action");
            let r = name_items(&names, CompletionItemKind::Value, "Input Action", "Physical key mapping for '", "'");
            return r;
        }
        if in_string && crate::text::contains_str(t, "scene.switch") {
            return name_items(&self.known_scenes, CompletionItemKind::File, "Game Scene", "Switch to scene '", "'");
        }
        if in_string && (crate::text::contains_str(t, "sound.play") || crate::text::contains_str(t, "background.set")) {
            return name_items(&self.known_assets, CompletionItemKind::File, "Indexed Asset", "Asset '", "'");
        }
        let mut items: Vec<CompletionItem> = Vec::new();
        let is_empty = tc.len() == 0;
        if is_empty || crate::text::str_eq(t, "when") || crate::text::str_eq(t, "when ") {
            append_items(&mut items, event_items());
            if is_empty {
                items.push(plain_item_exec("when", CompletionItemKind::Keyword, "Keyword", "Defines a game event handler", "when "));
            }
        }
        append_items(&mut items, block_items(self.registry.iter()));
        append_items(&mut items, keyword_items());
        append_items(&mut items, name_items(&self.known_objects, CompletionItemKind::Class, "Game Object", "Active scene entity '", "'"));
        items
    }
}

} // verus!

verus! {

// ---------------------------------------------------------------------------------------
// Hover
// ---------------------------------------------------------------------------------------

/// An ASCII letter, digit or underscore.
pub open spec fn is_word_byte(b: u8) -> bool {
    (48 <= b <= 57) || (65 <= b <= 90) || (97 <= b <= 122) || b == 95
}

/// A word byte or a dot.
pub open spec fn is_id_byte(b: u8) -> bool {
    is_word_byte(b) || b == 46
}

/// Start of the run of bytes satisfying `word` (word bytes, or identifier bytes) that ends
/// at `i`.
pub open spec fn run_start(bs: Seq<u8>, i: int, ids: bool) -> int
    decreases i,
{
    if i > 0 && i <= bs.len() && (if ids { is_id_byte(bs[i - 1]) } else { is_word_byte(bs[i - 1]) }) {
        run_start(bs, i - 1, ids)
    } else {
        i
    }
}

/// End of the run of such bytes that starts at `i`.
pub open spec fn run_end(bs: Seq<u8>, i: int, ids: bool) -> int
    decreases bs.len() - i,
{
    if 0 <= i < bs.len() && (if ids { is_id_byte(bs[i]) } else { is_word_byte(bs[i]) }) {
        run_end(bs, i + 1, ids)
    } else {
        i
    }
}

/// The byte range of the word at (or just before) byte offset `c`; the offset is clamped to
/// the last byte.
pub open spec fn word_range(bs: Seq<u8>, c: nat) -> Option<(int, int)> {
    if bs.len() == 0 {
        None
    } else {
        let idx: int = if c < bs.len() { c as int } else { bs.len() - 1 };
        if !is_word_byte(bs[idx]) && idx > 0 && is_word_byte(bs[idx - 1]) {
            Some((run_start(bs, idx - 1, false), run_end(bs, idx - 1, false)))
        } else if is_word_byte(bs[idx]) {
            Some((run_start(bs, idx, false), run_end(bs, idx, false)))
        } else {
            None
        }
    }
}

/// The byte range of the dotted identifier at (or just before) byte offset `c`.
pub open spec fn ident_range(bs: Seq<u8>, c: nat) -> Option<(int, int)> {
    if bs.len() == 0 {
        None
    } else {
        let idx: int = if c < bs.len() { c as int } else { bs.len() - 1 };
        if is_id_byte(bs[idx]) {
            Some((run_start(bs, idx, true), run_end(bs, idx, true)))
        } else if idx > 0 && is_id_byte(bs[idx - 1]) {
            Some((run_start(bs, idx - 1, true), run_end(bs, idx - 1, true)))
        } else {
            None
        }
    }
}

pub open spec fn ascii_text(bs: Seq<u8>) -> Seq<char> {
    bs.map_values(|b: u8| b as char)
}

/// The hover card of a block: signature with return type, category, description (and
/// documentation), and examples.
pub open spec fn block_hover(b: BlockDefinition) -> Seq<char> {
    let explanation = if b.documentation@.len() > 0 {
        b.description@ + "\n\n"@ + b.documentation@
    } else {
        b.description@
    };
    "### `"@ + b.name@ + "("@ + join(param_signatures(b.parameters@), ", "@) + ") -> "@ + type_debug(b.return_type)
        + "`\n**Category**: "@ + spec_category_name(b.category) + "\n\n"@ + explanation
        + "\n\n#### Examples\n```sch\n"@ + join(string_views(b.examples@), "\n"@) + "\n```"@
}

pub open spec fn when_hover() -> Seq<char> {
    "### `when <event>:`\nDefines a top-level event handler that executes whenever the specified trigger fires.\n\n**Supported Triggers**:\n- `when start:`\n- `when update:`\n- `when action.down(\"...\"):`\n- `when action.press(\"...\"):`\n- `when action.up(\"...\"):`\n- `when <ObjectA> touches <ObjectB>:`\n- `every <N> seconds:`\n- `after <N> seconds:`"@
}

pub open spec fn if_hover() -> Seq<char> {
    "### `if <condition>:`\nEvaluates condition expression. If true, runs the indented block of code.\n\n#### Example\n```sch\nif health <= 0:\n    respawn(Player)\n```"@
}

pub open spec fn repeat_hover() -> Seq<char> {
    "### `repeat <count>:`\nExecutes the indented block a positive integer number of times."@
}

pub open spec fn touches_hover() -> Seq<char> {
    "### `<ObjectA> touches <ObjectB>`\nCollision condition checking if two game entities overlap in the current frame."@
}

pub open spec fn start_hover() -> Seq<char> {
    "### `when start:`\nLifecycle event that fires once when the game boots or a scene loads."@
}

pub open spec fn update_hover() -> Seq<char> {
    "### `when update:`\nLifecycle event that runs once per frame (60 FPS) for animations or continuous calculations."@
}

/// The Markdown hover text for a position of a line: the block named by the dotted
/// identifier there, else a keyword's card, else a known object's card.
pub open spec fn hover_text(registry: BlockRegistry, objects: Seq<Seq<char>>, line: Seq<char>, c: nat) -> Option<Seq<char>> {
    let bs = vstd::utf8::encode_utf8(line);
    match word_range(bs, c) {
        None => None,
        Some(wr) => {
            let word = ascii_text(bs.subrange(wr.0, wr.1));
            let full = match ident_range(bs, c) {
                Some(ir) => ascii_text(bs.subrange(ir.0, ir.1)),
                None => word,
            };
            match registry.lookup(full) {
                Some(b) => Some(block_hover(b)),
                None => if word == "when"@ {
                    Some(when_hover())
                } else if word == "if"@ {
                    Some(if_hover())
                } else if word == "repeat"@ {
                    Some(repeat_hover())
                } else if word == "touches"@ {
                    Some(touches_hover())
                } else if word == "start"@ {
                    Some(start_hover())
                } else if word == "update"@ {
                    Some(update_hover())
                } else if objects.contains(word) {
                    Some("### Game Object: `"@ + word + "`\nActive entity instantiated in the active scene."@)
                } else {
                    None
                },
            }
        },
    }
}

} // verus!

verus! {

fn byte_ok(b: u8, ids: bool) -> (r: bool)
    ensures
        r == (if ids { is_id_byte(b) } else { is_word_byte(b) }),
{
    let w = (48 <= b && b <= 57) || (65 <= b && b <= 90) || (97 <= b && b <= 122) || b == 95;
    if ids { w || b == 46 } else { w }
}

fn run_start_exec(bs: &[u8], i: usize, ids: bool) -> (s: usize)
    requires
        i <= bs@.len(),
    ensures
        s == run_start(bs@, i as int, ids),
        s <= i,
{
    let mut s = i;
    while s > 0 && byte_ok(bs[s - 1], ids)
        invariant
            s <= i <= bs@.len(),
            run_start(bs@, s as int, ids) == run_start(bs@, i as int, ids),
        decreases s,
    {
        s = s - 1;
    }
    s
}

fn run_end_exec(bs: &[u8], i: usize, ids: bool) -> (e: usize)
    requires
        i <= bs@.len(),
    ensures
        e == run_end(bs@, i as int, ids),
        i <= e <= bs@.len(),
{
    let mut e = i;
    while e < bs.len() && byte_ok(bs[e], ids)
        invariant
            i <= e <= bs@.len(),
            run_end(bs@, e as int, ids) == run_end(bs@, i as int, ids),
        decreases bs@.len() - e,
    {
        e = e + 1;
    }
    e
}

fn ascii_string(bs: &[u8], s: usize, e: usize) -> (r: String)
    requires
        s <= e <= bs@.len(),
    ensures
        r@ == ascii_text(bs@.subrange(s as int, e as int)),
{
    let mut r = String::new();
    for k in s..e
        invariant
            e <= bs@.len(),
            r@ == ascii_text(bs@.subrange(s as int, k as int)),
    {
        crate::text::push_char(&mut r, bs[k] as char);
        assert(ascii_text(bs@.subrange(s as int, k + 1)) =~= ascii_text(bs@.subrange(s as int, k as int)).push(bs@[k as int] as char));
    }
    r
}

fn word_range_exec(bs: &[u8], c: u32) -> (r: Option<(usize, usize)>)
    ensures
        match word_range(bs@, c as nat) {
            Some(w) => r matches Some(x) && x.0 == w.0 && x.1 == w.1 && x.0 <= x.1 <= bs@.len(),
            None => r is None,
        },
{
    if bs.len() == 0 {
        return None;
    }
    let idx: usize = if (c as usize) < bs.len() { c as usize } else { bs.len() - 1 };
    if !byte_ok(bs[idx], false) && idx > 0 && byte_ok(bs[idx - 1], false) {
        let s = run_start_exec(bs, idx - 1, false);
        let e = run_end_exec(bs, idx - 1, false);
        Some((s, e))
    } else if byte_ok(bs[idx], false) {
        let s = run_start_exec(bs, idx, false);
        let e = run_end_exec(bs, idx, false);
        Some((s, e))
    } else {
        None
    }
}

fn ident_range_exec(bs: &[u8], c: u32) -> (r: Option<(usize, usize)>)
    ensures
        match ident_range(bs@, c as nat) {
            Some(w) => r matches Some(x) && x.0 == w.0 && x.1 == w.1 && x.0 <= x.1 <= bs@.len(),
            None => r is None,
        },
{
    if bs.len() == 0 {
        return None;
    }
    let idx: usize = if (c as usize) < bs.len() { c as usize } else { bs.len() - 1 };
    if byte_ok(bs[idx], true) {
        let s = run_start_exec(bs, idx, true);
        let e = run_end_exec(bs, idx, true);
        Some((s, e))
    } else if idx > 0 && byte_ok(bs[idx - 1], true) {
        let s = run_start_exec(bs, idx - 1, true);
        let e = run_end_exec(bs, idx - 1, true);
        Some((s, e))
    } else {
        None
    }
}

fn param_signatures_exec(ps: &Vec<ParameterDefinition>) -> (r: Vec<String>)
    ensures
        string_views(r@) == param_signatures(ps@),
{
    let mut sigs: Vec<String> = Vec::new();
    for i in 0..ps.len()
        invariant
            sigs@.len() == i,
            forall|k: int| 0 <= k < i ==> #[trigger] sigs@[k]@ == param_signatures(ps@)[k],
    {
        let mut sg = ps[i].name.clone();
        sg.append(": ");
        let td = type_debug_exec(&ps[i].param_type);
        sg.append(td.as_str());
        sigs.push(sg);
    }
    assert(string_views(sigs@) =~= param_signatures(ps@));
    sigs
}

fn block_hover_exec(b: &BlockDefinition) -> (s: String)
    ensures
        s@ == block_hover(*b),
{
    let sigs = param_signatures_exec(&b.parameters);
    let mut md = String::from_str("### `");
    md.append(b.name.as_str());
    md.append("(");
    push_joined(&mut md, &sigs, ", ");
    md.append(") -> ");
    let rt = type_debug_exec(&b.return_type);
    md.append(rt.as_str());
    md.append("`\n**Category**: ");
    let cat = b.category.to_string();
    md.append(cat.as_str());
    md.append("\n\n");
    md.append(b.description.as_str());
    if b.documentation.as_str().unicode_len() > 0 {
        md.append("\n\n");
        md.append(b.documentation.as_str());
    }
    md.append("\n\n#### Examples\n```sch\n");
    push_joined(&mut md, &b.examples, "\n");
    md.append("\n```");
    md
}

fn markdown_hover(text: String) -> (h: Hover)
    ensures
        h.contents.kind == MarkupKind::Markdown,
        h.contents.value == text,
        h.range is None,
{
    Hover { contents: MarkupContent { kind: MarkupKind::Markdown, value: text }, range: None }
}

impl Analyzer {
    /// The hover card for the word under the cursor (see `hover_text`); none past the last
    /// line.
    pub fn compute_hover(&self, doc: &Document, pos: Position) -> (r: Option<Hover>)
        ensures
            match (if (pos.line as nat) < lines_of(doc.text@).len() {
                hover_text(self.registry_view(), self.objects(), lines_of(doc.text@)[pos.line as int], pos.character as nat)
            } else {
                None
            }) {
                Some(t) => r matches Some(h) && h.contents.kind == MarkupKind::Markdown && h.contents.value@ == t
                    && h.range is None,
                None => r is None,
            },
    {
        proof {
            use_type_invariant(self);
        }
        let line = match doc.get_line(pos.line as usize) {
            Some(l) => l,
            None => {
                return None;
            },
        };
        let bs = line.as_str().as_bytes();
        let (ws, we) = match word_range_exec(bs, pos.character) {
            Some(w) => w,
            None => {
                return None;
            },
        };
        let word = ascii_string(bs, ws, we);
        let full = match ident_range_exec(bs, pos.character) {
            Some((s, e)) => ascii_string(bs, s, e),
            None => word.clone(),
        };
        match self.registry.get(full.as_str()) {
            Some(b) => {
                return Some(markdown_hover(block_hover_exec(b)));
            },
            None => {},
        }
        let w = word.as_str();
        if crate::text::str_eq(w, "when") {
            Some(markdown_hover(String::from_str("### `when <event>:`\nDefines a top-level event handler that executes whenever the specified trigger fires.\n\n**Supported Triggers**:\n- `when start:`\n- `when update:`\n- `when action.down(\"...\"):`\n- `when action.press(\"...\"):`\n- `when action.up(\"...\"):`\n- `when <ObjectA> touches <ObjectB>:`\n- `every <N> seconds:`\n- `after <N> seconds:`")))
        } else if crate::text::str_eq(w, "if") {
            Some(markdown_hover(String::from_str("### `if <condition>:`\nEvaluates condition expression. If true, runs the indented block of code.\n\n#### Example\n```sch\nif health <= 0:\n    respawn(Player)\n```")))
        } else if crate::text::str_eq(w, "repeat") {
            Some(markdown_hover(String::from_str("### `repeat <count>:`\nExecutes the indented block a positive integer number of times.")))
        } else if crate::text::str_eq(w, "touches") {
            Some(markdown_hover(String::from_str("### `<ObjectA> touches <ObjectB>`\nCollision condition checking if two game entities overlap in the current frame.")))
        } else if crate::text::str_eq(w, "start") {
            Some(markdown_hover(String::from_str("### `when start:`\nLifecycle event that fires once when the game boots or a scene loads.")))
        } else if crate::text::str_eq(w, "update") {
            Some(markdown_hover(String::from_str("### `when update:`\nLifecycle event that runs once per frame (60 FPS) for animations or continuous calculations.")))
        } else if crate::language::linter::vec_has(&self.known_objects, w) {
            let mut s = String::from_str("### Game Object: `");
            s.append(w);
            s.append("`\nActive entity instantiated in the active scene.");
            Some(markdown_hover(s))
        } else {
            None
        }
    }
}

} // verus!

verus! {

// ---------------------------------------------------------------------------------------
// Formatting and outline
// ---------------------------------------------------------------------------------------

/// The edits that format a document: none when it does not parse, an empty list when it is
/// already formatted, else one edit replacing everything up to the end of its last line.
pub open spec fn formatting_edits(text: Seq<char>) -> Option<Seq<(Range, Seq<char>)>> {
    match spec_parse(text) {
        Err(_) => None,
        Ok(p) => {
            let f = crate::language::formatter::fmt_program(p);
            if f == text {
                Some(Seq::empty())
            } else {
                let ls = lines_of(text);
                let end_line = (if ls.len() >= 1 { ls.len() - 1 } else { 0 }) as u32;
                let end_char = (if ls.len() == 0 {
                    0usize
                } else {
                    vstd::utf8::encode_utf8(ls.last()).len() as usize
                }) as u32;
                Some(seq![(Range {
                    start: Position { line: 0, character: 0 },
                    end: Position { line: end_line, character: end_char },
                }, f)])
            }
        },
    }
}

/// The outline name of an event handler.
pub open spec fn symbol_name(k: EventKindV) -> Seq<char> {
    match k {
        EventKindV::Start => "when start"@,
        EventKindV::Update => "when update"@,
        EventKindV::ActionDown(a) => "when action.down(\""@ + a + "\")"@,
        EventKindV::ActionPress(a) => "when action.press(\""@ + a + "\")"@,
        EventKindV::ActionUp(a) => "when action.up(\""@ + a + "\")"@,
        EventKindV::Touches(a, b) => "when "@ + a + " touches "@ + b,
        EventKindV::EverySeconds(s) => "every "@ + crate::text::decimal(s as nat) + " seconds"@,
        EventKindV::AfterSeconds(s) => "after "@ + crate::text::decimal(s as nat) + " seconds"@,
        EventKindV::Custom(c) => "when custom(\""@ + c + "\")"@,
        EventKindV::Message(m) => "when message(\""@ + m + "\")"@,
    }
}

/// The outline entry of an event handler: it spans five lines from its header, and its
/// selection covers ten characters of the header.
pub open spec fn event_symbol(e: crate::language::ast::EventV) -> SymbolV {
    let line = (if e.span.line >= 1 { e.span.line - 1 } else { 0 }) as u32;
    let col = (if e.span.col >= 1 { e.span.col - 1 } else { 0 }) as u32;
    SymbolV {
        name: symbol_name(e.kind),
        detail: Some(crate::text::decimal(e.body.len()) + " statements"@),
        kind: SymbolKind::Event,
        range: Range {
            start: Position { line, character: col },
            end: Position { line: line.wrapping_add(5), character: 0 },
        },
        selection_range: Range {
            start: Position { line, character: col },
            end: Position { line, character: col.wrapping_add(10) },
        },
    }
}

/// The outline of a document: one entry per event handler; nothing when it does not parse.
pub open spec fn document_symbols(text: Seq<char>) -> Seq<SymbolV> {
    match spec_parse(text) {
        Ok(p) => p.events.map_values(|e: crate::language::ast::EventV| event_symbol(e)),
        Err(_) => Seq::empty(),
    }
}

fn symbol_name_exec(k: &EventKind) -> (s: String)
    ensures
        s@ == symbol_name(crate::language::ast::event_kind_view(*k)),
{
    match k {
        EventKind::Start => String::from_str("when start"),
        EventKind::Update => String::from_str("when update"),
        EventKind::ActionDown(a) => {
            let mut s = String::from_str("when action.down(\"");
            s.append(a.as_str());
            s.append("\")");
            s
        },
        EventKind::ActionPress(a) => {
            let mut s = String::from_str("when action.press(\"");
            s.append(a.as_str());
            s.append("\")");
            s
        },
        EventKind::ActionUp(a) => {
            let mut s = String::from_str("when action.up(\"");
            s.append(a.as_str());
            s.append("\")");
            s
        },
        EventKind::Touches { object_a, object_b } => {
            let mut s = String::from_str("when ");
            s.append(object_a.as_str());
            s.append(" touches ");
            s.append(object_b.as_str());
            s
        },
        EventKind::EverySeconds(n) => {
            let mut s = String::from_str("every ");
            let d = crate::text::u64_to_string(*n);
            s.append(d.as_str());
            s.append(" seconds");
            s
        },
        EventKind::AfterSeconds(n) => {
            let mut s = String::from_str("after ");
            let d = crate::text::u64_to_string(*n);
            s.append(d.as_str());
            s.append(" seconds");
            s
        },
        EventKind::Custom(c) => {
            let mut s = String::from_str("when custom(\"");
            s.append(c.as_str());
            s.append("\")");
            s
        },
        EventKind::Message(m) => {
            let mut s = String::from_str("when message(\"");
            s.append(m.as_str());
            s.append("\")");
            s
        },
    }
}

impl Analyzer {
    /// Edits that format the document (see `formatting_edits`).
    pub fn format_document(&self, doc: &Document) -> (r: Option<Vec<TextEdit>>)
        requires
            doc.text@.len() <= usize::MAX / 4,
        ensures
            match formatting_edits(doc.text@) {
                Some(es) => r matches Some(v) && v@.map_values(|e: TextEdit| (e.range, e.new_text@)) == es,
                None => r is None,
            },
    {
        let formatted = match crate::language::formatter::format_source(doc.text.as_str()) {
            Ok(s) => s,
            Err(_) => {
                return None;
            },
        };
        if crate::text::str_eq(formatted.as_str(), doc.text.as_str()) {
            let v: Vec<TextEdit> = Vec::new();
            assert(v@.map_values(|e: TextEdit| (e.range, e.new_text@)) =~= Seq::<(Range, Seq<char>)>::empty());
            return Some(v);
        }
        let ls = lines(doc.text.as_str());
        let end_line = (if ls.len() >= 1 { ls.len() - 1 } else { 0 }) as u32;
        let end_char = (if ls.len() == 0 { 0 } else { ls[ls.len() - 1].as_str().len() }) as u32;
        let mut v: Vec<TextEdit> = Vec::new();
        v.push(TextEdit {
            range: Range {
                start: Position { line: 0, character: 0 },
                end: Position { line: end_line, character: end_char },
            },
            new_text: formatted,
        });
        assert(v@.map_values(|e: TextEdit| (e.range, e.new_text@)) =~= formatting_edits(doc.text@)->Some_0);
        Some(v)
    }

    /// The document's outline (see `document_symbols`).
    pub fn compute_document_symbols(&self, doc: &Document) -> (r: Vec<DocumentSymbol>)
        requires
            doc.text@.len() <= usize::MAX / 4,
        ensures
            r@.map_values(|s: DocumentSymbol| symbol_view(s)) == document_symbols(doc.text@),
            forall|i: int| 0 <= i < r@.len() ==> (#[trigger] r@[i]).children is None,
    {
        let mut symbols: Vec<DocumentSymbol> = Vec::new();
        match parse(doc.text.as_str()) {
            Ok(program) => {
                let ghost pv = program_view(program);
                for i in 0..program.events.len()
                    invariant
                        pv == program_view(program),
                        symbols@.len() == i,
                        forall|k: int| 0 <= k < i ==> #[trigger] symbol_view(symbols@[k]) == event_symbol(pv.events[k]),
                        forall|k: int| 0 <= k < i ==> (#[trigger] symbols@[k]).children is None,
                {
                    let event = &program.events[i];
                    assert(pv.events[i as int] == event_view(*event));
                    let name = symbol_name_exec(&event.kind);
                    let line = (if event.span.line >= 1 { event.span.line - 1 } else { 0 }) as u32;
                    let col = (if event.span.col >= 1 { event.span.col - 1 } else { 0 }) as u32;
                    let mut detail = crate::text::u64_to_string(event.body.len() as u64);
                    detail.append(" statements");
                    symbols.push(DocumentSymbol {
                        name,
                        detail: Some(detail),
                        kind: SymbolKind::Event,
                        range: Range {
                            start: Position { line, character: col },
                            end: Position { line: line.wrapping_add(5), character: 0 },
                        },
                        selection_range: Range {
                            start: Position { line, character: col },
                            end: Position { line, character: col.wrapping_add(10) },
                        },
                        children: None,
                    });
                }
                assert(symbols@.map_values(|s: DocumentSymbol| symbol_view(s)) =~= document_symbols(doc.text@));
            },
            Err(_) => {
                assert(symbols@.map_values(|s: DocumentSymbol| symbol_view(s)) =~= document_symbols(doc.text@));
            },
        }
        symbols
    }
}

} // verus!

verus! {

impl Default for Analyzer {
    fn default() -> (a: Self)
        ensures
            a.registry_view().wf(),
            a.objects() == analyzer_objects(),
            a.actions() == analyzer_actions(),
            a.assets() == analyzer_assets(),
            a.scenes() == analyzer_scenes(),
    {
        Analyzer::new()
    }
}

} // verus!

verus! {

/// Whether byte offset `b` of the line falls between two characters or past its end.
pub fn is_boundary(line: &String, b: u32) -> (r: bool)
    ensures
        r == on_boundary(line@, b as nat),
{
    let cs = crate::text::chars_of(line.as_str());
    let mut k: usize = 0;
    let mut acc: u64 = 0;
    while k < cs.len() && acc < b as u64
        invariant
            cs@ == line@,
            k <= cs@.len(),
            acc == crate::language::lexer::bpos(cs@, k as int),
            acc <= b as u64 + 4,
            k > 0 ==> crate::language::lexer::bpos(cs@, k - 1) < b,
        decreases cs@.len() - k,
    {
        proof {
            crate::language::lexer::lemma_bpos_step(cs@, k as int);
        }
        acc = acc + crate::language::lexer::width_exec(cs[k]) as u64;
        k = k + 1;
    }
    proof {
        let total = crate::language::lexer::bpos(cs@, cs@.len() as int);
        crate::language::lexer::lemma_bpos_mono(cs@, k as int, cs@.len() as int);
        if acc != b as u64 && (b as nat) <= total {
            assert forall|j: int| 0 <= j <= cs@.len() implies crate::language::lexer::bpos(cs@, j) != b as nat by {
                if j < k {
                    crate::language::lexer::lemma_bpos_mono(cs@, j, k - 1);
                } else if j > k {
                    crate::language::lexer::lemma_bpos_mono(cs@, k as int, j);
                }
            }
        }
    }
    acc == b as u64 || acc < b as u64
}

} // verus!
