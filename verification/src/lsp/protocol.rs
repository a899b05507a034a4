use vstd::prelude::*;

verus! {

/// A position in a document: zero-based line and character offset.
#[derive(Debug, Clone, Copy, PartialEq, Eq, Structural)]
pub struct Position {
    pub line: u32,
    pub character: u32,
}

/// A range of a document, end exclusive.
#[derive(Debug, Clone, Copy, PartialEq, Eq, Structural)]
pub struct Range {
    pub start: Position,
    pub end: Position,
}

#[derive(Debug, Clone, Copy, PartialEq, Eq, Structural)]
pub enum DiagnosticSeverity {
    Error,
    Warning,
    Information,
    Hint,
}

/// A problem reported to the editor.
#[derive(Debug, PartialEq)]
pub struct Diagnostic {
    pub range: Range,
    pub severity: Option<DiagnosticSeverity>,
    pub code: Option<String>,
    pub source: Option<String>,
    pub message: String,
}

#[derive(Debug, Clone, Copy, PartialEq, Eq, Structural)]
pub enum CompletionItemKind {
    Function,
    Class,
    Value,
    Keyword,
    File,
    Event,
}

#[derive(Debug, Clone, Copy, PartialEq, Eq, Structural)]
pub enum MarkupKind {
    PlainText,
    Markdown,
}

/// Text shown by the editor, plain or in Markdown.
#[derive(Debug, PartialEq)]
pub struct MarkupContent {
    pub kind: MarkupKind,
    pub value: String,
}

impl MarkupContent {
    pub fn plaintext(value: &str) -> (m: Self)
        ensures
            m.kind == MarkupKind::PlainText,
            m.value@ == value@,
    {
        MarkupContent { kind: MarkupKind::PlainText, value: String::from_str(value) }
    }

    pub fn markdown(value: &str) -> (m: Self)
        ensures
            m.kind == MarkupKind::Markdown,
            m.value@ == value@,
    {
        MarkupContent { kind: MarkupKind::Markdown, value: String::from_str(value) }
    }
}

#[derive(Debug, Clone, Copy, PartialEq, Eq, Structural)]
pub enum InsertTextFormat {
    PlainText,
    Snippet,
}

/// One entry of a completion list.
#[derive(Debug, PartialEq)]
pub struct CompletionItem {
    pub label: String,
    pub kind: Option<CompletionItemKind>,
    pub detail: Option<String>,
    pub documentation: Option<MarkupContent>,
    pub insert_text: Option<String>,
    pub insert_text_format: Option<InsertTextFormat>,
}

/// The card shown when hovering over a word.
#[derive(Debug, PartialEq)]
pub struct Hover {
    pub contents: MarkupContent,
    pub range: Option<Range>,
}

/// A replacement of a range of a document.
#[derive(Debug, PartialEq)]
pub struct TextEdit {
    pub range: Range,
    pub new_text: String,
}

#[derive(Debug, Clone, Copy, PartialEq, Eq, Structural)]
pub enum SymbolKind {
    Event,
    Function,
}

/// An entry of a document's outline.
#[derive(Debug, PartialEq)]
pub struct DocumentSymbol {
    pub name: String,
    pub detail: Option<String>,
    pub kind: SymbolKind,
    pub range: Range,
    pub selection_range: Range,
    pub children: Option<Vec<DocumentSymbol>>,
}

/// The diagnostics of one document, as published to the editor.
#[derive(Debug, PartialEq)]
pub struct PublishDiagnosticsParams {
    pub uri: String,
    pub diagnostics: Vec<Diagnostic>,
}

// ---------------------------------------------------------------------------------------
// Specification values
// ---------------------------------------------------------------------------------------

pub struct LspDiagV {
    pub range: Range,
    pub severity: Option<DiagnosticSeverity>,
    pub code: Option<Seq<char>>,
    pub source: Option<Seq<char>>,
    pub message: Seq<char>,
}

pub open spec fn opt_view(o: Option<String>) -> Option<Seq<char>> {
    match o {
        Some(s) => Some(s@),
        None => None,
    }
}

pub open spec fn lsp_diag_view(d: Diagnostic) -> LspDiagV {
    LspDiagV { range: d.range, severity: d.severity, code: opt_view(d.code), source: opt_view(d.source), message: d.message@ }
}

pub struct MarkupV {
    pub kind: MarkupKind,
    pub value: Seq<char>,
}

pub open spec fn markup_view(m: MarkupContent) -> MarkupV {
    MarkupV { kind: m.kind, value: m.value@ }
}

pub struct CompletionV {
    pub label: Seq<char>,
    pub kind: Option<CompletionItemKind>,
    pub detail: Option<Seq<char>>,
    pub documentation: Option<MarkupV>,
    pub insert_text: Option<Seq<char>>,
    pub insert_text_format: Option<InsertTextFormat>,
}

pub open spec fn completion_view(c: CompletionItem) -> CompletionV {
    CompletionV {
        label: c.label@,
        kind: c.kind,
        detail: opt_view(c.detail),
        documentation: match c.documentation {
            Some(m) => Some(markup_view(m)),
            None => None,
        },
        insert_text: opt_view(c.insert_text),
        insert_text_format: c.insert_text_format,
    }
}

pub struct SymbolV {
    pub name: Seq<char>,
    pub detail: Option<Seq<char>>,
    pub kind: SymbolKind,
    pub range: Range,
    pub selection_range: Range,
}

pub open spec fn symbol_view(s: DocumentSymbol) -> SymbolV {
    SymbolV { name: s.name@, detail: opt_view(s.detail), kind: s.kind, range: s.range, selection_range: s.selection_range }
}

} // verus!
