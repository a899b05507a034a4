use vstd::prelude::*;
use crate::lsp::analysis::{
    Analyzer, Document, completions_for, document_diagnostics, document_symbols, formatting_edits, hover_text, line_at,
    on_boundary, text_before,
};
use crate::lsp::protocol::{
    CompletionItem, Diagnostic as LspDiagnostic, DocumentSymbol, Hover, LspDiagV, MarkupKind, Position,
    PublishDiagnosticsParams, TextEdit, completion_view, lsp_diag_view, symbol_view,
};
use crate::cli::studio::{begins_with, parse_usize, parse_usize_exec};
use crate::text::{chars_of, decimal, spec_to_lowercase, spec_trim, str_eq, to_lowercase_str, trim_str, u64_to_string};

verus! {

// ---------------------------------------------------------------------------------------
// URIs
// ---------------------------------------------------------------------------------------

/// `s` with every occurrence of `pat` (scanning left to right, without overlaps) replaced by
/// `rep`.
pub open spec fn replace_all(s: Seq<char>, pat: Seq<char>, rep: Seq<char>) -> Seq<char>
    recommends
        pat.len() > 0,
    decreases s.len(),
{
    if s.len() == 0 || pat.len() == 0 {
        s
    } else if s.len() >= pat.len() && s.take(pat.len() as int) == pat {
        rep + replace_all(s.skip(pat.len() as int), pat, rep)
    } else {
        seq![s[0]] + replace_all(s.drop_first(), pat, rep)
    }
}

/// A URI with its percent-escaped colons and spaces decoded, in lower case.
pub open spec fn normalized_uri(uri: Seq<char>) -> Seq<char> {
    spec_to_lowercase(replace_all(replace_all(replace_all(uri, "%3A"@, ":"@), "%3a"@, ":"@), "%20"@, " "@))
}

fn replace_exec(s: &str, pat: &str, rep: &str) -> (r: String)
    requires
        pat@.len() > 0,
    ensures
        r@ == replace_all(s@, pat@, rep@),
{
    let cs = crate::text::chars_of(s);
    let ps = crate::text::chars_of(pat);
    let mut out = String::new();
    let mut i: usize = 0;
    let n = cs.len();
    let m = ps.len();
    assert(cs@.skip(0) =~= cs@);
    assert(out@ + replace_all(cs@.skip(0), pat@, rep@) =~= replace_all(s@, pat@, rep@));
    while i < n
        invariant
            cs@ == s@,
            ps@ == pat@,
            n == cs@.len(),
            m == ps@.len(),
            m > 0,
            i <= n,
            out@ + replace_all(cs@.skip(i as int), pat@, rep@) == replace_all(s@, pat@, rep@),
        decreases n - i,
    {
        let ghost rest = cs@.skip(i as int);
        let mut hit = m <= n - i;
        if hit {
            let mut k: usize = 0;
            while k < m
                invariant
                    i + m <= n,
                    n == cs@.len(),
                    m == ps@.len(),
                    k <= m,
                    hit ==> forall|t: int| 0 <= t < k ==> cs@[i + t] == ps@[t],
                    !hit ==> cs@.skip(i as int).take(m as int) != ps@,
                decreases m - k,
            {
                if cs[i + k] != ps[k] {
                    assert(cs@.skip(i as int).take(m as int)[k as int] != ps@[k as int]);
                    hit = false;
                }
                k = k + 1;
            }
            if hit {
                assert(cs@.skip(i as int).take(m as int) =~= ps@);
            }
        }
        if hit {
            out.append(rep);
            proof {
                assert(rest.skip(m as int) =~= cs@.skip(i + m));
                assert(out@ + replace_all(cs@.skip(i + m), pat@, rep@) =~= (out@.subrange(0, out@.len() - rep@.len()))
                    + replace_all(rest, pat@, rep@));
            }
            i = i + m;
        } else {
            let c = cs[i];
            crate::text::push_char(&mut out, c);
            proof {
                assert(rest.drop_first() =~= cs@.skip(i + 1));
                assert(rest[0] == c);
            }
            i = i + 1;
            proof {
                assert(out@ + replace_all(cs@.skip(i as int), pat@, rep@) =~= out@.drop_last() + (seq![c]
                    + replace_all(cs@.skip(i as int), pat@, rep@)));
            }
        }
    }
    proof {
        assert(cs@.skip(n as int) =~= Seq::<char>::empty());
        assert(out@ + Seq::<char>::empty() =~= out@);
    }
    out
}

/// A URI in the form used to compare documents.
fn normalize_uri(uri: &str) -> (r: String)
    ensures
        r@ == normalized_uri(uri@),
{
    proof {
        reveal_strlit("%3A");
        reveal_strlit("%3a");
        reveal_strlit("%20");
    }
    let a = replace_exec(uri, "%3A", ":");
    let b = replace_exec(a.as_str(), "%3a", ":");
    let c = replace_exec(b.as_str(), "%20", " ");
    to_lowercase_str(c.as_str())
}

} // verus!

verus! {

// ---------------------------------------------------------------------------------------
// The server's documents and notifications
// ---------------------------------------------------------------------------------------

/// A document as a specification value.
pub struct DocV {
    pub uri: Seq<char>,
    pub version: i64,
    pub text: Seq<char>,
}

pub open spec fn doc_view(d: Document) -> DocV {
    DocV { uri: d.uri@, version: d.version, text: d.text@ }
}

/// A notification from the editor, with the fields the server reads from it.
pub enum Notification {
    Initialized,
    Exit,
    DidOpen { uri: String, version: i64, text: String },
    DidChange { uri: String, version: i64, text: String },
    DidClose { uri: String },
    Other,
}

/// Index of the first document at or after `i` stored under `uri`.
pub open spec fn first_uri(docs: Seq<DocV>, uri: Seq<char>, i: int) -> Option<int>
    decreases docs.len() - i,
{
    if i < 0 || i >= docs.len() {
        None
    } else if docs[i].uri == uri {
        Some(i)
    } else {
        first_uri(docs, uri, i + 1)
    }
}

/// A request from the editor, with the fields the server reads from it.
pub enum Request {
    Initialize,
    Shutdown,
    Completion { uri: String, position: Position },
    Hover { uri: String, position: Position },
    Formatting { uri: String },
    DocumentSymbol { uri: String },
    Unknown { method: String },
}

/// What the server announces in its answer to `initialize`.
#[derive(Debug, Clone, PartialEq)]
pub struct ServerCapabilities {
    /// How documents are synchronised: 1 is the whole text on every change.
    pub text_document_sync: u8,
    pub completion_resolve_provider: bool,
    pub completion_trigger_characters: Vec<String>,
    pub hover_provider: bool,
    pub document_formatting_provider: bool,
    pub document_symbol_provider: bool,
    pub server_name: String,
    pub server_version: String,
}

/// The capabilities this server announces: full-text sync, completion (not resolved later)
/// triggered by `.`, `(`, `"` and space, hover, formatting and document symbols, as
/// `scratch-lsp` 0.1.0.
pub open spec fn announced_capabilities(c: ServerCapabilities) -> bool {
    &&& c.text_document_sync == 1
    &&& !c.completion_resolve_provider
    &&& c.completion_trigger_characters@.map_values(|t: String| t@) == seq!["."@, "("@, "\""@, " "@]
    &&& c.hover_provider
    &&& c.document_formatting_provider
    &&& c.document_symbol_provider
    &&& c.server_name@ == "scratch-lsp"@
    &&& c.server_version@ == "0.1.0"@
}

/// The capabilities this server announces.
pub fn server_capabilities() -> (c: ServerCapabilities)
    ensures
        announced_capabilities(c),
{
    let mut triggers: Vec<String> = Vec::new();
    triggers.push(String::from_str("."));
    triggers.push(String::from_str("("));
    triggers.push(String::from_str("\""));
    triggers.push(String::from_str(" "));
    let c = ServerCapabilities {
        text_document_sync: 1,
        completion_resolve_provider: false,
        completion_trigger_characters: triggers,
        hover_provider: true,
        document_formatting_provider: true,
        document_symbol_provider: true,
        server_name: String::from_str("scratch-lsp"),
        server_version: String::from_str("0.1.0"),
    };
    assert(c.completion_trigger_characters@.map_values(|t: String| t@) =~= seq!["."@, "("@, "\""@, " "@]);
    c
}

/// The server's answer to a request.
pub enum Response {
    /// The server's capabilities.
    Initialized(ServerCapabilities),
    ShutdownAck,
    Completions(Vec<CompletionItem>),
    Hover(Option<Hover>),
    Edits(Vec<TextEdit>),
    Symbols(Vec<DocumentSymbol>),
    MethodNotFound(String),
    /// The request could not be answered (a cursor inside a character).
    InternalError,
}

/// Whether `r` answers `req` about the given documents.
pub open spec fn answers(a: Analyzer, docs: Seq<DocV>, req: Request, r: Response) -> bool {
    match req {
        Request::Initialize => r matches Response::Initialized(c) && announced_capabilities(c),
        Request::Shutdown => r is ShutdownAck,
        Request::Completion { uri, position } => match find_document(docs, uri@) {
            Some(d) => if on_boundary(line_at(d.text, position.line as nat), position.character as nat) {
                r matches Response::Completions(items) && items@.map_values(|c: CompletionItem| completion_view(c))
                    == completions_for(a.registry_view(), a.objects(), a.assets(), a.scenes(),
                    crate::text::spec_trim_start(text_before(line_at(d.text, position.line as nat), position.character as nat)))
            } else {
                r is InternalError
            },
            None => r matches Response::Completions(items) && items@.len() == 0,
        },
        Request::Hover { uri, position } => match find_document(docs, uri@) {
            Some(d) => r matches Response::Hover(h) && match (if (position.line as nat) < crate::text::lines_of(d.text).len() {
                hover_text(a.registry_view(), a.objects(), crate::text::lines_of(d.text)[position.line as int], position.character as nat)
            } else {
                None
            }) {
                Some(t) => h matches Some(x) && x.contents.kind == MarkupKind::Markdown && x.contents.value@ == t && x.range is None,
                None => h is None,
            },
            None => r matches Response::Hover(h) && h is None,
        },
        Request::Formatting { uri } => match find_document(docs, uri@) {
            Some(d) => if d.text.len() <= usize::MAX / 4 {
                r matches Response::Edits(v) && v@.map_values(|e: TextEdit| (e.range, e.new_text@)) == match formatting_edits(
                    d.text,
                ) {
                    Some(es) => es,
                    None => Seq::empty(),
                }
            } else {
                r is InternalError
            },
            None => r matches Response::Edits(v) && v@.len() == 0,
        },
        Request::DocumentSymbol { uri } => match find_document(docs, uri@) {
            Some(d) => if d.text.len() <= usize::MAX / 4 {
                r matches Response::Symbols(v) && v@.map_values(|s: DocumentSymbol| symbol_view(s)) == document_symbols(d.text)
            } else {
                r is InternalError
            },
            None => r matches Response::Symbols(v) && v@.len() == 0,
        },
        Request::Unknown { method } => r matches Response::MethodNotFound(m) && m@ == method@,
    }
}

/// The documents with `d` stored under its URI: the document of the same URI is replaced in
/// place, otherwise `d` is appended.
pub open spec fn store_insert(docs: Seq<DocV>, d: DocV) -> Seq<DocV> {
    match first_uri(docs, d.uri, 0) {
        Some(i) => docs.update(i, d),
        None => docs.push(d),
    }
}

/// The documents without those whose URI normalizes to `norm`.
pub open spec fn store_close(docs: Seq<DocV>, norm: Seq<char>) -> Seq<DocV> {
    docs.filter(|d: DocV| normalized_uri(d.uri) != norm)
}

/// Index of the first document at or after `i` whose URI normalizes to `norm`.
pub open spec fn first_normalized(docs: Seq<DocV>, norm: Seq<char>, i: int) -> Option<int>
    decreases docs.len() - i,
{
    if i < 0 || i >= docs.len() {
        None
    } else if normalized_uri(docs[i].uri) == norm {
        Some(i)
    } else {
        first_normalized(docs, norm, i + 1)
    }
}

/// The document stored under `uri`, else the first whose URI normalizes like it.
pub open spec fn find_document(docs: Seq<DocV>, uri: Seq<char>) -> Option<DocV> {
    match first_uri(docs, uri, 0) {
        Some(i) => Some(docs[i]),
        None => match first_normalized(docs, normalized_uri(uri), 0) {
            Some(i) => Some(docs[i]),
            None => None,
        },
    }
}

/// No two documents share a URI.
pub open spec fn uris_unique(docs: Seq<DocV>) -> bool {
    forall|i: int, j: int| 0 <= i < docs.len() && 0 <= j < docs.len() && #[trigger] docs[i].uri == #[trigger] docs[j].uri ==> i == j
}

/// Published diagnostics as a specification value.
pub open spec fn publish_view(p: PublishDiagnosticsParams) -> (Seq<char>, Seq<LspDiagV>) {
    (p.uri@, p.diagnostics@.map_values(|d: LspDiagnostic| lsp_diag_view(d)))
}

/// The language server's state: open documents, the analyzer, and whether it was told to
/// exit.
pub struct LspServer {
    documents: Vec<Document>,
    analyzer: Analyzer,
    is_shutdown: bool,
}

impl LspServer {
    pub closed spec fn docs(self) -> Seq<DocV> {
        self.documents@.map_values(|d: Document| doc_view(d))
    }

    pub closed spec fn shutdown(self) -> bool {
        self.is_shutdown
    }

    pub closed spec fn analyzer_view(self) -> Analyzer {
        self.analyzer
    }

    /// A server with no documents, not shut down, and a fresh analyzer: the core blocks, and
    /// the default objects, actions, assets and scenes.
    pub fn new() -> (s: Self)
        ensures
            s.docs().len() == 0,
            !s.shutdown(),
            s.analyzer_view().registry_view().wf(),
            forall|n: Seq<char>| #[trigger] s.analyzer_view().registry_view().has(n)
                <==> crate::blocks::catalog::is_core_block_name(n),
            forall|n: Seq<char>| #[trigger] s.analyzer_view().registry_view().lookup_def(n)
                == crate::blocks::core_catalogue::core_catalogue(n),
            s.analyzer_view().objects() == crate::lsp::analysis::analyzer_objects(),
            s.analyzer_view().actions() == crate::lsp::analysis::analyzer_actions(),
            s.analyzer_view().assets() == crate::lsp::analysis::analyzer_assets(),
            s.analyzer_view().scenes() == crate::lsp::analysis::analyzer_scenes(),
    {
        let s = LspServer { documents: Vec::new(), analyzer: Analyzer::new(), is_shutdown: false };
        assert(s.docs() =~= Seq::<DocV>::empty());
        s
    }

    /// Whether an exit notification arrived.
    pub fn is_shutdown(&self) -> (r: bool)
        ensures
            r == self.shutdown(),
    {
        self.is_shutdown
    }

    /// The analyzer, to change what it knows.
    pub fn analyzer_mut(&mut self) -> (a: &mut Analyzer)
        ensures
            *a == old(self).analyzer_view(),
            final(self).analyzer_view() == *final(a),
            final(self).docs() == old(self).docs(),
            final(self).shutdown() == old(self).shutdown(),
    {
        &mut self.analyzer
    }

    /// The open document under `uri` (see `find_document`).
    pub fn get_document(&self, uri: &str) -> (r: Option<&Document>)
        ensures
            match find_document(self.docs(), uri@) {
                Some(d) => r matches Some(x) && doc_view(*x) == d,
                None => r is None,
            },
    {
        let ghost dv = self.docs();
        for i in 0..self.documents.len()
            invariant
                dv == self.docs(),
                dv.len() == self.documents@.len(),
                first_uri(dv, uri@, 0) == first_uri(dv, uri@, i as int),
        {
            assert(dv[i as int] == doc_view(self.documents@[i as int]));
            if str_eq(self.documents[i].uri.as_str(), uri) {
                return Some(&self.documents[i]);
            }
        }
        let norm = normalize_uri(uri);
        for i in 0..self.documents.len()
            invariant
                dv == self.docs(),
                dv.len() == self.documents@.len(),
                norm@ == normalized_uri(uri@),
                first_uri(dv, uri@, 0) is None,
                first_normalized(dv, norm@, 0) == first_normalized(dv, norm@, i as int),
        {
            assert(dv[i as int] == doc_view(self.documents@[i as int]));
            let k = normalize_uri(self.documents[i].uri.as_str());
            if str_eq(k.as_str(), norm.as_str()) {
                return Some(&self.documents[i]);
            }
        }
        None
    }

    /// Handles a notification: opening or changing a document stores its text and publishes
    /// its diagnostics; closing forgets every document whose URI normalizes like the given
    /// one; exit marks the server as shut down.
    pub fn handle_notification(&mut self, notif: Notification) -> (r: Option<Vec<PublishDiagnosticsParams>>)
        requires
            match notif {
                Notification::DidOpen { text, .. } => text@.len() <= usize::MAX / 4,
                Notification::DidChange { text, .. } => text@.len() <= usize::MAX / 4,
                _ => true,
            },
        ensures
            final(self).analyzer_view() == old(self).analyzer_view(),
            match notif {
                Notification::Exit => r is None && final(self).docs() == old(self).docs() && final(self).shutdown(),
                Notification::DidOpen { uri, version, text } => {
                    &&& final(self).docs() == store_insert(old(self).docs(), DocV { uri: uri@, version, text: text@ })
                    &&& final(self).shutdown() == old(self).shutdown()
                    &&& r matches Some(v) && v@.len() == 1 && publish_view(v@[0]) == (uri@, document_diagnostics(
                        old(self).analyzer_view().registry_view(),
                        old(self).analyzer_view().objects(),
                        text@,
                    ))
                },
                Notification::DidChange { uri, version, text } => {
                    &&& final(self).docs() == store_insert(old(self).docs(), DocV { uri: uri@, version, text: text@ })
                    &&& final(self).shutdown() == old(self).shutdown()
                    &&& r matches Some(v) && v@.len() == 1 && publish_view(v@[0]) == (uri@, document_diagnostics(
                        old(self).analyzer_view().registry_view(),
                        old(self).analyzer_view().objects(),
                        text@,
                    ))
                },
                Notification::DidClose { uri } => {
                    &&& r is None
                    &&& final(self).docs() == store_close(old(self).docs(), normalized_uri(uri@))
                    &&& final(self).shutdown() == old(self).shutdown()
                },
                _ => r is None && final(self).docs() == old(self).docs() && final(self).shutdown() == old(self).shutdown(),
            },
    {
        match notif {
            Notification::Exit => {
                self.is_shutdown = true;
                None
            },
            Notification::DidOpen { uri, version, text } => Some(self.open_document(uri, version, text)),
            Notification::DidChange { uri, version, text } => Some(self.open_document(uri, version, text)),
            Notification::DidClose { uri } => {
                self.close(uri.as_str());
                None
            },
            _ => None,
        }
    }

    fn open_document(&mut self, uri: String, version: i64, text: String) -> (r: Vec<PublishDiagnosticsParams>)
        requires
            text@.len() <= usize::MAX / 4,
        ensures
            final(self).analyzer_view() == old(self).analyzer_view(),
            final(self).docs() == store_insert(old(self).docs(), DocV { uri: uri@, version, text: text@ }),
            final(self).shutdown() == old(self).shutdown(),
            r@.len() == 1,
            publish_view(r@[0]) == (uri@, document_diagnostics(
                old(self).analyzer_view().registry_view(),
                old(self).analyzer_view().objects(),
                text@,
            )),
    {
        let doc = Document::new(uri.clone(), version, text);
        let diagnostics = self.analyzer.compute_diagnostics(&doc);
        self.store(doc);
        let mut out: Vec<PublishDiagnosticsParams> = Vec::new();
        out.push(PublishDiagnosticsParams { uri, diagnostics });
        out
    }

    /// Answers a request about an open document (see `Request`); documents are found as
    /// `find_document` finds them, and a request about an unknown document gets an empty
    /// answer.
    pub fn handle_request(&mut self, req: Request) -> (r: Response)
        ensures
            final(self).analyzer_view() == old(self).analyzer_view(),
            final(self).docs() == old(self).docs(),
            final(self).shutdown() == (old(self).shutdown() || req is Shutdown),
            answers(old(self).analyzer_view(), old(self).docs(), req, r),
    {
        match req {
            Request::Initialize => Response::Initialized(server_capabilities()),
            Request::Shutdown => {
                self.is_shutdown = true;
                Response::ShutdownAck
            },
            Request::Completion { uri, position } => match self.get_document(uri.as_str()) {
                Some(doc) => {
                    let line = match doc.get_line(position.line as usize) {
                        Some(l) => l,
                        None => String::new(),
                    };
                    if crate::lsp::analysis::is_boundary(&line, position.character) {
                        Response::Completions(self.analyzer.compute_completions(doc, position))
                    } else {
                        Response::InternalError
                    }
                },
                None => Response::Completions(Vec::new()),
            },
            Request::Hover { uri, position } => match self.get_document(uri.as_str()) {
                Some(doc) => Response::Hover(self.analyzer.compute_hover(doc, position)),
                None => Response::Hover(None),
            },
            Request::Formatting { uri } => match self.get_document(uri.as_str()) {
                Some(doc) => {
                    if doc.text.as_str().unicode_len() <= usize::MAX / 4 {
                        match self.analyzer.format_document(doc) {
                            Some(edits) => Response::Edits(edits),
                            None => {
                                let v: Vec<TextEdit> = Vec::new();
                                assert(v@.map_values(|e: TextEdit| (e.range, e.new_text@)) =~= Seq::<(crate::lsp::protocol::Range, Seq<char>)>::empty());
                                Response::Edits(v)
                            },
                        }
                    } else {
                        Response::InternalError
                    }
                },
                None => Response::Edits(Vec::new()),
            },
            Request::DocumentSymbol { uri } => match self.get_document(uri.as_str()) {
                Some(doc) => {
                    if doc.text.as_str().unicode_len() <= usize::MAX / 4 {
                        Response::Symbols(self.analyzer.compute_document_symbols(doc))
                    } else {
                        Response::InternalError
                    }
                },
                None => Response::Symbols(Vec::new()),
            },
            Request::Unknown { method } => Response::MethodNotFound(method),
        }
    }

    fn store(&mut self, doc: Document)
        ensures
            final(self).docs() == store_insert(old(self).docs(), doc_view(doc)),
            final(self).analyzer_view() == old(self).analyzer_view(),
            final(self).shutdown() == old(self).shutdown(),
    {
        let ghost dv = self.docs();
        let ghost d = doc_view(doc);
        let mut i: usize = 0;
        while i < self.documents.len()
            invariant
                dv == self.documents@.map_values(|x: Document| doc_view(x)),
                d == doc_view(doc),
                i <= dv.len(),
                first_uri(dv, d.uri, 0) == first_uri(dv, d.uri, i as int),
            ensures
                i <= dv.len(),
                first_uri(dv, d.uri, 0) == first_uri(dv, d.uri, i as int),
                i < dv.len() ==> dv[i as int].uri == d.uri,
            decreases dv.len() - i,
        {
            assert(dv[i as int] == doc_view(self.documents@[i as int]));
            if str_eq(self.documents[i].uri.as_str(), doc.uri.as_str()) {
                break;
            }
            i = i + 1;
        }
        let mut docs: Vec<Document> = Vec::new();
        std::mem::swap(&mut docs, &mut self.documents);
        if i < docs.len() {
            docs.set(i, doc);
            assert(docs@.map_values(|x: Document| doc_view(x)) =~= dv.update(i as int, d));
        } else {
            docs.push(doc);
            assert(docs@.map_values(|x: Document| doc_view(x)) =~= dv.push(d));
        }
        self.documents = docs;
    }

    fn close(&mut self, uri: &str)
        ensures
            final(self).docs() == store_close(old(self).docs(), normalized_uri(uri@)),
            final(self).analyzer_view() == old(self).analyzer_view(),
            final(self).shutdown() == old(self).shutdown(),
    {
        let norm = normalize_uri(uri);
        let ghost dv = self.docs();
        let ghost pred = |x: DocV| normalized_uri(x.uri) != norm@;
        let mut docs: Vec<Document> = Vec::new();
        std::mem::swap(&mut docs, &mut self.documents);
        let ghost orig = docs@;
        assert(orig.map_values(|x: Document| doc_view(x)) == dv);
        let mut kept: Vec<Document> = Vec::new();
        let ghost mut i: int = 0;
        assert(dv.take(0).filter(pred) =~= Seq::<DocV>::empty()) by {
            reveal(Seq::filter);
        }
        assert(kept@.map_values(|x: Document| doc_view(x)) =~= Seq::<DocV>::empty());
        assert(orig.skip(0) =~= orig);
        while docs.len() > 0
            invariant
                0 <= i <= orig.len(),
                docs@ == orig.skip(i),
                dv == orig.map_values(|x: Document| doc_view(x)),
                norm@ == normalized_uri(uri@),
                pred == (|x: DocV| normalized_uri(x.uri) != norm@),
                kept@.map_values(|x: Document| doc_view(x)) == dv.take(i).filter(pred),
                self.documents@.len() == 0,
                self.analyzer == old(self).analyzer,
                self.is_shutdown == old(self).is_shutdown,
            decreases docs@.len(),
        {
            let d = docs.remove(0);
            assert(d == orig[i]);
            assert(dv[i] == doc_view(d));
            let k = normalize_uri(d.uri.as_str());
            let ghost kv = kept@.map_values(|x: Document| doc_view(x));
            proof {
                assert(dv.take(i + 1).drop_last() =~= dv.take(i));
                assert(dv.take(i + 1).last() == dv[i]);
                reveal(Seq::filter);
            }
            if !str_eq(k.as_str(), norm.as_str()) {
                kept.push(d);
                assert(kept@.map_values(|x: Document| doc_view(x)) =~= kv.push(dv[i]));
            }
            proof {
                i = i + 1;
                assert(docs@ =~= orig.skip(i));
            }
        }
        assert(dv.take(i) =~= dv);
        self.documents = kept;
    }
}

} // verus!

verus! {

// ---------------------------------------------------------------------------------------
// Laws of the document store
// ---------------------------------------------------------------------------------------

proof fn lemma_first_uri(docs: Seq<DocV>, uri: Seq<char>, start: int)
    requires
        0 <= start,
    ensures
        match first_uri(docs, uri, start) {
            Some(i) => start <= i < docs.len() && docs[i].uri == uri
                && forall|k: int| start <= k < i ==> #[trigger] docs[k].uri != uri,
            None => forall|k: int| start <= k < docs.len() ==> #[trigger] docs[k].uri != uri,
        },
    decreases docs.len() - start,
{
    if start < docs.len() && docs[start].uri != uri {
        lemma_first_uri(docs, uri, start + 1);
    }
}

proof fn lemma_first_uri_at(docs: Seq<DocV>, uri: Seq<char>, start: int, i: int)
    requires
        0 <= start <= i < docs.len(),
        docs[i].uri == uri,
        forall|k: int| start <= k < i ==> #[trigger] docs[k].uri != uri,
    ensures
        first_uri(docs, uri, start) == Some(i),
    decreases i - start,
{
    if start < i {
        lemma_first_uri_at(docs, uri, start + 1, i);
    }
}

proof fn lemma_first_uri_none(docs: Seq<DocV>, uri: Seq<char>, start: int)
    requires
        0 <= start,
        forall|k: int| start <= k < docs.len() ==> #[trigger] docs[k].uri != uri,
    ensures
        first_uri(docs, uri, start) is None,
    decreases docs.len() - start,
{
    if start < docs.len() {
        lemma_first_uri_none(docs, uri, start + 1);
    }
}

proof fn lemma_first_normalized_none(docs: Seq<DocV>, norm: Seq<char>, start: int)
    requires
        0 <= start,
        forall|k: int| start <= k < docs.len() ==> normalized_uri(#[trigger] docs[k].uri) != norm,
    ensures
        first_normalized(docs, norm, start) is None,
    decreases docs.len() - start,
{
    if start < docs.len() {
        lemma_first_normalized_none(docs, norm, start + 1);
    }
}

/// Reading a document back after storing it gives that document.
pub proof fn law_stored_document_is_found(docs: Seq<DocV>, d: DocV)
    ensures
        find_document(store_insert(docs, d), d.uri) == Some(d),
{
    lemma_first_uri(docs, d.uri, 0);
    let stored = store_insert(docs, d);
    match first_uri(docs, d.uri, 0) {
        Some(i) => {
            assert forall|k: int| 0 <= k < i implies #[trigger] stored[k].uri != d.uri by {
                assert(stored[k] == docs[k]);
            }
            lemma_first_uri_at(stored, d.uri, 0, i);
        },
        None => {
            assert forall|k: int| 0 <= k < docs.len() implies #[trigger] stored[k].uri != d.uri by {
                assert(stored[k] == docs[k]);
            }
            lemma_first_uri_at(stored, d.uri, 0, docs.len() as int);
        },
    }
}

/// After a document is closed, neither its URI nor any URI that normalizes like it finds a
/// document.
pub proof fn law_closed_document_is_gone(docs: Seq<DocV>, uri: Seq<char>)
    ensures
        find_document(store_close(docs, normalized_uri(uri)), uri) is None,
{
    let norm = normalized_uri(uri);
    let pred = |x: DocV| normalized_uri(x.uri) != norm;
    let kept = store_close(docs, norm);
    assert forall|k: int| 0 <= k < kept.len() implies normalized_uri(#[trigger] kept[k].uri) != norm by {
        docs.filter_lemma(pred);
        assert(pred(kept[k]));
    }
    assert forall|k: int| 0 <= k < kept.len() implies #[trigger] kept[k].uri != uri by {
        assert(normalized_uri(kept[k].uri) != norm);
    }
    lemma_first_uri_none(kept, uri, 0);
    lemma_first_normalized_none(kept, norm, 0);
}

/// Storing a document keeps the URIs of the stored documents distinct.
pub proof fn law_store_keeps_uris_unique(docs: Seq<DocV>, d: DocV)
    requires
        uris_unique(docs),
    ensures
        uris_unique(store_insert(docs, d)),
{
    lemma_first_uri(docs, d.uri, 0);
    let stored = store_insert(docs, d);
    match first_uri(docs, d.uri, 0) {
        Some(i) => {
            assert forall|a: int, b: int| 0 <= a < stored.len() && 0 <= b < stored.len() && #[trigger] stored[a].uri
                == #[trigger] stored[b].uri implies a == b by {
                if a != i && b != i {
                    assert(stored[a] == docs[a] && stored[b] == docs[b]);
                } else if a == i && b != i {
                    assert(stored[b] == docs[b]);
                    assert(docs[b].uri == docs[i].uri);
                } else if b == i && a != i {
                    assert(stored[a] == docs[a]);
                    assert(docs[a].uri == docs[i].uri);
                }
            }
        },
        None => {
            assert forall|a: int, b: int| 0 <= a < stored.len() && 0 <= b < stored.len() && #[trigger] stored[a].uri
                == #[trigger] stored[b].uri implies a == b by {
                if a < docs.len() && b < docs.len() {
                    assert(stored[a] == docs[a] && stored[b] == docs[b]);
                } else if a < docs.len() {
                    assert(stored[a] == docs[a]);
                } else if b < docs.len() {
                    assert(stored[b] == docs[b]);
                }
            }
        },
    }
}

/// A change to the document store: a document opened or changed, or a URI closed.
pub enum StoreOp {
    Store(DocV),
    Close(Seq<char>),
}

/// The store after the changes `ops`, applied in order to `docs`.
pub open spec fn apply_store_ops(docs: Seq<DocV>, ops: Seq<StoreOp>) -> Seq<DocV>
    decreases ops.len(),
{
    if ops.len() == 0 {
        docs
    } else {
        let before = apply_store_ops(docs, ops.drop_last());
        match ops.last() {
            StoreOp::Store(d) => store_insert(before, d),
            StoreOp::Close(u) => store_close(before, normalized_uri(u)),
        }
    }
}

/// Whether, after the changes `ops` to an empty store, a document is kept under `u`: some
/// change stored a document under `u`, and no later one closed a URI that normalizes like it.
pub open spec fn uri_kept(ops: Seq<StoreOp>, u: Seq<char>) -> bool
    decreases ops.len(),
{
    if ops.len() == 0 {
        false
    } else {
        match ops.last() {
            StoreOp::Store(d) => d.uri == u || uri_kept(ops.drop_last(), u),
            StoreOp::Close(c) => uri_kept(ops.drop_last(), u) && normalized_uri(u) != normalized_uri(c),
        }
    }
}

/// Whether some stored document has the URI `u`.
pub open spec fn has_uri(docs: Seq<DocV>, u: Seq<char>) -> bool {
    exists|i: int| 0 <= i < docs.len() && #[trigger] docs[i].uri == u
}

proof fn lemma_has_uri_insert(docs: Seq<DocV>, d: DocV, u: Seq<char>)
    ensures
        has_uri(store_insert(docs, d), u) <==> (has_uri(docs, u) || u == d.uri),
{
    lemma_first_uri(docs, d.uri, 0);
    let stored = store_insert(docs, d);
    match first_uri(docs, d.uri, 0) {
        Some(i) => {
            if has_uri(stored, u) {
                let j = choose|j: int| 0 <= j < stored.len() && #[trigger] stored[j].uri == u;
                if j != i {
                    assert(docs[j].uri == u);
                }
            }
            if has_uri(docs, u) {
                let j = choose|j: int| 0 <= j < docs.len() && #[trigger] docs[j].uri == u;
                if j != i {
                    assert(stored[j].uri == u);
                } else {
                    assert(stored[i].uri == u);
                }
            }
            if u == d.uri {
                assert(stored[i].uri == u);
            }
        },
        None => {
            if has_uri(stored, u) {
                let j = choose|j: int| 0 <= j < stored.len() && #[trigger] stored[j].uri == u;
                if j < docs.len() {
                    assert(docs[j].uri == u);
                }
            }
            if has_uri(docs, u) {
                let j = choose|j: int| 0 <= j < docs.len() && #[trigger] docs[j].uri == u;
                assert(stored[j].uri == u);
            }
            if u == d.uri {
                assert(stored[docs.len() as int].uri == u);
            }
        },
    }
}

proof fn lemma_has_uri_close(docs: Seq<DocV>, c: Seq<char>, u: Seq<char>)
    ensures
        has_uri(store_close(docs, normalized_uri(c)), u) <==> (has_uri(docs, u) && normalized_uri(u)
            != normalized_uri(c)),
{
    let norm = normalized_uri(c);
    let pred = |x: DocV| normalized_uri(x.uri) != norm;
    let kept = store_close(docs, norm);
    assert(kept == docs.filter(pred));
    if has_uri(kept, u) {
        let j = choose|j: int| 0 <= j < kept.len() && #[trigger] kept[j].uri == u;
        docs.lemma_filter_pred(pred, j);
        assert(kept.contains(kept[j]));
        docs.lemma_filter_contains_rev(pred, kept[j]);
        let k = choose|k: int| 0 <= k < docs.len() && docs[k] == kept[j];
        assert(docs[k].uri == u);
    }
    if has_uri(docs, u) && normalized_uri(u) != norm {
        let j = choose|j: int| 0 <= j < docs.len() && #[trigger] docs[j].uri == u;
        docs.lemma_filter_contains(pred, j);
        let k = choose|k: int| 0 <= k < kept.len() && kept[k] == docs[j];
        assert(kept[k].uri == u);
    }
}

proof fn lemma_first_normalized(docs: Seq<DocV>, norm: Seq<char>, start: int)
    requires
        0 <= start,
    ensures
        match first_normalized(docs, norm, start) {
            Some(i) => start <= i < docs.len() && normalized_uri(docs[i].uri) == norm,
            None => forall|k: int| start <= k < docs.len() ==> normalized_uri(#[trigger] docs[k].uri) != norm,
        },
    decreases docs.len() - start,
{
    if start < docs.len() && normalized_uri(docs[start].uri) != norm {
        lemma_first_normalized(docs, norm, start + 1);
    }
}

/// After any changes to an empty store, a document is kept under `u` exactly when some
/// change stored one under `u` and no later change closed a URI that normalizes like it.
pub proof fn law_store_keeps_exactly_the_open_uris(ops: Seq<StoreOp>, u: Seq<char>)
    ensures
        has_uri(apply_store_ops(Seq::empty(), ops), u) <==> uri_kept(ops, u),
    decreases ops.len(),
{
    if ops.len() > 0 {
        law_store_keeps_exactly_the_open_uris(ops.drop_last(), u);
        let before = apply_store_ops(Seq::empty(), ops.drop_last());
        match ops.last() {
            StoreOp::Store(d) => lemma_has_uri_insert(before, d, u),
            StoreOp::Close(c) => lemma_has_uri_close(before, c, u),
        }
    }
}

/// After any changes to an empty store, a URI finds a document exactly when a document is
/// kept under some URI that normalizes like it, and the document found is kept under such
/// a URI.
pub proof fn law_document_found_after_changes(ops: Seq<StoreOp>, v: Seq<char>)
    ensures
        find_document(apply_store_ops(Seq::empty(), ops), v) is Some <==> exists|k: Seq<char>|
            #[trigger] uri_kept(ops, k) && normalized_uri(k) == normalized_uri(v),
        find_document(apply_store_ops(Seq::empty(), ops), v) matches Some(d) ==> uri_kept(ops, d.uri)
            && normalized_uri(d.uri) == normalized_uri(v),
{
    let docs = apply_store_ops(Seq::empty(), ops);
    let norm = normalized_uri(v);
    lemma_first_uri(docs, v, 0);
    lemma_first_normalized(docs, norm, 0);
    match first_uri(docs, v, 0) {
        Some(i) => {
            law_store_keeps_exactly_the_open_uris(ops, v);
            assert(docs[i].uri == v);
            assert(uri_kept(ops, v));
        },
        None => match first_normalized(docs, norm, 0) {
            Some(i) => {
                let k = docs[i].uri;
                law_store_keeps_exactly_the_open_uris(ops, k);
                assert(has_uri(docs, k));
                assert(uri_kept(ops, k));
            },
            None => {
                if exists|k: Seq<char>| #[trigger] uri_kept(ops, k) && normalized_uri(k) == norm {
                    let k = choose|k: Seq<char>| #[trigger] uri_kept(ops, k) && normalized_uri(k) == norm;
                    law_store_keeps_exactly_the_open_uris(ops, k);
                    let j = choose|j: int| 0 <= j < docs.len() && #[trigger] docs[j].uri == k;
                    assert(normalized_uri(docs[j].uri) != norm);
                }
            },
        },
    }
}

// ---------------------------------------------------------------------------------------
// Message framing
// ---------------------------------------------------------------------------------------

/// What a header line of the transport says of the body length: `None` for another header,
/// `Some(None)` for a `Content-Length:` line whose (trimmed) value is no number.
pub open spec fn spec_header_length(line: Seq<char>) -> Option<Option<usize>> {
    if begins_with(line, "Content-Length:"@) {
        Some(parse_usize(spec_trim(line.skip(15))))
    } else {
        None
    }
}

/// Reads a transport header line (see `spec_header_length`).
pub fn header_length(line: &str) -> (r: Option<Option<usize>>)
    ensures
        r == spec_header_length(line@),
{
    let cs = chars_of(line);
    let key = chars_of("Content-Length:");
    proof {
        reveal_strlit("Content-Length:");
    }
    if cs.len() < 15 {
        return None;
    }
    let mut i: usize = 0;
    while i < 15
        invariant
            key@ == "Content-Length:"@,
            key@.len() == 15,
            cs@ == line@,
            15 <= cs@.len(),
            i <= 15,
            forall|k: int| 0 <= k < i ==> cs@[k] == key@[k],
        decreases 15 - i,
    {
        if cs[i] != key[i] {
            assert(cs@.take(15)[i as int] != key@[i as int]);
            return None;
        }
        i = i + 1;
    }
    assert(cs@.take(15) =~= key@);
    let rest = crate::text::string_of_range(&cs, 15, cs.len());
    assert(rest@ =~= line@.skip(15));
    let value = trim_str(rest.as_str());
    Some(parse_usize_exec(value.as_str()))
}

/// A message framed for the transport: its UTF-8 length in a `Content-Length` header, a
/// blank line, then the message.
pub fn frame_message(body: &str) -> (r: String)
    ensures
        r@ == "Content-Length: "@ + decimal(body.len() as nat) + "\r\n\r\n"@ + body@,
{
    let mut out = String::from_str("Content-Length: ");
    let n = body.len();
    out.append(u64_to_string(n as u64).as_str());
    out.append("\r\n\r\n");
    out.append(body);
    out
}

} // verus!
