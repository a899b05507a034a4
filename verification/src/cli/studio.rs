use vstd::prelude::*;
use crate::blocks::block::BlockDefinition;
use crate::blocks::registry::BlockRegistry;
use crate::blocks::types::spec_category_name;
use crate::project::ProjectConfig;
use crate::bytecode::chunk::listing;
use crate::bytecode::compiler::{bc_program_view, compiled_program, BcEventV, BytecodeCompiler, BytecodeProgram};
use crate::ir::{ir_trigger_view, lower_ast_to_ir, IrTrigger, IrTriggerV};
use crate::ir::lower::lowered_program;
use crate::language::formatter::{fmt_program, format_source};
use crate::language::linter::{add_all, default_actions, default_objects, lint_program, DiagV, Linter};
use crate::language::source::{parse, spec_parse};
use crate::lsp::analysis::{all_digits, digits_value, is_digit, unsigned_part};
use crate::text::{
    chars_of, decimal, lines, lines_of, spec_to_lowercase, spec_trim, str_eq,
    string_views, to_lowercase_str, trim_str, u64_to_string,
};

verus! {

// ---------------------------------------------------------------------------------------
// Reading a request
// ---------------------------------------------------------------------------------------

/// Unicode `White_Space`, the characters `char::is_whitespace` accepts.
pub open spec fn is_white(c: char) -> bool {
    ||| ('\u{9}' <= c && c <= '\u{d}')
    ||| c == ' '
    ||| c == '\u{85}'
    ||| c == '\u{a0}'
    ||| c == '\u{1680}'
    ||| ('\u{2000}' <= c && c <= '\u{200a}')
    ||| c == '\u{2028}'
    ||| c == '\u{2029}'
    ||| c == '\u{202f}'
    ||| c == '\u{205f}'
    ||| c == '\u{3000}'
}

fn is_white_exec(c: char) -> (r: bool)
    ensures
        r == is_white(c),
{
    ('\u{9}' <= c && c <= '\u{d}') || c == ' ' || c == '\u{85}' || c == '\u{a0}' || c == '\u{1680}'
        || ('\u{2000}' <= c && c <= '\u{200a}') || c == '\u{2028}' || c == '\u{2029}'
        || c == '\u{202f}' || c == '\u{205f}' || c == '\u{3000}'
}

/// The first position at or after `i` that holds no white space, or the length.
pub open spec fn skip_white(s: Seq<char>, i: int) -> int
    decreases s.len() - i,
{
    if 0 <= i < s.len() && is_white(s[i]) { skip_white(s, i + 1) } else { i }
}

/// The first position at or after `i` that holds white space, or the length.
pub open spec fn word_end(s: Seq<char>, i: int) -> int
    decreases s.len() - i,
{
    if 0 <= i < s.len() && !is_white(s[i]) { word_end(s, i + 1) } else { i }
}

proof fn lemma_skip_white(s: Seq<char>, i: int)
    requires
        0 <= i <= s.len(),
    ensures
        i <= skip_white(s, i) <= s.len(),
        skip_white(s, i) < s.len() ==> !is_white(s[skip_white(s, i)]),
    decreases s.len() - i,
{
    if i < s.len() && is_white(s[i]) {
        lemma_skip_white(s, i + 1);
    }
}

proof fn lemma_word_end(s: Seq<char>, i: int)
    requires
        0 <= i <= s.len(),
    ensures
        i <= word_end(s, i) <= s.len(),
    decreases s.len() - i,
{
    if i < s.len() && !is_white(s[i]) {
        lemma_word_end(s, i + 1);
    }
}

fn skip_white_exec(cs: &Vec<char>, i: usize) -> (j: usize)
    requires
        i <= cs@.len(),
    ensures
        j == skip_white(cs@, i as int),
{
    let mut j = i;
    while j < cs.len() && is_white_exec(cs[j])
        invariant
            i <= j <= cs@.len(),
            skip_white(cs@, j as int) == skip_white(cs@, i as int),
        decreases cs@.len() - j,
    {
        j = j + 1;
    }
    j
}

fn word_end_exec(cs: &Vec<char>, i: usize) -> (j: usize)
    requires
        i <= cs@.len(),
    ensures
        j == word_end(cs@, i as int),
{
    let mut j = i;
    while j < cs.len() && !is_white_exec(cs[j])
        invariant
            i <= j <= cs@.len(),
            word_end(cs@, j as int) == word_end(cs@, i as int),
        decreases cs@.len() - j,
    {
        j = j + 1;
    }
    j
}

/// The first two white-space separated words of a line, when it has two.
pub open spec fn first_two_words(s: Seq<char>) -> Option<(Seq<char>, Seq<char>)> {
    let a = skip_white(s, 0);
    let b = word_end(s, a);
    let c = skip_white(s, b);
    let d = word_end(s, c);
    if c < s.len() { Some((s.subrange(a, b), s.subrange(c, d))) } else { None }
}

/// The first line of a text, empty when it has none.
pub open spec fn first_line(s: Seq<char>) -> Seq<char> {
    if lines_of(s).len() > 0 { lines_of(s)[0] } else { Seq::empty() }
}

/// The method and the target of a request: the first two words of its first line; `None`
/// when that line has fewer than two words (a malformed request).
pub fn request_method_and_uri(request: &str) -> (r: Option<(String, String)>)
    ensures
        match first_two_words(first_line(request@)) {
            Some((m, u)) => r matches Some(p) && p.0@ == m && p.1@ == u,
            None => r is None,
        },
{
    let ls = lines(request);
    let cs = if ls.len() > 0 { chars_of(ls[0].as_str()) } else { Vec::new() };
    assert(cs@ == first_line(request@));
    let a = skip_white_exec(&cs, 0);
    proof {
        lemma_skip_white(cs@, 0);
    }
    let b = word_end_exec(&cs, a);
    proof {
        lemma_word_end(cs@, a as int);
    }
    let c = skip_white_exec(&cs, b);
    proof {
        lemma_skip_white(cs@, b as int);
    }
    let d = word_end_exec(&cs, c);
    proof {
        lemma_word_end(cs@, c as int);
    }
    if c < cs.len() {
        Some((string_of(&cs, a, b), string_of(&cs, c, d)))
    } else {
        None
    }
}

fn string_of(cs: &Vec<char>, from: usize, to: usize) -> (r: String)
    requires
        from <= to <= cs@.len(),
    ensures
        r@ == cs@.subrange(from as int, to as int),
{
    crate::text::string_of_range(cs, from, to)
}

/// The first position at or after `i` that holds `c`, or the length.
pub open spec fn char_pos(s: Seq<char>, c: char, i: int) -> int
    decreases s.len() - i,
{
    if 0 <= i < s.len() && s[i] != c { char_pos(s, c, i + 1) } else { i }
}

proof fn lemma_char_pos(s: Seq<char>, c: char, i: int)
    requires
        0 <= i <= s.len(),
    ensures
        i <= char_pos(s, c, i) <= s.len(),
        char_pos(s, c, i) < s.len() ==> s[char_pos(s, c, i)] == c,
    decreases s.len() - i,
{
    if i < s.len() && s[i] != c {
        lemma_char_pos(s, c, i + 1);
    }
}

fn char_pos_exec(cs: &Vec<char>, c: char, i: usize) -> (j: usize)
    requires
        i <= cs@.len(),
    ensures
        j == char_pos(cs@, c, i as int),
{
    let mut j = i;
    while j < cs.len() && cs[j] != c
        invariant
            i <= j <= cs@.len(),
            char_pos(cs@, c, j as int) == char_pos(cs@, c, i as int),
        decreases cs@.len() - j,
    {
        j = j + 1;
    }
    j
}

/// The text between the first and the second colon of a line (or its end), when the line
/// has a colon.
pub open spec fn colon_field(l: Seq<char>) -> Option<Seq<char>> {
    let p = char_pos(l, ':', 0);
    if p < l.len() { Some(l.subrange(p + 1, char_pos(l, ':', p + 1))) } else { None }
}

/// What `str::parse::<usize>` gives: an optional `+`, then one or more decimal digits of a
/// value that fits.
pub open spec fn parse_usize(s: Seq<char>) -> Option<usize> {
    let d = unsigned_part(s);
    if d.len() > 0 && all_digits(d) && digits_value(d) <= usize::MAX {
        Some(digits_value(d) as usize)
    } else {
        None
    }
}

proof fn lemma_digits_prefix_le(d: Seq<char>, k: int)
    requires
        0 <= k <= d.len(),
        all_digits(d),
    ensures
        digits_value(d.take(k)) <= digits_value(d),
    decreases d.len(),
{
    if k < d.len() {
        let e = d.drop_last();
        assert(e.take(k) =~= d.take(k));
        assert forall|i: int| 0 <= i < e.len() implies is_digit(#[trigger] e[i]) by {
            assert(e[i] == d[i]);
        }
        lemma_digits_prefix_le(e, k);
    } else {
        assert(d.take(k) =~= d);
    }
}

/// `str::parse::<usize>`.
pub fn parse_usize_exec(s: &str) -> (r: Option<usize>)
    ensures
        r == parse_usize(s@),
{
    let cs = chars_of(s);
    let n = cs.len();
    let mut start: usize = 0;
    if n > 0 && cs[0] == '+' {
        start = 1;
    }
    let ghost d = cs@.subrange(start as int, n as int);
    assert(d =~= unsigned_part(s@));
    if start == n {
        return None;
    }
    let mut v: u128 = 0;
    for i in start..n
        invariant
            start <= n == cs@.len(),
            cs@ == s@,
            d == cs@.subrange(start as int, n as int),
            d == unsigned_part(s@),
            v == digits_value(d.take(i - start)),
            v <= usize::MAX,
            forall|j: int| 0 <= j < i - start ==> is_digit(#[trigger] d[j]),
    {
        let c = cs[i];
        assert(d[i - start] == c);
        if !('0' <= c && c <= '9') {
            assert(!is_digit(d[(i - start) as int]));
            assert(!all_digits(d));
            return None;
        }
        let digit = (c as u128) - ('0' as u128);
        assert(d.take(i - start + 1).drop_last() =~= d.take(i - start));
        assert(d.take(i - start + 1).last() == c);
        v = v * 10 + digit;
        assert(v == digits_value(d.take(i - start + 1)));
        if v > usize::MAX as u128 {
            proof {
                if all_digits(d) {
                    lemma_digits_prefix_le(d, i - start + 1);
                }
            }
            return None;
        }
    }
    assert(d.take(d.len() as int) =~= d);
    assert(all_digits(d));
    Some(v as usize)
}

/// Whether `p` begins `s`.
pub open spec fn begins_with(s: Seq<char>, p: Seq<char>) -> bool {
    p.len() <= s.len() && s.take(p.len() as int) == p
}

fn begins_with_exec(s: &Vec<char>, p: &Vec<char>) -> (r: bool)
    ensures
        r == begins_with(s@, p@),
{
    if p.len() > s.len() {
        return false;
    }
    for i in 0..p.len()
        invariant
            p@.len() <= s@.len(),
            forall|k: int| 0 <= k < i ==> s@[k] == p@[k],
    {
        if s[i] != p[i] {
            assert(s@.take(p@.len() as int)[i as int] != p@[i as int]);
            return false;
        }
    }
    assert(s@.take(p@.len() as int) =~= p@);
    true
}

/// The length a header line announces: a line whose lower-case form begins with
/// `content-length:` announces the number between its first and second colon (white space
/// trimmed), 0 when that is not a number.
pub open spec fn announced_length(l: Seq<char>) -> Option<usize> {
    if begins_with(spec_to_lowercase(l), "content-length:"@) {
        match colon_field(l) {
            Some(f) => Some(match parse_usize(spec_trim(f)) {
                Some(v) => v,
                None => 0,
            }),
            None => None,
        }
    } else {
        None
    }
}

/// The length announced last among the first `k` lines, 0 when none announces one.
pub open spec fn length_upto(ls: Seq<Seq<char>>, k: int) -> usize
    decreases k,
{
    if k <= 0 || k > ls.len() {
        0
    } else {
        match announced_length(ls[k - 1]) {
            Some(v) => v,
            None => length_upto(ls, k - 1),
        }
    }
}

/// The body length a request announces: the last `Content-Length` line wins.
pub open spec fn spec_content_length(s: Seq<char>) -> usize {
    length_upto(lines_of(s), lines_of(s).len() as int)
}

fn announced_length_exec(line: &str) -> (r: Option<usize>)
    ensures
        r == announced_length(line@),
{
    let lower = to_lowercase_str(line);
    let lcs = chars_of(lower.as_str());
    let key = chars_of("content-length:");
    if !begins_with_exec(&lcs, &key) {
        return None;
    }
    let cs = chars_of(line);
    let p = char_pos_exec(&cs, ':', 0);
    proof {
        lemma_char_pos(cs@, ':', 0);
    }
    if p >= cs.len() {
        return None;
    }
    let q = char_pos_exec(&cs, ':', p + 1);
    proof {
        lemma_char_pos(cs@, ':', p + 1);
    }
    let field = string_of(&cs, p + 1, q);
    let trimmed = trim_str(field.as_str());
    match parse_usize_exec(trimmed.as_str()) {
        Some(v) => Some(v),
        None => Some(0),
    }
}

/// The body length a request announces in its `Content-Length` lines (0 without one).
pub fn content_length(request: &str) -> (r: usize)
    ensures
        r == spec_content_length(request@),
{
    let ls = lines(request);
    let ghost lv = lines_of(request@);
    let mut acc: usize = 0;
    for k in 0..ls.len()
        invariant
            lv == lines_of(request@),
            ls@.len() == lv.len(),
            forall|j: int| 0 <= j < ls@.len() ==> #[trigger] ls@[j]@ == lv[j],
            acc == length_upto(lv, k as int),
    {
        match announced_length_exec(ls[k].as_str()) {
            Some(v) => {
                acc = v;
            },
            None => {},
        }
    }
    acc
}

/// The first position at or after `i` where `p` occurs in `h`.
pub open spec fn bytes_pos(h: Seq<u8>, p: Seq<u8>, i: int) -> Option<int>
    decreases h.len() + 1 - i,
{
    if i < 0 || i + p.len() > h.len() {
        None
    } else if h.subrange(i, i + p.len()) == p {
        Some(i)
    } else {
        bytes_pos(h, p, i + 1)
    }
}

fn bytes_pos_exec(h: &[u8], p: &Vec<u8>) -> (r: Option<usize>)
    ensures
        match bytes_pos(h@, p@, 0) {
            Some(i) => r == Some(i as usize),
            None => r is None,
        },
        r matches Some(k) ==> k + p@.len() <= h@.len(),
{
    let n = h.len();
    let m = p.len();
    if m > n {
        return None;
    }
    let mut i: usize = 0;
    while i <= n - m
        invariant
            m == p@.len(),
            n == h@.len(),
            m <= n,
            i <= n - m + 1,
            bytes_pos(h@, p@, 0) == bytes_pos(h@, p@, i as int),
        decreases n + 1 - i,
    {
        let mut same = true;
        let mut k: usize = 0;
        while k < m
            invariant
                m == p@.len(),
                n == h@.len(),
                i + m <= n,
                k <= m,
                same == forall|j: int| 0 <= j < k ==> h@[i + j] == p@[j],
            decreases m - k,
        {
            if h[i + k] != p[k] {
                same = false;
            }
            k = k + 1;
        }
        if same {
            assert(h@.subrange(i as int, i + m) =~= p@);
            return Some(i);
        } else {
            assert(h@.subrange(i as int, i + m) != p@) by {
                let j = choose|j: int| 0 <= j < m && h@[i + j] != p@[j];
                assert(h@.subrange(i as int, i + m)[j] != p@[j]);
            }
        }
        i = i + 1;
    }
    None
}

/// Where a request's body starts: after the first blank line, `\r\n\r\n` first, else
/// `\n\n`.
pub open spec fn spec_body_start(h: Seq<u8>) -> Option<int> {
    match bytes_pos(h, seq![13u8, 10u8, 13u8, 10u8], 0) {
        Some(i) => Some(i + 4),
        None => match bytes_pos(h, seq![10u8, 10u8], 0) {
            Some(i) => Some(i + 2),
            None => None,
        },
    }
}

/// The offset in a request's bytes at which its body starts.
pub fn body_start(request: &[u8]) -> (r: Option<usize>)
    ensures
        match spec_body_start(request@) {
            Some(i) => r == Some(i as usize),
            None => r is None,
        },
{
    let n = request.len();
    proof {
        lemma_bytes_pos(request@, seq![13u8, 10u8, 13u8, 10u8], 0);
        lemma_bytes_pos(request@, seq![10u8, 10u8], 0);
    }
    let crlf: Vec<u8> = vec![13u8, 10u8, 13u8, 10u8];
    assert(crlf@ =~= seq![13u8, 10u8, 13u8, 10u8]);
    match bytes_pos_exec(request, &crlf) {
        Some(i) => {
            assert(i + 4 <= n);
            Some(i + 4)
        },
        None => {
            let lf: Vec<u8> = vec![10u8, 10u8];
            assert(lf@ =~= seq![10u8, 10u8]);
            match bytes_pos_exec(request, &lf) {
                Some(i) => {
                    assert(i + 2 <= n);
                    Some(i + 2)
                },
                None => None,
            }
        },
    }
}

proof fn lemma_bytes_pos(h: Seq<u8>, p: Seq<u8>, i: int)
    ensures
        bytes_pos(h, p, i) matches Some(j) ==> i <= j && j + p.len() <= h.len(),
    decreases h.len() + 1 - i,
{
    if i < 0 || i + p.len() > h.len() {
    } else if h.subrange(i, i + p.len()) == p {
    } else {
        lemma_bytes_pos(h, p, i + 1);
    }
}

// ---------------------------------------------------------------------------------------
// Routing
// ---------------------------------------------------------------------------------------

/// What the Studio server answers a request with.
#[derive(Debug, PartialEq, Eq)]
pub enum StudioRoute {
    /// The Studio page itself.
    Page,
    /// The project, its code and the block catalogue.
    ProjectInfo,
    /// Lint the posted code.
    Check,
    /// Format the posted code.
    Format,
    /// Save the posted code to the entry file.
    Save,
    /// Compile the posted code to bytecode.
    Compile,
    /// A file under the project's `assets` directory, by its path relative to the project.
    Asset(String),
    /// Nothing here.
    NotFound,
}

/// A route as a specification value.
pub enum RouteV {
    Page,
    ProjectInfo,
    Check,
    Format,
    Save,
    Compile,
    Asset(Seq<char>),
    NotFound,
}

pub open spec fn route_view(r: StudioRoute) -> RouteV {
    match r {
        StudioRoute::Page => RouteV::Page,
        StudioRoute::ProjectInfo => RouteV::ProjectInfo,
        StudioRoute::Check => RouteV::Check,
        StudioRoute::Format => RouteV::Format,
        StudioRoute::Save => RouteV::Save,
        StudioRoute::Compile => RouteV::Compile,
        StudioRoute::Asset(p) => RouteV::Asset(p@),
        StudioRoute::NotFound => RouteV::NotFound,
    }
}

/// Number of `/` at the start of `s`.
pub open spec fn leading_slashes(s: Seq<char>, i: int) -> int
    decreases s.len() - i,
{
    if 0 <= i < s.len() && s[i] == '/' { leading_slashes(s, i + 1) } else { i }
}

/// The route of a request: the page, the API endpoints by method and path, and files under
/// `/assets/` (any method; the path without its leading slashes).
pub open spec fn spec_route(method: Seq<char>, uri: Seq<char>) -> RouteV {
    if method == "GET"@ && (uri == "/"@ || uri == "/index.html"@) {
        RouteV::Page
    } else if method == "GET"@ && uri == "/api/project"@ {
        RouteV::ProjectInfo
    } else if method == "POST"@ && uri == "/api/check"@ {
        RouteV::Check
    } else if method == "POST"@ && uri == "/api/format"@ {
        RouteV::Format
    } else if method == "POST"@ && uri == "/api/save"@ {
        RouteV::Save
    } else if method == "POST"@ && uri == "/api/compile"@ {
        RouteV::Compile
    } else if begins_with(uri, "/assets/"@) {
        RouteV::Asset(uri.skip(leading_slashes(uri, 0)))
    } else {
        RouteV::NotFound
    }
}

proof fn lemma_leading_slashes(s: Seq<char>, i: int)
    requires
        0 <= i <= s.len(),
    ensures
        i <= leading_slashes(s, i) <= s.len(),
    decreases s.len() - i,
{
    if i < s.len() && s[i] == '/' {
        lemma_leading_slashes(s, i + 1);
    }
}

/// Routes a request by its method and target.
pub fn route_request(method: &str, uri: &str) -> (r: StudioRoute)
    ensures
        route_view(r) == spec_route(method@, uri@),
{
    let get = str_eq(method, "GET");
    let post = str_eq(method, "POST");
    if get && (str_eq(uri, "/") || str_eq(uri, "/index.html")) {
        StudioRoute::Page
    } else if get && str_eq(uri, "/api/project") {
        StudioRoute::ProjectInfo
    } else if post && str_eq(uri, "/api/check") {
        StudioRoute::Check
    } else if post && str_eq(uri, "/api/format") {
        StudioRoute::Format
    } else if post && str_eq(uri, "/api/save") {
        StudioRoute::Save
    } else if post && str_eq(uri, "/api/compile") {
        StudioRoute::Compile
    } else {
        let cs = chars_of(uri);
        let prefix = chars_of("/assets/");
        if begins_with_exec(&cs, &prefix) {
            let mut i: usize = 0;
            while i < cs.len() && cs[i] == '/'
                invariant
                    i <= cs@.len(),
                    leading_slashes(cs@, i as int) == leading_slashes(cs@, 0),
                decreases cs@.len() - i,
            {
                i = i + 1;
            }
            proof {
                lemma_leading_slashes(cs@, 0);
            }
            let rest = string_of(&cs, i, cs.len());
            assert(rest@ =~= uri@.skip(leading_slashes(uri@, 0)));
            StudioRoute::Asset(rest)
        } else {
            StudioRoute::NotFound
        }
    }
}

/// The content type served for a file extension.
pub open spec fn spec_mime_type(ext: Seq<char>) -> Seq<char> {
    if ext == "png"@ {
        "image/png"@
    } else if ext == "jpg"@ || ext == "jpeg"@ {
        "image/jpeg"@
    } else if ext == "gif"@ {
        "image/gif"@
    } else if ext == "svg"@ {
        "image/svg+xml"@
    } else if ext == "wav"@ {
        "audio/wav"@
    } else if ext == "mp3"@ {
        "audio/mpeg"@
    } else if ext == "ogg"@ {
        "audio/ogg"@
    } else if ext == "json"@ {
        "application/json"@
    } else if ext == "js"@ {
        "application/javascript"@
    } else if ext == "css"@ {
        "text/css"@
    } else {
        "application/octet-stream"@
    }
}

/// The content type of a served file, by its extension (empty when it has none).
pub fn guess_mime_type(extension: &str) -> (r: &'static str)
    ensures
        r@ == spec_mime_type(extension@),
{
    if str_eq(extension, "png") {
        "image/png"
    } else if str_eq(extension, "jpg") || str_eq(extension, "jpeg") {
        "image/jpeg"
    } else if str_eq(extension, "gif") {
        "image/gif"
    } else if str_eq(extension, "svg") {
        "image/svg+xml"
    } else if str_eq(extension, "wav") {
        "audio/wav"
    } else if str_eq(extension, "mp3") {
        "audio/mpeg"
    } else if str_eq(extension, "ogg") {
        "audio/ogg"
    } else if str_eq(extension, "json") {
        "application/json"
    } else if str_eq(extension, "js") {
        "application/javascript"
    } else if str_eq(extension, "css") {
        "text/css"
    } else {
        "application/octet-stream"
    }
}

/// The status line and headers of a response; the connection closes after the body.
pub open spec fn spec_response_header(code: u16, text: Seq<char>, content_type: Seq<char>, body_len: nat) -> Seq<char> {
    "HTTP/1.1 "@ + decimal(code as nat) + " "@ + text + "\r\nContent-Type: "@ + content_type
        + "\r\nContent-Length: "@ + decimal(body_len)
        + "\r\nConnection: close\r\nAccess-Control-Allow-Origin: *\r\n\r\n"@
}

/// The head of a response with the given status, content type and body length.
pub fn response_header(status_code: u16, status_text: &str, content_type: &str, body_len: usize) -> (r: String)
    ensures
        r@ == spec_response_header(status_code, status_text@, content_type@, body_len as nat),
{
    let mut out = String::from_str("HTTP/1.1 ");
    let code = u64_to_string(status_code as u64);
    out.append(code.as_str());
    out.append(" ");
    out.append(status_text);
    out.append("\r\nContent-Type: ");
    out.append(content_type);
    out.append("\r\nContent-Length: ");
    let len = u64_to_string(body_len as u64);
    out.append(len.as_str());
    out.append("\r\nConnection: close\r\nAccess-Control-Allow-Origin: *\r\n\r\n");
    out
}

// ---------------------------------------------------------------------------------------
// Answers of the API
// ---------------------------------------------------------------------------------------

/// A finding as the Studio lists it.
#[derive(Debug, Clone, PartialEq)]
pub struct DiagnosticEntry {
    pub code: String,
    pub message: String,
    pub line: usize,
    pub column: usize,
    pub suggestion: Option<String>,
}

/// A listed finding as a specification value.
pub struct EntryV {
    pub code: Seq<char>,
    pub message: Seq<char>,
    pub line: usize,
    pub column: usize,
    pub suggestion: Option<Seq<char>>,
}

pub open spec fn entry_view(e: DiagnosticEntry) -> EntryV {
    EntryV {
        code: e.code@,
        message: e.message@,
        line: e.line,
        column: e.column,
        suggestion: match e.suggestion {
            Some(s) => Some(s@),
            None => None,
        },
    }
}

pub open spec fn entries_view(es: Seq<DiagnosticEntry>) -> Seq<EntryV> {
    es.map_values(|e: DiagnosticEntry| entry_view(e))
}

/// How the Studio lists a linter finding: its code, message, line, column and suggestion.
pub open spec fn listed(d: DiagV) -> EntryV {
    EntryV { code: d.code, message: d.message, line: d.span.line, column: d.span.col, suggestion: d.suggestion }
}

/// The answer to a check request.
#[derive(Debug, Clone, PartialEq)]
pub struct CheckReport {
    pub success: bool,
    pub errors: Vec<DiagnosticEntry>,
    pub warnings: Vec<DiagnosticEntry>,
}

/// The objects a Studio check knows: the linter's defaults, then the objects of the
/// project's scenes.
pub open spec fn checked_objects(scene_objects: Seq<Seq<char>>) -> Seq<Seq<char>> {
    add_all(default_objects(), scene_objects, scene_objects.len())
}

/// Checks posted code: a syntax error is the one error of a failed check; otherwise every
/// linter finding (with the scene objects known) is a warning.
pub fn check_code(code: &str, registry: &BlockRegistry, scene_objects: Vec<String>) -> (r: CheckReport)
    requires
        code@.len() <= usize::MAX / 4,
        registry.wf(),
    ensures
        match spec_parse(code@) {
            Ok(p) => r.success && r.errors@.len() == 0 && entries_view(r.warnings@)
                == lint_program(*registry, checked_objects(string_views(scene_objects@)), default_actions(), p).map_values(
                |d: DiagV| listed(d),
            ),
            Err(m) => !r.success && r.warnings@.len() == 0 && entries_view(r.errors@) == seq![
                EntryV { code: "SYNTAX_ERROR"@, message: m, line: 1, column: 1, suggestion: None },
            ],
        },
{
    match parse(code) {
        Ok(ast) => {
            let mut linter = Linter::new(registry);
            if scene_objects.len() > 0 {
                linter = linter.with_objects(scene_objects);
            }
            let diagnostics = linter.lint_program(&ast);
            let mut warnings: Vec<DiagnosticEntry> = Vec::new();
            for i in 0..diagnostics.len()
                invariant
                    warnings@.len() == i,
                    forall|k: int| 0 <= k < i ==> #[trigger] entry_view(warnings@[k])
                        == listed(crate::language::linter::diag_view(diagnostics@[k])),
            {
                let d = &diagnostics[i];
                let suggestion = match &d.suggestion {
                    Some(s) => Some(s.clone()),
                    None => None,
                };
                warnings.push(DiagnosticEntry {
                    code: d.code.clone(),
                    message: d.message.clone(),
                    line: d.span.line,
                    column: d.span.col,
                    suggestion,
                });
            }
            proof {
                let dv = crate::language::linter::diags_view(diagnostics@);
                assert(entries_view(warnings@) =~= dv.map_values(|d: DiagV| listed(d)));
            }
            CheckReport { success: true, errors: Vec::new(), warnings }
        },
        Err(err) => {
            let mut errors: Vec<DiagnosticEntry> = Vec::new();
            errors.push(DiagnosticEntry {
                code: String::from_str("SYNTAX_ERROR"),
                message: err,
                line: 1,
                column: 1,
                suggestion: None,
            });
            assert(entries_view(errors@) =~= seq![
                EntryV { code: "SYNTAX_ERROR"@, message: spec_parse(code@)->Err_0, line: 1, column: 1, suggestion: None },
            ]);
            CheckReport { success: false, errors, warnings: Vec::new() }
        },
    }
}

/// The answer to a format request.
#[derive(Debug, Clone, PartialEq)]
pub struct FormatReport {
    pub success: bool,
    pub formatted: String,
    pub error: Option<String>,
}

/// Formats posted code; on a syntax error the code comes back as it was, with the error.
pub fn format_code(code: &str) -> (r: FormatReport)
    requires
        code@.len() <= usize::MAX / 4,
    ensures
        match spec_parse(code@) {
            Ok(p) => r.success && r.formatted@ == fmt_program(p) && r.error is None,
            Err(m) => !r.success && r.formatted@ == code@ && (r.error matches Some(e) && e@ == m),
        },
{
    match format_source(code) {
        Ok(formatted) => FormatReport { success: true, formatted, error: None },
        Err(e) => FormatReport { success: false, formatted: String::from_str(code), error: Some(e) },
    }
}

/// What `<str as Debug>::fmt` writes for a text: the text in double quotes, with quotes,
/// backslashes and characters that do not print escaped.
pub uninterp spec fn debug_quoted(s: Seq<char>) -> Seq<char>;

/// `format!("{:?}", s)` for a string slice. Its result is named, not stated.
#[verifier::external_body]
fn debug_str(s: &str) -> (r: String)
    ensures
        r@ == debug_quoted(s@),
{
    format!("{:?}", s)
}

/// The name of a trigger in a disassembly: its variant and fields as Rust's derived `Debug`
/// writes them.
pub open spec fn trigger_text(t: IrTriggerV) -> Seq<char> {
    match t {
        IrTriggerV::OnStart => "OnStart"@,
        IrTriggerV::OnUpdate => "OnUpdate"@,
        IrTriggerV::OnActionDown(a) => "OnActionDown("@ + debug_quoted(a) + ")"@,
        IrTriggerV::OnActionPress(a) => "OnActionPress("@ + debug_quoted(a) + ")"@,
        IrTriggerV::OnActionUp(a) => "OnActionUp("@ + debug_quoted(a) + ")"@,
        IrTriggerV::OnTouches(a, b) => "OnTouches { object_a: "@ + debug_quoted(a) + ", object_b: "@
            + debug_quoted(b) + " }"@,
        IrTriggerV::OnTimer(secs, rep) => "OnTimer { seconds: "@ + decimal(secs as nat) + ", repeating: "@
            + (if rep { "true"@ } else { "false"@ }) + " }"@,
        IrTriggerV::OnMessage(m) => "OnMessage("@ + debug_quoted(m) + ")"@,
    }
}

/// The disassembly name of a trigger.
pub fn trigger_label(t: &IrTrigger) -> (s: String)
    ensures
        s@ == trigger_text(ir_trigger_view(*t)),
{
    match t {
        IrTrigger::OnStart => String::from_str("OnStart"),
        IrTrigger::OnUpdate => String::from_str("OnUpdate"),
        IrTrigger::OnActionDown(a) => {
            let mut s = String::from_str("OnActionDown(");
            s.append(debug_str(a.as_str()).as_str());
            s.append(")");
            s
        },
        IrTrigger::OnActionPress(a) => {
            let mut s = String::from_str("OnActionPress(");
            s.append(debug_str(a.as_str()).as_str());
            s.append(")");
            s
        },
        IrTrigger::OnActionUp(a) => {
            let mut s = String::from_str("OnActionUp(");
            s.append(debug_str(a.as_str()).as_str());
            s.append(")");
            s
        },
        IrTrigger::OnTouches { object_a, object_b } => {
            let mut s = String::from_str("OnTouches { object_a: ");
            s.append(debug_str(object_a.as_str()).as_str());
            s.append(", object_b: ");
            s.append(debug_str(object_b.as_str()).as_str());
            s.append(" }");
            s
        },
        IrTrigger::OnTimer { seconds, repeating } => {
            let mut s = String::from_str("OnTimer { seconds: ");
            s.append(u64_to_string(*seconds).as_str());
            s.append(", repeating: ");
            if *repeating {
                s.append("true");
            } else {
                s.append("false");
            }
            s.append(" }");
            s
        },
        IrTrigger::OnMessage(m) => {
            let mut s = String::from_str("OnMessage(");
            s.append(debug_str(m.as_str()).as_str());
            s.append(")");
            s
        },
    }
}

/// The listing of the first `k` compiled handlers, each followed by an empty line.
pub open spec fn disassembly_upto(evs: Seq<BcEventV>, k: nat) -> Seq<char>
    decreases k,
{
    if k == 0 || k > evs.len() {
        Seq::empty()
    } else {
        let e = evs[k - 1];
        disassembly_upto(evs, (k - 1) as nat) + "=== Chunk: "@ + trigger_text(e.trigger) + " ===\n"@
            + listing(e.chunk, e.chunk.ins.len()) + "\n"@
    }
}

/// The number of instructions of the first `k` compiled handlers.
pub open spec fn instructions_upto(evs: Seq<BcEventV>, k: nat) -> nat
    decreases k,
{
    if k == 0 || k > evs.len() { 0 } else { instructions_upto(evs, (k - 1) as nat) + evs[k - 1].chunk.ins.len() }
}

/// The instructions of a program's event handlers in all, held at `usize::MAX`.
pub fn count_instructions(program: &BytecodeProgram) -> (n: usize)
    ensures
        n == if instructions_upto(bc_program_view(*program).events, program.events@.len() as nat) <= usize::MAX {
            instructions_upto(bc_program_view(*program).events, program.events@.len() as nat)
        } else {
            usize::MAX as nat
        },
{
    let ghost evs = bc_program_view(*program).events;
    let mut total: usize = 0;
    for i in 0..program.events.len()
        invariant
            evs == bc_program_view(*program).events,
            evs.len() == program.events@.len(),
            total == if instructions_upto(evs, i as nat) <= usize::MAX {
                instructions_upto(evs, i as nat)
            } else {
                usize::MAX as nat
            },
    {
        assert(evs[i as int] == crate::bytecode::compiler::bc_event_view(program.events@[i as int]));
        let n = program.events[i].chunk.instructions.len();
        total = match total.checked_add(n) {
            Some(t) => t,
            None => usize::MAX,
        };
    }
    total
}

/// The answer to a compile request.
#[derive(Debug, Clone, PartialEq)]
pub struct CompileReport {
    pub success: bool,
    pub events_count: usize,
    pub total_instructions: usize,
    pub disassembly: String,
    pub error: Option<String>,
}

/// The event handlers a source text compiles to, with a fresh compiler.
pub open spec fn compiled_handlers(p: crate::language::ast::ProgramV) -> Seq<BcEventV> {
    compiled_program(0, lowered_program(p)).0.events
}

/// Compiles posted code: the number of event handlers, their instructions in all (held at
/// `usize::MAX`) and the listing of every handler chunk; or the parse error.
pub fn compile_code(code: &str, registry: &BlockRegistry) -> (r: CompileReport)
    requires
        code@.len() <= usize::MAX / 4,
    ensures
        match spec_parse(code@) {
            Ok(p) => {
                let evs = compiled_handlers(p);
                &&& r.success
                &&& r.events_count == evs.len()
                &&& r.total_instructions == if instructions_upto(evs, evs.len()) <= usize::MAX {
                    instructions_upto(evs, evs.len())
                } else {
                    usize::MAX as nat
                }
                &&& r.disassembly@ == disassembly_upto(evs, evs.len())
                &&& r.error is None
            },
            Err(m) => {
                &&& !r.success
                &&& r.events_count == 0
                &&& r.total_instructions == 0
                &&& r.disassembly@ == Seq::<char>::empty()
                &&& r.error matches Some(e) && e@ == "Parse error: "@ + m
            },
        },
{
    match parse(code) {
        Ok(ast) => match lower_ast_to_ir(&ast, registry) {
            Ok(ir) => {
                let mut compiler = BytecodeCompiler::new();
                let program = compiler.compile_program(&ir);
                let ghost evs = bc_program_view(program).events;
                let mut disassembly = String::new();
                for i in 0..program.events.len()
                    invariant
                        evs == bc_program_view(program).events,
                        evs.len() == program.events@.len(),
                        disassembly@ == disassembly_upto(evs, i as nat),
                {
                    let event = &program.events[i];
                    assert(evs[i as int] == crate::bytecode::compiler::bc_event_view(*event));
                    let name = trigger_label(&event.trigger);
                    let listing_text = event.chunk.disassemble(name.as_str());
                    disassembly.append(listing_text.as_str());
                    disassembly.append("\n");
                }
                let total = count_instructions(&program);
                CompileReport {
                    success: true,
                    events_count: program.events.len(),
                    total_instructions: total,
                    disassembly,
                    error: None,
                }
            },
            Err(e) => {
                let mut msg = String::from_str("IR Lowering error: ");
                msg.append(e.to_string().as_str());
                CompileReport {
                    success: false,
                    events_count: 0,
                    total_instructions: 0,
                    disassembly: String::new(),
                    error: Some(msg),
                }
            },
        },
        Err(e) => {
            let mut msg = String::from_str("Parse error: ");
            msg.append(e.as_str());
            CompileReport {
                success: false,
                events_count: 0,
                total_instructions: 0,
                disassembly: String::new(),
                error: Some(msg),
            }
        },
    }
}

// ---------------------------------------------------------------------------------------
// The block catalogue
// ---------------------------------------------------------------------------------------

/// A block as the Studio catalogue lists it.
#[derive(Debug, Clone, PartialEq)]
pub struct BlockSummary {
    pub name: String,
    pub category: String,
    pub description: String,
    pub snippet: String,
    pub doc: String,
}

/// A listed block as a specification value.
pub struct SummaryV {
    pub name: Seq<char>,
    pub category: Seq<char>,
    pub description: Seq<char>,
    pub snippet: Seq<char>,
    pub doc: Seq<char>,
}

pub open spec fn summary_view(b: BlockSummary) -> SummaryV {
    SummaryV { name: b.name@, category: b.category@, description: b.description@, snippet: b.snippet@, doc: b.doc@ }
}

pub open spec fn summaries_view(bs: Seq<BlockSummary>) -> Seq<SummaryV> {
    bs.map_values(|b: BlockSummary| summary_view(b))
}

/// How the catalogue lists a block definition.
pub open spec fn summary_of(d: BlockDefinition) -> SummaryV {
    SummaryV {
        name: d.name@,
        category: spec_category_name(d.category),
        description: d.description@,
        snippet: d.autocomplete_metadata.snippet@,
        doc: d.documentation@,
    }
}

/// Lexicographic order of texts from position `i`, by character code: `a` comes strictly
/// before `b`.
pub open spec fn text_lt_from(a: Seq<char>, b: Seq<char>, i: int) -> bool
    decreases a.len() - i,
{
    if i >= a.len() {
        i < b.len()
    } else if i >= b.len() {
        false
    } else if a[i] != b[i] {
        a[i] < b[i]
    } else {
        text_lt_from(a, b, i + 1)
    }
}

/// `a` comes strictly before `b` in lexicographic order (the order of Rust's `String`).
pub open spec fn text_lt(a: Seq<char>, b: Seq<char>) -> bool {
    text_lt_from(a, b, 0)
}

proof fn lemma_text_lt_irreflexive(a: Seq<char>, i: int)
    requires
        0 <= i,
    ensures
        !text_lt_from(a, a, i),
    decreases a.len() - i,
{
    if i < a.len() {
        lemma_text_lt_irreflexive(a, i + 1);
    }
}

proof fn lemma_text_lt_transitive(a: Seq<char>, b: Seq<char>, c: Seq<char>, i: int)
    requires
        0 <= i,
        text_lt_from(a, b, i),
        text_lt_from(b, c, i),
    ensures
        text_lt_from(a, c, i),
    decreases a.len() - i,
{
    if i < a.len() && i < b.len() && i < c.len() && a[i] == b[i] && b[i] == c[i] {
        lemma_text_lt_transitive(a, b, c, i + 1);
    }
}

fn text_less(a: &String, b: &String) -> (r: bool)
    ensures
        r == text_lt(a@, b@),
{
    let x = chars_of(a.as_str());
    let y = chars_of(b.as_str());
    let mut i: usize = 0;
    while i < x.len() && i < y.len() && x[i] == y[i]
        invariant
            i <= x@.len(),
            i <= y@.len(),
            text_lt_from(x@, y@, i as int) == text_lt_from(x@, y@, 0),
        decreases x@.len() - i,
    {
        i = i + 1;
    }
    if i >= x.len() {
        i < y.len()
    } else if i >= y.len() {
        false
    } else {
        x[i] < y[i]
    }
}

/// Catalogue order: by category name, then by block name.
pub open spec fn summary_lt(x: SummaryV, y: SummaryV) -> bool {
    text_lt(x.category, y.category) || (x.category == y.category && text_lt(x.name, y.name))
}

/// Whether a listing is in catalogue order.
pub open spec fn summaries_sorted(s: Seq<SummaryV>) -> bool {
    forall|i: int, j: int| 0 <= i < j < s.len() ==> !summary_lt(#[trigger] s[j], #[trigger] s[i])
}

proof fn lemma_summary_lt_irreflexive(x: SummaryV)
    ensures
        !summary_lt(x, x),
{
    lemma_text_lt_irreflexive(x.category, 0);
    lemma_text_lt_irreflexive(x.name, 0);
}

proof fn lemma_summary_lt_transitive(x: SummaryV, y: SummaryV, z: SummaryV)
    requires
        summary_lt(x, y),
        summary_lt(y, z),
    ensures
        summary_lt(x, z),
{
    if text_lt(x.category, y.category) && text_lt(y.category, z.category) {
        lemma_text_lt_transitive(x.category, y.category, z.category, 0);
    } else if x.category == y.category && y.category == z.category {
        lemma_text_lt_transitive(x.name, y.name, z.name, 0);
    }
}

proof fn lemma_insert_sorted(s: Seq<SummaryV>, x: SummaryV, pos: int)
    requires
        summaries_sorted(s),
        0 <= pos <= s.len(),
        forall|k: int| 0 <= k < pos ==> !summary_lt(x, #[trigger] s[k]),
        pos < s.len() ==> summary_lt(x, s[pos]),
    ensures
        summaries_sorted(s.insert(pos, x)),
{
    let t = s.insert(pos, x);
    assert forall|i: int, j: int| 0 <= i < j < t.len() implies !summary_lt(#[trigger] t[j], #[trigger] t[i]) by {
        if i == pos {
            assert(t[j] == s[j - 1]);
            if summary_lt(s[j - 1], x) {
                lemma_summary_lt_transitive(s[j - 1], x, s[pos]);
                if j - 1 == pos {
                    lemma_summary_lt_irreflexive(s[pos]);
                } else {
                    assert(!summary_lt(s[j - 1], s[pos]));
                }
            }
        } else if j == pos {
            assert(t[i] == s[i]);
        } else {
            let si = if i < pos { i } else { i - 1 };
            let sj = if j < pos { j } else { j - 1 };
            assert(t[i] == s[si]);
            assert(t[j] == s[sj]);
        }
    }
}

fn summary_less(x: &BlockSummary, y: &BlockSummary) -> (r: bool)
    ensures
        r == summary_lt(summary_view(*x), summary_view(*y)),
{
    if text_less(&x.category, &y.category) {
        true
    } else if str_eq(x.category.as_str(), y.category.as_str()) {
        text_less(&x.name, &y.name)
    } else {
        false
    }
}

/// The catalogue of a registry: one entry per block, ordered by category name, then by
/// block name.
pub fn block_summaries(registry: &BlockRegistry) -> (r: Vec<BlockSummary>)
    ensures
        summaries_sorted(summaries_view(r@)),
        summaries_view(r@).to_multiset() == registry.defs().map_values(|d: BlockDefinition| summary_of(d)).to_multiset(),
        r@.len() == registry.defs().len(),
{
    broadcast use vstd::seq_lib::group_to_multiset_ensures;

    let defs = registry.iter();
    let ghost all = defs@.map_values(|d: BlockDefinition| summary_of(d));
    let mut out: Vec<BlockSummary> = Vec::new();
    assert(summaries_view(out@).to_multiset() =~= all.take(0).to_multiset());
    for i in 0..defs.len()
        invariant
            all == defs@.map_values(|d: BlockDefinition| summary_of(d)),
            summaries_sorted(summaries_view(out@)),
            summaries_view(out@).to_multiset() == all.take(i as int).to_multiset(),
    {
        let b = &defs[i];
        let entry = BlockSummary {
            name: b.name.clone(),
            category: b.category.to_string(),
            description: b.description.clone(),
            snippet: b.autocomplete_metadata.snippet.clone(),
            doc: b.documentation.clone(),
        };
        assert(summary_view(entry) == all[i as int]);
        let mut pos: usize = 0;
        while pos < out.len() && !summary_less(&entry, &out[pos])
            invariant
                pos <= out@.len(),
                forall|k: int| 0 <= k < pos ==> !summary_lt(summary_view(entry), #[trigger] summaries_view(out@)[k]),
            decreases out@.len() - pos,
        {
            pos = pos + 1;
        }
        let ghost before = summaries_view(out@);
        proof {
            lemma_insert_sorted(before, summary_view(entry), pos as int);
        }
        out.insert(pos, entry);
        proof {
            assert(summaries_view(out@) =~= before.insert(pos as int, all[i as int]));
            assert(all.take(i + 1) =~= all.take(i as int).push(all[i as int]));
            vstd::seq_lib::to_multiset_insert(before, pos as int, all[i as int]);
            vstd::seq_lib::to_multiset_build(all.take(i as int), all[i as int]);
        }
    }
    assert(all.take(defs@.len() as int) =~= all);
    proof {
        vstd::seq_lib::to_multiset_len(summaries_view(out@));
        vstd::seq_lib::to_multiset_len(all);
    }
    out
}

// ---------------------------------------------------------------------------------------
// A fresh project
// ---------------------------------------------------------------------------------------

/// The code of the project Studio creates in an empty directory.
pub const STARTER_CODE: &'static str = r#"when start:
    score = 0
    background.set("night")
    variable.show("score")

when action.down("right"):
    move(Player, 5)

when action.down("left"):
    move(Player, -5)

when action.press("jump"):
    jump(Player, 12)
"#;

/// The settings of the project Studio creates in an empty directory: named after the
/// directory, entry `src/main.sch`, defaults otherwise.
pub fn starter_config(dir_name: &str) -> (c: ProjectConfig)
    ensures
        c.name@ == dir_name@,
        c.entry@ == "src/main.sch"@,
        c.resolution.width == 1280,
        c.resolution.height == 720,
        c.background@ == "white"@,
        c.ratio@ == "16:9"@,
{
    let mut c = ProjectConfig::default();
    c.name = String::from_str(dir_name);
    c
}

} // verus!
