use vstd::prelude::*;
use vstd::utf8::encode_utf8;

verus! {

/// One bundled file: text as it is, binary contents as lower-case hex digits.
#[derive(Debug, PartialEq)]
pub struct FilePayload {
    pub is_binary: bool,
    pub content: String,
}

/// A project bundle: metadata and its files by relative path.
#[derive(Debug, PartialEq)]
pub struct ScratchPackage {
    pub format: String,
    pub name: String,
    pub version: String,
    pub created_at: String,
    pub entry: String,
    pub files: Vec<(String, FilePayload)>,
}

// ---------------------------------------------------------------------------------------
// Hex text of bytes
// ---------------------------------------------------------------------------------------

/// The lower-case hex digit of a value below sixteen.
pub open spec fn hex_digit(d: nat) -> char {
    if d < 10 { ((d + 48) as u32) as char } else { ((d + 87) as u32) as char }
}

/// Two lower-case hex digits per byte.
pub open spec fn hex_text(bs: Seq<u8>) -> Seq<char>
    decreases bs.len(),
{
    if bs.len() == 0 {
        Seq::empty()
    } else {
        hex_text(bs.drop_last()) + seq![hex_digit((bs.last() / 16) as nat), hex_digit((bs.last() % 16) as nat)]
    }
}

/// The value of a hex digit byte (either case).
pub open spec fn hex_value(b: u8) -> Option<nat> {
    if 48 <= b <= 57 {
        Some((b - 48) as nat)
    } else if 97 <= b <= 102 {
        Some((b - 87) as nat)
    } else if 65 <= b <= 70 {
        Some((b - 55) as nat)
    } else {
        None
    }
}

/// The byte two characters stand for (`u8::from_str_radix` in base 16, an optional `+`
/// included); zero when they do not read as one.
pub open spec fn pair_value(b0: u8, b1: u8) -> u8 {
    match (hex_value(b0), hex_value(b1)) {
        (Some(x), Some(y)) => (x * 16 + y) as u8,
        (None, Some(y)) => if b0 == 43 { y as u8 } else { 0 },
        _ => 0,
    }
}

/// The bytes that hex text stands for: one per pair of bytes; an odd last byte is dropped.
pub open spec fn hex_bytes(bs: Seq<u8>) -> Seq<u8>
    decreases bs.len(),
{
    if bs.len() < 2 {
        Seq::empty()
    } else {
        seq![pair_value(bs[0], bs[1])] + hex_bytes(bs.skip(2))
    }
}

/// The bytes a payload unpacks to.
pub open spec fn payload_bytes(p: FilePayload) -> Seq<u8> {
    if p.is_binary { hex_bytes(encode_utf8(p.content@)) } else { encode_utf8(p.content@) }
}

/// File extensions that are always bundled as binary.
pub open spec fn binary_extensions() -> Seq<Seq<char>> {
    seq!["png"@, "jpg"@, "jpeg"@, "wav"@, "mp3"@, "ogg"@, "schbc"@]
}

/// What `String::from_utf8_lossy` decodes from bytes: the text they encode, with each invalid
/// sequence replaced by U+FFFD.
pub uninterp spec fn spec_utf8_lossy(bytes: Seq<u8>) -> Seq<char>;

/// `String::from_utf8_lossy`, copied into a new string. Its result is named; when the bytes
/// are valid UTF-8, the text re-encodes to those very bytes.
#[verifier::external_body]
fn utf8_lossy(bytes: &Vec<u8>) -> (s: String)
    ensures
        s@ == spec_utf8_lossy(bytes@),
        (exists|t: Seq<char>| encode_utf8(t) == bytes@) ==> encode_utf8(s@) == bytes@,
{
    String::from_utf8_lossy(bytes.as_slice()).to_string()
}

fn hex_digit_exec(d: u8) -> (c: char)
    requires
        d < 16,
    ensures
        c == hex_digit(d as nat),
{
    if d < 10 { (d + 48) as char } else { (d + 87) as char }
}

/// Two lower-case hex digits per byte.
pub fn hex_encode(bytes: &Vec<u8>) -> (s: String)
    ensures
        s@ == hex_text(bytes@),
{
    let mut s = String::new();
    for i in 0..bytes.len()
        invariant
            s@ == hex_text(bytes@.take(i as int)),
    {
        let b = bytes[i];
        crate::text::push_char(&mut s, hex_digit_exec(b / 16));
        crate::text::push_char(&mut s, hex_digit_exec(b % 16));
        proof {
            assert(bytes@.take(i + 1).drop_last() =~= bytes@.take(i as int));
            assert(s@ =~= hex_text(bytes@.take(i + 1)));
        }
    }
    assert(bytes@.take(bytes@.len() as int) =~= bytes@);
    s
}

fn hex_value_exec(b: u8) -> (r: Option<u8>)
    ensures
        match hex_value(b) {
            Some(v) => r == Some(v as u8),
            None => r is None,
        },
{
    if 48 <= b && b <= 57 {
        Some(b - 48)
    } else if 97 <= b && b <= 102 {
        Some(b - 87)
    } else if 65 <= b && b <= 70 {
        Some(b - 55)
    } else {
        None
    }
}

fn pair_value_exec(b0: u8, b1: u8) -> (r: u8)
    ensures
        r == pair_value(b0, b1),
{
    match (hex_value_exec(b0), hex_value_exec(b1)) {
        (Some(x), Some(y)) => x * 16 + y,
        (None, Some(y)) => if b0 == 43 { y } else { 0 },
        _ => 0,
    }
}

/// The bytes that hex text stands for (see `hex_bytes`).
pub fn hex_decode(content: &str) -> (r: Vec<u8>)
    ensures
        r@ == hex_bytes(encode_utf8(content@)),
{
    let hex = content.as_bytes();
    let ghost bs = hex@;
    let mut out: Vec<u8> = Vec::new();
    let mut i: usize = 0;
    assert(bs.skip(0) =~= bs);
    while i + 1 < hex.len()
        invariant
            bs == hex@,
            bs == encode_utf8(content@),
            i <= bs.len(),
            i % 2 == 0,
            out@ + hex_bytes(bs.skip(i as int)) == hex_bytes(bs),
        decreases bs.len() - i,
    {
        let v = pair_value_exec(hex[i], hex[i + 1]);
        proof {
            let rest = bs.skip(i as int);
            assert(rest[0] == bs[i as int] && rest[1] == bs[i + 1]);
            assert(rest.skip(2) =~= bs.skip(i + 2));
            assert(out@.push(v) + hex_bytes(bs.skip(i + 2)) =~= out@ + hex_bytes(rest));
        }
        out.push(v);
        i = i + 2;
    }
    proof {
        assert(hex_bytes(bs.skip(i as int)) =~= Seq::<u8>::empty());
        assert(out@ + Seq::<u8>::empty() =~= out@);
    }
    out
}

proof fn lemma_ascii_bv(v: u32)
    requires
        v <= 0x7F,
    ensures
        (v & 0x7F) == v,
{
    assert((v & 0x7F) == v) by (bit_vector)
        requires
            v <= 0x7F;
}

/// ASCII text encodes to one byte per character, of the character's value.
proof fn lemma_encode_ascii(s: Seq<char>)
    requires
        forall|i: int| 0 <= i < s.len() ==> (#[trigger] s[i] as u32) < 128,
    ensures
        encode_utf8(s) == s.map_values(|c: char| (c as u32) as u8),
    decreases s.len(),
{
    if s.len() > 0 {
        let t = s.drop_first();
        assert forall|i: int| 0 <= i < t.len() implies (#[trigger] t[i] as u32) < 128 by {
            assert(t[i] == s[i + 1]);
        }
        lemma_encode_ascii(t);
        lemma_ascii_bv(s[0] as u32);
        assert(encode_utf8(s) =~= s.map_values(|c: char| (c as u32) as u8));
    }
}

proof fn lemma_hex_text_front(bs: Seq<u8>)
    requires
        bs.len() > 0,
    ensures
        hex_text(bs) == seq![hex_digit((bs[0] / 16) as nat), hex_digit((bs[0] % 16) as nat)] + hex_text(bs.drop_first()),
    decreases bs.len(),
{
    if bs.len() == 1 {
        assert(bs.drop_last() =~= Seq::<u8>::empty());
        assert(bs.drop_first() =~= Seq::<u8>::empty());
        assert(hex_text(bs) =~= seq![hex_digit((bs[0] / 16) as nat), hex_digit((bs[0] % 16) as nat)] + hex_text(bs.drop_first()));
    } else {
        let d = bs.drop_last();
        lemma_hex_text_front(d);
        assert(d.drop_first() =~= bs.drop_first().drop_last());
        assert(bs.drop_first().last() == bs.last());
        assert(hex_text(bs) =~= seq![hex_digit((bs[0] / 16) as nat), hex_digit((bs[0] % 16) as nat)] + hex_text(bs.drop_first()));
    }
}

proof fn lemma_hex_digit_ascii(d: nat)
    requires
        d < 16,
    ensures
        (hex_digit(d) as u32) < 128,
        hex_value(((hex_digit(d) as u32) as u8)) == Some(d),
{
}

/// Unpacking the hex text of bytes gives the bytes back.
pub proof fn law_hex_roundtrip(bs: Seq<u8>)
    ensures
        hex_bytes(encode_utf8(hex_text(bs))) == bs,
    decreases bs.len(),
{
    if bs.len() == 0 {
        assert(hex_bytes(encode_utf8(hex_text(bs))) =~= bs);
    } else {
        let b = bs[0];
        let d1 = hex_digit((b / 16) as nat);
        let d2 = hex_digit((b % 16) as nat);
        let rest = bs.drop_first();
        lemma_hex_text_front(bs);
        lemma_hex_digit_ascii((b / 16) as nat);
        lemma_hex_digit_ascii((b % 16) as nat);
        crate::language::lexer::lemma_encode_concat(seq![d1, d2], hex_text(rest));
        lemma_encode_ascii(seq![d1, d2]);
        let e = encode_utf8(hex_text(bs));
        let head = seq![d1, d2].map_values(|c: char| (c as u32) as u8);
        assert(e == head + encode_utf8(hex_text(rest)));
        assert(e[0] == (d1 as u32) as u8 && e[1] == (d2 as u32) as u8);
        assert(pair_value(e[0], e[1]) == b);
        assert(e.skip(2) =~= encode_utf8(hex_text(rest)));
        law_hex_roundtrip(rest);
        assert(hex_bytes(e) =~= seq![b] + rest);
        assert(seq![b] + rest =~= bs);
    }
}

} // verus!

verus! {

// ---------------------------------------------------------------------------------------
// Packing and unpacking files
// ---------------------------------------------------------------------------------------

/// Whether a file is bundled as binary: by its extension, or because it holds a zero byte.
pub open spec fn is_binary_file(extension: Seq<char>, bytes: Seq<u8>) -> bool {
    binary_extensions().contains(extension) || bytes.contains(0u8)
}

/// Whether a relative path is left out of a bundle: build outputs, version control, and
/// bundles themselves.
pub open spec fn left_out(rel: Seq<char>) -> bool {
    has_prefix(rel, "target"@) || has_prefix(rel, "dist"@) || has_prefix(rel, ".git"@)
        || (rel.len() >= 8 && rel.skip(rel.len() - 8) == ".scratch"@)
}

/// Whether `s` begins with `p`.
pub open spec fn has_prefix(s: Seq<char>, p: Seq<char>) -> bool {
    p.len() <= s.len() && s.take(p.len() as int) == p
}

fn starts_with(s: &Vec<char>, p: &str) -> (r: bool)
    ensures
        r == has_prefix(s@, p@),
{
    let ps = crate::text::chars_of(p);
    if ps.len() > s.len() {
        return false;
    }
    for i in 0..ps.len()
        invariant
            ps@ == p@,
            ps@.len() <= s@.len(),
            forall|k: int| 0 <= k < i ==> s@[k] == ps@[k],
    {
        if s[i] != ps[i] {
            assert(s@.take(p@.len() as int)[i as int] != p@[i as int]);
            return false;
        }
    }
    assert(s@.take(p@.len() as int) =~= p@);
    true
}

/// Whether a relative path is left out of a bundle (see `left_out`).
pub fn is_left_out(rel_path: &str) -> (r: bool)
    ensures
        r == left_out(rel_path@),
{
    proof {
        reveal_strlit("target");
        reveal_strlit("dist");
        reveal_strlit(".git");
        reveal_strlit(".scratch");
    }
    let cs = crate::text::chars_of(rel_path);
    if starts_with(&cs, "target") || starts_with(&cs, "dist") || starts_with(&cs, ".git") {
        return true;
    }
    let n = cs.len();
    if n < 8 {
        return false;
    }
    let tail = ['.', 's', 'c', 'r', 'a', 't', 'c', 'h'];
    for i in 0..8
        invariant
            n == cs@.len(),
            cs@ == rel_path@,
            n >= 8,
            tail@ == ".scratch"@,
            !has_prefix(cs@, "target"@) && !has_prefix(cs@, "dist"@) && !has_prefix(cs@, ".git"@),
            forall|k: int| 0 <= k < i ==> cs@[n - 8 + k] == tail@[k],
    {
        if cs[n - 8 + i] != tail[i] {
            assert(cs@.skip(n - 8)[i as int] != ".scratch"@[i as int]);
            return false;
        }
    }
    assert(cs@.skip(n - 8) =~= ".scratch"@);
    true
}

fn has_zero(bytes: &Vec<u8>) -> (r: bool)
    ensures
        r == bytes@.contains(0u8),
{
    for i in 0..bytes.len()
        invariant
            forall|k: int| 0 <= k < i ==> bytes@[k] != 0u8,
    {
        if bytes[i] == 0 {
            assert(bytes@[i as int] == 0u8);
            return true;
        }
    }
    false
}

impl FilePayload {
    /// The payload of a file with the given extension and contents: binary files as hex text,
    /// other files as their text.
    pub fn from_file(extension: &str, bytes: &Vec<u8>) -> (p: Self)
        ensures
            p.is_binary == is_binary_file(extension@, bytes@),
            p.is_binary ==> p.content@ == hex_text(bytes@),
            !p.is_binary ==> p.content@ == spec_utf8_lossy(bytes@),
            !p.is_binary && (exists|t: Seq<char>| encode_utf8(t) == bytes@) ==> encode_utf8(p.content@) == bytes@,
    {
        let e = extension;
        let by_ext = crate::text::str_eq(e, "png") || crate::text::str_eq(e, "jpg") || crate::text::str_eq(e, "jpeg")
            || crate::text::str_eq(e, "wav") || crate::text::str_eq(e, "mp3") || crate::text::str_eq(e, "ogg")
            || crate::text::str_eq(e, "schbc");
        proof {
            let s = binary_extensions();
            if by_ext {
                if e@ == "png"@ { assert(s[0] == e@); } else if e@ == "jpg"@ { assert(s[1] == e@); }
                else if e@ == "jpeg"@ { assert(s[2] == e@); } else if e@ == "wav"@ { assert(s[3] == e@); }
                else if e@ == "mp3"@ { assert(s[4] == e@); } else if e@ == "ogg"@ { assert(s[5] == e@); }
                else { assert(s[6] == e@); }
            } else {
                assert forall|i: int| 0 <= i < s.len() implies s[i] != e@ by {}
            }
        }
        let is_binary = by_ext || has_zero(bytes);
        let content = if is_binary { hex_encode(bytes) } else { utf8_lossy(bytes) };
        FilePayload { is_binary, content }
    }

    /// The bytes the payload unpacks to (see `payload_bytes`).
    pub fn to_bytes(&self) -> (r: Vec<u8>)
        ensures
            r@ == payload_bytes(*self),
    {
        if self.is_binary {
            hex_decode(self.content.as_str())
        } else {
            let b = self.content.as_str().as_bytes();
            let mut v: Vec<u8> = Vec::new();
            for i in 0..b.len()
                invariant
                    v@ == b@.take(i as int),
            {
                v.push(b[i]);
                assert(b@.take(i + 1) =~= b@.take(i as int).push(b@[i as int]));
            }
            assert(b@.take(b@.len() as int) =~= b@);
            v
        }
    }
}

impl ScratchPackage {
    /// A bundle in the current format, version `0.1.0`, entered at `src/main.sch`.
    pub fn new(name: String, created_at: String, files: Vec<(String, FilePayload)>) -> (p: Self)
        ensures
            p.format@ == "scratch-package-v1"@,
            p.name == name,
            p.version@ == "0.1.0"@,
            p.created_at == created_at,
            p.entry@ == "src/main.sch"@,
            p.files == files,
    {
        ScratchPackage {
            format: String::from_str("scratch-package-v1"),
            name,
            version: String::from_str("0.1.0"),
            created_at,
            entry: String::from_str("src/main.sch"),
            files,
        }
    }
}

/// Packing a file and unpacking it gives back its bytes, for binary files and for text files
/// that are valid UTF-8.
pub proof fn law_payload_roundtrip(extension: Seq<char>, bytes: Seq<u8>, p: FilePayload)
    requires
        p.is_binary == is_binary_file(extension, bytes),
        p.is_binary ==> p.content@ == hex_text(bytes),
        !p.is_binary && (exists|t: Seq<char>| encode_utf8(t) == bytes) ==> encode_utf8(p.content@) == bytes,
        p.is_binary || (exists|t: Seq<char>| encode_utf8(t) == bytes),
    ensures
        payload_bytes(p) == bytes,
{
    if p.is_binary {
        law_hex_roundtrip(bytes);
    }
}

} // verus!
