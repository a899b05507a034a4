use vstd::prelude::*;

verus! {

/// ASCII lower-casing of one character: `A`..`Z` map to `a`..`z`, all else is kept.
pub open spec fn spec_ascii_lower(c: char) -> char {
    if 'A' <= c && c <= 'Z' {
        ((c as u32) + 32) as char
    } else {
        c
    }
}

pub fn ascii_lower(c: char) -> (r: char)
    ensures
        r == spec_ascii_lower(c),
{
    if 'A' <= c && c <= 'Z' {
        let b: u8 = (c as u8) + 32;
        b as char
    } else {
        c
    }
}

} // verus!

verus! {

/// The characters of a string slice, collected into a vector.
pub fn chars_of(s: &str) -> (v: Vec<char>)
    ensures
        v@ == s@,
{
    let mut v: Vec<char> = Vec::new();
    for c in it: s.chars()
        invariant
            v@ == it.seq().take(it.index() as int),
    {
        v.push(c);
    }
    v
}

} // verus!

verus! {

/// Substitution cost of two characters: free when they agree up to ASCII case.
pub open spec fn subst_cost(x: char, y: char) -> nat {
    if spec_ascii_lower(x) == spec_ascii_lower(y) { 0 } else { 1 }
}

pub open spec fn min3(x: nat, y: nat, z: nat) -> nat {
    if x <= y && x <= z { x } else if y <= z { y } else { z }
}

/// Edit distance between the first `i` characters of `a` and the first `j` characters of `b`
/// (insertions, deletions and substitutions, letters compared without ASCII case).
pub open spec fn edit_distance_prefix(a: Seq<char>, b: Seq<char>, i: nat, j: nat) -> nat
    decreases i + j,
{
    if i == 0 {
        j
    } else if j == 0 {
        i
    } else {
        min3(
            edit_distance_prefix(a, b, (i - 1) as nat, j) + 1,
            edit_distance_prefix(a, b, i, (j - 1) as nat) + 1,
            edit_distance_prefix(a, b, (i - 1) as nat, (j - 1) as nat) + subst_cost(a[i - 1], b[j - 1]),
        )
    }
}

/// Edit distance between two character sequences, letters compared without ASCII case.
pub open spec fn edit_distance(a: Seq<char>, b: Seq<char>) -> nat {
    edit_distance_prefix(a, b, a.len(), b.len())
}

proof fn lemma_prefix_symmetric(a: Seq<char>, b: Seq<char>, i: nat, j: nat)
    ensures
        edit_distance_prefix(a, b, i, j) == edit_distance_prefix(b, a, j, i),
    decreases i + j,
{
    if i > 0 && j > 0 {
        lemma_prefix_symmetric(a, b, (i - 1) as nat, j);
        lemma_prefix_symmetric(a, b, i, (j - 1) as nat);
        lemma_prefix_symmetric(a, b, (i - 1) as nat, (j - 1) as nat);
    }
}

proof fn lemma_prefix_self(a: Seq<char>, i: nat)
    ensures
        edit_distance_prefix(a, a, i, i) == 0,
    decreases i,
{
    if i > 0 {
        lemma_prefix_self(a, (i - 1) as nat);
    }
}

/// The edit distance is symmetric: `a` is as far from `b` as `b` is from `a`.
pub proof fn law_edit_distance_symmetric(a: Seq<char>, b: Seq<char>)
    ensures
        edit_distance(a, b) == edit_distance(b, a),
{
    lemma_prefix_symmetric(a, b, a.len(), b.len());
}

/// Every text is at edit distance zero from itself.
pub proof fn law_edit_distance_self(a: Seq<char>)
    ensures
        edit_distance(a, a) == 0,
{
    lemma_prefix_self(a, a.len());
}

/// The edit distance never exceeds the length of the longer text.
pub proof fn law_edit_distance_at_most_longer(a: Seq<char>, b: Seq<char>)
    ensures
        edit_distance(a, b) <= if a.len() >= b.len() { a.len() } else { b.len() },
{
    lemma_edit_distance_bound(a, b, a.len(), b.len());
}

proof fn lemma_edit_distance_bound(a: Seq<char>, b: Seq<char>, i: nat, j: nat)
    ensures
        edit_distance_prefix(a, b, i, j) <= if i >= j { i } else { j },
    decreases i + j,
{
    if i > 0 && j > 0 {
        lemma_edit_distance_bound(a, b, (i - 1) as nat, (j - 1) as nat);
    }
}

/// Levenshtein distance over characters, comparing letters without ASCII case.
pub fn levenshtein(a: &str, b: &str) -> (d: usize)
    ensures
        d == edit_distance(a@, b@),
{
    let a_chars = chars_of(a);
    let b_chars = chars_of(b);
    let m = a_chars.len();
    let n = b_chars.len();
    let ghost sa = a_chars@;
    let ghost sb = b_chars@;

    let mut prev: Vec<usize> = Vec::new();
    prev.push(0);
    for j in 0..n
        invariant
            n == sb.len(),
            prev.len() == j + 1,
            forall|k: int| 0 <= k <= j ==> prev@[k] == edit_distance_prefix(sa, sb, 0, k as nat),
    {
        prev.push(j + 1);
    }
    for i in 0..m
        invariant
            m == sa.len(),
            n == sb.len(),
            a_chars@ == sa,
            b_chars@ == sb,
            prev.len() == n + 1,
            forall|k: int| 0 <= k <= n ==> prev@[k] == edit_distance_prefix(sa, sb, i as nat, k as nat),
    {
        let mut cur: Vec<usize> = Vec::new();
        cur.push(i + 1);
        for jj in 0..n
            invariant
                m == sa.len(),
                n == sb.len(),
                a_chars@ == sa,
                b_chars@ == sb,
                i < m,
                prev.len() == n + 1,
                cur.len() == jj + 1,
                forall|k: int| 0 <= k <= n ==> prev@[k] == edit_distance_prefix(sa, sb, i as nat, k as nat),
                forall|k: int| 0 <= k <= jj ==> cur@[k] == edit_distance_prefix(sa, sb, (i + 1) as nat, k as nat),
        {
            let cost: usize = if ascii_lower(a_chars[i]) == ascii_lower(b_chars[jj]) { 0 } else { 1 };
            proof {
                lemma_edit_distance_bound(sa, sb, i as nat, jj as nat);
            }
            let del = prev[jj + 1].saturating_add(1);
            let ins = cur[jj].saturating_add(1);
            let sub = prev[jj] + cost;
            let mut best = del;
            if ins < best {
                best = ins;
            }
            if sub < best {
                best = sub;
            }
            proof {
                let ghost e = edit_distance_prefix(sa, sb, (i + 1) as nat, (jj + 1) as nat);
                assert(e == min3(
                    edit_distance_prefix(sa, sb, i as nat, (jj + 1) as nat) + 1,
                    edit_distance_prefix(sa, sb, (i + 1) as nat, jj as nat) + 1,
                    edit_distance_prefix(sa, sb, i as nat, jj as nat) + subst_cost(sa[i as int], sb[jj as int]),
                ));
            }
            cur.push(best);
        }
        prev = cur;
    }
    prev[n]
}

} // verus!

verus! {

/// Whether `i` is the best match for `query` among `cands`: within distance 3, no candidate
/// strictly closer, and no earlier candidate as close.
pub open spec fn is_closest(query: Seq<char>, cands: Seq<Seq<char>>, i: int) -> bool {
    &&& 0 <= i < cands.len()
    &&& edit_distance(query, cands[i]) <= 3
    &&& forall|k: int| 0 <= k < cands.len() ==> edit_distance(query, cands[i]) <= edit_distance(query, #[trigger] cands[k])
    &&& forall|k: int| 0 <= k < i ==> edit_distance(query, cands[i]) < edit_distance(query, #[trigger] cands[k])
}

/// No candidate lies within edit distance 3 of `query`.
pub open spec fn none_close(query: Seq<char>, cands: Seq<Seq<char>>) -> bool {
    forall|k: int| 0 <= k < cands.len() ==> edit_distance(query, #[trigger] cands[k]) > 3
}

pub open spec fn string_views(v: Seq<String>) -> Seq<Seq<char>> {
    v.map_values(|s: String| s@)
}

/// Index of the candidate closest to `query` by edit distance (at most 3), the earliest
/// one among equally close candidates; `None` when no candidate is that close.
pub fn closest_match(query: &str, candidates: &Vec<String>) -> (r: Option<usize>)
    ensures
        match r {
            Some(i) => is_closest(query@, string_views(candidates@), i as int),
            None => none_close(query@, string_views(candidates@)),
        },
{
    let ghost cs = string_views(candidates@);
    let mut best: Option<usize> = None;
    let mut best_dist: usize = usize::MAX;
    for k in 0..candidates.len()
        invariant
            cs == string_views(candidates@),
            cs.len() == candidates@.len(),
            match best {
                Some(i) => {
                    &&& i < k
                    &&& best_dist == edit_distance(query@, cs[i as int])
                    &&& best_dist <= 3
                    &&& forall|t: int| 0 <= t < k ==> best_dist <= edit_distance(query@, #[trigger] cs[t])
                    &&& forall|t: int| 0 <= t < i ==> best_dist < edit_distance(query@, #[trigger] cs[t])
                },
                None => forall|t: int| 0 <= t < k ==> edit_distance(query@, #[trigger] cs[t]) > 3,
            },
    {
        let d = levenshtein(query, candidates[k].as_str());
        assert(cs[k as int] == candidates@[k as int]@);
        if d <= 3 && (best.is_none() || d < best_dist) {
            best = Some(k);
            best_dist = d;
        }
    }
    best
}

/// String equality on string slices, compared character by character.
pub(crate) fn str_eq(a: &str, b: &str) -> (r: bool)
    ensures
        r == (a@ == b@),
{
    let x = chars_of(a);
    let y = chars_of(b);
    if x.len() != y.len() {
        return false;
    }
    let mut i: usize = 0;
    while i < x.len()
        invariant
            x@ == a@,
            y@ == b@,
            x@.len() == y@.len(),
            i <= x@.len(),
            forall|k: int| 0 <= k < i ==> x@[k] == y@[k],
        decreases x@.len() - i,
    {
        if x[i] != y[i] {
            return false;
        }
        i = i + 1;
    }
    assert(a@ =~= b@);
    true
}

/// Appends one character to a string (`String::push`).
#[verifier::external_body]
pub(crate) fn push_char(s: &mut String, c: char)
    ensures
        final(s)@ == old(s)@.push(c),
{
    s.push(c)
}

} // verus!

verus! {

/// Decimal digits of a natural number, without leading zeros (`0` for zero).
pub open spec fn decimal(n: nat) -> Seq<char>
    decreases n,
{
    if n < 10 {
        seq![digit_char((n % 10) as nat)]
    } else {
        decimal(n / 10).push(digit_char((n % 10) as nat))
    }
}

/// The ASCII digit of a value below ten.
pub open spec fn digit_char(d: nat) -> char {
    ((d % 10) + 48) as char
}

fn digit(d: u64) -> (c: char)
    requires
        d < 10,
    ensures
        c == digit_char(d as nat),
{
    let b: u8 = (d as u8) + 48;
    b as char
}

/// Decimal text of an unsigned integer.
pub fn u64_to_string(n: u64) -> (s: String)
    ensures
        s@ == decimal(n as nat),
{
    let mut digits: Vec<char> = Vec::new();
    let mut m: u64 = n;
    let ghost mut done: Seq<char> = Seq::empty();
    while m >= 10
        invariant
            decimal(n as nat) == decimal(m as nat) + digits@.reverse(),
        decreases m,
    {
        let d = m % 10;
        let c = digit(d);
        proof {
            assert(decimal(m as nat) == decimal((m / 10) as nat).push(c));
        }
        digits.push(c);
        proof {
            assert(digits@.reverse() == seq![c] + digits@.drop_last().reverse()) by {
                assert(digits@.drop_last().reverse() =~= digits@.reverse().drop_first());
            }
            assert(decimal((m / 10) as nat) + digits@.reverse() =~= decimal((m / 10) as nat).push(c)
                + digits@.drop_last().reverse());
        }
        m = m / 10;
    }
    let mut s = String::new();
    push_char(&mut s, digit(m));
    assert(s@ == decimal(m as nat));
    let mut k = digits.len();
    while k > 0
        invariant
            k <= digits@.len(),
            decimal(n as nat) == decimal(m as nat) + digits@.reverse(),
            s@ == decimal(m as nat) + digits@.skip(k as int).reverse(),
        decreases k,
    {
        k = k - 1;
        push_char(&mut s, digits[k]);
        proof {
            assert(digits@.skip(k as int).reverse() =~= digits@.skip(k + 1).reverse().push(digits@[k as int]));
        }
    }
    assert(digits@.skip(0) == digits@);
    s
}

/// Whether `needle` occurs as a contiguous part of `hay`.
pub open spec fn has_substring(hay: Seq<char>, needle: Seq<char>) -> bool {
    exists|i: int| 0 <= i && i + needle.len() <= hay.len() && #[trigger] hay.subrange(i, i + needle.len()) == needle
}

/// Whether `needle` occurs in `hay` (`str::contains` with a string pattern).
pub fn contains_str(hay: &str, needle: &str) -> (r: bool)
    ensures
        r == has_substring(hay@, needle@),
{
    let h = chars_of(hay);
    let nd = chars_of(needle);
    if nd.len() > h.len() {
        proof {
            assert forall|i: int| 0 <= i && i + nd@.len() <= h@.len() implies
                #[trigger] hay@.subrange(i, i + needle@.len()) != needle@ by {}
        }
        return false;
    }
    let last = h.len() - nd.len();
    let mut i: usize = 0;
    while i <= last
        invariant
            h@ == hay@,
            nd@ == needle@,
            last == h@.len() - nd@.len(),
            nd@.len() <= h@.len(),
            h@.len() <= usize::MAX,
            forall|t: int| 0 <= t < i ==> #[trigger] hay@.subrange(t, t + needle@.len()) != needle@,
        decreases last + 1 - i,
    {
        let mut j: usize = 0;
        let mut ok = true;
        while j < nd.len()
            invariant
                h@ == hay@,
                nd@ == needle@,
                i <= last,
                last == h@.len() - nd@.len(),
                nd@.len() <= h@.len(),
                h@.len() <= usize::MAX,
                j <= nd@.len(),
                ok == forall|u: int| 0 <= u < j ==> h@[i + u] == nd@[u],
            decreases nd@.len() - j,
        {
            if h[i + j] != nd[j] {
                ok = false;
            }
            j = j + 1;
        }
        if ok {
            assert(hay@.subrange(i as int, i + needle@.len()) =~= needle@);
            return true;
        }
        assert(hay@.subrange(i as int, i + needle@.len()) != needle@) by {
            let u = choose|u: int| 0 <= u < j && h@[i + u] != nd@[u];
            assert(hay@.subrange(i as int, i + needle@.len())[u] != needle@[u]);
        }
        if i == last {
            return false;
        }
        i = i + 1;
    }
    false
}

/// What `str::to_lowercase` returns: the Unicode lower-case mapping of the text.
pub uninterp spec fn spec_to_lowercase(s: Seq<char>) -> Seq<char>;

/// The characters with the Unicode `White_Space` property, which `char::is_whitespace`
/// tests and `str::trim` removes: U+0009 to U+000D, space, U+0085, U+00A0, U+1680, U+2000 to
/// U+200A, U+2028, U+2029, U+202F, U+205F and U+3000.
pub open spec fn is_white_space(c: char) -> bool {
    let u = c as u32;
    (0x9 <= u && u <= 0xD) || u == 0x20 || u == 0x85 || u == 0xA0 || u == 0x1680 || (0x2000 <= u && u
        <= 0x200A) || u == 0x2028 || u == 0x2029 || u == 0x202F || u == 0x205F || u == 0x3000
}

/// The text without leading white space (`str::trim_start`).
pub open spec fn spec_trim_start(s: Seq<char>) -> Seq<char>
    decreases s.len(),
{
    if s.len() > 0 && is_white_space(s[0]) {
        spec_trim_start(s.drop_first())
    } else {
        s
    }
}

/// The text without trailing white space (`str::trim_end`).
pub open spec fn spec_trim_end(s: Seq<char>) -> Seq<char>
    decreases s.len(),
{
    if s.len() > 0 && is_white_space(s.last()) {
        spec_trim_end(s.drop_last())
    } else {
        s
    }
}

/// The text without leading and trailing white space (`str::trim`).
pub open spec fn spec_trim(s: Seq<char>) -> Seq<char> {
    spec_trim_end(spec_trim_start(s))
}

fn is_white_space_exec(c: char) -> (r: bool)
    ensures
        r == is_white_space(c),
{
    let u = c as u32;
    (0x9 <= u && u <= 0xD) || u == 0x20 || u == 0x85 || u == 0xA0 || u == 0x1680 || (0x2000 <= u && u
        <= 0x200A) || u == 0x2028 || u == 0x2029 || u == 0x202F || u == 0x205F || u == 0x3000
}

/// Position of the first character of `cs[from..]` that is not white space, or the length.
fn skip_white_space(cs: &Vec<char>, from: usize) -> (i: usize)
    requires
        from <= cs@.len(),
    ensures
        from <= i <= cs@.len(),
        spec_trim_start(cs@.skip(from as int)) == cs@.skip(i as int),
{
    let mut i = from;
    while i < cs.len() && is_white_space_exec(cs[i])
        invariant
            from <= i <= cs@.len(),
            spec_trim_start(cs@.skip(from as int)) == spec_trim_start(cs@.skip(i as int)),
        decreases cs@.len() - i,
    {
        assert(cs@.skip(i as int).drop_first() =~= cs@.skip(i + 1));
        i = i + 1;
    }
    i
}

/// The text without leading white space (`str::trim_start`), as a new string.
pub fn trim_start_str(s: &str) -> (r: String)
    ensures
        r@ == spec_trim_start(s@),
{
    let cs = chars_of(s);
    let i = skip_white_space(&cs, 0);
    assert(cs@.skip(0) =~= cs@);
    let r = string_of_range(&cs, i, cs.len());
    assert(r@ =~= cs@.skip(i as int));
    r
}

/// The text without leading and trailing white space (`str::trim`), as a new string.
pub fn trim_str(s: &str) -> (r: String)
    ensures
        r@ == spec_trim(s@),
{
    let cs = chars_of(s);
    let i = skip_white_space(&cs, 0);
    assert(cs@.skip(0) =~= cs@);
    let mut j = cs.len();
    assert(cs@.subrange(i as int, j as int) =~= cs@.skip(i as int));
    while j > i && is_white_space_exec(cs[j - 1])
        invariant
            i <= j <= cs@.len(),
            spec_trim_end(cs@.skip(i as int)) == spec_trim_end(cs@.subrange(i as int, j as int)),
        decreases j,
    {
        assert(cs@.subrange(i as int, j as int).drop_last() =~= cs@.subrange(i as int, j - 1));
        j = j - 1;
    }
    string_of_range(&cs, i, j)
}

/// Every character of the text is ASCII.
pub open spec fn is_ascii_text(s: Seq<char>) -> bool {
    forall|i: int| 0 <= i < s.len() ==> (#[trigger] s[i] as u32) < 128
}

/// The text with each ASCII upper-case letter replaced by its lower-case letter.
pub open spec fn ascii_lowered(s: Seq<char>) -> Seq<char> {
    s.map_values(|c: char| spec_ascii_lower(c))
}

/// Trimming keeps an ASCII text ASCII.
pub proof fn lemma_trim_keeps_ascii(s: Seq<char>)
    requires
        is_ascii_text(s),
    ensures
        is_ascii_text(spec_trim_start(s)),
        is_ascii_text(spec_trim(s)),
{
    lemma_trim_start_keeps_ascii(s);
    lemma_trim_end_keeps_ascii(spec_trim_start(s));
}

proof fn lemma_trim_start_keeps_ascii(s: Seq<char>)
    requires
        is_ascii_text(s),
    ensures
        is_ascii_text(spec_trim_start(s)),
    decreases s.len(),
{
    if s.len() > 0 && is_white_space(s[0]) {
        assert forall|i: int| 0 <= i < s.drop_first().len() implies (#[trigger] s.drop_first()[i] as u32) < 128 by {
            assert(s.drop_first()[i] == s[i + 1]);
        }
        lemma_trim_start_keeps_ascii(s.drop_first());
    }
}

proof fn lemma_trim_end_keeps_ascii(s: Seq<char>)
    requires
        is_ascii_text(s),
    ensures
        is_ascii_text(spec_trim_end(s)),
    decreases s.len(),
{
    if s.len() > 0 && is_white_space(s.last()) {
        assert forall|i: int| 0 <= i < s.drop_last().len() implies (#[trigger] s.drop_last()[i] as u32) < 128 by {
            assert(s.drop_last()[i] == s[i]);
        }
        lemma_trim_end_keeps_ascii(s.drop_last());
    }
}

/// `str::to_lowercase`. Its result is named; of an all-ASCII text it is stated that each
/// upper-case letter becomes its lower-case letter and nothing else changes.
#[verifier::external_body]
pub(crate) fn to_lowercase_str(s: &str) -> (r: String)
    ensures
        r@ == spec_to_lowercase(s@),
        is_ascii_text(s@) ==> r@ == ascii_lowered(s@),
{
    s.to_lowercase()
}

} // verus!

verus! {

/// Position of the first line feed at or after `i`, or the length.
pub open spec fn next_lf(s: Seq<char>, i: int) -> int
    decreases s.len() - i,
{
    if 0 <= i < s.len() && s[i] != '\n' { next_lf(s, i + 1) } else { i }
}

/// Start and end (exclusive) of the lines of `s` from position `i`: lines end at line feeds,
/// a final line feed starts no new line, and a carriage return just before a line feed is not
/// part of the line.
pub open spec fn line_bounds_from(s: Seq<char>, i: int) -> Seq<(int, int)>
    decreases s.len() - i,
{
    if i < 0 || i >= s.len() {
        Seq::empty()
    } else {
        let k = next_lf(s, i);
        let e = if k < s.len() && k > i && s[k - 1] == '\r' { k - 1 } else { k };
        if k >= s.len() || k < i {
            seq![(i, e)]
        } else {
            seq![(i, e)] + line_bounds_from(s, k + 1)
        }
    }
}

pub open spec fn line_bounds(s: Seq<char>) -> Seq<(int, int)> {
    line_bounds_from(s, 0)
}

/// The lines of a text (`str::lines`).
pub open spec fn lines_of(s: Seq<char>) -> Seq<Seq<char>> {
    line_bounds(s).map_values(|b: (int, int)| s.subrange(b.0, b.1))
}

proof fn lemma_next_lf(s: Seq<char>, i: int)
    requires
        0 <= i <= s.len(),
    ensures
        i <= next_lf(s, i) <= s.len(),
        forall|t: int| i <= t < next_lf(s, i) ==> s[t] != '\n',
        next_lf(s, i) < s.len() ==> s[next_lf(s, i)] == '\n',
    decreases s.len() - i,
{
    if i < s.len() && s[i] != '\n' {
        lemma_next_lf(s, i + 1);
    }
}

/// Character ranges of the lines of `s`.
pub fn line_ranges(s: &Vec<char>) -> (r: Vec<(usize, usize)>)
    ensures
        r@.len() == line_bounds(s@).len(),
        forall|k: int| 0 <= k < r@.len() ==> (#[trigger] r@[k]).0 as int == line_bounds(s@)[k].0
            && r@[k].1 as int == line_bounds(s@)[k].1,
        forall|k: int| 0 <= k < r@.len() ==> (#[trigger] r@[k]).0 <= r@[k].1 <= s@.len(),
{
    let n = s.len();
    let mut r: Vec<(usize, usize)> = Vec::new();
    let mut i: usize = 0;
    let ghost mut done: Seq<(int, int)> = Seq::empty();
    while i < n
        invariant
            n == s@.len(),
            i <= n,
            r@.len() == done.len(),
            forall|k: int| 0 <= k < r@.len() ==> (#[trigger] r@[k]).0 as int == done[k].0 && r@[k].1 as int == done[k].1,
            forall|k: int| 0 <= k < r@.len() ==> (#[trigger] r@[k]).0 <= r@[k].1 <= n,
            line_bounds(s@) == done + line_bounds_from(s@, i as int),
        decreases n - i,
    {
        let mut k = i;
        while k < n && s[k] != '\n'
            invariant
                n == s@.len(),
                i <= k <= n,
                next_lf(s@, k as int) == next_lf(s@, i as int),
            decreases n - k,
        {
            k = k + 1;
        }
        let e = if k < n && k > i && s[k - 1] == '\r' { k - 1 } else { k };
        let ghost rest = line_bounds_from(s@, i as int);
        r.push((i, e));
        proof {
            done = done.push((i as int, e as int));
        }
        if k >= n {
            proof {
                assert(rest == seq![(i as int, e as int)]);
                assert(line_bounds_from(s@, n as int) =~= Seq::<(int, int)>::empty());
                assert(line_bounds(s@) =~= done + line_bounds_from(s@, n as int));
            }
            i = n;
        } else {
            proof {
                assert(rest == seq![(i as int, e as int)] + line_bounds_from(s@, k + 1));
                assert(line_bounds(s@) =~= done + line_bounds_from(s@, k + 1));
            }
            i = k + 1;
        }
    }
    proof {
        assert(line_bounds_from(s@, i as int) =~= Seq::<(int, int)>::empty());
        assert(done =~= line_bounds(s@));
    }
    r
}

/// A vector of the characters `s[from..to]` as a string.
pub fn string_of_range(s: &Vec<char>, from: usize, to: usize) -> (r: String)
    requires
        from <= to <= s@.len(),
    ensures
        r@ == s@.subrange(from as int, to as int),
{
    let mut r = String::new();
    for t in from..to
        invariant
            to <= s@.len(),
            r@ == s@.subrange(from as int, t as int),
    {
        push_char(&mut r, s[t]);
        assert(s@.subrange(from as int, t + 1) =~= s@.subrange(from as int, t as int).push(s@[t as int]));
    }
    r
}

/// The lines of a text, as `str::lines` gives them.
pub fn lines(s: &str) -> (r: Vec<String>)
    ensures
        r@.len() == lines_of(s@).len(),
        forall|k: int| 0 <= k < r@.len() ==> #[trigger] r@[k]@ == lines_of(s@)[k],
{
    let cs = chars_of(s);
    let rs = line_ranges(&cs);
    let mut out: Vec<String> = Vec::new();
    for k in 0..rs.len()
        invariant
            cs@ == s@,
            rs@.len() == line_bounds(s@).len(),
            forall|j: int| 0 <= j < rs@.len() ==> (#[trigger] rs@[j]).0 as int == line_bounds(s@)[j].0
                && rs@[j].1 as int == line_bounds(s@)[j].1,
            forall|j: int| 0 <= j < rs@.len() ==> (#[trigger] rs@[j]).0 <= rs@[j].1 <= cs@.len(),
            out@.len() == k,
            forall|j: int| 0 <= j < k ==> #[trigger] out@[j]@ == lines_of(s@)[j],
    {
        let (a, b) = rs[k];
        assert(rs@[k as int].0 <= rs@[k as int].1 <= cs@.len());
        out.push(string_of_range(&cs, a, b));
    }
    out
}

/// `n` rendered in decimal, right-aligned in a field of `width` characters.
pub open spec fn pad_left(d: Seq<char>, width: nat) -> Seq<char> {
    if d.len() >= width { d } else { Seq::new((width - d.len()) as nat, |i: int| ' ') + d }
}

pub fn pad_left_exec(d: &String, width: usize) -> (r: String)
    ensures
        r@ == pad_left(d@, width as nat),
{
    let n = d.as_str().unicode_len();
    let mut r = String::new();
    if n < width {
        let mut k: usize = 0;
        while k < width - n
            invariant
                n < width,
                k <= width - n,
                r@ == Seq::new(k as nat, |i: int| ' '),
            decreases width - n - k,
        {
            push_char(&mut r, ' ');
            assert(Seq::new((k + 1) as nat, |i: int| ' ') =~= Seq::new(k as nat, |i: int| ' ').push(' '));
            k = k + 1;
        }
    }
    r.append(d.as_str());
    r
}

/// `c` repeated `n` times.
pub open spec fn repeat_char(c: char, n: nat) -> Seq<char> {
    Seq::new(n, |i: int| c)
}

pub fn push_repeat(s: &mut String, c: char, n: usize)
    ensures
        final(s)@ == old(s)@ + repeat_char(c, n as nat),
{
    let ghost s0 = s@;
    for k in 0..n
        invariant
            s@ == s0 + repeat_char(c, k as nat),
    {
        push_char(s, c);
        assert(repeat_char(c, (k + 1) as nat) =~= repeat_char(c, k as nat).push(c));
        assert(s0 + repeat_char(c, (k + 1) as nat) =~= (s0 + repeat_char(c, k as nat)).push(c));
    }
    assert(s@ =~= s0 + repeat_char(c, n as nat));
}

} // verus!
