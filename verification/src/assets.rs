use vstd::prelude::*;
use crate::text::{chars_of, closest_match, is_closest, none_close, str_eq, string_views};

verus! {

/// Kinds of asset files, each kept in a directory of its own.
#[derive(Debug, Clone, Copy, PartialEq, Eq, Hash, Structural)]
pub enum AssetCategory {
    Sprite,
    Animation,
    Background,
    Sound,
    Music,
    Font,
}

/// Directory name of an asset category.
pub open spec fn spec_category_dir(c: AssetCategory) -> Seq<char> {
    match c {
        AssetCategory::Sprite => "sprites"@,
        AssetCategory::Animation => "animations"@,
        AssetCategory::Background => "backgrounds"@,
        AssetCategory::Sound => "sounds"@,
        AssetCategory::Music => "music"@,
        AssetCategory::Font => "fonts"@,
    }
}

impl AssetCategory {
    /// The category's directory name (`sprites`, `sounds`, ...).
    pub fn to_string(&self) -> (s: String)
        ensures
            s@ == spec_category_dir(*self),
    {
        match self {
            AssetCategory::Sprite => String::from_str("sprites"),
            AssetCategory::Animation => String::from_str("animations"),
            AssetCategory::Background => String::from_str("backgrounds"),
            AssetCategory::Sound => String::from_str("sounds"),
            AssetCategory::Music => String::from_str("music"),
            AssetCategory::Font => String::from_str("fonts"),
        }
    }

    /// All categories, in scanning order.
    pub fn all() -> (v: Vec<AssetCategory>)
        ensures
            v@ == seq![AssetCategory::Sprite, AssetCategory::Animation, AssetCategory::Background,
                AssetCategory::Sound, AssetCategory::Music, AssetCategory::Font],
    {
        let mut v = Vec::new();
        v.push(AssetCategory::Sprite);
        v.push(AssetCategory::Animation);
        v.push(AssetCategory::Background);
        v.push(AssetCategory::Sound);
        v.push(AssetCategory::Music);
        v.push(AssetCategory::Font);
        v
    }
}

/// An indexed asset file.
#[derive(Debug, PartialEq, Eq)]
pub struct AssetInfo {
    pub name: String,
    pub category: AssetCategory,
    pub relative_path: String,
    pub extension: String,
}

/// Position of the dot that starts a file name's extension: the last `.` that is not the
/// first character; `None` when there is none.
pub open spec fn ext_dot(name: Seq<char>) -> Option<int> {
    if exists|i: int| 0 < i < name.len() && name[i] == '.' {
        Some(choose|i: int| 0 < i < name.len() && name[i] == '.'
            && forall|k: int| i < k < name.len() ==> name[k] != '.')
    } else {
        None
    }
}

/// File stem: the name without its extension.
pub open spec fn file_stem(name: Seq<char>) -> Seq<char> {
    match ext_dot(name) {
        Some(i) => name.take(i),
        None => name,
    }
}

/// File extension without the dot; empty when there is none.
pub open spec fn file_extension(name: Seq<char>) -> Seq<char> {
    match ext_dot(name) {
        Some(i) => name.skip(i + 1),
        None => Seq::empty(),
    }
}

/// Splits a file name into stem and extension the way file paths do: the extension follows
/// the last dot, unless that dot is the name's first character.
pub fn split_file_name(name: &str) -> (r: (String, String))
    ensures
        r.0@ == file_stem(name@),
        r.1@ == file_extension(name@),
{
    let cs = chars_of(name);
    let n = cs.len();
    let mut dot: usize = 0;
    let mut t: usize = 1;
    while t < n
        invariant
            cs@ == name@,
            n == cs@.len(),
            1 <= t,
            t <= n || t == 1,
            dot == 0 ==> forall|u: int| 0 < u < t ==> cs@[u] != '.',
            dot != 0 ==> (0 < dot < t && cs@[dot as int] == '.' && forall|u: int| dot < u < t ==> cs@[u] != '.'),
        decreases n - t,
    {
        if cs[t] == '.' {
            dot = t;
        }
        t = t + 1;
    }
    let mut stem = String::new();
    let mut ext = String::new();
    if dot == 0 {
        proof {
            assert(ext_dot(name@) is None);
        }
        stem = String::from_str(name);
    } else {
        proof {
            assert(t >= n);
            assert(0 < dot < t);
            assert(0 < dot < n && cs@[dot as int] == '.');
            assert(forall|u: int| dot < u < n ==> cs@[u] != '.');
            let i = ext_dot(name@)->0;
            assert(i == dot as int);
        }
        for t in 0..dot
            invariant
                cs@ == name@,
                dot < n == cs@.len(),
                stem@ == cs@.take(t as int),
        {
            crate::text::push_char(&mut stem, cs[t]);
            assert(cs@.take(t + 1) == cs@.take(t as int).push(cs@[t as int]));
        }
        for t in dot + 1..n
            invariant
                cs@ == name@,
                dot < n == cs@.len(),
                dot + 1 <= t <= n,
                ext@ == cs@.subrange(dot + 1, t as int),
        {
            crate::text::push_char(&mut ext, cs[t]);
            assert(cs@.subrange(dot + 1, t + 1) == cs@.subrange(dot + 1, t as int).push(cs@[t as int]));
        }
        assert(cs@.subrange(dot + 1, n as int) == cs@.skip(dot + 1));
    }
    (stem, ext)
}

/// How many of the first `k` assets have category `c`.
pub open spec fn category_count(assets: Seq<AssetInfo>, c: AssetCategory, k: int) -> nat
    decreases k,
{
    if k <= 0 || k > assets.len() {
        0
    } else {
        category_count(assets, c, k - 1) + if assets[k - 1].category == c { 1nat } else { 0nat }
    }
}

proof fn lemma_category_count(assets: Seq<AssetInfo>, c: AssetCategory, k: int)
    requires
        0 <= k <= assets.len(),
    ensures
        category_count(assets, c, k) <= k,
    decreases k,
{
    if k > 0 {
        lemma_category_count(assets, c, k - 1);
    }
}

/// A file found under an asset category directory.
#[derive(Debug, Clone, PartialEq, Eq)]
pub struct AssetFile {
    pub category: AssetCategory,
    pub file_name: String,
    pub path: String,
}

/// The last file at or after position `k` whose stem is `name`.
pub open spec fn last_file_from(files: Seq<AssetFile>, name: Seq<char>, k: int) -> Option<int>
    decreases files.len() - k,
{
    if k < 0 || k >= files.len() {
        None
    } else {
        match last_file_from(files, name, k + 1) {
            Some(i) => Some(i),
            None => if file_stem(files[k].file_name@) == name { Some(k) } else { None },
        }
    }
}

proof fn lemma_last_file_from(files: Seq<AssetFile>, name: Seq<char>, k: int)
    ensures
        last_file_from(files, name, k) matches Some(i) ==> 0 <= k <= i < files.len()
            && file_stem(files[i].file_name@) == name,
    decreases files.len() - k,
{
    if 0 <= k < files.len() {
        lemma_last_file_from(files, name, k + 1);
    }
}

/// What indexing `files[k..]` into `before` leaves under `name` in `after`: the asset of the
/// last of those files with stem `name` (named `name`, with the file's category, path and
/// extension), or what `before` had when none has that stem.
pub open spec fn scan_outcome(before: AssetIndex, after: AssetIndex, files: Seq<AssetFile>, k: int, name: Seq<char>) -> bool {
    match last_file_from(files, name, k) {
        Some(i) => after.lookup(name) matches Some(a) && a.name@ == name && a.category == files[i].category
            && a.relative_path@ == files[i].path@ && a.extension@ == file_extension(files[i].file_name@),
        None => after.lookup(name) == before.lookup(name),
    }
}

/// The asset index: asset descriptions keyed by name.
#[derive(Debug)]
pub struct AssetIndex {
    assets: Vec<AssetInfo>,
}

impl Clone for AssetInfo {
    /// A copy, equal to the original.
    fn clone(&self) -> (r: Self)
        ensures
            r == *self,
    {
        AssetInfo {
            name: self.name.clone(),
            category: self.category,
            relative_path: self.relative_path.clone(),
            extension: self.extension.clone(),
        }
    }
}

impl Clone for AssetIndex {
    /// An index with the same entries.
    fn clone(&self) -> (r: Self)
        ensures
            r.entries() == self.entries(),
    {
        let assets = self.assets.clone();
        proof {
            use_type_invariant(self);
            assert forall|i: int| 0 <= i < assets@.len() implies #[trigger] assets@[i] == self.assets@[i] by {
                assert(cloned::<AssetInfo>(self.assets[i], assets[i]));
            }
            assert(assets@ =~= self.assets@);
        }
        AssetIndex { assets }
    }
}

impl AssetIndex {
    /// The indexed assets, in registration order.
    pub closed spec fn entries(self) -> Seq<AssetInfo> {
        self.assets@
    }

    /// The indexed names, in registration order.
    pub open spec fn names(self) -> Seq<Seq<char>> {
        self.entries().map_values(|a: AssetInfo| a.name@)
    }

    /// No name is indexed twice. Every index keeps this.
    #[verifier::type_invariant]
    pub open spec fn wf(self) -> bool {
        self.names().no_duplicates()
    }

    /// The asset indexed under `name`.
    pub open spec fn lookup(self, name: Seq<char>) -> Option<AssetInfo> {
        if self.names().contains(name) {
            Some(self.entries()[self.names().index_of(name)])
        } else {
            None
        }
    }

    /// Whether `name` is indexed with category `c`.
    pub open spec fn spec_has_category(self, name: Seq<char>, c: AssetCategory) -> bool {
        self.lookup(name) matches Some(a) && a.category == c
    }

    /// An empty index.
    pub fn new() -> (r: Self)
        ensures
            r.wf(),
            r.entries().len() == 0,
    {
        AssetIndex { assets: Vec::new() }
    }

    fn position(&self, name: &str) -> (r: Option<usize>)
        ensures
            match r {
                Some(i) => i < self.entries().len() && self.names()[i as int] == name@
                    && self.names().index_of(name@) == i,
                None => !self.names().contains(name@),
            },
    {
        proof {
            use_type_invariant(self);
        }
        let ghost ns = self.names();
        for i in 0..self.assets.len()
            invariant
                ns == self.names(),
                self.wf(),
                ns.len() == self.assets@.len(),
                forall|k: int| 0 <= k < i ==> ns[k] != name@,
        {
            assert(ns[i as int] == self.assets@[i as int].name@);
            if str_eq(self.assets[i].name.as_str(), name) {
                proof {
                    ns.index_of_first_ensures(name@);
                    assert(ns.contains(name@));
                }
                return Some(i);
            }
        }
        None
    }

    /// Indexes an asset; one of the same name is replaced.
    pub fn register(&mut self, info: AssetInfo)
        ensures
            final(self).wf(),
            forall|n: Seq<char>| #[trigger] final(self).lookup(n) == if n == info.name@ {
                Some(info)
            } else {
                old(self).lookup(n)
            },
            final(self).entries().len() == old(self).entries().len() + if old(self).names().contains(info.name@) {
                0int
            } else {
                1int
            },
    {
        proof {
            use_type_invariant(&*self);
        }
        let ghost old_ns = self.names();
        let ghost iname = info.name@;
        let mut assets: Vec<AssetInfo> = Vec::new();
        match self.position(info.name.as_str()) {
            Some(i) => {
                std::mem::swap(&mut assets, &mut self.assets);
                assets.set(i, info);
                proof {
                    assert(assets@.map_values(|a: AssetInfo| a.name@) =~= old_ns);
                }
                self.assets = assets;
            },
            None => {
                std::mem::swap(&mut assets, &mut self.assets);
                assets.push(info);
                proof {
                    assert(assets@.map_values(|a: AssetInfo| a.name@) =~= old_ns.push(iname));
                }
                self.assets = assets;
                proof {
                    let ns = self.names();
                    assert(ns =~= old_ns.push(iname));
                    assert forall|n: Seq<char>| #[trigger] self.lookup(n) == if n == iname {
                        Some(info)
                    } else {
                        old(self).lookup(n)
                    } by {
                        if old_ns.contains(n) {
                            let j = old_ns.index_of(n);
                            old_ns.index_of_first_ensures(n);
                            ns.index_of_first_ensures(n);
                            assert(ns[j] == n);
                        }
                        if n == iname {
                            ns.index_of_first_ensures(n);
                            assert(ns[old_ns.len() as int] == n);
                        }
                    }
                }
            },
        }
    }

    /// Indexes a file found in a category directory: its stem is the asset name, its
    /// extension the asset extension.
    pub fn register_file(&mut self, category: AssetCategory, file_name: &str, path: &str)
        ensures
            final(self).wf(),
            forall|n: Seq<char>| #[trigger] final(self).lookup(n) == if n == file_stem(file_name@) {
                Some(AssetInfo {
                    name: final(self).lookup(n)->0.name,
                    category,
                    relative_path: final(self).lookup(n)->0.relative_path,
                    extension: final(self).lookup(n)->0.extension,
                })
            } else {
                old(self).lookup(n)
            },
            final(self).lookup(file_stem(file_name@)) matches Some(a) && a.name@ == file_stem(file_name@)
                && a.extension@ == file_extension(file_name@) && a.relative_path@ == path@,
    {
        let (stem, ext) = split_file_name(file_name);
        let info = AssetInfo { name: stem, category, relative_path: String::from_str(path), extension: ext };
        self.register(info);
    }

    /// The asset indexed under `name`.
    pub fn get(&self, name: &str) -> (r: Option<&AssetInfo>)
        ensures
            match r {
                Some(a) => self.lookup(name@) == Some(*a),
                None => self.lookup(name@) is None,
            },
    {
        match self.position(name) {
            Some(i) => Some(&self.assets[i]),
            None => None,
        }
    }

    /// Whether `name` is indexed with the given category.
    pub fn has_category(&self, name: &str, category: AssetCategory) -> (r: bool)
        ensures
            r == self.spec_has_category(name@, category),
    {
        match self.position(name) {
            Some(i) => self.assets[i].category == category,
            None => false,
        }
    }

    /// Whether `name` is a sound or a music asset.
    pub fn has_sound(&self, name: &str) -> (r: bool)
        ensures
            r == (self.spec_has_category(name@, AssetCategory::Sound)
                || self.spec_has_category(name@, AssetCategory::Music)),
    {
        self.has_category(name, AssetCategory::Sound) || self.has_category(name, AssetCategory::Music)
    }

    /// Whether `name` is a sprite asset.
    pub fn has_sprite(&self, name: &str) -> (r: bool)
        ensures
            r == self.spec_has_category(name@, AssetCategory::Sprite),
    {
        self.has_category(name, AssetCategory::Sprite)
    }

    /// Whether `name` is a background asset.
    pub fn has_background(&self, name: &str) -> (r: bool)
        ensures
            r == self.spec_has_category(name@, AssetCategory::Background),
    {
        self.has_category(name, AssetCategory::Background)
    }

    /// The indexed name closest to `query` (edit distance at most 3, earliest registration
    /// among equally close names).
    pub fn find_similar(&self, query: &str) -> (r: Option<&str>)
        ensures
            match r {
                Some(s) => exists|i: int| is_closest(query@, self.names(), i) && self.names()[i] == s@,
                None => none_close(query@, self.names()),
            },
    {
        let mut names: Vec<String> = Vec::new();
        for i in 0..self.assets.len()
            invariant
                names@.len() == i,
                forall|k: int| 0 <= k < i ==> #[trigger] names@[k]@ == self.names()[k],
        {
            names.push(self.assets[i].name.clone());
        }
        proof {
            assert(string_views(names@) =~= self.names());
        }
        match closest_match(query, &names) {
            Some(i) => {
                assert(self.names()[i as int] == self.assets@[i as int].name@);
                Some(self.assets[i].name.as_str())
            },
            None => None,
        }
    }

    /// Indexes the files found under the category directories, in the order given (the
    /// directories in scanning order, see `AssetCategory::all`): an asset is the last file of
    /// its stem, with that file's category, path and extension; other names keep their
    /// asset.
    pub fn scan_directory(&mut self, files: &Vec<AssetFile>)
        ensures
            final(self).wf(),
            forall|n: Seq<char>| #[trigger] scan_outcome(*old(self), *final(self), files@, 0, n),
    {
        self.scan_from(files, 0);
    }

    fn scan_from(&mut self, files: &Vec<AssetFile>, k: usize)
        requires
            k <= files@.len(),
        ensures
            final(self).wf(),
            forall|n: Seq<char>| #[trigger] scan_outcome(*old(self), *final(self), files@, k as int, n),
        decreases files@.len() - k,
    {
        proof {
            use_type_invariant(&*self);
        }
        if k < files.len() {
            let f = &files[k];
            let ghost before = *self;
            self.register_file(f.category, f.file_name.as_str(), f.path.as_str());
            let ghost mid = *self;
            self.scan_from(files, k + 1);
            proof {
                assert forall|n: Seq<char>| #[trigger] scan_outcome(before, *self, files@, k as int, n) by {
                    assert(scan_outcome(mid, *self, files@, k + 1, n));
                    assert(files@[k as int] == *f);
                    lemma_last_file_from(files@, n, k + 1);
                    if n != file_stem(f.file_name@) {
                        assert(mid.lookup(n) == before.lookup(n));
                    }
                }
            }
        } else {
            assert forall|n: Seq<char>| #[trigger] scan_outcome(*old(self), *self, files@, k as int, n) by {}
        }
    }

    /// How many indexed assets have category `c`.
    pub fn count_category(&self, c: AssetCategory) -> (n: usize)
        ensures
            n == category_count(self.entries(), c, self.entries().len() as int),
    {
        let mut n: usize = 0;
        for i in 0..self.assets.len()
            invariant
                n == category_count(self.entries(), c, i as int),
        {
            proof {
                lemma_category_count(self.entries(), c, i as int);
            }
            if self.assets[i].category == c {
                n = n + 1;
            }
        }
        n
    }

    /// All indexed assets, in registration order.
    pub fn iter(&self) -> (r: &Vec<AssetInfo>)
        ensures
            r@ == self.entries(),
    {
        &self.assets
    }
}

} // verus!