use vstd::prelude::*;
use crate::assets::{file_extension, file_stem, split_file_name};
use crate::project::ProjectConfig;
use crate::text::{chars_of, str_eq, string_views};

verus! {

// ---------------------------------------------------------------------------------------
// Finding a project's entry file
// ---------------------------------------------------------------------------------------

/// Where the entry file of a project path is.
#[derive(Debug, Clone, Copy, PartialEq, Eq, Structural)]
pub enum EntryLocation {
    /// The path is itself a `.sch` source file.
    SourceFile,
    /// The path is a `project.schproj` file; the entry it names is relative to its directory.
    ProjectFile,
    /// The path is a directory with a `project.schproj` that names the entry.
    ProjectDirectory,
    /// The directory holds `src/main.sch`.
    SrcMain,
    /// The directory holds `main.sch`.
    DirectMain,
    /// No entry file is there.
    NotFound,
}

/// Where the entry is, from what the file system shows of the path: whether it is a file,
/// its file name, and whether `project.schproj`, `src/main.sch` and `main.sch` exist under
/// it. A source file comes first, then a project file, then the directory's files in that
/// order.
pub open spec fn spec_entry_location(
    is_file: bool,
    file_name: Seq<char>,
    has_project_file: bool,
    has_src_main: bool,
    has_direct_main: bool,
) -> EntryLocation {
    if is_file && file_extension(file_name) == "sch"@ {
        EntryLocation::SourceFile
    } else if is_file && file_name == "project.schproj"@ {
        EntryLocation::ProjectFile
    } else if has_project_file {
        EntryLocation::ProjectDirectory
    } else if has_src_main {
        EntryLocation::SrcMain
    } else if has_direct_main {
        EntryLocation::DirectMain
    } else {
        EntryLocation::NotFound
    }
}

/// Decides where a project path's entry file is (see `spec_entry_location`).
pub fn resolve_entry_file(
    is_file: bool,
    file_name: &str,
    has_project_file: bool,
    has_src_main: bool,
    has_direct_main: bool,
) -> (r: EntryLocation)
    ensures
        r == spec_entry_location(is_file, file_name@, has_project_file, has_src_main, has_direct_main),
{
    if is_file {
        let (_stem, ext) = split_file_name(file_name);
        if str_eq(ext.as_str(), "sch") {
            return EntryLocation::SourceFile;
        }
        if str_eq(file_name, "project.schproj") {
            return EntryLocation::ProjectFile;
        }
    }
    if has_project_file {
        EntryLocation::ProjectDirectory
    } else if has_src_main {
        EntryLocation::SrcMain
    } else if has_direct_main {
        EntryLocation::DirectMain
    } else {
        EntryLocation::NotFound
    }
}

/// The settings of a lone source file: named after the file's stem, with the file's path as
/// entry, and defaults otherwise.
pub fn source_file_config(path: &str, file_name: &str) -> (c: ProjectConfig)
    ensures
        c.name@ == file_stem(file_name@),
        c.entry@ == path@,
        c.resolution.width == 1280,
        c.resolution.height == 720,
        c.background@ == "white"@,
        c.ratio@ == "16:9"@,
{
    let (stem, _ext) = split_file_name(file_name);
    let mut c = ProjectConfig::default();
    c.name = stem;
    c.entry = String::from_str(path);
    c
}

// ---------------------------------------------------------------------------------------
// Scenes and assets of a project
// ---------------------------------------------------------------------------------------

/// The names among `names` whose extension is `scene`, in order.
pub open spec fn scene_files(names: Seq<Seq<char>>) -> Seq<Seq<char>>
    decreases names.len(),
{
    if names.len() == 0 {
        Seq::empty()
    } else {
        let rest = scene_files(names.drop_last());
        if file_extension(names.last()) == "scene"@ { rest.push(names.last()) } else { rest }
    }
}

/// The scene files among a directory's file names.
pub fn scene_file_names(names: &Vec<String>) -> (r: Vec<String>)
    ensures
        string_views(r@) == scene_files(string_views(names@)),
{
    let ghost all = string_views(names@);
    let mut r: Vec<String> = Vec::new();
    for i in 0..names.len()
        invariant
            all == string_views(names@),
            string_views(r@) == scene_files(all.take(i as int)),
    {
        let (_stem, ext) = split_file_name(names[i].as_str());
        let ghost before = string_views(r@);
        assert(all.take(i + 1).drop_last() =~= all.take(i as int));
        assert(all.take(i + 1).last() == names@[i as int]@);
        if str_eq(ext.as_str(), "scene") {
            r.push(names[i].clone());
            assert(string_views(r@) =~= before.push(names@[i as int]@));
        }
    }
    assert(all.take(names@.len() as int) =~= all);
    r
}

/// The file name of a new scene: the given name, with `.scene` added unless it ends so.
pub open spec fn spec_scene_file_name(name: Seq<char>) -> Seq<char> {
    if name.len() >= 6 && name.skip(name.len() - 6) == ".scene"@ { name } else { name + ".scene"@ }
}

/// A scene file name without every `.scene` at its end.
pub open spec fn spec_scene_stem(name: Seq<char>) -> Seq<char>
    decreases name.len(),
{
    if name.len() >= 6 && name.skip(name.len() - 6) == ".scene"@ {
        spec_scene_stem(name.take(name.len() - 6))
    } else {
        name
    }
}

fn ends_with_scene(cs: &Vec<char>, len: usize) -> (r: bool)
    requires
        len <= cs@.len(),
    ensures
        r == (len >= 6 && cs@.take(len as int).skip(len - 6) == ".scene"@),
{
    let suffix = chars_of(".scene");
    proof {
        reveal_strlit(".scene");
    }
    if len < 6 {
        return false;
    }
    let ghost t = cs@.take(len as int).skip(len - 6);
    for k in 0..6
        invariant
            len >= 6,
            len <= cs@.len(),
            suffix@ == ".scene"@,
            suffix@.len() == 6,
            t == cs@.take(len as int).skip(len - 6),
            forall|j: int| 0 <= j < k ==> t[j] == suffix@[j],
    {
        if cs[len - 6 + k] != suffix[k] {
            assert(t[k as int] != suffix@[k as int]);
            return false;
        }
    }
    assert(t =~= suffix@);
    true
}

/// The file name of a new scene (`.scene` added unless the name ends so).
pub fn scene_file_name(name: &str) -> (r: String)
    ensures
        r@ == spec_scene_file_name(name@),
{
    let cs = chars_of(name);
    let n = cs.len();
    let ends = ends_with_scene(&cs, n);
    assert(cs@.take(n as int) =~= cs@);
    if ends {
        String::from_str(name)
    } else {
        let mut r = String::from_str(name);
        r.append(".scene");
        r
    }
}

/// The name of a scene, from its file name: every `.scene` at the end is taken off.
pub fn scene_stem(file_name: &str) -> (r: String)
    ensures
        r@ == spec_scene_stem(file_name@),
{
    let cs = chars_of(file_name);
    let mut len = cs.len();
    assert(cs@.take(len as int) =~= cs@);
    while ends_with_scene(&cs, len)
        invariant
            len <= cs@.len(),
            spec_scene_stem(cs@.take(len as int)) == spec_scene_stem(file_name@),
            cs@ == file_name@,
        decreases len,
    {
        assert(cs@.take(len as int).take(len - 6) =~= cs@.take(len - 6));
        len = len - 6;
    }
    crate::text::string_of_range(&cs, 0, len)
}

/// The assets subdirectory an added file goes to: by the given type (`sound`, `music`,
/// `font`, plural forms too), else by the file's extension (sounds for wav, mp3 and ogg,
/// fonts for ttf and otf), else `sprites`.
pub open spec fn spec_asset_subfolder(asset_type: Option<Seq<char>>, extension: Seq<char>) -> Seq<char> {
    if asset_type == Some("sound"@) || asset_type == Some("sounds"@) {
        "sounds"@
    } else if asset_type == Some("music"@) {
        "music"@
    } else if asset_type == Some("font"@) || asset_type == Some("fonts"@) {
        "fonts"@
    } else if extension == "wav"@ || extension == "mp3"@ || extension == "ogg"@ {
        "sounds"@
    } else if extension == "ttf"@ || extension == "otf"@ {
        "fonts"@
    } else {
        "sprites"@
    }
}

/// The assets subdirectory an added file goes to.
pub fn asset_subfolder(asset_type: Option<&str>, extension: &str) -> (r: &'static str)
    ensures
        r@ == spec_asset_subfolder(
            match asset_type {
                Some(t) => Some(t@),
                None => None,
            },
            extension@,
        ),
{
    let chosen = match asset_type {
        Some(t) => {
            if str_eq(t, "sound") || str_eq(t, "sounds") {
                Some("sounds")
            } else if str_eq(t, "music") {
                Some("music")
            } else if str_eq(t, "font") || str_eq(t, "fonts") {
                Some("fonts")
            } else {
                None
            }
        },
        None => None,
    };
    match chosen {
        Some(s) => s,
        None => {
            if str_eq(extension, "wav") || str_eq(extension, "mp3") || str_eq(extension, "ogg") {
                "sounds"
            } else if str_eq(extension, "ttf") || str_eq(extension, "otf") {
                "fonts"
            } else {
                "sprites"
            }
        },
    }
}

} // verus!
