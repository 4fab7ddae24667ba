//! Extension-based text/binary classification: the built-in binary table,
//! the per-session filter configuration, and the path inclusion test used by
//! the filesystem index.

use crate::sets::StringSet;
use crate::strutil::{
    find_last, last_pos, lemma_last_pos, spec_lower, str_eq, substring_copy, to_ascii_lowercase,
};
use vstd::prelude::*;

verus! {

/// The fixed table of extensions that are always treated as binary unless a
/// per-session override names them: executables, archives, images, audio,
/// video, office documents, database files, fonts, and bytecode or package
/// formats.
pub open spec fn builtin_binary_ext(e: Seq<char>) -> bool {
    // executables and libraries
    ||| e == "exe"@
    ||| e == "dll"@
    ||| e == "so"@
    ||| e == "dylib"@
    ||| e == "bin"@
    ||| e == "app"@
    ||| e == "msi"@
    ||| e == "sys"@
    ||| e == "com"@
    ||| e == "o"@
    ||| e == "obj"@
    ||| e == "class"@
    // archives
    ||| e == "zip"@
    ||| e == "rar"@
    ||| e == "7z"@
    ||| e == "tar"@
    ||| e == "gz"@
    ||| e == "bz2"@
    ||| e == "xz"@
    ||| e == "iso"@
    ||| e == "dmg"@
    ||| e == "img"@
    ||| e == "tgz"@
    // images
    ||| e == "jpg"@
    ||| e == "jpeg"@
    ||| e == "png"@
    ||| e == "gif"@
    ||| e == "bmp"@
    ||| e == "tiff"@
    ||| e == "webp"@
    ||| e == "ico"@
    ||| e == "svg"@
    ||| e == "eps"@
    ||| e == "raw"@
    ||| e == "cr2"@
    ||| e == "nef"@
    ||| e == "heic"@
    // audio
    ||| e == "mp3"@
    ||| e == "wav"@
    ||| e == "ogg"@
    ||| e == "flac"@
    ||| e == "m4a"@
    ||| e == "wma"@
    ||| e == "aac"@
    ||| e == "mid"@
    ||| e == "midi"@
    ||| e == "aiff"@
    // video
    ||| e == "mp4"@
    ||| e == "avi"@
    ||| e == "mkv"@
    ||| e == "mov"@
    ||| e == "wmv"@
    ||| e == "flv"@
    ||| e == "webm"@
    ||| e == "m4v"@
    ||| e == "mpg"@
    ||| e == "mpeg"@
    ||| e == "3gp"@
    // documents
    ||| e == "pdf"@
    ||| e == "doc"@
    ||| e == "docx"@
    ||| e == "xls"@
    ||| e == "xlsx"@
    ||| e == "ppt"@
    ||| e == "pptx"@
    ||| e == "pages"@
    ||| e == "numbers"@
    ||| e == "key"@
    ||| e == "indd"@
    ||| e == "psd"@
    ||| e == "ai"@
    // databases
    ||| e == "db"@
    ||| e == "sqlite"@
    ||| e == "mdb"@
    ||| e == "accdb"@
    ||| e == "dbf"@
    ||| e == "dat"@
    ||| e == "mdf"@
    ||| e == "sdf"@
    // fonts
    ||| e == "ttf"@
    ||| e == "otf"@
    ||| e == "woff"@
    ||| e == "woff2"@
    ||| e == "eot"@
    // bytecode and packages
    ||| e == "pyc"@
    ||| e == "pyo"@
    ||| e == "pyd"@
    ||| e == "jar"@
    ||| e == "war"@
    ||| e == "deb"@
    ||| e == "rpm"@
    ||| e == "lib"@
    ||| e == "a"@
    ||| e == "pak"@
    ||| e == "cache"@
    ||| e == "idx"@
    ||| e == "mo"@
    ||| e == "gmo"@
    ||| e == "pdb"@
}

/// Membership in the built-in binary table.
pub fn is_builtin_binary_ext(e: &str) -> (r: bool)
    ensures
        r == builtin_binary_ext(e@),
{
    false
    // executables and libraries
    || str_eq(e, "exe")
    || str_eq(e, "dll")
    || str_eq(e, "so")
    || str_eq(e, "dylib")
    || str_eq(e, "bin")
    || str_eq(e, "app")
    || str_eq(e, "msi")
    || str_eq(e, "sys")
    || str_eq(e, "com")
    || str_eq(e, "o")
    || str_eq(e, "obj")
    || str_eq(e, "class")
    // archives
    || str_eq(e, "zip")
    || str_eq(e, "rar")
    || str_eq(e, "7z")
    || str_eq(e, "tar")
    || str_eq(e, "gz")
    || str_eq(e, "bz2")
    || str_eq(e, "xz")
    || str_eq(e, "iso")
    || str_eq(e, "dmg")
    || str_eq(e, "img")
    || str_eq(e, "tgz")
    // images
    || str_eq(e, "jpg")
    || str_eq(e, "jpeg")
    || str_eq(e, "png")
    || str_eq(e, "gif")
    || str_eq(e, "bmp")
    || str_eq(e, "tiff")
    || str_eq(e, "webp")
    || str_eq(e, "ico")
    || str_eq(e, "svg")
    || str_eq(e, "eps")
    || str_eq(e, "raw")
    || str_eq(e, "cr2")
    || str_eq(e, "nef")
    || str_eq(e, "heic")
    // audio
    || str_eq(e, "mp3")
    || str_eq(e, "wav")
    || str_eq(e, "ogg")
    || str_eq(e, "flac")
    || str_eq(e, "m4a")
    || str_eq(e, "wma")
    || str_eq(e, "aac")
    || str_eq(e, "mid")
    || str_eq(e, "midi")
    || str_eq(e, "aiff")
    // video
    || str_eq(e, "mp4")
    || str_eq(e, "avi")
    || str_eq(e, "mkv")
    || str_eq(e, "mov")
    || str_eq(e, "wmv")
    || str_eq(e, "flv")
    || str_eq(e, "webm")
    || str_eq(e, "m4v")
    || str_eq(e, "mpg")
    || str_eq(e, "mpeg")
    || str_eq(e, "3gp")
    // documents
    || str_eq(e, "pdf")
    || str_eq(e, "doc")
    || str_eq(e, "docx")
    || str_eq(e, "xls")
    || str_eq(e, "xlsx")
    || str_eq(e, "ppt")
    || str_eq(e, "pptx")
    || str_eq(e, "pages")
    || str_eq(e, "numbers")
    || str_eq(e, "key")
    || str_eq(e, "indd")
    || str_eq(e, "psd")
    || str_eq(e, "ai")
    // databases
    || str_eq(e, "db")
    || str_eq(e, "sqlite")
    || str_eq(e, "mdb")
    || str_eq(e, "accdb")
    || str_eq(e, "dbf")
    || str_eq(e, "dat")
    || str_eq(e, "mdf")
    || str_eq(e, "sdf")
    // fonts
    || str_eq(e, "ttf")
    || str_eq(e, "otf")
    || str_eq(e, "woff")
    || str_eq(e, "woff2")
    || str_eq(e, "eot")
    // bytecode and packages
    || str_eq(e, "pyc")
    || str_eq(e, "pyo")
    || str_eq(e, "pyd")
    || str_eq(e, "jar")
    || str_eq(e, "war")
    || str_eq(e, "deb")
    || str_eq(e, "rpm")
    || str_eq(e, "lib")
    || str_eq(e, "a")
    || str_eq(e, "pak")
    || str_eq(e, "cache")
    || str_eq(e, "idx")
    || str_eq(e, "mo")
    || str_eq(e, "gmo")
    || str_eq(e, "pdb")
}

/// Which files count as text: per-session extension overrides around the
/// built-in table, and whether dot-prefixed paths are shown.
pub struct FilterConfig {
    pub show_hidden: bool,
    pub additional_text_extensions: StringSet,
    pub additional_binary_extensions: StringSet,
}

impl FilterConfig {
    /// The classification policy: an extra binary override wins, then an
    /// extra text override, then the built-in table decides.
    pub open spec fn spec_is_text(self, e: Seq<char>) -> bool {
        if self.additional_binary_extensions@.contains(e) {
            false
        } else if self.additional_text_extensions@.contains(e) {
            true
        } else {
            !builtin_binary_ext(e)
        }
    }

    pub fn new() -> (r: FilterConfig)
        ensures
            r.show_hidden == false,
            r.additional_text_extensions@ == Set::<Seq<char>>::empty(),
            r.additional_binary_extensions@ == Set::<Seq<char>>::empty(),
    {
        FilterConfig {
            show_hidden: false,
            additional_text_extensions: StringSet::new(),
            additional_binary_extensions: StringSet::new(),
        }
    }

    pub fn with_show_hidden(self, show_hidden: bool) -> (r: FilterConfig)
        ensures
            r.show_hidden == show_hidden,
            r.additional_text_extensions@ == self.additional_text_extensions@,
            r.additional_binary_extensions@ == self.additional_binary_extensions@,
    {
        FilterConfig { show_hidden, ..self }
    }

    /// Decide whether files with extension `ext` (already lower-cased) are
    /// text under this configuration.
    pub fn is_text_extension(&self, ext: String) -> (r: bool)
        ensures
            r == self.spec_is_text(ext@),
    {
        if self.additional_binary_extensions.contains(ext.as_str()) {
            return false;
        }
        if self.additional_text_extensions.contains(ext.as_str()) {
            return true;
        }
        !is_builtin_binary_ext(ext.as_str())
    }
}

impl Default for FilterConfig {
    fn default() -> (r: FilterConfig)
        ensures
            r.show_hidden == false,
            r.additional_text_extensions@ == Set::<Seq<char>>::empty(),
            r.additional_binary_extensions@ == Set::<Seq<char>>::empty(),
    {
        FilterConfig::new()
    }
}

/// Law: every extension of the built-in binary table is classified binary
/// when no per-session override is set.
pub proof fn lemma_builtin_binary_is_not_text(e: Seq<char>, c: FilterConfig)
    requires
        builtin_binary_ext(e),
        c.additional_text_extensions@ == Set::<Seq<char>>::empty(),
        c.additional_binary_extensions@ == Set::<Seq<char>>::empty(),
    ensures
        !c.spec_is_text(e),
{
}

/// Law: an extra text extension is classified text whatever the built-in
/// table says, except when the extra binary set also names it: the binary
/// override wins.
pub proof fn lemma_text_override(e: Seq<char>, c: FilterConfig)
    requires
        c.additional_text_extensions@.contains(e),
    ensures
        c.spec_is_text(e) <==> !c.additional_binary_extensions@.contains(e),
{
}

/// The file name of a path: everything after the last slash.
pub open spec fn spec_file_name(p: Seq<char>) -> Seq<char> {
    p.subrange(last_pos(p, '/') + 1, p.len() as int)
}

/// The extension of a path, not yet lower-cased: the part of the file name
/// after its last dot.  A name with no dot, or with its only dot in front,
/// has none.
pub open spec fn spec_raw_extension(p: Seq<char>) -> Option<Seq<char>> {
    let name = spec_file_name(p);
    let d = last_pos(name, '.');
    if d <= 0 {
        None
    } else {
        Some(name.subrange(d + 1, name.len() as int))
    }
}

/// The extension of a path, lower-cased (ASCII folding), as the classifier
/// sees it.
pub open spec fn spec_extension(p: Seq<char>) -> Option<Seq<char>> {
    match spec_raw_extension(p) {
        Some(e) => Some(spec_lower(e)),
        None => None,
    }
}

/// The lower-cased extension of `path_str`, when it has one.
pub fn get_extension(path_str: &str) -> (r: Option<String>)
    ensures
        r is Some <==> spec_extension(path_str@) is Some,
        r matches Some(e) ==> Some(e@) == spec_extension(path_str@),
{
    proof {
        lemma_last_pos(path_str@, '/');
    }
    let n = path_str.unicode_len();
    let name_start: usize = match find_last(path_str, '/') {
        Some(i) => i + 1,
        None => 0,
    };
    let name = path_str.substring_char(name_start, n);
    proof {
        assert(name@ == spec_file_name(path_str@));
        lemma_last_pos(name@, '.');
    }
    match find_last(name, '.') {
        None => None,
        Some(d) => {
            if d == 0 {
                None
            } else {
                Some(to_ascii_lowercase(name.substring_char(d + 1, name.unicode_len())))
            }
        },
    }
}

/// True when some path component begins with a dot.
pub open spec fn has_hidden_component(p: Seq<char>) -> bool {
    exists|i: int| 0 <= i < p.len() && #[trigger] p[i] == '.' && (i == 0 || p[i - 1] == '/')
}

/// Scan for a dot-prefixed path component.
pub fn path_has_hidden_component(p: &str) -> (r: bool)
    ensures
        r == has_hidden_component(p@),
{
    let n = p.unicode_len();
    let mut i: usize = 0;
    while i < n
        invariant
            n == p@.len(),
            i <= n,
            forall|j: int| 0 <= j < i ==> !(#[trigger] p@[j] == '.' && (j == 0 || p@[j - 1] == '/')),
        decreases n - i,
    {
        if p.get_char(i) == '.' {
            if i == 0 {
                return true;
            }
            if p.get_char(i - 1) == '/' {
                return true;
            }
        }
        i = i + 1;
    }
    false
}

/// The path filter of the index: no backup suffix, a text extension (or
/// none), and, unless hidden files are shown, no dot-prefixed component.
pub open spec fn spec_should_include(p: Seq<char>, filter: FilterConfig) -> bool {
    &&& !(p.len() > 0 && p[p.len() - 1] == '~')
    &&& (spec_extension(p) matches Some(e) ==> filter.spec_is_text(e))
    &&& (!filter.show_hidden ==> !has_hidden_component(p))
}

/// Decide whether the relative path `path` belongs in an index under
/// `filter`.
pub fn should_include_path(path: &str, filter: &FilterConfig) -> (r: bool)
    ensures
        r == spec_should_include(path@, *filter),
{
    let n = path.unicode_len();
    if n > 0 && path.get_char(n - 1) == '~' {
        return false;
    }
    if let Some(ext) = get_extension(path) {
        if !filter.is_text_extension(ext) {
            return false;
        }
    }
    if !filter.show_hidden {
        if path_has_hidden_component(path) {
            return false;
        }
    }
    true
}

} // verus!
