//! The filesystem backend: validating a root directory, filtering a
//! recursive listing into a file index, and turning the outcome of a file
//! read into content or an error.  All disk access happens outside this
//! module; its functions decide, from plain values, exactly what the backend
//! returns.

use crate::classifier::{spec_extension, spec_file_name, FilterConfig};
use crate::ignore::{spec_is_ignored, spec_parse_patterns, GitIgnoreRules};
use crate::source::{SourceFile, SourceType, TextSourceError};
use crate::strutil::{
    concat3, find_last, last_pos, lemma_last_pos, lemma_last_pos_at, utf8_to_string,
};
use vstd::prelude::*;
use vstd::utf8::{decode_utf8, valid_utf8};

verus! {

/// What a probe of the root path found.
pub enum DirProbe {
    Missing,
    NotDirectory,
    Unreadable,
    Readable,
}

/// What a read of one file found.
pub enum FileReadOutcome {
    Missing,
    PermissionDenied,
    IoError(String),
    Data(Vec<u8>),
}

/// A local-directory backend: its root path and the ignore ruleset loaded at
/// construction.
pub struct FileSystemSource {
    pub base_path: String,
    pub rules: GitIgnoreRules,
}

/// `base` and `rel` joined with a single separator.
pub open spec fn spec_join_path(base: Seq<char>, rel: Seq<char>) -> Seq<char> {
    if base.len() > 0 && base[base.len() - 1] == '/' {
        base + rel
    } else {
        base + "/"@ + rel
    }
}

/// The per-entry filter of the traversal: the entry's name must not start
/// with a dot nor end with a tilde, its relative path must not match the
/// ignore ruleset, and its extension, if any, must classify as text.
pub open spec fn fs_entry_ok(q: Seq<char>, rules: Seq<Seq<char>>, filter: FilterConfig) -> bool {
    let name = spec_file_name(q);
    &&& !(name.len() > 0 && name[0] == '.')
    &&& !(name.len() > 0 && name[name.len() - 1] == '~')
    &&& !spec_is_ignored(q, rules)
    &&& (spec_extension(q) matches Some(e) ==> filter.spec_is_text(e))
}

/// A file of the listing belongs in the index exactly when the entry filter
/// accepts the file itself and every ancestor directory on its path: the
/// traversal prunes a rejected directory together with everything under it.
pub open spec fn fs_included(p: Seq<char>, rules: Seq<Seq<char>>, filter: FilterConfig) -> bool {
    forall|i: int|
        0 < i <= p.len() && (i == p.len() || p[i] == '/') ==> fs_entry_ok(
            #[trigger] p.subrange(0, i),
            rules,
            filter,
        )
}

/// The relative paths of `listing` that the index keeps, in listing order.
pub open spec fn spec_fs_kept(
    listing: Seq<Seq<char>>,
    rules: Seq<Seq<char>>,
    filter: FilterConfig,
) -> Seq<Seq<char>>
    decreases listing.len(),
{
    if listing.len() == 0 {
        Seq::empty()
    } else {
        spec_fs_kept(listing.drop_last(), rules, filter) + (if fs_included(
            listing[listing.len() - 1],
            rules,
            filter,
        ) {
            seq![listing[listing.len() - 1]]
        } else {
            Seq::empty()
        })
    }
}

proof fn lemma_fs_kept_included(
    listing: Seq<Seq<char>>,
    rules: Seq<Seq<char>>,
    filter: FilterConfig,
)
    ensures
        forall|i: int|
            0 <= i < spec_fs_kept(listing, rules, filter).len() ==> fs_included(
                #[trigger] spec_fs_kept(listing, rules, filter)[i],
                rules,
                filter,
            ),
    decreases listing.len(),
{
    if listing.len() > 0 {
        lemma_fs_kept_included(listing.drop_last(), rules, filter);
        let rest = spec_fs_kept(listing.drop_last(), rules, filter);
        let whole = spec_fs_kept(listing, rules, filter);
        assert forall|i: int| 0 <= i < whole.len() implies fs_included(whole[i], rules, filter) by {
            if i < rest.len() {
                assert(whole[i] == rest[i]);
            } else {
                assert(whole[i] == listing[listing.len() - 1]);
            }
        }
    }
}

impl FileSystemSource {
    /// Build the backend from what a probe of `base_path` found and, when the
    /// root was readable, the text of its ignore file, if one was present.
    pub fn new(base_path: String, probe: DirProbe, ignore_content: Option<&str>) -> (r: Result<
        FileSystemSource,
        TextSourceError,
    >)
        ensures
            probe is Missing ==> (r matches Err(e) && e matches TextSourceError::PathNotFound(m)
                && m@ == base_path@),
            probe is NotDirectory ==> (r matches Err(e) && e is InvalidSource),
            probe is Unreadable ==> (r matches Err(e) && e
                matches TextSourceError::PermissionDenied(m) && m@ == base_path@),
            probe is Readable ==> (r matches Ok(s) && s.base_path@ == base_path@ && s.rules@
                == (match ignore_content {
                Some(c) => spec_parse_patterns(c@),
                None => Seq::<Seq<char>>::empty(),
            })),
    {
        match probe {
            DirProbe::Missing => Err(TextSourceError::PathNotFound(base_path)),
            DirProbe::NotDirectory => Err(TextSourceError::InvalidSource),
            DirProbe::Unreadable => Err(TextSourceError::PermissionDenied(base_path)),
            DirProbe::Readable => {
                let rules = match ignore_content {
                    Some(c) => GitIgnoreRules::from_content(c),
                    None => GitIgnoreRules::new(),
                };
                Ok(FileSystemSource { base_path, rules })
            },
        }
    }

    /// The absolute path of an indexed file.
    pub fn full_path(&self, rel: &str) -> (r: String)
        ensures
            r@ == spec_join_path(self.base_path@, rel@),
    {
        let n = self.base_path.unicode_len();
        if n > 0 && self.base_path.as_str().get_char(n - 1) == '/' {
            crate::strutil::concat2(self.base_path.as_str(), rel)
        } else {
            concat3(self.base_path.as_str(), "/", rel)
        }
    }

    /// Decide whether the relative path of one listed file, with all its
    /// ancestor directories, passes the traversal filter.
    pub fn path_included(&self, rel: &str, filter: &FilterConfig) -> (r: bool)
        ensures
            r == fs_included(rel@, self.rules@, *filter),
    {
        let n = rel.unicode_len();
        let mut i: usize = 0;
        while i < n
            invariant
                n == rel@.len(),
                i <= n,
                forall|j: int|
                    0 < j < i && rel@[j] == '/' ==> fs_entry_ok(
                        #[trigger] rel@.subrange(0, j),
                        self.rules@,
                        *filter,
                    ),
            decreases n - i,
        {
            let boundary = if i == 0 {
                false
            } else {
                rel.get_char(i) == '/'
            };
            if boundary {
                let prefix = rel.substring_char(0, i);
                if !self.entry_ok(prefix, filter) {
                    return false;
                }
            }
            i = i + 1;
        }
        if n > 0 {
            if !self.entry_ok(rel, filter) {
                proof {
                    assert(rel@.subrange(0, n as int) =~= rel@);
                }
                return false;
            }
        }
        proof {
            assert(rel@.subrange(0, n as int) =~= rel@);
        }
        true
    }

    /// The per-entry filter on one relative path.
    fn entry_ok(&self, q: &str, filter: &FilterConfig) -> (r: bool)
        ensures
            r == fs_entry_ok(q@, self.rules@, *filter),
    {
        proof {
            lemma_last_pos(q@, '/');
        }
        let n = q.unicode_len();
        let name_start: usize = match find_last(q, '/') {
            Some(i) => i + 1,
            None => 0,
        };
        if name_start < n {
            if q.get_char(name_start) == '.' {
                return false;
            }
            if q.get_char(n - 1) == '~' {
                return false;
            }
        }
        if self.rules.is_ignored(q) {
            return false;
        }
        if let Some(ext) = crate::classifier::get_extension(q) {
            if !filter.is_text_extension(ext) {
                return false;
            }
        }
        true
    }

    /// Filter a recursive listing of the root (relative paths of all files,
    /// in traversal order) into the file index.
    pub fn get_file_index(&self, filter: &FilterConfig, listing: &Vec<String>) -> (r: Vec<
        SourceFile,
    >)
        ensures
            ({
                let kept = spec_fs_kept(listing.deep_view(), self.rules@, *filter);
                &&& r@.len() == kept.len()
                &&& forall|i: int|
                    0 <= i < r@.len() ==> (#[trigger] r@[i].path@) == kept[i]
                        && (r@[i].source_type matches SourceType::FileSystem { base_path }
                        && base_path@ == self.base_path@)
            }),
            forall|i: int|
                0 <= i < r@.len() ==> fs_included(
                    (#[trigger] r@[i].path@),
                    self.rules@,
                    *filter,
                ),
    {
        let n = listing.len();
        let mut r: Vec<SourceFile> = Vec::new();
        let mut i: usize = 0;
        while i < n
            invariant
                n == listing@.len(),
                i <= n,
                ({
                    let kept = spec_fs_kept(
                        listing.deep_view().subrange(0, i as int),
                        self.rules@,
                        *filter,
                    );
                    &&& r@.len() == kept.len()
                    &&& forall|k: int|
                        0 <= k < r@.len() ==> (#[trigger] r@[k].path@) == kept[k]
                            && (r@[k].source_type matches SourceType::FileSystem { base_path }
                            && base_path@ == self.base_path@)
                }),
            decreases n - i,
        {
            let ghost pre = listing.deep_view().subrange(0, i as int);
            let rel = &listing[i];
            proof {
                assert(listing.deep_view().subrange(0, i + 1 as int).drop_last() =~= pre);
                assert(listing.deep_view().subrange(0, i + 1 as int)[i as int] == rel@);
            }
            if self.path_included(rel.as_str(), filter) {
                let sf = SourceFile {
                    path: rel.clone(),
                    source_type: SourceType::FileSystem { base_path: self.base_path.clone() },
                };
                r.push(sf);
            }
            i = i + 1;
        }
        proof {
            assert(listing.deep_view().subrange(0, n as int) =~= listing.deep_view());
            lemma_fs_kept_included(listing.deep_view(), self.rules@, *filter);
        }
        r
    }

    /// Turn the outcome of reading one indexed file into the content result:
    /// a file of another origin is rejected, a missing file and failed reads
    /// report their errors, and bytes must decode as UTF-8.
    pub fn get_file_content(&self, source_file: &SourceFile, read: FileReadOutcome) -> (r: Result<
        String,
        TextSourceError,
    >)
        ensures
            !(source_file.source_type matches SourceType::FileSystem { .. }) ==> (r matches Err(e)
                && e is InvalidSource),
            (source_file.source_type matches SourceType::FileSystem { .. }) ==> ({
                let full = spec_join_path(self.base_path@, source_file.path@);
                match read {
                    FileReadOutcome::Missing => r matches Err(e) && e
                        matches TextSourceError::PathNotFound(m) && m@ == full,
                    FileReadOutcome::PermissionDenied => r matches Err(e) && e
                        matches TextSourceError::PermissionDenied(m) && m@ == full,
                    FileReadOutcome::IoError(io) => r matches Err(e) && e
                        matches TextSourceError::IoError(m) && m@ == io@,
                    FileReadOutcome::Data(bytes) => {
                        if valid_utf8(bytes@) {
                            r matches Ok(s) && s@ == decode_utf8(bytes@)
                        } else {
                            r matches Err(e) && e matches TextSourceError::NotTextFile(m) && m@
                                == full
                        }
                    },
                }
            }),
    {
        match &source_file.source_type {
            SourceType::FileSystem { .. } => {
                let full = self.full_path(source_file.path.as_str());
                match read {
                    FileReadOutcome::Missing => Err(TextSourceError::PathNotFound(full)),
                    FileReadOutcome::PermissionDenied => Err(
                        TextSourceError::PermissionDenied(full),
                    ),
                    FileReadOutcome::IoError(io) => Err(TextSourceError::IoError(io)),
                    FileReadOutcome::Data(bytes) => match utf8_to_string(bytes) {
                        Some(s) => Ok(s),
                        None => Err(TextSourceError::NotTextFile(full)),
                    },
                }
            },
            _ => Err(TextSourceError::InvalidSource),
        }
    }
}

/// Law: the index never contains a path with a component that starts with a
/// dot or ends with a tilde.  `start` and `end` delimit any component of an
/// included path.
pub proof fn lemma_included_component_clean(
    p: Seq<char>,
    rules: Seq<Seq<char>>,
    filter: FilterConfig,
    start: int,
    end: int,
)
    requires
        fs_included(p, rules, filter),
        0 <= start < end <= p.len(),
        start == 0 || p[start - 1] == '/',
        end == p.len() || p[end] == '/',
        forall|j: int| start <= j < end ==> p[j] != '/',
    ensures
        p[start] != '.',
        p[end - 1] != '~',
{
    let q = p.subrange(0, end);
    assert(fs_entry_ok(q, rules, filter));
    assert forall|j: int| start - 1 < j < q.len() implies q[j] != '/' by {
        assert(q[j] == p[j]);
    }
    if start > 0 {
        assert(q[start - 1] == '/');
        lemma_last_pos_at(q, '/', start - 1);
    } else {
        crate::strutil::lemma_last_pos(q, '/');
        if last_pos(q, '/') >= 0 {
            assert(q[last_pos(q, '/')] == '/');
            assert(false);
        }
    }
    assert(last_pos(q, '/') == start - 1);
    let name = spec_file_name(q);
    assert(name =~= p.subrange(start, end));
    assert(name[0] == p[start]);
    assert(name[name.len() - 1] == p[end - 1]);
}

} // verus!
