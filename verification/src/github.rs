//! The GitHub backend: URL parsing into (owner, repository, branch,
//! subpath), derivation of the file index from the repository-tree listing,
//! and the mapping of HTTP responses to content or errors.  The HTTP round
//! trips themselves happen outside this module; its functions decide, from
//! plain values, exactly what the backend returns.

use crate::classifier::{spec_extension, FilterConfig};
use crate::source::{SourceFile, SourceType, TextSourceError};
use crate::strutil::{
    concat2, join_slash, spec_digits, spec_join_slash, spec_trim_slashes, str_eq, str_ends_with,
    str_starts_with, substring_copy, trim_slashes, u64_to_string,
};
use vstd::prelude::*;
use vstd::utf8::{decode_utf8, valid_utf8};

verus! {

/// The decomposition of an absolute URL: scheme, host (when one exists) and
/// path segments (when the URL can be a base).
pub struct UrlParts {
    pub scheme: String,
    pub host: Option<String>,
    pub segments: Option<Vec<String>>,
}

/// The decomposition that URL parsing gives to a string, or `None` when the
/// string is not an absolute URL.
pub uninterp spec fn url_parts_of(s: Seq<char>) -> Option<
    (Seq<char>, Option<Seq<char>>, Option<Seq<Seq<char>>>),
>;

/// The spec-level value of a decomposition.
pub open spec fn spec_url_parts(p: UrlParts) -> (Seq<char>, Option<Seq<char>>, Option<
    Seq<Seq<char>>,
>) {
    (p.scheme@, p.host.deep_view(), p.segments.deep_view())
}

/// Relies on `url::Url::parse` and the accessors `scheme`, `host_str` and
/// `path_segments`: the decomposition of an absolute URL string is a
/// function of the string alone.
#[verifier::external_body]
fn split_url(s: &str) -> (r: Option<UrlParts>)
    ensures
        r is Some <==> url_parts_of(s@) is Some,
        r matches Some(p) ==> Some(spec_url_parts(p)) == url_parts_of(s@),
{
    match url::Url::parse(s) {
        Ok(u) => Some(
            UrlParts {
                scheme: u.scheme().to_string(),
                host: u.host_str().map(|h| h.to_string()),
                segments: u.path_segments().map(|it| it.map(|x| x.to_string()).collect()),
            },
        ),
        Err(_) => None,
    }
}

/// `r` with every trailing `.git` removed.
pub open spec fn spec_strip_git(r: Seq<char>) -> Seq<char>
    decreases r.len(),
{
    if r.len() >= 4 && ".git"@.is_suffix_of(r) {
        spec_strip_git(r.subrange(0, r.len() - 4))
    } else {
        r
    }
}

/// Strip every trailing `.git` from a repository segment.
fn strip_git(s: &str) -> (r: String)
    ensures
        r@ == spec_strip_git(s@),
    decreases s@.len(),
{
    let n = s.unicode_len();
    if n >= 4 && str_ends_with(s, ".git") {
        let shorter = s.substring_char(0, n - 4);
        strip_git(shorter)
    } else {
        s.to_owned()
    }
}

/// What `parse_github_url` accepts and yields: an `https` URL on host
/// `github.com` with at least an owner and a repository segment; a `tree`
/// segment selects a branch and an optional subpath, and the branch defaults
/// to `main`.
pub open spec fn spec_parse_github(u: Seq<char>) -> Option<
    (Seq<char>, Seq<char>, Seq<char>, Option<Seq<char>>),
> {
    match url_parts_of(u) {
        None => None,
        Some((scheme, host, segs)) => {
            if scheme != "https"@ || host != Some("github.com"@) {
                None
            } else {
                match segs {
                    None => None,
                    Some(sv) => {
                        if sv.len() < 2 {
                            None
                        } else {
                            let owner = sv[0];
                            let repo = spec_strip_git(sv[1]);
                            if sv.len() >= 4 && sv[2] == "tree"@ {
                                let sub = if sv.len() > 4 {
                                    Some(spec_join_slash(sv.subrange(4, sv.len() as int)))
                                } else {
                                    None
                                };
                                Some((owner, repo, sv[3], sub))
                            } else {
                                Some((owner, repo, "main"@, None))
                            }
                        }
                    },
                }
            }
        },
    }
}

/// A remote-repository backend: its coordinates and the optional subpath
/// that the index is restricted to.
pub struct GitHubSource {
    pub owner: String,
    pub repo: String,
    pub branch: String,
    pub subpath: Option<String>,
}

/// One entry of the repository-tree listing: its path in the repository and
/// its entry type (`blob` for a file).
pub struct TreeEntry {
    pub path: String,
    pub entry_type: String,
}

/// The path of a tree entry relative to the configured subpath: the subpath
/// prefix and the slashes after it removed.
pub open spec fn spec_github_rel(p: Seq<char>, subpath: Option<Seq<char>>) -> Seq<char> {
    match subpath {
        None => p,
        Some(sp) => if sp.is_prefix_of(p) {
            spec_trim_slashes(p.subrange(sp.len() as int, p.len() as int))
        } else {
            p
        },
    }
}

/// Whether the index keeps a tree entry: it must be a blob, lie under the
/// configured subpath, and its relative path must have a text extension or
/// none.  Ignore-file rules do not apply to the remote backend.
pub open spec fn github_keeps(
    e: TreeEntry,
    subpath: Option<Seq<char>>,
    filter: FilterConfig,
) -> bool {
    &&& e.entry_type@ == "blob"@
    &&& (subpath matches Some(sp) ==> sp.is_prefix_of(e.path@))
    &&& (spec_extension(spec_github_rel(e.path@, subpath)) matches Some(x)
        ==> filter.spec_is_text(x))
}

/// The relative paths the index keeps from the tree listing, in order.
pub open spec fn spec_github_kept(
    entries: Seq<TreeEntry>,
    subpath: Option<Seq<char>>,
    filter: FilterConfig,
) -> Seq<Seq<char>>
    decreases entries.len(),
{
    if entries.len() == 0 {
        Seq::empty()
    } else {
        spec_github_kept(entries.drop_last(), subpath, filter) + (if github_keeps(
            entries[entries.len() - 1],
            subpath,
            filter,
        ) {
            seq![spec_github_rel(entries[entries.len() - 1].path@, subpath)]
        } else {
            Seq::empty()
        })
    }
}

impl GitHubSource {
    pub fn new(owner: String, repo: String, branch: String, subpath: Option<String>) -> (r:
        GitHubSource)
        ensures
            r.owner@ == owner@,
            r.repo@ == repo@,
            r.branch@ == branch@,
            r.subpath.deep_view() == subpath.deep_view(),
    {
        GitHubSource { owner, repo, branch, subpath }
    }

    /// Parse a GitHub URL into (owner, repository, branch, subpath).  Only
    /// `https://github.com/<owner>/<repo>`, optionally followed by
    /// `/tree/<branch>/<subpath...>`, is accepted; anything else is an
    /// invalid source.
    pub fn parse_github_url(url: &str) -> (r: Result<
        (String, String, String, Option<String>),
        TextSourceError,
    >)
        ensures
            r is Ok <==> spec_parse_github(url@) is Some,
            r matches Ok(t) ==> (spec_parse_github(url@) matches Some(s) && t.0@ == s.0 && t.1@
                == s.1 && t.2@ == s.2 && t.3.deep_view() == s.3),
            r matches Err(e) ==> e is InvalidSource,
    {
        let parts = match split_url(url) {
            Some(p) => p,
            None => {
                return Err(TextSourceError::InvalidSource);
            },
        };
        if !str_eq(parts.scheme.as_str(), "https") {
            return Err(TextSourceError::InvalidSource);
        }
        let host_ok = match &parts.host {
            Some(h) => str_eq(h.as_str(), "github.com"),
            None => false,
        };
        if !host_ok {
            return Err(TextSourceError::InvalidSource);
        }
        let segs = match parts.segments {
            Some(v) => v,
            None => {
                return Err(TextSourceError::InvalidSource);
            },
        };
        if segs.len() < 2 {
            return Err(TextSourceError::InvalidSource);
        }
        let owner = segs[0].clone();
        let repo = strip_git(segs[1].as_str());
        if segs.len() >= 4 && str_eq(segs[2].as_str(), "tree") {
            let branch = segs[3].clone();
            let subpath: Option<String> = if segs.len() > 4 {
                Some(join_slash(&segs, 4))
            } else {
                None
            };
            Ok((owner, repo, branch, subpath))
        } else {
            Ok((owner, repo, String::from_str("main"), None))
        }
    }

    /// The tree-listing endpoint for this source.
    pub fn tree_url(&self) -> (r: String)
        ensures
            r@ == "https://api.github.com/repos/"@ + self.owner@ + "/"@ + self.repo@
                + "/git/trees/"@ + self.branch@ + "?recursive=1"@,
    {
        let mut r = String::from_str("https://api.github.com/repos/");
        r.append(self.owner.as_str());
        r.append("/");
        r.append(self.repo.as_str());
        r.append("/git/trees/");
        r.append(self.branch.as_str());
        r.append("?recursive=1");
        r
    }

    /// Map the status of a tree-listing response: success lets the caller
    /// parse the body, 403 is the rate limit, 404 a missing repository, and
    /// any other failure carries the body text.
    pub fn classify_tree_status(status: u16, body: String) -> (r: Result<(), TextSourceError>)
        ensures
            200 <= status < 300 ==> r is Ok,
            !(200 <= status < 300) && status == 403 ==> (r matches Err(e) && e
                is RateLimitExceeded),
            !(200 <= status < 300) && status == 404 ==> (r matches Err(e) && e is RepoNotFound),
            !(200 <= status < 300) && status != 403 && status != 404 ==> (r matches Err(e) && e
                matches TextSourceError::GitHubError(m) && m@ == body@),
    {
        if 200 <= status && status < 300 {
            Ok(())
        } else if status == 403 {
            Err(TextSourceError::RateLimitExceeded)
        } else if status == 404 {
            Err(TextSourceError::RepoNotFound)
        } else {
            Err(TextSourceError::GitHubError(body))
        }
    }

    /// The relative path of one tree entry under the configured subpath.
    fn rel_path_of(&self, p: &str) -> (r: String)
        ensures
            r@ == spec_github_rel(p@, self.subpath.deep_view()),
    {
        match &self.subpath {
            None => p.to_owned(),
            Some(sp) => {
                if str_starts_with(p, sp.as_str()) {
                    let rest = p.substring_char(sp.unicode_len(), p.unicode_len());
                    trim_slashes(rest)
                } else {
                    p.to_owned()
                }
            },
        }
    }

    /// Whether the index keeps one tree entry.
    fn keeps(&self, e: &TreeEntry, filter: &FilterConfig) -> (r: bool)
        ensures
            r == github_keeps(*e, self.subpath.deep_view(), *filter),
    {
        if !str_eq(e.entry_type.as_str(), "blob") {
            return false;
        }
        let under = match &self.subpath {
            None => true,
            Some(sp) => str_starts_with(e.path.as_str(), sp.as_str()),
        };
        if !under {
            return false;
        }
        let rel = self.rel_path_of(e.path.as_str());
        if let Some(ext) = crate::classifier::get_extension(rel.as_str()) {
            if !filter.is_text_extension(ext) {
                return false;
            }
        }
        true
    }

    /// Filter the repository-tree listing into the file index: blobs under
    /// the subpath, rewritten relative to it, with binary extensions
    /// dropped.
    pub fn get_file_index(&self, filter: &FilterConfig, tree: &Vec<TreeEntry>) -> (r: Vec<
        SourceFile,
    >)
        ensures
            ({
                let kept = spec_github_kept(tree@, self.subpath.deep_view(), *filter);
                &&& r@.len() == kept.len()
                &&& forall|i: int|
                    0 <= i < r@.len() ==> (#[trigger] r@[i].path@) == kept[i]
                        && (r@[i].source_type matches SourceType::GitHub { owner, repo, branch }
                        && owner@ == self.owner@ && repo@ == self.repo@ && branch@
                        == self.branch@)
            }),
    {
        let n = tree.len();
        let mut r: Vec<SourceFile> = Vec::new();
        let mut i: usize = 0;
        while i < n
            invariant
                n == tree@.len(),
                i <= n,
                ({
                    let kept = spec_github_kept(
                        tree@.subrange(0, i as int),
                        self.subpath.deep_view(),
                        *filter,
                    );
                    &&& r@.len() == kept.len()
                    &&& forall|k: int|
                        0 <= k < r@.len() ==> (#[trigger] r@[k].path@) == kept[k]
                            && (r@[k].source_type matches SourceType::GitHub {
                                owner,
                                repo,
                                branch,
                            } && owner@ == self.owner@ && repo@ == self.repo@ && branch@
                            == self.branch@)
                }),
            decreases n - i,
        {
            proof {
                assert(tree@.subrange(0, i + 1 as int).drop_last() =~= tree@.subrange(
                    0,
                    i as int,
                ));
                assert(tree@.subrange(0, i + 1 as int)[i as int] == tree@[i as int]);
            }
            let e = &tree[i];
            if self.keeps(e, filter) {
                let rel = self.rel_path_of(e.path.as_str());
                let sf = SourceFile {
                    path: rel,
                    source_type: SourceType::GitHub {
                        owner: self.owner.clone(),
                        repo: self.repo.clone(),
                        branch: self.branch.clone(),
                    },
                };
                r.push(sf);
            }
            i = i + 1;
        }
        proof {
            assert(tree@.subrange(0, n as int) =~= tree@);
        }
        r
    }

    /// The repository path of an indexed file: the configured subpath put
    /// back in front.
    pub open spec fn spec_content_path(&self, rel: Seq<char>) -> Seq<char> {
        match self.subpath.deep_view() {
            Some(sp) => sp + "/"@ + rel,
            None => rel,
        }
    }

    /// The raw-content endpoint for one indexed file, rejected when the
    /// file's origin is not a GitHub origin.
    pub fn raw_content_url(&self, source_file: &SourceFile) -> (r: Result<String, TextSourceError>)
        ensures
            (source_file.source_type matches SourceType::GitHub { owner, repo, branch } ==> (r
                matches Ok(u) && u@ == "https://raw.githubusercontent.com/"@ + owner@ + "/"@
                + repo@ + "/"@ + branch@ + "/"@ + self.spec_content_path(source_file.path@))),
            !(source_file.source_type matches SourceType::GitHub { .. }) ==> (r matches Err(e)
                && e is InvalidSource),
    {
        match &source_file.source_type {
            SourceType::GitHub { owner, repo, branch } => {
                let mut u = String::from_str("https://raw.githubusercontent.com/");
                u.append(owner.as_str());
                u.append("/");
                u.append(repo.as_str());
                u.append("/");
                u.append(branch.as_str());
                u.append("/");
                match &self.subpath {
                    Some(sp) => {
                        u.append(sp.as_str());
                        u.append("/");
                        u.append(source_file.path.as_str());
                    },
                    None => {
                        u.append(source_file.path.as_str());
                    },
                }
                Ok(u)
            },
            _ => Err(TextSourceError::InvalidSource),
        }
    }

    /// Turn the raw-content response for one indexed file into the content
    /// result: success must decode as UTF-8, 404 is a missing path, 403 the
    /// rate limit, and any other failure carries the status number.
    pub fn get_file_content(&self, source_file: &SourceFile, status: u16, bytes: Vec<u8>) -> (r:
        Result<String, TextSourceError>)
        ensures
            !(source_file.source_type matches SourceType::GitHub { .. }) ==> (r matches Err(e)
                && e is InvalidSource),
            (source_file.source_type matches SourceType::GitHub { .. }) ==> {
                if 200 <= status < 300 {
                    if valid_utf8(bytes@) {
                        r matches Ok(s) && s@ == decode_utf8(bytes@)
                    } else {
                        r matches Err(e) && e matches TextSourceError::NotTextFile(m) && m@
                            == self.spec_content_path(source_file.path@)
                    }
                } else if status == 404 {
                    r matches Err(e) && e matches TextSourceError::PathNotFound(m) && m@
                        == source_file.path@
                } else if status == 403 {
                    r matches Err(e) && e is RateLimitExceeded
                } else {
                    r matches Err(e) && e matches TextSourceError::GitHubError(m) && m@
                        == spec_digits(status as nat)
                }
            },
    {
        match &source_file.source_type {
            SourceType::GitHub { .. } => {
                if 200 <= status && status < 300 {
                    let file_path = match &self.subpath {
                        Some(sp) => {
                            let mut p = String::from_str(sp.as_str());
                            p.append("/");
                            p.append(source_file.path.as_str());
                            p
                        },
                        None => source_file.path.clone(),
                    };
                    match crate::strutil::utf8_to_string(bytes) {
                        Some(s) => Ok(s),
                        None => Err(TextSourceError::NotTextFile(file_path)),
                    }
                } else if status == 404 {
                    Err(TextSourceError::PathNotFound(source_file.path.clone()))
                } else if status == 403 {
                    Err(TextSourceError::RateLimitExceeded)
                } else {
                    Err(TextSourceError::GitHubError(u64_to_string(status as u64)))
                }
            },
            _ => Err(TextSourceError::InvalidSource),
        }
    }
}

} // verus!
