//! The source factory: the single place that inspects the shape of the
//! user's input string.  A string starting with the GitHub prefix is parsed
//! as a GitHub URL; anything else is taken as a local path, whose backend is
//! completed once the path has been probed.

use crate::github::{spec_parse_github, GitHubSource};
use crate::source::TextSourceError;
use crate::strutil::str_starts_with;
use vstd::prelude::*;

verus! {

/// The backend that an input string selects: a fully determined GitHub
/// source, or a local path that still needs its directory probe.
pub enum SourcePlan {
    GitHub(GitHubSource),
    FileSystem { path: String },
}

/// Decide which backend an input string selects.  A GitHub prefix makes the
/// string a GitHub URL, parsed and rejected as the URL grammar demands; any
/// other string names a local directory.
pub fn create_text_source(source: &str) -> (r: Result<SourcePlan, TextSourceError>)
    ensures
        !("https://github.com"@.is_prefix_of(source@)) ==> (r matches Ok(p) && p
            matches SourcePlan::FileSystem { path } && path@ == source@),
        "https://github.com"@.is_prefix_of(source@) ==> {
            match spec_parse_github(source@) {
                Some(t) => r matches Ok(p) && (p matches SourcePlan::GitHub(g) && g.owner@ == t.0
                    && g.repo@ == t.1 && g.branch@ == t.2 && g.subpath.deep_view() == t.3),
                None => r matches Err(e) && e is InvalidSource,
            }
        },
{
    if str_starts_with(source, "https://github.com") {
        match GitHubSource::parse_github_url(source) {
            Ok((owner, repo, branch, subpath)) => Ok(
                SourcePlan::GitHub(GitHubSource::new(owner, repo, branch, subpath)),
            ),
            Err(e) => Err(TextSourceError::InvalidSource),
        }
    } else {
        Ok(SourcePlan::FileSystem { path: source.to_owned() })
    }
}

} // verus!
