//! The shared data model of the pipeline: a file of an index, the origin it
//! was produced by, and the error kinds that source operations report.

use crate::strutil::concat2;
use vstd::prelude::*;

verus! {

/// The origin of an indexed file.  A file produced by one backend must not
/// be fetched through a backend of the other kind.
#[derive(Debug, Clone)]
pub enum SourceType {
    FileSystem { base_path: String },
    GitHub { owner: String, repo: String, branch: String },
}

/// One entry of a file index: a relative path (posix-style, no leading
/// slash) plus the origin that produced it.
#[derive(Debug, Clone)]
pub struct SourceFile {
    pub path: String,
    pub source_type: SourceType,
}

/// The error kinds of source construction, indexing, content fetch and URL
/// parsing.  Errors of the platform and of the HTTP transport are carried as
/// their rendered messages.
#[derive(Debug, Clone)]
pub enum TextSourceError {
    InvalidSource,
    IoError(String),
    GitHubError(String),
    NetworkError(String),
    PathNotFound(String),
    PermissionDenied(String),
    RateLimitExceeded,
    RepoNotFound,
    NotTextFile(String),
}

impl TextSourceError {
    /// The message a user sees for this error.
    pub open spec fn spec_message(&self) -> Seq<char> {
        match self {
            TextSourceError::InvalidSource => "Invalid source path or URL"@,
            TextSourceError::IoError(m) => "IO error: "@ + m@,
            TextSourceError::GitHubError(m) => "GitHub API error: "@ + m@,
            TextSourceError::NetworkError(m) => "Network error: "@ + m@,
            TextSourceError::PathNotFound(m) => "Path not found: "@ + m@,
            TextSourceError::PermissionDenied(m) => "Permission denied: "@ + m@,
            TextSourceError::RateLimitExceeded => "GitHub rate limit exceeded"@,
            TextSourceError::RepoNotFound => "GitHub repository not found"@,
            TextSourceError::NotTextFile(m) => "File is not valid UTF-8 text: "@ + m@,
        }
    }

    /// Render the error as text.
    pub fn message(&self) -> (r: String)
        ensures
            r@ == self.spec_message(),
    {
        match self {
            TextSourceError::InvalidSource => "Invalid source path or URL".to_owned(),
            TextSourceError::IoError(m) => concat2("IO error: ", m.as_str()),
            TextSourceError::GitHubError(m) => concat2("GitHub API error: ", m.as_str()),
            TextSourceError::NetworkError(m) => concat2("Network error: ", m.as_str()),
            TextSourceError::PathNotFound(m) => concat2("Path not found: ", m.as_str()),
            TextSourceError::PermissionDenied(m) => concat2("Permission denied: ", m.as_str()),
            TextSourceError::RateLimitExceeded => "GitHub rate limit exceeded".to_owned(),
            TextSourceError::RepoNotFound => "GitHub repository not found".to_owned(),
            TextSourceError::NotTextFile(m) => concat2(
                "File is not valid UTF-8 text: ",
                m.as_str(),
            ),
        }
    }
}

} // verus!
