use textmerge::classifier::FilterConfig;
use textmerge::github::{GitHubSource, TreeEntry};
use textmerge::source::{SourceFile, SourceType, TextSourceError};

fn parse(url: &str) -> Result<(String, String, String, Option<String>), TextSourceError> {
    GitHubSource::parse_github_url(url)
}

#[test]
fn plain_repository_url_defaults_to_main() {
    let (owner, repo, branch, subpath) = parse("https://github.com/o/r").unwrap();
    assert_eq!(owner, "o");
    assert_eq!(repo, "r");
    assert_eq!(branch, "main");
    assert_eq!(subpath, None);
}

#[test]
fn tree_url_selects_branch_and_subpath() {
    let (owner, repo, branch, subpath) = parse("https://github.com/o/r/tree/dev/sub/dir").unwrap();
    assert_eq!(owner, "o");
    assert_eq!(repo, "r");
    assert_eq!(branch, "dev");
    assert_eq!(subpath, Some("sub/dir".to_string()));
}

#[test]
fn tree_url_without_subpath() {
    let (_, _, branch, subpath) = parse("https://github.com/o/r/tree/dev").unwrap();
    assert_eq!(branch, "dev");
    assert_eq!(subpath, None);
}

#[test]
fn git_suffix_is_stripped() {
    let (_, repo, _, _) = parse("https://github.com/o/r.git").unwrap();
    assert_eq!(repo, "r");
}

#[test]
fn non_github_host_is_invalid() {
    assert!(matches!(
        parse("https://gitlab.com/o/r"),
        Err(TextSourceError::InvalidSource)
    ));
}

#[test]
fn non_https_scheme_is_invalid() {
    assert!(matches!(
        parse("http://github.com/o/r"),
        Err(TextSourceError::InvalidSource)
    ));
}

#[test]
fn too_few_segments_is_invalid() {
    assert!(matches!(parse("https://github.com/o"), Err(TextSourceError::InvalidSource)));
    assert!(matches!(parse("not a url"), Err(TextSourceError::InvalidSource)));
}

fn tree(entries: &[(&str, &str)]) -> Vec<TreeEntry> {
    entries
        .iter()
        .map(|(p, t)| TreeEntry { path: p.to_string(), entry_type: t.to_string() })
        .collect()
}

fn gh(subpath: Option<&str>) -> GitHubSource {
    GitHubSource::new(
        "o".to_string(),
        "r".to_string(),
        "main".to_string(),
        subpath.map(|s| s.to_string()),
    )
}

#[test]
fn index_keeps_only_text_blobs() {
    let src = gh(None);
    let filter = FilterConfig::new();
    let t = tree(&[("src", "tree"), ("src/a.rs", "blob"), ("img/b.png", "blob")]);
    let got: Vec<String> = src.get_file_index(&filter, &t).into_iter().map(|f| f.path).collect();
    assert_eq!(got, vec!["src/a.rs".to_string()]);
}

#[test]
fn index_restricts_to_subpath_and_rewrites_paths() {
    let src = gh(Some("sub"));
    let filter = FilterConfig::new();
    let t = tree(&[("sub/a.rs", "blob"), ("other/b.rs", "blob"), ("sub/deep/c.md", "blob")]);
    let got: Vec<String> = src.get_file_index(&filter, &t).into_iter().map(|f| f.path).collect();
    assert_eq!(got, vec!["a.rs".to_string(), "deep/c.md".to_string()]);
}

#[test]
fn index_records_the_github_origin() {
    let src = gh(None);
    let filter = FilterConfig::new();
    let t = tree(&[("a.rs", "blob")]);
    let got = src.get_file_index(&filter, &t);
    match &got[0].source_type {
        SourceType::GitHub { owner, repo, branch } => {
            assert_eq!(owner, "o");
            assert_eq!(repo, "r");
            assert_eq!(branch, "main");
        }
        _ => panic!("expected a GitHub origin"),
    }
}

#[test]
fn tree_endpoint_url() {
    let src = gh(None);
    assert_eq!(
        src.tree_url(),
        "https://api.github.com/repos/o/r/git/trees/main?recursive=1"
    );
}

#[test]
fn tree_status_classification() {
    assert!(GitHubSource::classify_tree_status(200, String::new()).is_ok());
    assert!(matches!(
        GitHubSource::classify_tree_status(403, String::new()),
        Err(TextSourceError::RateLimitExceeded)
    ));
    assert!(matches!(
        GitHubSource::classify_tree_status(404, String::new()),
        Err(TextSourceError::RepoNotFound)
    ));
    match GitHubSource::classify_tree_status(500, "server error".to_string()) {
        Err(TextSourceError::GitHubError(m)) => assert_eq!(m, "server error"),
        _ => panic!("expected GitHubError"),
    }
}

fn gh_file(path: &str) -> SourceFile {
    SourceFile {
        path: path.to_string(),
        source_type: SourceType::GitHub {
            owner: "o".to_string(),
            repo: "r".to_string(),
            branch: "main".to_string(),
        },
    }
}

#[test]
fn raw_content_url_prefixes_the_subpath() {
    let src = gh(Some("sub"));
    let u = src.raw_content_url(&gh_file("a.rs")).unwrap();
    assert_eq!(u, "https://raw.githubusercontent.com/o/r/main/sub/a.rs");
    let plain = gh(None);
    let u2 = plain.raw_content_url(&gh_file("a.rs")).unwrap();
    assert_eq!(u2, "https://raw.githubusercontent.com/o/r/main/a.rs");
}

#[test]
fn content_decodes_success_and_maps_failures() {
    let src = gh(None);
    let f = gh_file("a.rs");
    assert_eq!(src.get_file_content(&f, 200, b"fn main() {}".to_vec()).unwrap(), "fn main() {}");
    assert!(matches!(
        src.get_file_content(&f, 200, vec![0xff, 0x00, 0x80]),
        Err(TextSourceError::NotTextFile(_))
    ));
    assert!(matches!(
        src.get_file_content(&f, 404, Vec::new()),
        Err(TextSourceError::PathNotFound(_))
    ));
    assert!(matches!(
        src.get_file_content(&f, 403, Vec::new()),
        Err(TextSourceError::RateLimitExceeded)
    ));
    match src.get_file_content(&f, 500, Vec::new()) {
        Err(TextSourceError::GitHubError(m)) => assert_eq!(m, "500"),
        _ => panic!("expected GitHubError"),
    }
}

#[test]
fn content_rejects_a_file_of_filesystem_origin() {
    let src = gh(None);
    let foreign = SourceFile {
        path: "x.txt".to_string(),
        source_type: SourceType::FileSystem { base_path: "/repo".to_string() },
    };
    assert!(matches!(
        src.get_file_content(&foreign, 200, b"x".to_vec()),
        Err(TextSourceError::InvalidSource)
    ));
}
