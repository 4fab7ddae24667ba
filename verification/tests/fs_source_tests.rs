use textmerge::classifier::FilterConfig;
use textmerge::fs_source::{DirProbe, FileReadOutcome, FileSystemSource};
use textmerge::source::{SourceFile, SourceType, TextSourceError};

fn source_with(ignore: Option<&str>) -> FileSystemSource {
    FileSystemSource::new("/repo".to_string(), DirProbe::Readable, ignore).unwrap()
}

fn listing(paths: &[&str]) -> Vec<String> {
    paths.iter().map(|p| p.to_string()).collect()
}

fn index_paths(src: &FileSystemSource, filter: &FilterConfig, l: &[&str]) -> Vec<String> {
    src.get_file_index(filter, &listing(l)).into_iter().map(|f| f.path).collect()
}

#[test]
fn missing_root_is_path_not_found() {
    match FileSystemSource::new("/nope".to_string(), DirProbe::Missing, None) {
        Err(TextSourceError::PathNotFound(p)) => assert_eq!(p, "/nope"),
        _ => panic!("expected PathNotFound"),
    }
}

#[test]
fn non_directory_root_is_invalid_source() {
    assert!(matches!(
        FileSystemSource::new("/a/file".to_string(), DirProbe::NotDirectory, None),
        Err(TextSourceError::InvalidSource)
    ));
}

#[test]
fn unreadable_root_is_permission_denied() {
    assert!(matches!(
        FileSystemSource::new("/locked".to_string(), DirProbe::Unreadable, None),
        Err(TextSourceError::PermissionDenied(_))
    ));
}

#[test]
fn index_keeps_plain_text_files() {
    let src = source_with(None);
    let filter = FilterConfig::new();
    let got = index_paths(&src, &filter, &["src/main.rs", "README.md"]);
    assert_eq!(got, vec!["src/main.rs".to_string(), "README.md".to_string()]);
}

#[test]
fn index_never_returns_hidden_or_backup_components() {
    let src = source_with(None);
    let filter = FilterConfig::new();
    let got = index_paths(
        &src,
        &filter,
        &[".git/config", "src/.cache/x.txt", "notes.txt~", "ok/file.txt", "old~/file.txt"],
    );
    assert_eq!(got, vec!["ok/file.txt".to_string()]);
    for p in &got {
        for comp in p.split('/') {
            assert!(!comp.starts_with('.'));
            assert!(!comp.ends_with('~'));
        }
    }
}

#[test]
fn index_applies_ignore_rules_to_ancestors() {
    let src = source_with(Some("/build\n*.log\n"));
    let filter = FilterConfig::new();
    let got = index_paths(
        &src,
        &filter,
        &["build/out.txt", "src/a.log", "src/keep.rs"],
    );
    assert_eq!(got, vec!["src/keep.rs".to_string()]);
}

#[test]
fn index_drops_binary_extensions_anywhere_on_the_path() {
    let src = source_with(None);
    let filter = FilterConfig::new();
    let got = index_paths(&src, &filter, &["img/logo.png", "data.zip/inner.txt", "a.txt"]);
    assert_eq!(got, vec!["a.txt".to_string()]);
}

fn fs_file(path: &str) -> SourceFile {
    SourceFile {
        path: path.to_string(),
        source_type: SourceType::FileSystem { base_path: "/repo".to_string() },
    }
}

#[test]
fn content_decodes_utf8_bytes() {
    let src = source_with(None);
    let f = fs_file("a.txt");
    let got = src.get_file_content(&f, FileReadOutcome::Data(b"hello".to_vec()));
    assert_eq!(got.unwrap(), "hello");
}

#[test]
fn content_rejects_invalid_utf8_as_not_text() {
    let src = source_with(None);
    let f = fs_file("b.bin");
    match src.get_file_content(&f, FileReadOutcome::Data(vec![0xff, 0xfe, 0x00, 0x80])) {
        Err(TextSourceError::NotTextFile(p)) => assert_eq!(p, "/repo/b.bin"),
        _ => panic!("expected NotTextFile"),
    }
}

#[test]
fn content_reports_missing_and_denied_files() {
    let src = source_with(None);
    let f = fs_file("gone.txt");
    assert!(matches!(
        src.get_file_content(&f, FileReadOutcome::Missing),
        Err(TextSourceError::PathNotFound(_))
    ));
    assert!(matches!(
        src.get_file_content(&f, FileReadOutcome::PermissionDenied),
        Err(TextSourceError::PermissionDenied(_))
    ));
    match src.get_file_content(&f, FileReadOutcome::IoError("boom".to_string())) {
        Err(TextSourceError::IoError(m)) => assert_eq!(m, "boom"),
        _ => panic!("expected IoError"),
    }
}

#[test]
fn content_rejects_a_file_of_another_origin() {
    let src = source_with(None);
    let foreign = SourceFile {
        path: "x.txt".to_string(),
        source_type: SourceType::GitHub {
            owner: "o".to_string(),
            repo: "r".to_string(),
            branch: "main".to_string(),
        },
    };
    assert!(matches!(
        src.get_file_content(&foreign, FileReadOutcome::Data(b"x".to_vec())),
        Err(TextSourceError::InvalidSource)
    ));
}

#[test]
fn full_path_joins_with_one_separator() {
    let src = source_with(None);
    assert_eq!(src.full_path("a/b.txt"), "/repo/a/b.txt");
    let slashed = FileSystemSource::new("/repo/".to_string(), DirProbe::Readable, None).unwrap();
    assert_eq!(slashed.full_path("a.txt"), "/repo/a.txt");
}
