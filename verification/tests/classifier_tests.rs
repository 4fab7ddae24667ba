use textmerge::classifier::{get_extension, is_builtin_binary_ext, should_include_path, FilterConfig};

fn text_config() -> FilterConfig {
    FilterConfig::new()
}

#[test]
fn builtin_binary_extensions_are_not_text() {
    let c = FilterConfig::new();
    for e in [
        "exe", "dll", "so", "dylib", "bin", "app", "msi", "sys", "com", "o", "obj", "class",
        "zip", "rar", "7z", "tar", "gz", "bz2", "xz", "iso", "dmg", "img", "tgz", "jpg", "jpeg",
        "png", "gif", "bmp", "tiff", "webp", "ico", "svg", "eps", "raw", "cr2", "nef", "heic",
        "mp3", "wav", "ogg", "flac", "m4a", "wma", "aac", "mid", "midi", "aiff", "mp4", "avi",
        "mkv", "mov", "wmv", "flv", "webm", "m4v", "mpg", "mpeg", "3gp", "pdf", "doc", "docx",
        "xls", "xlsx", "ppt", "pptx", "pages", "numbers", "key", "indd", "psd", "ai", "db",
        "sqlite", "mdb", "accdb", "dbf", "dat", "mdf", "sdf", "ttf", "otf", "woff", "woff2",
        "eot", "pyc", "pyo", "pyd", "jar", "war", "deb", "rpm", "lib", "a", "pak", "cache",
        "idx", "mo", "gmo", "pdb",
    ] {
        assert!(is_builtin_binary_ext(e), "{e} should be in the binary table");
        assert!(!c.is_text_extension(e.to_string()), "{e} should not be text");
    }
}

#[test]
fn ordinary_extensions_are_text() {
    let c = text_config();
    for e in ["rs", "txt", "md", "toml", "json", "py"] {
        assert!(c.is_text_extension(e.to_string()));
    }
}

#[test]
fn text_override_wins_over_builtin_table() {
    let mut c = FilterConfig::new();
    c.additional_text_extensions.insert("png".to_string());
    assert!(c.is_text_extension("png".to_string()));
}

#[test]
fn binary_override_wins_over_text_override() {
    let mut c = FilterConfig::new();
    c.additional_text_extensions.insert("png".to_string());
    c.additional_binary_extensions.insert("png".to_string());
    assert!(!c.is_text_extension("png".to_string()));
}

#[test]
fn binary_override_hides_a_text_extension() {
    let mut c = FilterConfig::new();
    c.additional_binary_extensions.insert("txt".to_string());
    assert!(!c.is_text_extension("txt".to_string()));
}

#[test]
fn extension_is_lowercased() {
    assert_eq!(get_extension("dir/PHOTO.PNG"), Some("png".to_string()));
    assert_eq!(get_extension("Makefile.IN"), Some("in".to_string()));
}

#[test]
fn extension_edge_cases() {
    assert_eq!(get_extension("src/main.rs"), Some("rs".to_string()));
    assert_eq!(get_extension("README"), None);
    assert_eq!(get_extension("a/.gitignore"), None);
    assert_eq!(get_extension("a/.config.yml"), Some("yml".to_string()));
    assert_eq!(get_extension("archive.tar.gz"), Some("gz".to_string()));
    assert_eq!(get_extension("trailing."), Some("".to_string()));
}

#[test]
fn backup_files_are_excluded() {
    let c = text_config();
    assert!(!should_include_path("notes.txt~", &c));
    assert!(should_include_path("notes.txt", &c));
}

#[test]
fn hidden_components_are_excluded_unless_shown() {
    let c = text_config();
    assert!(!should_include_path(".git/config", &c));
    assert!(!should_include_path("src/.hidden/file.rs", &c));
    let shown = FilterConfig::new().with_show_hidden(true);
    assert!(should_include_path("src/.hidden/file.rs", &shown));
}

#[test]
fn binary_paths_are_excluded() {
    let c = text_config();
    assert!(!should_include_path("assets/logo.png", &c));
    assert!(should_include_path("assets/logo.txt", &c));
}
