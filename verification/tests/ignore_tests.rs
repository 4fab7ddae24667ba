use textmerge::ignore::GitIgnoreRules;

fn rules(content: &str) -> GitIgnoreRules {
    GitIgnoreRules::from_content(content)
}

#[test]
fn anchored_pattern_matches_root_and_below() {
    let r = rules("/build");
    assert!(r.is_ignored("build"));
    assert!(r.is_ignored("build/sub/file.txt"));
    assert!(!r.is_ignored("other/build"));
}

#[test]
fn single_wildcard_matches_prefix_and_suffix() {
    let r = rules("*.log");
    assert!(r.is_ignored("a.log"));
    assert!(r.is_ignored("dir/b.log"));
    assert!(!r.is_ignored("a.log.txt"));
}

#[test]
fn unanchored_literal_matches_directory_contents() {
    let r = rules("node_modules");
    assert!(r.is_ignored("node_modules"));
    assert!(r.is_ignored("node_modules/x"));
    assert!(!r.is_ignored("a/node_modules/x"));
}

#[test]
fn trailing_slash_is_stripped() {
    let r = rules("target/");
    assert!(r.is_ignored("target"));
    assert!(r.is_ignored("target/debug/app"));
    assert!(!r.is_ignored("targets"));
}

#[test]
fn anchored_star_matches_by_suffix() {
    let r = rules("/*.tmp");
    assert!(r.is_ignored("a.tmp"));
    assert!(r.is_ignored("deep/dir/b.tmp"));
    assert!(!r.is_ignored("a.tmpx"));
}

#[test]
fn comments_and_blank_lines_are_skipped() {
    let r = rules("# a comment\n\n  \nbuild\n# another\n*.log\n");
    assert!(r.is_ignored("build/x"));
    assert!(r.is_ignored("y.log"));
    assert!(!r.is_ignored("comment"));
}

#[test]
fn lines_are_trimmed() {
    let r = rules("  build  \n");
    assert!(r.is_ignored("build"));
    assert!(r.is_ignored("build/x.txt"));
}

#[test]
fn empty_ruleset_ignores_nothing() {
    let r = GitIgnoreRules::new();
    assert!(!r.is_ignored("anything/at/all.txt"));
}

#[test]
fn infix_wildcard_splits_pattern() {
    let r = rules("foo*bar");
    assert!(r.is_ignored("foobar"));
    assert!(r.is_ignored("foo/deep/bar"));
    assert!(!r.is_ignored("foobaz"));
}
