use textmerge::factory::{create_text_source, SourcePlan};
use textmerge::keys::InputKey;
use textmerge::output_panel::{OutputDestination, OutputPanel};
use textmerge::sets::StringSet;
use textmerge::source::TextSourceError;
use textmerge::source_files::{format_number, format_token_count, SourceFilesPanel, TokenStatus};
use textmerge::source_path::SourcePathPanel;
use textmerge::tokenizer::count_tokens_in_content;

#[test]
fn numbers_are_grouped_in_blocks_of_three() {
    assert_eq!(format_number(0), "0");
    assert_eq!(format_number(999), "999");
    assert_eq!(format_number(1000), "1 000");
    assert_eq!(format_number(1234567), "1 234 567");
    assert_eq!(format_token_count(12345), "12 345 tokens");
}

#[test]
fn token_status_flow_updates_title() {
    let mut panel = SourceFilesPanel::new();
    let mut selected = StringSet::new();
    selected.insert("a.rs".to_string());
    selected.insert("b.rs".to_string());
    panel.set_counting("a.rs");
    panel.update_title_counting();
    assert_eq!(panel.panel_title, "Files (counting tokens)");
    // One file still counting: no total yet.
    panel.set_count_result("b.rs", Ok(1200));
    assert!(panel.maybe_compute_total_tokens(&selected).is_none());
    panel.update_title_sum(&selected);
    assert_eq!(panel.panel_title, "Files (counting tokens)");
    // Both done: the total appears.
    panel.set_count_result("a.rs", Ok(34));
    assert_eq!(panel.maybe_compute_total_tokens(&selected), Some(1234));
    panel.update_title_sum(&selected);
    assert_eq!(panel.panel_title, "Files (1 234 tokens)");
}

#[test]
fn failed_counts_are_shown_as_errors_and_skipped_in_the_sum() {
    let mut panel = SourceFilesPanel::new();
    let mut selected = StringSet::new();
    selected.insert("a.rs".to_string());
    selected.insert("bad.rs".to_string());
    panel.set_count_result("a.rs", Ok(10));
    panel.set_count_result("bad.rs", Err("tokenizer failed".to_string()));
    assert_eq!(panel.get_status_string("bad.rs"), "Error");
    assert_eq!(panel.get_status_string("a.rs"), "10 tokens");
    assert_eq!(panel.get_status_string("unknown.rs"), "");
    assert_eq!(panel.maybe_compute_total_tokens(&selected), Some(10));
}

#[test]
fn status_strings_follow_the_latest_state() {
    let mut panel = SourceFilesPanel::new();
    panel.set_counting("a.rs");
    assert_eq!(panel.get_status_string("a.rs"), "...");
    panel.set_count_result("a.rs", Ok(7));
    assert_eq!(panel.get_status_string("a.rs"), "7 tokens");
}

#[test]
fn string_set_operations() {
    let mut s = StringSet::new();
    assert!(!s.contains("a"));
    s.insert("a".to_string());
    s.insert("a".to_string());
    s.insert("b".to_string());
    assert!(s.contains("a") && s.contains("b"));
    s.remove("a");
    assert!(!s.contains("a") && s.contains("b"));
    s.clear();
    assert!(!s.contains("b"));
}

#[test]
fn text_field_editing() {
    let mut p = SourcePathPanel::new("ab".to_string());
    assert_eq!(p.cursor_pos, 2);
    p.handle_key(InputKey::Char('c'));
    assert_eq!(p.value, "abc");
    p.handle_key(InputKey::Left);
    p.handle_key(InputKey::Left);
    p.handle_key(InputKey::Char('x'));
    assert_eq!(p.value, "axbc");
    p.handle_key(InputKey::Backspace);
    assert_eq!(p.value, "abc");
    p.insert_text("12");
    assert_eq!(p.value, "a12bc");
    p.clear();
    assert_eq!(p.value, "");
    assert_eq!(p.cursor_pos, 0);
}

#[test]
fn output_panel_cycles_destinations() {
    let mut p = OutputPanel::new();
    assert_eq!(p.destination, OutputDestination::FileAndClipboard);
    p.handle_key(InputKey::Right);
    assert_eq!(p.destination, OutputDestination::File);
    p.handle_key(InputKey::Right);
    assert_eq!(p.destination, OutputDestination::Clipboard);
    p.handle_key(InputKey::Right);
    assert_eq!(p.destination, OutputDestination::Clipboard);
    p.handle_key(InputKey::Left);
    assert_eq!(p.destination, OutputDestination::File);
}

#[test]
fn factory_dispatches_on_the_github_prefix() {
    match create_text_source("https://github.com/o/r") {
        Ok(SourcePlan::GitHub(g)) => {
            assert_eq!(g.owner, "o");
            assert_eq!(g.repo, "r");
            assert_eq!(g.branch, "main");
            assert_eq!(g.subpath, None);
        }
        _ => panic!("expected a GitHub plan"),
    }
    match create_text_source("/some/local/dir") {
        Ok(SourcePlan::FileSystem { path }) => assert_eq!(path, "/some/local/dir"),
        _ => panic!("expected a filesystem plan"),
    }
    assert!(matches!(
        create_text_source("https://github.com/only-owner"),
        Err(TextSourceError::InvalidSource)
    ));
}

#[test]
fn error_messages_name_their_cause() {
    assert_eq!(
        TextSourceError::PathNotFound("/x".to_string()).message(),
        "Path not found: /x"
    );
    assert_eq!(TextSourceError::InvalidSource.message(), "Invalid source path or URL");
    assert_eq!(
        TextSourceError::NotTextFile("b.bin".to_string()).message(),
        "File is not valid UTF-8 text: b.bin"
    );
    assert_eq!(TextSourceError::RateLimitExceeded.message(), "GitHub rate limit exceeded");
}

#[test]
fn token_counting_counts_real_text() {
    let n = count_tokens_in_content("hello world, hello world").unwrap();
    assert!(n > 0 && n < 24, "a short sentence is a few tokens, got {n}");
    let empty = count_tokens_in_content("").unwrap();
    assert_eq!(empty, 0);
}

#[test]
fn token_statuses_compare_structurally() {
    assert_eq!(TokenStatus::Done(3), TokenStatus::Done(3));
    assert_ne!(TokenStatus::Done(3), TokenStatus::Error);
}
