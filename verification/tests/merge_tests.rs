use textmerge::merge::{merge_block, merge_files, merge_step};
use textmerge::source::TextSourceError;

#[test]
fn block_has_start_and_end_labels() {
    let b = merge_block("a.txt", "A");
    assert_eq!(b, "--- START FILE: a.txt ---\nA\n--- END FILE: a.txt ---\n\n");
}

#[test]
fn merge_skips_only_not_text_files() {
    let entries = vec![
        ("a.txt".to_string(), Ok("A".to_string())),
        ("b.bin".to_string(), Err(TextSourceError::NotTextFile("b.bin".to_string()))),
    ];
    let merged = merge_files(entries).unwrap();
    assert_eq!(merged.matches("START FILE: a.txt").count(), 1);
    assert_eq!(merged.matches("END FILE: a.txt").count(), 1);
    assert!(merged.contains("--- START FILE: a.txt ---\nA\n--- END FILE: a.txt ---\n\n"));
    assert!(!merged.contains("b.bin"));
}

#[test]
fn merge_concatenates_in_caller_order() {
    let entries = vec![
        ("a.txt".to_string(), Ok("A".to_string())),
        ("b.txt".to_string(), Ok("B".to_string())),
    ];
    let merged = merge_files(entries).unwrap();
    assert_eq!(
        merged,
        "--- START FILE: a.txt ---\nA\n--- END FILE: a.txt ---\n\n\
         --- START FILE: b.txt ---\nB\n--- END FILE: b.txt ---\n\n"
    );
}

#[test]
fn any_other_fetch_error_aborts_the_merge() {
    let entries = vec![
        ("a.txt".to_string(), Ok("A".to_string())),
        ("b.txt".to_string(), Err(TextSourceError::RateLimitExceeded)),
        ("c.txt".to_string(), Ok("C".to_string())),
    ];
    assert!(matches!(merge_files(entries), Err(TextSourceError::RateLimitExceeded)));
}

#[test]
fn merge_step_extends_or_skips() {
    let acc = "x".to_string();
    let grown = merge_step(acc.clone(), "a.txt", Ok("A".to_string())).unwrap();
    assert_eq!(grown, "x--- START FILE: a.txt ---\nA\n--- END FILE: a.txt ---\n\n");
    let same = merge_step(
        acc.clone(),
        "b.bin",
        Err(TextSourceError::NotTextFile("b".to_string())),
    )
    .unwrap();
    assert_eq!(same, "x");
    assert!(matches!(
        merge_step(acc, "c", Err(TextSourceError::InvalidSource)),
        Err(TextSourceError::InvalidSource)
    ));
}

#[test]
fn empty_selection_merges_to_empty_output() {
    assert_eq!(merge_files(Vec::new()).unwrap(), "");
}
