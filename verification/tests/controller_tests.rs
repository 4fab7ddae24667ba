use textmerge::controller::{App, FocusedPanel, Operation};
use textmerge::keys::InputKey;
use textmerge::source::{SourceFile, SourceType};

fn new_app() -> App {
    App::new("/repo".to_string(), "/out/merged_context.txt".to_string())
}

fn fs_file(path: &str) -> SourceFile {
    SourceFile {
        path: path.to_string(),
        source_type: SourceType::FileSystem { base_path: "/repo".to_string() },
    }
}

fn loaded_app(paths: &[&str]) -> App {
    let mut app = new_app();
    let files: Vec<SourceFile> = paths.iter().map(|p| fs_file(p)).collect();
    app.finish_reload(None, Some(files));
    app
}

#[test]
fn reload_request_is_idempotent_and_single_flight() {
    let mut app = new_app();
    app.request_reload();
    app.request_reload();
    let first = app.tick();
    match first {
        Some(Operation::Reload { target }) => assert_eq!(target, "/repo"),
        _ => panic!("expected a reload to start"),
    }
    assert!(app.processing);
    assert!(!app.reload_files_needed);
    // While the reload runs, further ticks start nothing.
    assert!(app.tick().is_none());
    assert!(app.tick().is_none());
    app.finish_reload(None, Some(Vec::new()));
    assert!(!app.processing);
    // Idle again, and no second reload was queued.
    assert!(app.tick().is_none());
}

#[test]
fn merge_waits_for_a_pending_reload() {
    let mut app = new_app();
    app.request_merge();
    app.request_reload();
    match app.tick() {
        Some(Operation::Reload { .. }) => {}
        _ => panic!("the reload must start first"),
    }
    assert!(app.merge_needed, "the merge intent stays queued");
    app.finish_reload(None, Some(Vec::new()));
    match app.tick() {
        Some(Operation::Merge { .. }) => {}
        _ => panic!("the merge starts once the reload is done"),
    }
}

#[test]
fn tick_reads_the_target_at_start_not_at_request_time() {
    let mut app = new_app();
    app.request_reload();
    // Retarget before the reload fires.
    app.source_path_panel.clear();
    app.source_path_panel.insert_text("/elsewhere");
    match app.tick() {
        Some(Operation::Reload { target }) => assert_eq!(target, "/elsewhere"),
        _ => panic!("expected a reload"),
    }
}

#[test]
fn reload_resets_selection_to_all_current_files() {
    let mut app = loaded_app(&["b.rs", "a.rs", "c.txt"]);
    assert!(app.selected_files.contains("a.rs"));
    // Deselect one file by toggling it in the files panel.
    app.focused_panel = FocusedPanel::SourceFiles;
    app.update(InputKey::Char(' '));
    let deselected = app.source_files_panel.items[app.source_files_panel.cursor].clone();
    assert!(!app.selected_files.contains(&deselected));
    // A fresh reload reseeds everything.
    let files: Vec<SourceFile> = ["a.rs", "c.txt"].iter().map(|p| fs_file(p)).collect();
    app.finish_reload(None, Some(files));
    assert!(app.selected_files.contains("a.rs"));
    assert!(app.selected_files.contains("c.txt"));
    assert!(!app.selected_files.contains("b.rs"));
    assert!(app.selected_extensions.contains("*"));
    assert!(app.selected_extensions.contains("rs"));
    assert!(app.selected_extensions.contains("txt"));
}

#[test]
fn reload_failure_clears_the_index() {
    let mut app = loaded_app(&["a.rs"]);
    app.finish_reload(None, None);
    assert!(app.loaded_files.is_empty());
    assert!(!app.selected_files.contains("a.rs"));
}

#[test]
fn file_panel_items_are_sorted() {
    let app = loaded_app(&["b.rs", "a.rs", "c.txt"]);
    assert_eq!(
        app.source_files_panel.items,
        vec!["a.rs".to_string(), "b.rs".to_string(), "c.txt".to_string()]
    );
}

#[test]
fn filters_panel_lists_star_and_sorted_extensions() {
    let app = loaded_app(&["b.rs", "a.txt", "c.rs"]);
    assert_eq!(
        app.filters_panel.items,
        vec!["*".to_string(), "rs".to_string(), "txt".to_string()]
    );
}

#[test]
fn toggling_an_extension_deselects_its_files() {
    let mut app = loaded_app(&["a.rs", "b.rs", "c.txt"]);
    app.focused_panel = FocusedPanel::Filters;
    // Move the cursor from `*` to `rs` and toggle it off.
    app.update(InputKey::Down);
    app.update(InputKey::Char(' '));
    assert!(!app.selected_files.contains("a.rs"));
    assert!(!app.selected_files.contains("b.rs"));
    assert!(app.selected_files.contains("c.txt"));
    assert!(!app.selected_extensions.contains("*"));
    // Toggle it back on: its files return, but `*` stays cleared because
    // the `*` row itself is no longer selected.
    app.update(InputKey::Char(' '));
    assert!(app.selected_files.contains("a.rs"));
    assert!(app.selected_extensions.contains("rs"));
    assert!(!app.selected_extensions.contains("*"));
}

#[test]
fn toggling_star_clears_and_restores_everything() {
    let mut app = loaded_app(&["a.rs", "c.txt"]);
    app.focused_panel = FocusedPanel::Filters;
    app.update(InputKey::Char(' '));
    assert!(!app.selected_files.contains("a.rs"));
    assert!(!app.selected_files.contains("c.txt"));
    app.update(InputKey::Char(' '));
    assert!(app.selected_files.contains("a.rs"));
    assert!(app.selected_files.contains("c.txt"));
}

#[test]
fn function_keys_raise_the_intent_flags() {
    let mut app = new_app();
    app.update(InputKey::F(1));
    assert!(app.reload_files_needed);
    app.update(InputKey::F(2));
    assert!(app.merge_needed);
    app.update(InputKey::F(10));
    assert!(app.exit_requested);
}

#[test]
fn escape_from_source_path_requests_exit() {
    let mut app = new_app();
    app.update(InputKey::Esc);
    assert!(app.exit_requested);
}

#[test]
fn enter_moves_focus_forward() {
    let mut app = new_app();
    app.update(InputKey::Enter);
    assert_eq!(app.focused_panel, FocusedPanel::Filters);
    app.update(InputKey::Enter);
    assert_eq!(app.focused_panel, FocusedPanel::SourceFiles);
}

#[test]
fn leaving_a_changed_source_path_queues_a_reload() {
    let mut app = new_app();
    app.update(InputKey::Char('x'));
    assert!(!app.reload_files_needed);
    app.update(InputKey::Enter);
    assert!(app.reload_files_needed);
    assert_eq!(app.prev_source_path, "/repox");
}

#[test]
fn leaving_an_unchanged_source_path_queues_nothing() {
    let mut app = new_app();
    app.update(InputKey::Enter);
    assert!(!app.reload_files_needed);
}

#[test]
fn typing_edits_the_source_path() {
    let mut app = new_app();
    app.update(InputKey::Char('a'));
    assert_eq!(app.source_path_panel.value, "/repoa");
    app.update(InputKey::Backspace);
    assert_eq!(app.source_path_panel.value, "/repo");
    app.update(InputKey::Left);
    app.update(InputKey::Char('b'));
    assert_eq!(app.source_path_panel.value, "/repbo");
}

#[test]
fn merge_operation_carries_selected_paths_in_panel_order() {
    let mut app = loaded_app(&["b.txt", "a.txt"]);
    app.request_merge();
    match app.tick() {
        Some(Operation::Merge { paths, output_file, .. }) => {
            assert_eq!(paths, vec!["a.txt".to_string(), "b.txt".to_string()]);
            assert_eq!(output_file, "/out/merged_context.txt");
        }
        _ => panic!("expected a merge"),
    }
    app.finish_merge();
    assert!(!app.processing);
}
