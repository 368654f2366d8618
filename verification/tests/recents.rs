use markdowner::recents::{decode_recents, RecentFilesState, MAX_RECENT_FILES};

#[test]
fn test_recent_files_add_and_retrieve() {
    let dir = tempfile::TempDir::new().unwrap();

    let file1 = dir.path().join("file1.md").to_string_lossy().to_string();
    let file2 = dir.path().join("file2.md").to_string_lossy().to_string();

    let keep = vec![true, true];
    let state = RecentFilesState::from_loaded(vec![file1.clone(), file2.clone()], &keep);

    let recents = state.list();
    assert_eq!(recents.len(), 2);
    assert_eq!(recents[0], file1);
    assert_eq!(recents[1], file2);
}

#[test]
fn test_recent_files_max_limit() {
    let mut state = RecentFilesState::new();
    let dir = tempfile::TempDir::new().unwrap();

    // Add 15 files (more than MAX_RECENT_FILES of 10).
    for i in 0..15 {
        let file_path = dir.path().join(format!("file{}.md", i)).to_string_lossy().to_string();
        state.touch(file_path);
    }

    let recents = state.list();
    assert_eq!(recents.len(), MAX_RECENT_FILES);
}

#[test]
fn test_recent_files_move_to_top() {
    let dir = tempfile::TempDir::new().unwrap();

    let file1 = dir.path().join("file1.md").to_string_lossy().to_string();
    let file2 = dir.path().join("file2.md").to_string_lossy().to_string();

    let keep = vec![true, true];
    let mut state = RecentFilesState::from_loaded(vec![file1.clone(), file2.clone()], &keep);

    // Add file1 again (should move to top).
    state.touch(file1.clone());

    let recents = state.list();
    assert_eq!(recents[0], file1);
    assert_eq!(recents[1], file2);
}

#[test]
fn test_recent_files_deduplication() {
    let mut state = RecentFilesState::new();
    let dir = tempfile::TempDir::new().unwrap();

    let file1 = dir.path().join("file1.md").to_string_lossy().to_string();

    // Add same file multiple times; it must stay a single entry.
    state.touch(file1.clone());
    state.touch(file1.clone());
    state.touch(file1.clone());

    let recents = state.list();
    assert_eq!(recents.len(), 1);
}

#[test]
fn test_touch_then_list_puts_path_first() {
    let mut state = RecentFilesState::new();
    state.touch("/tmp/a.md".to_owned());
    state.touch("/tmp/b.md".to_owned());
    let recents = state.list();
    assert_eq!(recents[0], "/tmp/b.md");
}

#[test]
fn test_touch_twice_keeps_one_copy_at_front() {
    let mut state = RecentFilesState::new();
    state.touch("/tmp/a.md".to_owned());
    state.touch("/tmp/p.md".to_owned());
    state.touch("/tmp/p.md".to_owned());
    let recents = state.list();
    assert_eq!(recents[0], "/tmp/p.md");
    let occurrences = recents.iter().filter(|p| p.as_str() == "/tmp/p.md").count();
    assert_eq!(occurrences, 1);
}

#[test]
fn test_fifteen_distinct_keeps_last_ten_most_recent_first() {
    let mut state = RecentFilesState::new();
    for i in 0..15 {
        state.touch(format!("/tmp/file{}.md", i));
    }
    let recents = state.list();
    assert_eq!(recents.len(), 10);
    for k in 0..10 {
        // Most recent first: file14, file13, ..., file5.
        assert_eq!(recents[k], format!("/tmp/file{}.md", 14 - k));
    }
}

#[test]
fn test_clear_then_list_is_empty_even_after_reload() {
    let mut state = RecentFilesState::new();
    state.touch("/tmp/a.md".to_owned());
    state.touch("/tmp/b.md".to_owned());
    state.clear();
    assert!(state.list().is_empty());

    // Simulated restart: persist, decode, and install from the store text.
    let persisted = state.to_persist();
    let entries = decode_recents(&persisted);
    let keep: Vec<bool> = entries.iter().map(|_| true).collect();
    let reloaded = RecentFilesState::from_loaded(entries, &keep);
    assert!(reloaded.list().is_empty());
}

#[test]
fn test_persist_round_trip_keeps_entries() {
    let mut state = RecentFilesState::new();
    state.touch("/tmp/one two.md".to_owned());
    state.touch("/tmp/three\"four.md".to_owned());
    let persisted = state.to_persist();
    let entries = decode_recents(&persisted);
    assert_eq!(entries, state.list());
}

#[test]
fn test_persist_of_empty_registry_is_an_empty_array() {
    let state = RecentFilesState::new();
    assert_eq!(state.to_persist(), "[]");
}

#[test]
fn test_dialog_choice_updates_registry() {
    let mut state = RecentFilesState::new();
    state.touch("/tmp/a.md".to_owned());
    let chosen = state.touch_chosen(Some("/tmp/b.md".to_owned()));
    assert_eq!(chosen, Some("/tmp/b.md".to_owned()));
    assert_eq!(state.list()[0], "/tmp/b.md");
    let none = state.touch_chosen(None);
    assert_eq!(none, None);
    assert_eq!(state.list(), vec!["/tmp/b.md".to_owned(), "/tmp/a.md".to_owned()]);
}

#[test]
fn test_decode_recents_degrades_to_empty() {
    assert!(decode_recents("not json at all").is_empty());
    assert!(decode_recents("{\"recent_files\": 3}").is_empty());
    assert!(decode_recents("[1, 2, 3]").is_empty());
}

#[test]
fn test_load_filters_missing_files_and_truncates() {
    let mut entries: Vec<String> = Vec::new();
    let mut keep: Vec<bool> = Vec::new();
    for i in 0..14 {
        entries.push(format!("/tmp/load{}.md", i));
        keep.push(i % 2 == 0);
    }
    let state = RecentFilesState::from_loaded(entries, &keep);
    let recents = state.list();
    // Of the 14 entries, the 7 even-indexed survive the existence filter.
    assert_eq!(recents.len(), 7);
    assert_eq!(recents[0], "/tmp/load0.md");
    assert_eq!(recents[6], "/tmp/load12.md");
}
