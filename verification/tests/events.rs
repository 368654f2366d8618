use markdowner::deeplink::{file_url_to_path, first_file_url_path};
use markdowner::menu::{
    menu_event_for_id, MENU_NEW_FILE_EVENT, MENU_OPEN_FILE_EVENT, MENU_SAVE_AS_FILE_EVENT,
    MENU_SAVE_FILE_EVENT,
};
use markdowner::pending::DOCK_OPEN_FILE_EVENT;

#[test]
fn test_file_url_to_path_plain() {
    assert_eq!(
        file_url_to_path("file:///Users/name/file.md"),
        Some("/Users/name/file.md".to_owned())
    );
}

#[test]
fn test_file_url_to_path_decodes_percent_encoding() {
    assert_eq!(file_url_to_path("file:///tmp/my%20file.md"), Some("/tmp/my file.md".to_owned()));
    assert_eq!(
        file_url_to_path("file:///tmp/caf%C3%A9.md"),
        Some("/tmp/café.md".to_owned())
    );
}

#[test]
fn test_file_url_to_path_rejects_other_schemes() {
    assert_eq!(file_url_to_path("https://example.com/x.md"), None);
    assert_eq!(file_url_to_path("md"), None);
    assert_eq!(file_url_to_path(""), None);
}

#[test]
fn test_first_file_url_path_picks_first_usable() {
    let urls = vec![
        "https://example.com/a.md".to_owned(),
        "file://".to_owned(),
        "file:///tmp/b.md".to_owned(),
        "file:///tmp/c.md".to_owned(),
    ];
    assert_eq!(first_file_url_path(&urls), Some("/tmp/b.md".to_owned()));
    let none: Vec<String> = vec!["https://example.com".to_owned()];
    assert_eq!(first_file_url_path(&none), None);
    let empty: Vec<String> = Vec::new();
    assert_eq!(first_file_url_path(&empty), None);
}

#[test]
fn test_menu_event_mapping() {
    assert_eq!(menu_event_for_id("new_file"), Some(MENU_NEW_FILE_EVENT));
    assert_eq!(menu_event_for_id("open_file"), Some(MENU_OPEN_FILE_EVENT));
    assert_eq!(menu_event_for_id("save_file"), Some(MENU_SAVE_FILE_EVENT));
    assert_eq!(menu_event_for_id("save_as_file"), Some(MENU_SAVE_AS_FILE_EVENT));
    assert_eq!(menu_event_for_id("quit"), None);
    assert_eq!(menu_event_for_id(""), None);
}

#[test]
fn test_event_names() {
    assert_eq!(DOCK_OPEN_FILE_EVENT, "dock-open-file");
    assert_eq!(MENU_NEW_FILE_EVENT, "menu-new-file");
}
