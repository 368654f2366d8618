use markdowner::print::{
    compose_print_document, evict_oldest, file_url_of, print_file_name, print_step,
    print_window_label, sanitize_title, u64_to_decimal, PrintAction, PrintEvent, PrintFileStamp,
    PrintStage, DIALOG_WAIT_SECS, PRINT_MAX_FILES, PRINT_TEMP_DIR, RENDER_WAIT_MS,
};

#[test]
fn test_sanitize_title_keeps_alphanumerics() {
    assert_eq!(sanitize_title("My Notes"), "My_Notes");
    assert_eq!(sanitize_title("a-b.c/d"), "a_b_c_d");
    assert_eq!(sanitize_title("Réport 7"), "Réport_7");
    assert_eq!(sanitize_title(""), "");
}

#[test]
fn test_u64_to_decimal_exact() {
    assert_eq!(u64_to_decimal(0), "0");
    assert_eq!(u64_to_decimal(7), "7");
    assert_eq!(u64_to_decimal(1700000000), "1700000000");
    assert_eq!(u64_to_decimal(u64::MAX), "18446744073709551615");
}

#[test]
fn test_print_file_name_formula() {
    assert_eq!(print_file_name("My Notes", 1700000000), "My_Notes_1700000000.html");
}

#[test]
fn test_print_window_label_formula() {
    assert_eq!(print_window_label(1700000000), "print-hidden-1700000000");
}

#[test]
fn test_file_url_of_prefixes_scheme() {
    assert_eq!(file_url_of("/tmp/x.html"), "file:///tmp/x.html");
}

#[test]
fn test_compose_document_inlines_title_and_content() {
    let doc = compose_print_document("My Notes", "<p>hello</p>");
    assert!(doc.starts_with("<!DOCTYPE html>"));
    assert!(doc.contains("<title>My Notes</title>"));
    assert!(doc.contains("<p>hello</p>"));
    assert!(doc.ends_with("</html>"));
    // The content sits in the body, after the title.
    let title_at = doc.find("<title>My Notes</title>").unwrap();
    let content_at = doc.find("<p>hello</p>").unwrap();
    assert!(title_at < content_at);
}

#[test]
fn test_evict_with_ten_files_removes_the_oldest() {
    let mut files: Vec<PrintFileStamp> = Vec::new();
    for i in 0..10 {
        let age: u64 = (7 * i + 3) % 10;  // distinct times, shuffled order
        files.push(PrintFileStamp { name: format!("old{}.html", i), modified: 1000 + age });
    }
    let removed = evict_oldest(&mut files);
    assert_eq!(removed.len(), 1);
    assert_eq!(removed[0].modified, 1000);
    assert_eq!(files.len(), 9);
    // Writing the new job's file brings the directory back to ten.
    files.push(PrintFileStamp { name: "new.html".to_owned(), modified: 2000 });
    assert_eq!(files.len(), 10);
    assert!(files.iter().all(|f| f.modified > 1000));
}

#[test]
fn test_evict_under_capacity_removes_nothing() {
    let mut files = vec![
        PrintFileStamp { name: "a.html".to_owned(), modified: 5 },
        PrintFileStamp { name: "b.html".to_owned(), modified: 1 },
    ];
    let removed = evict_oldest(&mut files);
    assert!(removed.is_empty());
    assert_eq!(files.len(), 2);
}

#[test]
fn test_evict_overfull_removes_oldest_first() {
    let mut files: Vec<PrintFileStamp> = Vec::new();
    for i in 0..14 {
        let i64v: u64 = i as u64;
        files.push(PrintFileStamp { name: format!("f{}.html", i), modified: 100 - i64v });
    }
    let removed = evict_oldest(&mut files);
    assert_eq!(removed.len(), 5);
    assert_eq!(files.len(), 9);
    let worst_kept = files.iter().map(|f| f.modified).min().unwrap();
    assert!(removed.iter().all(|r| r.modified <= worst_kept));
}

#[test]
fn test_lifecycle_happy_path() {
    let (s1, a1) = print_step(PrintStage::Created, PrintEvent::SurfaceBuilt);
    assert_eq!((s1, a1), (PrintStage::Rendering, PrintAction::WaitRenderDelay));
    let (s2, a2) = print_step(s1, PrintEvent::RenderWaitElapsed);
    assert_eq!((s2, a2), (PrintStage::PrintTriggered, PrintAction::TriggerPrint));
    let (s3, a3) = print_step(s2, PrintEvent::PrintInvoked);
    assert_eq!((s3, a3), (PrintStage::AwaitingDismissal, PrintAction::WaitDialogDelay));
    let (s4, a4) = print_step(s3, PrintEvent::DialogWaitElapsed);
    assert_eq!((s4, a4), (PrintStage::Closed, PrintAction::CloseSurface));
}

#[test]
fn test_lifecycle_early_close_and_closed_noop() {
    let (s, a) = print_step(PrintStage::Rendering, PrintEvent::CloseRequested);
    assert_eq!((s, a), (PrintStage::Closed, PrintAction::CloseSurface));
    // Closing an already-closed job succeeds as a no-op.
    let (s2, a2) = print_step(PrintStage::Closed, PrintEvent::CloseRequested);
    assert_eq!((s2, a2), (PrintStage::Closed, PrintAction::DoNothing));
    // A stale event for another stage changes nothing.
    let (s3, a3) = print_step(PrintStage::Created, PrintEvent::DialogWaitElapsed);
    assert_eq!((s3, a3), (PrintStage::Created, PrintAction::DoNothing));
}

#[test]
fn test_print_policy_constants() {
    assert_eq!(PRINT_TEMP_DIR, ".markdowner_print");
    assert_eq!(PRINT_MAX_FILES, 10);
    assert_eq!(RENDER_WAIT_MS, 2500);
    assert_eq!(DIALOG_WAIT_SECS, 300);
}
