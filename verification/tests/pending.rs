use markdowner::pending::PendingFileState;

#[test]
fn test_slot_starts_empty() {
    let mut slot = PendingFileState::new();
    assert_eq!(slot.take(), None);
}

#[test]
fn test_set_then_set_then_take_yields_latest_once() {
    let mut slot = PendingFileState::new();
    slot.set("/tmp/a.md".to_owned());
    slot.set("/tmp/b.md".to_owned());
    assert_eq!(slot.take(), Some("/tmp/b.md".to_owned()));
    assert_eq!(slot.take(), None);
}

#[test]
fn test_take_consumes_before_next_set() {
    let mut slot = PendingFileState::new();
    slot.set("/tmp/a.md".to_owned());
    assert_eq!(slot.take(), Some("/tmp/a.md".to_owned()));
    assert_eq!(slot.take(), None);
    slot.set("/tmp/c.md".to_owned());
    assert_eq!(slot.take(), Some("/tmp/c.md".to_owned()));
}
