use focusbot::notes::NoteStore;

#[test]
fn create_then_list_returns_notes() {
    let mut store = NoteStore::new();
    store.create(1, "shopping".to_string(), "milk".to_string());
    store.create(1, "shopping".to_string(), "eggs".to_string());
    let mut notes = store.list(1, &"shopping".to_string());
    notes.sort();
    assert_eq!(notes, vec!["eggs".to_string(), "milk".to_string()]);
}

#[test]
fn duplicate_note_is_kept_once() {
    let mut store = NoteStore::new();
    store.create(1, "shopping".to_string(), "milk".to_string());
    store.create(1, "shopping".to_string(), "milk".to_string());
    assert_eq!(store.list(1, &"shopping".to_string()), vec!["milk".to_string()]);
}

#[test]
fn unknown_topic_is_empty() {
    let mut store = NoteStore::new();
    store.create(1, "shopping".to_string(), "milk".to_string());
    assert!(store.list(1, &"work".to_string()).is_empty());
}

#[test]
fn users_do_not_share_buckets() {
    let mut store = NoteStore::new();
    store.create(1, "shopping".to_string(), "milk".to_string());
    store.create(2, "shopping".to_string(), "nails".to_string());
    assert_eq!(store.list(1, &"shopping".to_string()), vec!["milk".to_string()]);
    assert_eq!(store.list(2, &"shopping".to_string()), vec!["nails".to_string()]);
}

#[test]
fn has_user_tracks_any_note() {
    let mut store = NoteStore::new();
    assert!(!store.has_user(1));
    store.create(1, "shopping".to_string(), "milk".to_string());
    assert!(store.has_user(1));
    assert!(!store.has_user(2));
}
