use focusbot::registry::SessionRegistry;
use focusbot::session::FocusSession;

fn session(owner: u64, started_at: u64, duration_secs: u64) -> FocusSession {
    FocusSession { owner, started_at, duration_secs }
}

#[test]
fn put_then_get_returns_session() {
    let mut reg = SessionRegistry::new();
    let s = session(7, 1_000, 600);
    reg.put(7, s);
    assert_eq!(reg.get(7), Some(s));
}

#[test]
fn get_unknown_owner_is_none() {
    let reg = SessionRegistry::new();
    assert_eq!(reg.get(42), None);
}

#[test]
fn get_survives_writes_for_other_owners() {
    let mut reg = SessionRegistry::new();
    let s = session(7, 1_000, 600);
    reg.put(7, s);
    reg.put(8, session(8, 2_000, 60));
    reg.put(9, session(9, 3_000, 120));
    assert_eq!(reg.get(7), Some(s));
}

#[test]
fn second_put_overwrites_first() {
    // Two creates for the same owner: the last writer wins outright,
    // whichever order they landed in; never a merged record.
    let mut reg = SessionRegistry::new();
    let first = session(7, 1_000, 600);
    let second = session(7, 1_005, 1_200);
    reg.put(7, first);
    reg.put(7, second);
    assert_eq!(reg.get(7), Some(second));

    let mut reg2 = SessionRegistry::new();
    reg2.put(7, second);
    reg2.put(7, first);
    assert_eq!(reg2.get(7), Some(first));
}

#[test]
fn remove_hands_back_the_session() {
    let mut reg = SessionRegistry::new();
    let s = session(7, 1_000, 600);
    reg.put(7, s);
    assert_eq!(reg.remove(7), Some(s));
    assert_eq!(reg.get(7), None);
    assert_eq!(reg.remove(7), None);
}

#[test]
fn list_on_empty_registry_is_empty() {
    let reg = SessionRegistry::new();
    assert!(reg.list().is_empty());
}

#[test]
fn list_reports_every_entry_once() {
    let mut reg = SessionRegistry::new();
    let a = session(1, 100, 60);
    let b = session(2, 200, 120);
    let c = session(3, 300, 180);
    reg.put(1, a);
    reg.put(2, b);
    reg.put(3, c);
    let mut got = reg.list();
    got.sort_by_key(|e| e.0);
    assert_eq!(got, vec![(1, a), (2, b), (3, c)]);
}

#[test]
fn list_twice_yields_same_set() {
    let mut reg = SessionRegistry::new();
    reg.put(1, session(1, 100, 60));
    reg.put(2, session(2, 200, 120));
    let mut first = reg.list();
    let mut second = reg.list();
    first.sort_by_key(|e| e.0);
    second.sort_by_key(|e| e.0);
    assert_eq!(first, second);
}
