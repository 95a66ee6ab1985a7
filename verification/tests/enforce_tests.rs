use focusbot::announce::{decimal_string, kick_announcement, mention_reply, start_announcement};
use focusbot::enforce::{inspect_message, plan_remediation, Enforcement};
use focusbot::focus::begin_focus;
use focusbot::parse::FocusError;
use focusbot::registry::SessionRegistry;
use focusbot::session::FocusSession;

#[test]
fn begin_focus_records_the_session() {
    let mut reg = SessionRegistry::new();
    let s = begin_focus(&mut reg, 7, "10 minutes", 1_000).unwrap();
    assert_eq!(s, FocusSession { owner: 7, started_at: 1_000, duration_secs: 600 });
    assert_eq!(reg.get(7), Some(s));
    assert_eq!(s.finish_time(), 1_600);
}

#[test]
fn begin_focus_rejects_garbage_and_changes_nothing() {
    let mut reg = SessionRegistry::new();
    let r = begin_focus(&mut reg, 7, "whenever I feel like it", 1_000);
    assert_eq!(r, Err(FocusError::InvalidDuration));
    assert_eq!(reg.get(7), None);
    assert!(reg.list().is_empty());
}

#[test]
fn begin_focus_overwrites_previous_session() {
    let mut reg = SessionRegistry::new();
    begin_focus(&mut reg, 7, "10 minutes", 1_000).unwrap();
    let s2 = begin_focus(&mut reg, 7, "2 hours", 1_050).unwrap();
    assert_eq!(reg.get(7), Some(s2));
    assert_eq!(s2.duration_secs, 7_200);
}

#[test]
fn mention_of_focused_user_fires_against_author() {
    // Scenario: user 4242 starts a ten-minute session; right after, another
    // user's message contains 4242's identifier. The mention check fires and
    // the plan removes the author of that message, not the focused user.
    let mut reg = SessionRegistry::new();
    begin_focus(&mut reg, 4242, "10 minutes", 1_000).unwrap();
    let e = inspect_message(&reg, 7, "hey 4242 are you around?", 1_001);
    assert!(e.mention_violation);
    assert!(!e.self_violation);
    let plan = plan_remediation(e, "Pinger");
    assert!(plan.kick_author);
    assert_eq!(plan.reply.as_deref(), Some("DO NOT PING FOCUSED USERS"));
    assert_eq!(plan.announcement, None);
}

#[test]
fn self_message_two_minutes_in_fires() {
    let mut reg = SessionRegistry::new();
    begin_focus(&mut reg, 7, "10 minutes", 1_000).unwrap();
    let e = inspect_message(&reg, 7, "just one quick thought", 1_000 + 120);
    assert!(e.self_violation);
    assert!(!e.mention_violation);
    let plan = plan_remediation(e, "Dreamer");
    assert!(plan.kick_author);
    assert_eq!(plan.reply, None);
    assert_eq!(
        plan.announcement.as_deref(),
        Some("Dreamer was kicked for speaking when they were meant to focus"),
    );
}

#[test]
fn self_message_after_expiry_does_not_fire() {
    let mut reg = SessionRegistry::new();
    begin_focus(&mut reg, 7, "10 minutes", 1_000).unwrap();
    let e = inspect_message(&reg, 7, "done focusing!", 1_000 + 660);
    assert!(!e.self_violation);
    assert!(!e.mention_violation);
    let plan = plan_remediation(e, "Dreamer");
    assert!(!plan.kick_author);
    assert_eq!(plan.reply, None);
    assert_eq!(plan.announcement, None);
}

#[test]
fn mention_fires_even_for_expired_sessions() {
    // The mention check is existence-in-registry, not activity: expired
    // sessions are never deleted and still protect their owner from pings.
    let mut reg = SessionRegistry::new();
    begin_focus(&mut reg, 4242, "10 minutes", 1_000).unwrap();
    let e = inspect_message(&reg, 7, "4242 you free now?", 1_000 + 700);
    assert!(e.mention_violation);
}

#[test]
fn both_checks_can_fire_for_one_message() {
    let mut reg = SessionRegistry::new();
    begin_focus(&mut reg, 7, "10 minutes", 1_000).unwrap();
    begin_focus(&mut reg, 4242, "10 minutes", 1_000).unwrap();
    let e = inspect_message(&reg, 7, "pinging 4242 mid-focus", 1_060);
    assert!(e.mention_violation);
    assert!(e.self_violation);
    let plan = plan_remediation(e, "Dreamer");
    assert!(plan.kick_author);
    assert!(plan.reply.is_some());
    assert!(plan.announcement.is_some());
}

#[test]
fn quiet_message_passes() {
    let mut reg = SessionRegistry::new();
    begin_focus(&mut reg, 4242, "10 minutes", 1_000).unwrap();
    let e = inspect_message(&reg, 7, "lovely weather today", 1_001);
    assert_eq!(e, Enforcement { mention_violation: false, self_violation: false });
}

#[test]
fn empty_registry_flags_nothing() {
    let reg = SessionRegistry::new();
    let e = inspect_message(&reg, 7, "4242 123 456", 1_000);
    assert!(!e.mention_violation);
    assert!(!e.self_violation);
}

#[test]
fn decimal_string_renders_identifiers() {
    assert_eq!(decimal_string(0), "0");
    assert_eq!(decimal_string(7), "7");
    assert_eq!(decimal_string(4242), "4242");
    assert_eq!(decimal_string(1023646930980585542), "1023646930980585542");
    assert_eq!(decimal_string(u64::MAX), "18446744073709551615");
}

#[test]
fn start_announcement_wording() {
    assert_eq!(
        start_announcement("Ann", "taxes", 1_600),
        "Ann is focusing on taxes and will finish at <t:1600:R>",
    );
}

#[test]
fn violation_wording() {
    assert_eq!(mention_reply(), "DO NOT PING FOCUSED USERS");
    assert_eq!(
        kick_announcement("Bob"),
        "Bob was kicked for speaking when they were meant to focus",
    );
}
