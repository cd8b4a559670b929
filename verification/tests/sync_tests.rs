use vimcord::app::{App, AppAction, AppState, Effect};
use vimcord::model::{Message, User, DM};
use vimcord::sync::{plan_background_sync, SeenTracker};
use vimcord::text::parse_id;

fn user(id: &str) -> User {
    User { id: id.to_string(), username: format!("name-{id}") }
}

fn msg(id: &str, author: &str, content: Option<&str>) -> Message {
    Message {
        id: id.to_string(),
        author: user(author),
        content: content.map(|c| c.to_string()),
        timestamp: "t".to_string(),
    }
}

fn dm(id: &str, last: Option<&str>) -> DM {
    DM {
        id: id.to_string(),
        channel_type: 1,
        last_message_id: last.map(|l| l.to_string()),
        recipients: vec![user("u2")],
        name: None,
    }
}

#[test]
fn background_sync_scenario() {
    // DM list [{id "1", last "100"}], nothing tracked; the sync observes
    // last "150", fetches one message by u2; the current user is u1 and
    // the conversation is not open: exactly one notification, and the
    // mark for "1" becomes 150.
    let mut app = App::new(false, false, Vec::new());
    app.current_user = Some(user("u1"));
    app.dms = vec![dm("1", Some("150"))];

    let due = plan_background_sync(&app.dms, &app.last_seen);
    assert_eq!(due, vec![0]);

    let r = app.handle_keys_events(
        AppAction::ApiUpdateBackgroundMessages("1".to_string(), vec![msg("150", "u2", Some("hey"))]),
        0,
    );
    let notes: Vec<_> = r
        .effects
        .iter()
        .filter_map(|e| match e {
            Effect::Notify(n) => Some(n),
            _ => None,
        })
        .collect();
    assert_eq!(notes.len(), 1);
    assert_eq!(notes[0].summary, "name-u2");
    assert_eq!(notes[0].body, "hey");
    assert_eq!(app.last_seen.get(1), Some(150));
}

#[test]
fn no_notification_for_open_conversation() {
    let mut app = App::new(false, false, Vec::new());
    app.current_user = Some(user("u1"));
    app.state = AppState::Chatting("1".to_string());
    let r = app.handle_keys_events(
        AppAction::ApiUpdateBackgroundMessages("1".to_string(), vec![msg("150", "u2", Some("hey"))]),
        0,
    );
    assert!(r.effects.is_empty());
    // The mark still advances.
    assert_eq!(app.last_seen.get(1), Some(150));
}

#[test]
fn no_notification_for_own_messages() {
    let mut app = App::new(false, false, Vec::new());
    app.current_user = Some(user("u1"));
    let r = app.handle_keys_events(
        AppAction::ApiUpdateBackgroundMessages("1".to_string(), vec![msg("150", "u1", Some("me"))]),
        0,
    );
    assert!(r.effects.is_empty());
    assert_eq!(app.last_seen.get(1), Some(150));
}

#[test]
fn discreet_notifications_hide_the_body() {
    let mut app = App::new(false, true, Vec::new());
    app.current_user = Some(user("u1"));
    let r = app.handle_keys_events(
        AppAction::ApiUpdateBackgroundMessages("1".to_string(), vec![msg("150", "u2", Some("hey"))]),
        0,
    );
    match &r.effects[0] {
        Effect::Notify(n) => assert_eq!(n.body, "You have a new message."),
        other => panic!("unexpected effect {other:?}"),
    }
}

#[test]
fn empty_content_notifies_an_attachment() {
    let mut app = App::new(false, false, Vec::new());
    app.current_user = Some(user("u1"));
    let r = app.handle_keys_events(
        AppAction::ApiUpdateBackgroundMessages("1".to_string(), vec![msg("150", "u2", Some(""))]),
        0,
    );
    match &r.effects[0] {
        Effect::Notify(n) => assert_eq!(n.body, "Sent an attachment."),
        other => panic!("unexpected effect {other:?}"),
    }
}

#[test]
fn marks_never_regress() {
    let mut tr = SeenTracker::new();
    tr.advance(1, 150);
    tr.advance(1, 100);
    assert_eq!(tr.get(1), Some(150));
    tr.advance(1, 200);
    assert_eq!(tr.get(1), Some(200));
}

#[test]
fn marks_are_per_conversation() {
    let mut tr = SeenTracker::new();
    tr.advance(1, 10);
    tr.advance(2, 20);
    assert_eq!(tr.get(1), Some(10));
    assert_eq!(tr.get(2), Some(20));
    assert_eq!(tr.get(3), None);
}

#[test]
fn only_stale_conversations_are_due() {
    let mut tr = SeenTracker::new();
    tr.advance(parse_id("1"), 150);
    tr.advance(parse_id("2"), 100);
    let dms = vec![dm("1", Some("150")), dm("2", Some("140")), dm("3", Some("5"))];
    let due = plan_background_sync(&dms, &tr);
    // "1" is current, "2" reports newer, "3" is untracked.
    assert_eq!(due, vec![1, 2]);
}

#[test]
fn stale_batches_cannot_roll_marks_back() {
    let mut app = App::new(false, false, Vec::new());
    app.current_user = Some(user("u1"));
    app.handle_keys_events(
        AppAction::ApiUpdateBackgroundMessages("1".to_string(), vec![msg("300", "u2", Some("a"))]),
        0,
    );
    app.handle_keys_events(
        AppAction::ApiUpdateBackgroundMessages("1".to_string(), vec![msg("200", "u2", Some("b"))]),
        0,
    );
    assert_eq!(app.last_seen.get(1), Some(300));
}

#[test]
fn parse_id_accepts_digits_and_rejects_the_rest() {
    assert_eq!(parse_id("150"), 150);
    assert_eq!(parse_id("0"), 0);
    assert_eq!(parse_id(""), 0);
    assert_eq!(parse_id("12a"), 0);
    assert_eq!(parse_id("18446744073709551615"), u64::MAX);
    assert_eq!(parse_id("18446744073709551616"), 0);
}
