use vimcord::app::{App, AppAction, AppState};
use vimcord::emoji::build_custom_token;
use vimcord::lists::{build_emoji_cands, EmojiChoice};
use vimcord::model::Emoji;

fn chars(s: &str) -> Vec<char> {
    s.chars().collect()
}

fn text(v: &[char]) -> String {
    v.iter().collect()
}

fn chat_app_with_map(map: Vec<(String, String)>) -> App {
    let mut app = App::new(false, false, map);
    app.state = AppState::Chatting("7".to_string());
    app
}

fn step(app: &mut App, action: AppAction) {
    app.handle_keys_events(action, 0);
}

#[test]
fn tada_completion_scenario() {
    // Typing `:` then "ta" with ("tada", the party-popper glyph) in the
    // table and no custom emoji: one candidate; confirming splices the
    // glyph and a space and leaves the emoji screen.
    let map = vec![("tada".to_string(), "\u{1f389}".to_string())];
    let mut app = chat_app_with_map(map);
    step(&mut app, AppAction::SelectEmoji);
    step(&mut app, AppAction::InputChar('t'));
    step(&mut app, AppAction::InputChar('a'));
    assert!(matches!(app.state, AppState::EmojiSelection(_)));
    assert_eq!(text(&app.emoji_filter), "ta");
    let cands = build_emoji_cands(&app.emoji_map, &app.custom_emojis, &app.emoji_filter);
    assert_eq!(cands.len(), 1);
    step(&mut app, AppAction::InputSubmit);
    assert!(matches!(app.state, AppState::Chatting(_)));
    assert_eq!(text(&app.input), "\u{1f389} ");
    assert_eq!(app.cursor_position, 2);
}

#[test]
fn colon_mid_word_is_literal() {
    let mut app = chat_app_with_map(Vec::new());
    step(&mut app, AppAction::InputChar('h'));
    step(&mut app, AppAction::SelectEmoji);
    assert!(matches!(app.state, AppState::Chatting(_)));
    assert_eq!(text(&app.input), "h:");
}

#[test]
fn colon_after_space_opens_emoji_screen() {
    let mut app = chat_app_with_map(Vec::new());
    step(&mut app, AppAction::InputChar('h'));
    step(&mut app, AppAction::InputChar(' '));
    step(&mut app, AppAction::SelectEmoji);
    assert!(matches!(app.state, AppState::EmojiSelection(_)));
    assert_eq!(app.emoji_filter_start, Some(2));
    assert_eq!(text(&app.input), "h :");
}

#[test]
fn space_ends_emoji_mode_keeping_buffer() {
    let mut app = chat_app_with_map(Vec::new());
    step(&mut app, AppAction::SelectEmoji);
    step(&mut app, AppAction::InputChar('a'));
    step(&mut app, AppAction::InputChar(' '));
    assert!(matches!(app.state, AppState::Chatting(_)));
    assert_eq!(text(&app.input), ":a ");
    assert!(app.emoji_filter.is_empty());
    assert!(app.emoji_filter_start.is_none());
}

#[test]
fn backspace_to_empty_filter_removes_colon() {
    let mut app = chat_app_with_map(Vec::new());
    step(&mut app, AppAction::SelectEmoji);
    step(&mut app, AppAction::InputChar('a'));
    step(&mut app, AppAction::InputBackspace);
    assert!(matches!(app.state, AppState::Chatting(_)));
    assert_eq!(text(&app.input), "");
    assert_eq!(app.cursor_position, 0);
}

#[test]
fn cancel_removes_the_filter_span_only() {
    let mut app = chat_app_with_map(Vec::new());
    step(&mut app, AppAction::InputChar('h'));
    step(&mut app, AppAction::InputChar(' '));
    step(&mut app, AppAction::SelectEmoji);
    step(&mut app, AppAction::InputChar('a'));
    step(&mut app, AppAction::InputChar('b'));
    step(&mut app, AppAction::InputEscape);
    assert!(matches!(app.state, AppState::Chatting(_)));
    assert_eq!(text(&app.input), "h ");
    assert_eq!(app.cursor_position, 2);
}

#[test]
fn confirm_with_no_candidates_keeps_buffer() {
    let mut app = chat_app_with_map(Vec::new());
    step(&mut app, AppAction::SelectEmoji);
    step(&mut app, AppAction::InputChar('z'));
    step(&mut app, AppAction::InputSubmit);
    assert!(matches!(app.state, AppState::Chatting(_)));
    assert_eq!(text(&app.input), ":z");
}

#[test]
fn custom_emoji_commits_as_mention_token() {
    let mut app = chat_app_with_map(Vec::new());
    app.custom_emojis = vec![Emoji {
        id: "123".to_string(),
        name: "blob".to_string(),
        animated: Some(true),
    }];
    step(&mut app, AppAction::SelectEmoji);
    step(&mut app, AppAction::InputChar('b'));
    step(&mut app, AppAction::InputSubmit);
    assert_eq!(text(&app.input), "<a:blob:123> ");
}

#[test]
fn custom_token_formats() {
    let animated = Emoji { id: "1".to_string(), name: "x".to_string(), animated: Some(true) };
    let plain = Emoji { id: "2".to_string(), name: "y".to_string(), animated: None };
    assert_eq!(text(&build_custom_token(&animated)), "<a:x:1>");
    assert_eq!(text(&build_custom_token(&plain)), "<:y:2>");
}

#[test]
fn candidates_list_table_before_customs() {
    let map = vec![
        ("cat".to_string(), "c".to_string()),
        ("dog".to_string(), "d".to_string()),
    ];
    let customs = vec![Emoji { id: "9".to_string(), name: "cab".to_string(), animated: None }];
    let cands = build_emoji_cands(&map, &customs, &chars("ca"));
    assert_eq!(cands, vec![EmojiChoice::Table(0), EmojiChoice::Custom(0)]);
}

#[test]
fn emoji_filter_span_matches_buffer_after_edits() {
    // The emoji invariant, observed: input[start] is ':' and the text
    // between it and the cursor is the filter.
    let mut app = chat_app_with_map(Vec::new());
    step(&mut app, AppAction::SelectEmoji);
    for c in ['p', 'q', 'r'] {
        step(&mut app, AppAction::InputChar(c));
        let st = app.emoji_filter_start.unwrap();
        assert_eq!(app.input[st], ':');
        assert_eq!(app.input[st + 1..app.cursor_position], app.emoji_filter[..]);
    }
}
