use vimcord::app::{action_for_key, App, AppAction, AppState, Effect, KeyInput, KeywordAction, Window};
use vimcord::lists::{filtered_dms, filtered_guilds, lowered_chars};
use vimcord::model::{Channel, Config, Guild, LogType, User, DM};

fn chars(s: &str) -> Vec<char> {
    s.chars().collect()
}

fn text(v: &[char]) -> String {
    v.iter().collect()
}

fn guild(id: &str, name: &str) -> Guild {
    Guild { id: id.to_string(), name: name.to_string() }
}

fn dm(id: &str, username: &str) -> DM {
    DM {
        id: id.to_string(),
        channel_type: 1,
        last_message_id: None,
        recipients: vec![User { id: "x".to_string(), username: username.to_string() }],
        name: None,
    }
}

fn step(app: &mut App, action: AppAction) -> vimcord::app::StepResult {
    app.handle_keys_events(action, 0)
}

#[test]
fn sigint_always_breaks() {
    let mut app = App::new(false, false, Vec::new());
    let r = step(&mut app, AppAction::SigInt);
    assert_eq!(r.outcome, Some(KeywordAction::Break));
}

#[test]
fn tick_only_advances_the_spinner() {
    let mut app = App::new(false, false, Vec::new());
    let r = step(&mut app, AppAction::Tick);
    assert_eq!(r.outcome, Some(KeywordAction::Continue));
    assert_eq!(app.tick_count, 1);
}

#[test]
fn home_submit_routes_by_selection() {
    let mut app = App::new(false, false, Vec::new());
    app.state = AppState::Home;
    let r = step(&mut app, AppAction::InputSubmit);
    assert!(matches!(
        r.effects[0],
        Effect::Enqueue(AppAction::TransitionToGuilds)
    ));

    app.selection_index = 1;
    let r = step(&mut app, AppAction::InputSubmit);
    assert!(matches!(r.effects[0], Effect::Enqueue(AppAction::TransitionToDM)));

    app.selection_index = 2;
    let r = step(&mut app, AppAction::InputSubmit);
    assert_eq!(r.outcome, Some(KeywordAction::Break));
}

#[test]
fn home_selection_wraps_both_ways() {
    let mut app = App::new(false, false, Vec::new());
    app.state = AppState::Home;
    step(&mut app, AppAction::SelectPrevious);
    assert_eq!(app.selection_index, 2);
    step(&mut app, AppAction::SelectNext);
    assert_eq!(app.selection_index, 0);
}

#[test]
fn guild_filter_is_case_insensitive() {
    let guilds = vec![guild("1", "Rustaceans"), guild("2", "GENERAL")];
    let flt = lowered_chars(&chars("GeN"));
    let idxs = filtered_guilds(&guilds, &flt);
    assert_eq!(idxs, vec![1]);
}

#[test]
fn dm_filter_uses_display_name() {
    let dms = vec![dm("1", "Alice"), dm("2", "Bob")];
    let flt = lowered_chars(&chars("ali"));
    let idxs = filtered_dms(&dms, &flt);
    assert_eq!(idxs, vec![0]);
}

#[test]
fn selection_stays_in_bounds_as_the_filter_narrows() {
    let mut app = App::new(false, false, Vec::new());
    app.state = AppState::SelectingGuild;
    app.guilds = vec![guild("1", "alpha"), guild("2", "beta"), guild("3", "album")];
    step(&mut app, AppAction::SelectNext);
    step(&mut app, AppAction::SelectNext);
    assert_eq!(app.selection_index, 2);
    // Typing narrows the list to two entries; the selection restarts.
    step(&mut app, AppAction::InputChar('a'));
    step(&mut app, AppAction::InputChar('l'));
    assert_eq!(app.selection_index, 0);
    let flt = lowered_chars(&app.input);
    let idxs = filtered_guilds(&app.guilds, &flt);
    assert!(app.selection_index < idxs.len());
}

#[test]
fn guild_submit_starts_channel_load() {
    let mut app = App::new(false, false, Vec::new());
    app.state = AppState::SelectingGuild;
    app.guilds = vec![guild("g9", "team")];
    let r = step(&mut app, AppAction::InputSubmit);
    assert_eq!(r.effects.len(), 2);
    match (&r.effects[0], &r.effects[1]) {
        (
            Effect::Enqueue(AppAction::TransitionToLoading(Window::Channel(g))),
            Effect::FetchChannels(g2),
        ) => {
            assert_eq!(g, "g9");
            assert_eq!(g2, "g9");
        },
        other => panic!("unexpected effects {other:?}"),
    }
}

#[test]
fn dm_submit_fetches_messages_before_the_chat_opens() {
    let mut app = App::new(false, false, Vec::new());
    app.state = AppState::SelectingDM;
    app.dms = vec![dm("77", "Alice")];
    let r = step(&mut app, AppAction::InputSubmit);
    match (&r.effects[0], &r.effects[1]) {
        (Effect::FetchMessages(c), Effect::Enqueue(AppAction::TransitionToChat(c2))) => {
            assert_eq!(c, "77");
            assert_eq!(c2, "77");
        },
        other => panic!("unexpected effects {other:?}"),
    }
}

#[test]
fn submit_on_empty_filtered_list_just_continues() {
    let mut app = App::new(false, false, Vec::new());
    app.state = AppState::SelectingGuild;
    let r = step(&mut app, AppAction::InputSubmit);
    assert_eq!(r.outcome, Some(KeywordAction::Continue));
    assert!(r.effects.is_empty());
}

#[test]
fn chat_submit_sends_and_clears_the_buffer() {
    let mut app = App::new(false, false, Vec::new());
    app.state = AppState::Chatting("55".to_string());
    for c in "hi there".chars() {
        step(&mut app, AppAction::InputChar(c));
    }
    let r = step(&mut app, AppAction::InputSubmit);
    match &r.effects[0] {
        Effect::SendMessage(cid, content) => {
            assert_eq!(cid, "55");
            assert_eq!(content, "hi there");
        },
        other => panic!("unexpected effect {other:?}"),
    }
    assert!(app.input.is_empty());
    assert_eq!(app.cursor_position, 0);

    let r2 = step(&mut app, AppAction::InputSubmit);
    assert!(r2.effects.is_empty());
}

#[test]
fn transitions_reset_list_and_buffer() {
    let mut app = App::new(false, false, Vec::new());
    app.state = AppState::SelectingGuild;
    step(&mut app, AppAction::InputChar('x'));
    step(&mut app, AppAction::TransitionToDM);
    assert!(matches!(app.state, AppState::SelectingDM));
    assert!(app.input.is_empty());
    assert_eq!(app.selection_index, 0);
}

#[test]
fn end_loading_hands_control_to_the_target() {
    let mut app = App::new(false, false, Vec::new());
    app.state = AppState::Loading(Window::Chat("9".to_string()));
    let r = step(&mut app, AppAction::EndLoading);
    match &r.effects[0] {
        Effect::Enqueue(AppAction::TransitionToChat(c)) => assert_eq!(c, "9"),
        other => panic!("unexpected effect {other:?}"),
    }
}

#[test]
fn escape_walks_back_through_the_screens() {
    let mut app = App::new(false, false, Vec::new());
    app.state = AppState::SelectingChannel("g".to_string());
    let r = step(&mut app, AppAction::InputEscape);
    assert!(matches!(
        r.effects[0],
        Effect::Enqueue(AppAction::TransitionToGuilds)
    ));

    app.state = AppState::Home;
    let r = step(&mut app, AppAction::InputEscape);
    assert_eq!(r.outcome, Some(KeywordAction::Break));
}

#[test]
fn escape_in_chat_asks_for_the_channel() {
    let mut app = App::new(false, false, Vec::new());
    app.state = AppState::Chatting("12".to_string());
    let r = step(&mut app, AppAction::InputEscape);
    match &r.effects[0] {
        Effect::FetchChannelInfo(c) => assert_eq!(c, "12"),
        other => panic!("unexpected effect {other:?}"),
    }
}

#[test]
fn escape_in_insert_mode_returns_to_normal() {
    let mut app = App::new(true, false, Vec::new());
    app.state = AppState::Chatting("12".to_string());
    step(&mut app, AppAction::InputChar('i'));
    for c in "ok".chars() {
        step(&mut app, AppAction::InputChar(c));
    }
    let r = step(&mut app, AppAction::InputEscape);
    assert!(r.effects.is_empty());
    assert!(matches!(app.mode, vimcord::app::InputMode::Normal));
    assert_eq!(app.cursor_position, 1);
    assert_eq!(text(&app.input), "ok");
}

#[test]
fn channel_info_decides_the_fallback() {
    let mut app = App::new(false, false, Vec::new());
    let dm_channel = Channel {
        id: "1".to_string(),
        name: String::new(),
        channel_type: 1,
        guild_id: None,
        parent_id: None,
        permission_overwrites: Vec::new(),
    };
    let r = step(&mut app, AppAction::ChannelInfoFetched(Ok(dm_channel.clone())));
    assert!(matches!(r.effects[0], Effect::Enqueue(AppAction::TransitionToDM)));

    let mut guild_channel = dm_channel.clone();
    guild_channel.channel_type = 0;
    guild_channel.guild_id = Some("g4".to_string());
    let r = step(&mut app, AppAction::ChannelInfoFetched(Ok(guild_channel)));
    match &r.effects[0] {
        Effect::Enqueue(AppAction::TransitionToChannels(g)) => assert_eq!(g, "g4"),
        other => panic!("unexpected effect {other:?}"),
    }

    let r = step(&mut app, AppAction::ChannelInfoFetched(Err("boom".to_string())));
    assert!(matches!(r.effects[0], Effect::Enqueue(AppAction::TransitionToHome)));
    assert_eq!(app.status_message, "boom");
}

#[test]
fn failed_fetch_leaves_collections_alone() {
    // A fetch failure produces no update action at all, so the previous
    // collections stay; an update replaces them wholesale.
    let mut app = App::new(false, false, Vec::new());
    app.guilds = vec![guild("1", "old")];
    step(&mut app, AppAction::ApiUpdateGuilds(vec![guild("2", "new")]));
    assert_eq!(app.guilds.len(), 1);
    assert_eq!(app.guilds[0].id, "2");
}

#[test]
fn message_update_clamps_the_scrollback() {
    let mut app = App::new(false, false, Vec::new());
    app.state = AppState::Chatting("c".to_string());
    app.messages = (0..5).map(|i| sample_message(&i.to_string())).collect();
    app.selection_index = 5;
    step(&mut app, AppAction::ApiUpdateMessages(vec![sample_message("9")]));
    assert_eq!(app.selection_index, 1);
}

#[test]
fn keys_map_to_actions() {
    assert!(matches!(action_for_key(KeyInput::Esc), AppAction::InputEscape));
    assert!(matches!(action_for_key(KeyInput::Enter), AppAction::InputSubmit));
    assert!(matches!(action_for_key(KeyInput::Backspace), AppAction::InputBackspace));
    assert!(matches!(action_for_key(KeyInput::Up), AppAction::SelectPrevious));
    assert!(matches!(action_for_key(KeyInput::Down), AppAction::SelectNext));
    assert!(matches!(action_for_key(KeyInput::CtrlC), AppAction::SigInt));
    assert!(matches!(action_for_key(KeyInput::Char(':')), AppAction::SelectEmoji));
    assert!(matches!(action_for_key(KeyInput::Char('z')), AppAction::InputChar('z')));
}

#[test]
fn config_default_enables_modal_editing() {
    let cfg = Config::default();
    assert_eq!(cfg.version, 1);
    assert!(cfg.vim_mode);
    assert!(!cfg.discreet_notifs);
    assert!(cfg.emoji_map.is_empty());
}

#[test]
fn log_labels() {
    assert_eq!(LogType::Error.label(), "ERROR");
    assert_eq!(LogType::Warning.label(), "WARN");
    assert_eq!(LogType::Info.label(), "INFO");
    assert_eq!(LogType::Debug.label(), "DEBUG");
}

#[test]
fn backspace_edits_at_the_cursor() {
    let mut app = App::new(false, false, Vec::new());
    app.state = AppState::Chatting("c".to_string());
    for c in "abc".chars() {
        step(&mut app, AppAction::InputChar(c));
    }
    step(&mut app, AppAction::InputBackspace);
    assert_eq!(text(&app.input), "ab");
    assert_eq!(app.cursor_position, 2);
}

fn sample_message(id: &str) -> vimcord::model::Message {
    vimcord::model::Message {
        id: id.to_string(),
        author: User { id: "u".to_string(), username: "u".to_string() },
        content: Some("m".to_string()),
        timestamp: "t".to_string(),
    }
}
