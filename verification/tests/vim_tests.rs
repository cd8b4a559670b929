use vimcord::app::{App, AppAction, AppState, InputMode};
use vimcord::vim::{
    clamp_pos, cursor_down, cursor_up, delete_line, execute_operator, handle_vim_keys, motion_end,
    word_back, word_fwd, VimMotion, VimOperator, VimState,
};

fn chars(s: &str) -> Vec<char> {
    s.chars().collect()
}

fn text(v: &[char]) -> String {
    v.iter().collect()
}

fn chat_app(buffer: &str, cursor: usize) -> App {
    let mut app = App::new(true, false, Vec::new());
    app.state = AppState::Chatting("42".to_string());
    app.input = chars(buffer);
    app.cursor_position = cursor;
    app
}

#[test]
fn word_forward_from_word_start() {
    let v = chars("hello world");
    assert_eq!(word_fwd(&v, 0), 6);
}

#[test]
fn word_forward_from_whitespace_stops_at_next_word() {
    let v = chars("a  bb");
    assert_eq!(word_fwd(&v, 1), 3);
}

#[test]
fn word_backward_from_word_middle_goes_to_word_start() {
    let v = chars("hello world");
    assert_eq!(word_back(&v, 8), 6);
}

#[test]
fn word_backward_from_word_start_goes_to_previous_word() {
    let v = chars("hello world");
    assert_eq!(word_back(&v, 6), 0);
}

#[test]
fn word_round_trip_never_lands_right_of_start() {
    let v = chars("one two three");
    for start in 0..=v.len() {
        let fwd = word_fwd(&v, start);
        let back = word_back(&v, fwd);
        assert!(back <= start, "start {start} fwd {fwd} back {back}");
    }
}

#[test]
fn delete_word_scenario() {
    // buffer "hello world", cursor 0, `d` then `w`.
    let mut app = chat_app("hello world", 0);
    handle_vim_keys(&mut app, 'd', 0);
    handle_vim_keys(&mut app, 'w', 10);
    assert_eq!(text(&app.input), "world");
    assert_eq!(app.cursor_position, 0);
}

#[test]
fn operator_times_out_after_a_second() {
    let mut app = chat_app("hello world", 0);
    handle_vim_keys(&mut app, 'd', 0);
    handle_vim_keys(&mut app, 'w', 1000);
    // The operator expired: `w` is a plain motion.
    assert_eq!(text(&app.input), "hello world");
    assert_eq!(app.cursor_position, 6);
}

#[test]
fn armed_operator_cancelled_by_x_mutates_nothing() {
    // A key that is no motion of the armed operator silently clears it
    // and leaves the buffer alone.
    let mut app = chat_app("ab", 0);
    handle_vim_keys(&mut app, 'd', 0);
    handle_vim_keys(&mut app, 'x', 1);
    assert_eq!(text(&app.input), "ab");
    assert_eq!(app.cursor_position, 0);
    assert!(app.vim_state.as_ref().unwrap().operator.is_none());
    // A later `x` with nothing armed deletes normally.
    handle_vim_keys(&mut app, 'x', 2);
    assert_eq!(text(&app.input), "b");
}

#[test]
fn armed_operator_cancelled_by_colon_and_mode_keys() {
    let mut app = chat_app("one two", 3);
    handle_vim_keys(&mut app, 'd', 0);
    handle_vim_keys(&mut app, ':', 1);
    assert!(app.vim_state.as_ref().unwrap().operator.is_none());
    assert_eq!(text(&app.input), "one two");

    let mut app2 = chat_app("one two", 3);
    handle_vim_keys(&mut app2, 'd', 0);
    handle_vim_keys(&mut app2, 'i', 1);
    assert!(app2.vim_state.as_ref().unwrap().operator.is_none());
    assert!(matches!(app2.mode, InputMode::Normal));
    assert_eq!(app2.cursor_position, 3);
}

#[test]
fn arming_records_the_clock() {
    let mut app = chat_app("abc", 0);
    handle_vim_keys(&mut app, 'd', 500);
    let vs = app.vim_state.as_ref().unwrap();
    assert!(vs.operator.is_some());
    assert_eq!(vs.last_action_time, 500);
}

#[test]
fn operator_cancelled_by_unrelated_key() {
    let mut app = chat_app("hello world", 0);
    handle_vim_keys(&mut app, 'd', 0);
    handle_vim_keys(&mut app, 'q', 1);
    handle_vim_keys(&mut app, 'w', 2);
    assert_eq!(text(&app.input), "hello world");
    assert_eq!(app.cursor_position, 6);
}

#[test]
fn double_d_deletes_whole_line() {
    let mut app = chat_app("one\ntwo\nthree", 5);
    handle_vim_keys(&mut app, 'd', 0);
    handle_vim_keys(&mut app, 'd', 1);
    assert_eq!(text(&app.input), "one\nthree");
    assert_eq!(app.cursor_position, 4);
}

#[test]
fn double_d_on_last_line_takes_leading_newline() {
    let mut app = chat_app("one\ntwo", 5);
    handle_vim_keys(&mut app, 'd', 0);
    handle_vim_keys(&mut app, 'd', 1);
    assert_eq!(text(&app.input), "one");
    assert_eq!(app.cursor_position, 0);
}

#[test]
fn x_deletes_character_under_cursor() {
    let mut app = chat_app("abc", 1);
    handle_vim_keys(&mut app, 'x', 0);
    assert_eq!(text(&app.input), "ac");
    assert_eq!(app.cursor_position, 1);
}

#[test]
fn h_refuses_control_characters_but_allows_tab() {
    let mut app = chat_app("a\tb", 2);
    handle_vim_keys(&mut app, 'h', 0);
    assert_eq!(app.cursor_position, 1);
    let mut app2 = chat_app("a\nb", 2);
    handle_vim_keys(&mut app2, 'h', 0);
    assert_eq!(app2.cursor_position, 2);
}

#[test]
fn l_stops_before_newline() {
    let mut app = chat_app("ab\ncd", 0);
    handle_vim_keys(&mut app, 'l', 0);
    assert_eq!(app.cursor_position, 1);
    handle_vim_keys(&mut app, 'l', 0);
    // Moving right again would land on the newline.
    assert_eq!(app.cursor_position, 1);
}

#[test]
fn j_keeps_display_column_across_wide_glyphs() {
    // "你" is two columns wide, so the cursor after "你x" sits at column 3
    // and lands three characters into the next line.
    let v = chars("\u{4f60}x\nabcd");
    assert_eq!(cursor_down(&v, 2), 6);
}

#[test]
fn k_moves_to_previous_line_column() {
    let v = chars("abcd\nxy");
    assert_eq!(cursor_up(&v, 6), 1);
}

#[test]
fn j_in_scrollback_steps_down() {
    let mut app = chat_app("", 0);
    app.messages = vec![sample_message("1"), sample_message("2")];
    app.selection_index = 2;
    handle_vim_keys(&mut app, 'j', 0);
    assert_eq!(app.selection_index, 1);
}

#[test]
fn k_enters_scrollback_from_single_line_buffer() {
    let mut app = chat_app("hi", 0);
    app.messages = vec![sample_message("1")];
    handle_vim_keys(&mut app, 'k', 0);
    assert_eq!(app.selection_index, 1);
}

#[test]
fn insert_keys_are_reserved_while_scrolled_back() {
    let mut app = chat_app("hi", 0);
    app.messages = vec![sample_message("1")];
    app.selection_index = 1;
    handle_vim_keys(&mut app, 'i', 0);
    assert!(matches!(app.mode, InputMode::Normal));
}

#[test]
fn open_line_below_and_above() {
    let mut app = chat_app("ab\ncd", 0);
    handle_vim_keys(&mut app, 'o', 0);
    assert_eq!(text(&app.input), "ab\n\ncd");
    assert_eq!(app.cursor_position, 3);
    assert!(matches!(app.mode, InputMode::Insert));

    let mut app2 = chat_app("ab\ncd", 4);
    handle_vim_keys(&mut app2, 'O', 0);
    assert_eq!(text(&app2.input), "ab\n\ncd");
    assert_eq!(app2.cursor_position, 3);
}

#[test]
fn line_motions_and_clamp() {
    let v = chars("abc");
    assert_eq!(motion_end(&v, 1, VimMotion::StartOfLine), 0);
    assert_eq!(motion_end(&v, 1, VimMotion::EndOfLine), 3);
    assert_eq!(motion_end(&v, 1, VimMotion::CharLeft), 0);
    assert_eq!(motion_end(&v, 1, VimMotion::CharRight), 2);
    assert_eq!(clamp_pos(&v, 5), 2);
    assert_eq!(clamp_pos(&chars(""), 5), 0);
}

#[test]
fn execute_operator_normalizes_range() {
    let mut v = chars("abcdef");
    let mut cur: usize = 4;
    let deleted = execute_operator(&mut v, &mut cur, VimOperator::Delete, 4, 1);
    assert!(deleted);
    assert_eq!(text(&v), "aef");
    assert_eq!(cur, 1);
}

#[test]
fn delete_line_on_single_line_empties_buffer() {
    let mut v = chars("solo");
    let mut cur: usize = 2;
    delete_line(&mut v, &mut cur);
    assert!(v.is_empty());
    assert_eq!(cur, 0);
}

#[test]
fn cursor_stays_on_boundary_for_every_key() {
    // Every modal operation leaves the cursor inside [0, len].
    let keys = ['i', 'I', 'a', 'A', 'o', 'O', 'j', 'k', 'h', 'l', 'w', 'b', 'd', 'x', 'q'];
    for &k in keys.iter() {
        for cur in 0..=7 {
            let mut app = chat_app("ab \u{00e9}\ncd", cur);
            handle_vim_keys(&mut app, k, 0);
            assert!(app.cursor_position <= app.input.len(), "key {k} cursor {cur}");
        }
    }
}

#[test]
fn vim_state_default_is_unarmed() {
    let vs = VimState::default();
    assert!(vs.operator.is_none());
    assert_eq!(vs.pending_keys, "");
    assert_eq!(vs.last_action_time, 0);
}

#[test]
fn j_outside_chat_navigates_lists() {
    let mut app = App::new(true, false, Vec::new());
    app.state = AppState::SelectingGuild;
    let effects = handle_vim_keys(&mut app, 'j', 0);
    assert_eq!(effects.len(), 1);
    assert!(matches!(
        effects[0],
        vimcord::app::Effect::Enqueue(AppAction::SelectNext)
    ));
}

fn sample_message(id: &str) -> vimcord::model::Message {
    vimcord::model::Message {
        id: id.to_string(),
        author: vimcord::model::User { id: "u".to_string(), username: "u".to_string() },
        content: Some("hi".to_string()),
        timestamp: "t".to_string(),
    }
}
