//! The emoji completion sub-engine: an in-progress `:filter` span inside
//! the input buffer, recomputed as the buffer is edited, and committed by
//! splicing the chosen emoji into the buffer.

use vstd::prelude::*;

use crate::app::{App, AppState, same_data};
use crate::lists::{build_emoji_cands, emoji_cands, EmojiChoice};
use crate::model::Emoji;
use crate::text::{push_str_chars, splice};

verus! {

/// The mention token a custom emoji is committed as:
/// `<a:name:id>` when animated, `<:name:id>` otherwise.
pub open spec fn custom_token(e: Emoji) -> Seq<char> {
    seq!['<'] + (if e.animated == Option::Some(true) {
        seq!['a']
    } else {
        Seq::<char>::empty()
    }) + seq![':'] + e.name@ + seq![':'] + e.id@ + seq!['>']
}

/// The mention token of a custom emoji.
pub fn build_custom_token(e: &Emoji) -> (r: Vec<char>)
    ensures
        r@ == custom_token(*e),
{
    let mut r: Vec<char> = Vec::new();
    r.push('<');
    let animated = match e.animated {
        Option::Some(b) => b,
        Option::None => false,
    };
    if animated {
        r.push('a');
    }
    r.push(':');
    push_str_chars(&mut r, e.name.as_str());
    r.push(':');
    push_str_chars(&mut r, e.id.as_str());
    r.push('>');
    proof {
        assert(r@ =~= custom_token(*e));
    }
    r
}

/// What the committed replacement for the filter span is: the chosen
/// table glyph or custom mention token, with a trailing space.
pub open spec fn commit_repl(a: App, choice: EmojiChoice) -> Seq<char> {
    match choice {
        EmojiChoice::Table(i) => a.emoji_map@[i as int].1@ + seq![' '],
        EmojiChoice::Custom(i) => custom_token(a.custom_emojis@[i as int]) + seq![' '],
    }
}

/// What typing `:` while chatting does: at a word boundary (buffer
/// start or after a space) it opens the emoji screen and starts a filter
/// span; elsewhere the `:` lands literally. Outside a chat, nothing.
pub open spec fn start_emoji_ok(o: App, f: App) -> bool {
    &&& same_data(o, f)
    &&& f.mode == o.mode
    &&& f.vim_state == o.vim_state
    &&& match o.state {
        AppState::Chatting(id) => {
            let o_cur = o.cursor_position as int;
            let boundary = o_cur == 0 || o.input@[o_cur - 1] == ' ';
            &&& f.input@ == o.input@.take(o_cur) + seq![':'] + o.input@.skip(
                o_cur,
            )
            &&& f.cursor_position == o_cur + 1
            &&& (boundary ==> f.state == AppState::EmojiSelection(id)
                && f.emoji_filter_start == Option::Some(o.cursor_position)
                && f.emoji_filter@.len() == 0 && f.selection_index == 0)
            &&& (!boundary ==> f.state == o.state && f.emoji_filter_start == o.emoji_filter_start && f.emoji_filter == o.emoji_filter
                && f.selection_index == o.selection_index)
        },
        _ => f == o,
    }
}

/// Typing `:` while chatting: at a word boundary (buffer start or after a
/// space) it opens the emoji screen and starts a filter span; elsewhere
/// the `:` is inserted literally. Outside a chat it does nothing.
pub fn start_emoji(app: &mut App)
    requires
        old(app).wf(),
    ensures
        final(app).wf(),
        start_emoji_ok(*old(app), *final(app)),
{
    let ghost o = *old(app);
    let conv = match &app.state {
        AppState::Chatting(id) => id.clone(),
        _ => {
            return ;
        },
    };
    let cur = app.cursor_position;
    let boundary = cur == 0 || app.input[cur - 1] == ' ';
    let colon: Vec<char> = vec![':'];
    let next = splice(&app.input, cur, cur, &colon);
    app.input = next;
    let grown = app.input.len();
    proof {
        assert(cur < grown);
        assert(app.input@ == o.input@.take(o.cursor_position as int) + seq![':'] + o.input@.skip(
            o.cursor_position as int,
        ));
    }
    app.cursor_position = cur + 1;
    if boundary {
        app.state = AppState::EmojiSelection(conv);
        app.emoji_filter = Vec::new();
        app.emoji_filter_start = Some(cur);
        app.selection_index = 0;
        app.status_message = String::from_str(
            "Type to filter emoji. Enter to select. Esc to cancel.",
        );
        proof {
            assert(app.input@[cur as int] == ':');
            assert(app.input@.subrange(cur + 1, cur + 1) =~= app.emoji_filter@);
        }
    }
}

/// What a character typed on the emoji screen does: it lands in the
/// buffer at the cursor; a space ends the sub-mode with the filter
/// cleared, anything else extends the filter; the selection restarts.
pub open spec fn emoji_insert_ok(o: App, f: App, c: char) -> bool {
    &&& same_data(o, f)
    &&& f.mode == o.mode
    &&& f.vim_state == o.vim_state
    &&& f.input@ == o.input@.take(o.cursor_position as int) + seq![c] + o.input@.skip(o.cursor_position as int)
    &&& f.cursor_position == o.cursor_position + 1
    &&& f.selection_index == 0
    &&& match o.state {
        AppState::EmojiSelection(id) => {
            &&& (c == ' ' ==> f.state == AppState::Chatting(id) && f.emoji_filter@.len()
                == 0 && f.emoji_filter_start is None)
            &&& (c != ' ' ==> f.state == o.state && f.emoji_filter@ == o.emoji_filter@.push(c) && f.emoji_filter_start == o.emoji_filter_start)
        },
        _ => false,
    }
}

/// A character typed on the emoji screen: it lands in the buffer at the
/// cursor; a space ends the sub-mode with the filter cleared, anything
/// else extends the filter. The selection restarts at the top.
pub fn emoji_insert_char(app: &mut App, c: char)
    requires
        old(app).wf(),
        old(app).state is EmojiSelection,
    ensures
        final(app).wf(),
        emoji_insert_ok(*old(app), *final(app), c),
{
    let ghost o = *old(app);
    let conv = match &app.state {
        AppState::EmojiSelection(id) => id.clone(),
        _ => String::new(),
    };
    let cur = app.cursor_position;
    let one: Vec<char> = vec![c];
    let next = splice(&app.input, cur, cur, &one);
    app.input = next;
    let grown = app.input.len();
    proof {
        assert(cur < grown);
        assert(app.input@ == o.input@.take(o.cursor_position as int) + seq![c] + o.input@.skip(
            o.cursor_position as int,
        ));
    }
    app.cursor_position = cur + 1;
    app.selection_index = 0;
    if c == ' ' {
        app.state = AppState::Chatting(conv);
        app.emoji_filter = Vec::new();
        app.emoji_filter_start = None;
    } else {
        app.emoji_filter.push(c);
        proof {
            let st = old(app).emoji_filter_start->0 as int;
            assert(app.input@.subrange(st + 1, app.cursor_position as int) =~= old(
                app,
            ).input@.subrange(st + 1, old(app).cursor_position as int).push(c));
            assert(app.input@[st] == old(app).input@[st]);
        }
    }
}

/// What backspace on the emoji screen does: the character before the
/// cursor leaves the buffer; when that empties the filter, the `:` goes
/// with it and the sub-mode ends; the selection restarts.
pub open spec fn emoji_backspace_ok(o: App, f: App) -> bool {
    &&& same_data(o, f)
    &&& f.mode == o.mode
    &&& f.vim_state == o.vim_state
    &&& f.selection_index == 0
    &&& ({
        let st = o.emoji_filter_start->0 as int;
        let o_cur = o.cursor_position as int;
        let flen = o.emoji_filter@.len();
        match o.state {
            AppState::EmojiSelection(id) => {
                &&& (flen > 1 ==> f.input@ == o.input@.take(o_cur - 1) + o.input@.skip(o_cur) && f.cursor_position == o_cur - 1 && f.state == o.state && f.emoji_filter@ == o.emoji_filter@.drop_last()
                    && f.emoji_filter_start == o.emoji_filter_start)
                &&& (flen == 1 ==> f.input@ == o.input@.take(st) + o.input@.skip(o_cur) && f.cursor_position == st && f.state
                    == AppState::Chatting(id) && f.emoji_filter@.len() == 0
                    && f.emoji_filter_start is None)
                &&& (flen == 0 ==> f.input@ == o.input@.take(st) + o.input@.skip(o_cur) && f.cursor_position == st && f.state
                    == AppState::Chatting(id) && f.emoji_filter@.len() == 0
                    && f.emoji_filter_start is None)
            },
            _ => false,
        }
    })
}

/// Backspace on the emoji screen: the character before the cursor leaves
/// the buffer; when that empties the filter, the `:` goes with it and the
/// sub-mode ends. The selection restarts at the top.
pub fn emoji_backspace(app: &mut App)
    requires
        old(app).wf(),
        old(app).state is EmojiSelection,
    ensures
        final(app).wf(),
        emoji_backspace_ok(*old(app), *final(app)),
{
    let conv = match &app.state {
        AppState::EmojiSelection(id) => id.clone(),
        _ => String::new(),
    };
    let st = match app.emoji_filter_start {
        Option::Some(s) => s,
        Option::None => 0,
    };
    let cur = app.cursor_position;
    let empty: Vec<char> = Vec::new();
    if app.emoji_filter.len() > 1 {
        let next = splice(&app.input, cur - 1, cur, &empty);
        app.input = next;
        app.cursor_position = cur - 1;
        let _ = app.emoji_filter.pop();
        app.selection_index = 0;
        proof {
            let sti = st as int;
            assert(app.emoji_filter@ =~= old(app).emoji_filter@.drop_last());
            assert(app.input@.subrange(sti + 1, app.cursor_position as int) =~= old(
                app,
            ).input@.subrange(sti + 1, old(app).cursor_position as int).drop_last());
            assert(app.input@[sti] == old(app).input@[sti]);
        }
    } else {
        let next = splice(&app.input, st, cur, &empty);
        app.input = next;
        app.cursor_position = st;
        app.emoji_filter = Vec::new();
        app.emoji_filter_start = None;
        app.state = AppState::Chatting(conv);
        app.selection_index = 0;
    }
}

/// What confirm on the emoji screen does: the filter span (the `:` and
/// the filter) is replaced by the chosen candidate and a trailing space,
/// the cursor lands after the space, and the sub-mode ends; with no
/// candidate the sub-mode just ends, the buffer untouched.
pub open spec fn emoji_confirm_ok(o: App, f: App) -> bool {
    &&& same_data(o, f)
    &&& f.mode == o.mode
    &&& f.vim_state == o.vim_state
    &&& f.selection_index == 0
    &&& f.emoji_filter@.len() == 0
    &&& f.emoji_filter_start is None
    &&& ({
        let st = o.emoji_filter_start->0 as int;
        let o_cur = o.cursor_position as int;
        let cands = emoji_cands(
            o.emoji_map@,
            o.custom_emojis@,
            o.emoji_filter@,
        );
        match o.state {
            AppState::EmojiSelection(id) => {
                &&& f.state == AppState::Chatting(id)
                &&& (cands.len() == 0 ==> f.input@ == o.input@
                    && f.cursor_position == o.cursor_position)
                &&& (cands.len() > 0 ==> ({
                    let repl = commit_repl(o, cands[o.selection_index as int]);
                    f.input@ == o.input@.take(st) + repl + o.input@.skip(o_cur)
                        && f.cursor_position == st + repl.len()
                }))
            },
            _ => false,
        }
    })
}

/// Confirm on the emoji screen: the filter span (the `:` and the filter)
/// is replaced by the chosen candidate and a trailing space, the cursor
/// lands after the space, and the sub-mode ends. With no candidate the
/// sub-mode just ends, the buffer untouched.
pub fn emoji_confirm(app: &mut App)
    requires
        old(app).wf(),
        old(app).state is EmojiSelection,
    ensures
        final(app).wf(),
        emoji_confirm_ok(*old(app), *final(app)),
{
    let conv = match &app.state {
        AppState::EmojiSelection(id) => id.clone(),
        _ => String::new(),
    };
    let st = match app.emoji_filter_start {
        Option::Some(s) => s,
        Option::None => 0,
    };
    let cur = app.cursor_position;
    let cands = build_emoji_cands(&app.emoji_map, &app.custom_emojis, &app.emoji_filter);
    if cands.len() > 0 {
        let mut repl: Vec<char> = Vec::new();
        match cands[app.selection_index] {
            EmojiChoice::Table(i) => {
                push_str_chars(&mut repl, app.emoji_map[i].1.as_str());
                repl.push(' ');
                proof {
                    assert(repl@ =~= commit_repl(
                        *old(app),
                        emoji_cands(
                            old(app).emoji_map@,
                            old(app).custom_emojis@,
                            old(app).emoji_filter@,
                        )[old(app).selection_index as int],
                    ));
                }
            },
            EmojiChoice::Custom(i) => {
                let token = build_custom_token(&app.custom_emojis[i]);
                let mut k: usize = 0;
                let tn: usize = token.len();
                while k < tn
                    invariant
                        tn == token@.len(),
                        0 <= k <= tn,
                        repl@ == token@.take(k as int),
                    decreases tn - k,
                {
                    repl.push(token[k]);
                    proof {
                        assert(token@.take(k + 1) =~= token@.take(k as int).push(
                            token@[k as int],
                        ));
                    }
                    k = k + 1;
                }
                proof {
                    assert(token@.take(tn as int) =~= token@);
                }
                repl.push(' ');
                proof {
                    assert(repl@ =~= commit_repl(
                        *old(app),
                        emoji_cands(
                            old(app).emoji_map@,
                            old(app).custom_emojis@,
                            old(app).emoji_filter@,
                        )[old(app).selection_index as int],
                    ));
                }
            },
        }
        let repl_len = repl.len();
        let next = splice(&app.input, st, cur, &repl);
        app.input = next;
        let grown = app.input.len();
        proof {
            assert(st + repl_len <= grown);
        }
        app.cursor_position = st + repl_len;
    }
    app.state = AppState::Chatting(conv);
    app.emoji_filter = Vec::new();
    app.emoji_filter_start = None;
    app.selection_index = 0;
    app.status_message = String::from_str(
        "Chatting in channel. Press Enter to send message, Esc to return to channels.",
    );
}

/// What cancel on the emoji screen does: the filter span (the `:` and
/// the filter) leaves the buffer, the cursor lands where the span began,
/// and the sub-mode ends.
pub open spec fn emoji_cancel_ok(o: App, f: App) -> bool {
    &&& same_data(o, f)
    &&& f.mode == o.mode
    &&& f.vim_state == o.vim_state
    &&& f.selection_index == 0
    &&& f.emoji_filter@.len() == 0
    &&& f.emoji_filter_start is None
    &&& ({
        let st = o.emoji_filter_start->0 as int;
        let o_cur = o.cursor_position as int;
        match o.state {
            AppState::EmojiSelection(id) => {
                &&& f.state == AppState::Chatting(id)
                &&& f.input@ == o.input@.take(st) + o.input@.skip(o_cur)
                &&& f.cursor_position == st
            },
            _ => false,
        }
    })
}

/// Cancel on the emoji screen: the filter span (the `:` and the filter)
/// leaves the buffer, the cursor lands where the span began, and the
/// sub-mode ends.
pub fn emoji_cancel(app: &mut App)
    requires
        old(app).wf(),
        old(app).state is EmojiSelection,
    ensures
        final(app).wf(),
        emoji_cancel_ok(*old(app), *final(app)),
{
    let conv = match &app.state {
        AppState::EmojiSelection(id) => id.clone(),
        _ => String::new(),
    };
    let st = match app.emoji_filter_start {
        Option::Some(s) => s,
        Option::None => 0,
    };
    let cur = app.cursor_position;
    let empty: Vec<char> = Vec::new();
    let next = splice(&app.input, st, cur, &empty);
    app.input = next;
    app.cursor_position = st;
    app.state = AppState::Chatting(conv);
    app.emoji_filter = Vec::new();
    app.emoji_filter_start = None;
    app.selection_index = 0;
}

} // verus!
