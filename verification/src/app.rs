//! The session state and the navigation state machine: one record drives
//! every screen, and each queued action is applied to it by exactly one
//! handler. Handlers never perform I/O; where a step needs the network,
//! the handler returns effects for the caller's event loop to perform,
//! and the results come back as further actions.

use vstd::prelude::*;

use crate::lists::{chan_rows, dm_idxs, emoji_cands, guild_idxs};
use crate::model::{Channel, DM, Emoji, Guild, Message, PermissionContext, User};
use crate::sync::{Notification, SeenTracker};
use crate::text::{lower_of, splice};
use crate::vim::VimState;

verus! {

/// What the dispatch loop does after an action: keep going, or shut down.
#[derive(Debug, Clone, Copy, PartialEq, Eq, Structural)]
pub enum KeywordAction {
    Continue,
    Break,
}

/// Whether character input is literal or modal commands.
#[derive(Debug, Clone, Copy, PartialEq, Eq, Structural)]
pub enum InputMode {
    Normal,
    Insert,
}

/// Where a loading screen hands control when it ends.
#[derive(Debug, Clone)]
pub enum Window {
    Home,
    Guild,
    DM,
    Channel(String),
    Chat(String),
}

/// The screen the user is on.
#[derive(Debug, Clone)]
pub enum AppState {
    Home,
    SelectingGuild,
    SelectingDM,
    SelectingChannel(String),
    Chatting(String),
    EmojiSelection(String),
    Loading(Window),
}

/// One queued unit of work for the dispatch loop: a key event, a fetched
/// payload, or a navigation step.
#[derive(Debug)]
pub enum AppAction {
    SigInt,
    InputChar(char),
    InputBackspace,
    InputEscape,
    InputSubmit,
    SelectNext,
    SelectPrevious,
    ApiUpdateMessages(Vec<Message>),
    ApiUpdateChannel(Vec<Channel>),
    ApiUpdateEmojis(Vec<Emoji>),
    ApiUpdateGuilds(Vec<Guild>),
    ApiUpdateDMs(Vec<DM>),
    ApiUpdateContext(Option<PermissionContext>),
    ApiUpdateBackgroundMessages(String, Vec<Message>),
    ChannelInfoFetched(Result<Channel, String>),
    TransitionToChat(String),
    TransitionToChannels(String),
    TransitionToGuilds,
    TransitionToDM,
    TransitionToHome,
    TransitionToLoading(Window),
    EndLoading,
    SelectEmoji,
    Tick,
}

/// Work a handler asks the event loop to perform outside the lock. The
/// loop performs effects in order: `Enqueue` puts an action on the queue;
/// the fetch effects call the network and enqueue the corresponding
/// update action on success (and `FetchChannels` also fetches the guild's
/// emojis and permission context, then enqueues `EndLoading`);
/// `FetchChannelInfo` enqueues `ChannelInfoFetched` with the outcome;
/// `SendMessage` posts the text to the conversation; `Notify` raises one
/// desktop notification.
#[derive(Debug)]
pub enum Effect {
    Enqueue(AppAction),
    FetchChannels(String),
    FetchMessages(String),
    FetchChannelInfo(String),
    SendMessage(String, String),
    Notify(Notification),
}

/// What one applied action hands back: an optional loop verdict and the
/// effects to perform.
#[derive(Debug)]
pub struct StepResult {
    pub outcome: Option<KeywordAction>,
    pub effects: Vec<Effect>,
}

/// The shared session state: one record, owned exclusively while an
/// action is applied.
#[derive(Debug, Clone)]
pub struct App {
    pub state: AppState,
    pub guilds: Vec<Guild>,
    pub channels: Vec<Channel>,
    pub messages: Vec<Message>,
    pub custom_emojis: Vec<Emoji>,
    pub dms: Vec<DM>,
    pub input: Vec<char>,
    pub cursor_position: usize,
    pub selection_index: usize,
    pub status_message: String,
    pub emoji_map: Vec<(String, String)>,
    pub emoji_filter: Vec<char>,
    pub emoji_filter_start: Option<usize>,
    pub mode: InputMode,
    pub vim_mode: bool,
    pub vim_state: Option<VimState>,
    pub context: Option<PermissionContext>,
    pub current_user: Option<User>,
    pub last_seen: SeenTracker,
    pub discreet_notifs: bool,
    pub tick_count: u64,
}

/// The length of the filtered list the active screen selects from. The
/// chat screen's "list" is the scrollback: the messages plus the live
/// position.
pub open spec fn sel_len(a: App) -> nat {
    match a.state {
        AppState::Home => 3,
        AppState::SelectingGuild => guild_idxs(a.guilds@, lower_of(a.input@)).len(),
        AppState::SelectingDM => dm_idxs(a.dms@, lower_of(a.input@)).len(),
        AppState::SelectingChannel(_) => chan_rows(a.channels@, lower_of(a.input@), a.context).len(),
        AppState::Chatting(_) => a.messages@.len() + 1,
        AppState::EmojiSelection(_) => emoji_cands(
            a.emoji_map@,
            a.custom_emojis@,
            a.emoji_filter@,
        ).len(),
        AppState::Loading(_) => 0,
    }
}

/// The selection stays inside the active filtered list, and sits at 0
/// when the list is empty.
pub open spec fn sel_ok(a: App) -> bool {
    match a.state {
        AppState::Loading(_) => true,
        _ => if sel_len(a) > 0 {
            a.selection_index < sel_len(a)
        } else {
            a.selection_index == 0
        },
    }
}

/// On the emoji screen the buffer holds `:` at the recorded start and the
/// filter between it and the cursor; everywhere else the filter and its
/// start are cleared.
pub open spec fn emoji_ok(a: App) -> bool {
    match a.state {
        AppState::EmojiSelection(_) => match a.emoji_filter_start {
            Option::Some(st) => {
                &&& st + 1 + a.emoji_filter@.len() == a.cursor_position
                &&& a.cursor_position <= a.input@.len()
                &&& a.input@[st as int] == ':'
                &&& a.input@.subrange(st + 1, a.cursor_position as int) == a.emoji_filter@
            },
            Option::None => false,
        },
        _ => a.emoji_filter_start is None && a.emoji_filter@.len() == 0,
    }
}

impl App {
    /// The session invariant: the cursor is on a codepoint boundary of the
    /// buffer, the selection is inside the active list, the emoji span is
    /// well-placed, and the unread tracker's keys are unique.
    pub open spec fn wf(&self) -> bool {
        &&& self.cursor_position <= self.input@.len()
        &&& sel_ok(*self)
        &&& emoji_ok(*self)
        &&& self.last_seen.wf()
    }

    /// Whether the active screen filters a list by the input buffer.
    pub open spec fn in_filter_screen(&self) -> bool {
        self.state is SelectingGuild || self.state is SelectingDM
            || self.state is SelectingChannel
    }
}

/// Fields no action handler touches except the data fetchers and the
/// tracker: the collections, the permission context, the current user,
/// the unread tracker and the settings.
pub open spec fn same_data(a: App, b: App) -> bool {
    &&& b.guilds == a.guilds
    &&& b.channels == a.channels
    &&& b.messages == a.messages
    &&& b.custom_emojis == a.custom_emojis
    &&& b.dms == a.dms
    &&& b.emoji_map == a.emoji_map
    &&& b.context == a.context
    &&& b.current_user == a.current_user
    &&& b.last_seen == a.last_seen
    &&& b.discreet_notifs == a.discreet_notifs
    &&& b.vim_mode == a.vim_mode
}

/// A cleared input line with the emoji span gone.
pub open spec fn input_cleared(b: App) -> bool {
    &&& b.input@.len() == 0
    &&& b.cursor_position == 0
    &&& b.emoji_filter@.len() == 0
    &&& b.emoji_filter_start is None
}

/// What a timer tick does: the spinner counter advances (wrapping) and
/// nothing else changes.
pub open spec fn tick_ok(o: App, f: App) -> bool {
    &&& f.tick_count == vstd::wrapping::u64_specs::wrapping_add(o.tick_count, 1)
    &&& f == (App { tick_count: f.tick_count, ..o })
}

/// What landing on a screen does: the state becomes `st`, the buffer and
/// emoji span are cleared, the selection restarts, and the data, mode
/// and modal bookkeeping are untouched.
pub open spec fn nav_reset_ok(o: App, f: App, st: AppState) -> bool {
    &&& f.state == st
    &&& input_cleared(f)
    &&& f.selection_index == 0
    &&& same_data(o, f)
    &&& f.mode == o.mode
    &&& f.vim_state == o.vim_state
    &&& f.tick_count == o.tick_count
}

/// What showing the loading screen does: only the state (and the status
/// line) change; the buffer and selection stay for the screen the
/// loading returns to.
pub open spec fn loading_ok(o: App, f: App, target: Window) -> bool {
    &&& f.state == AppState::Loading(target)
    &&& same_data(o, f)
    &&& f.input == o.input
    &&& f.cursor_position == o.cursor_position
    &&& f.selection_index == o.selection_index
    &&& f.emoji_filter == o.emoji_filter
    &&& f.emoji_filter_start == o.emoji_filter_start
    &&& f.mode == o.mode
    &&& f.vim_state == o.vim_state
    &&& f.tick_count == o.tick_count
}

/// What ending a loading screen does: the session is untouched (but for
/// the status line) and the transition matching the loading target is
/// enqueued.
pub open spec fn end_loading_ok(o: App, f: App, effects: Seq<Effect>) -> bool {
    &&& f == (App { status_message: f.status_message, ..o })
    &&& match o.state {
        AppState::Loading(Window::Home) => effects == seq![
            Effect::Enqueue(AppAction::TransitionToHome),
        ],
        AppState::Loading(Window::Guild) => effects == seq![
            Effect::Enqueue(AppAction::TransitionToGuilds),
        ],
        AppState::Loading(Window::DM) => effects == seq![
            Effect::Enqueue(AppAction::TransitionToDM),
        ],
        AppState::Loading(Window::Channel(g)) => effects == seq![
            Effect::Enqueue(AppAction::TransitionToChannels(g)),
        ],
        AppState::Loading(Window::Chat(c)) => effects == seq![
            Effect::Enqueue(AppAction::TransitionToChat(c)),
        ],
        _ => effects.len() == 0,
    }
}

/// What a guild fetch does: the guild list is replaced wholesale and the
/// guild screen's selection restarts; nothing else changes (but for the
/// status line).
pub open spec fn update_guilds_ok(o: App, f: App, new: Vec<Guild>) -> bool {
    &&& f.guilds == new
    &&& f.selection_index == (if o.state is SelectingGuild {
        0
    } else {
        o.selection_index as int
    })
    &&& f == (App {
        guilds: new,
        selection_index: f.selection_index,
        status_message: f.status_message,
        ..o
    })
}

/// What a conversation fetch does: the list is replaced wholesale and
/// the conversation screen's selection restarts.
pub open spec fn update_dms_ok(o: App, f: App, new: Vec<DM>) -> bool {
    &&& f.dms == new
    &&& f.selection_index == (if o.state is SelectingDM {
        0
    } else {
        o.selection_index as int
    })
    &&& f == (App {
        dms: new,
        selection_index: f.selection_index,
        status_message: f.status_message,
        ..o
    })
}

/// What a channel fetch does: the channel list is replaced wholesale and
/// the channel screen's selection restarts.
pub open spec fn update_channels_ok(o: App, f: App, new: Vec<Channel>) -> bool {
    &&& f.channels == new
    &&& f.selection_index == (if o.state is SelectingChannel {
        0
    } else {
        o.selection_index as int
    })
    &&& f == (App {
        channels: new,
        selection_index: f.selection_index,
        status_message: f.status_message,
        ..o
    })
}

/// What an emoji fetch does: the custom emoji are replaced wholesale and
/// the emoji screen's selection restarts.
pub open spec fn update_emojis_ok(o: App, f: App, new: Vec<Emoji>) -> bool {
    &&& f.custom_emojis == new
    &&& f.selection_index == (if o.state is EmojiSelection {
        0
    } else {
        o.selection_index as int
    })
    &&& f == (App { custom_emojis: new, selection_index: f.selection_index, ..o })
}

/// What a message fetch does: the scrollback is replaced wholesale, and
/// a scrollback position beyond the new history is clamped onto it.
pub open spec fn update_messages_ok(o: App, f: App, new: Vec<Message>) -> bool {
    &&& f.messages == new
    &&& f.selection_index == (if o.state is Chatting && o.selection_index > new@.len() {
        new@.len() as int
    } else {
        o.selection_index as int
    })
    &&& f == (App { messages: new, selection_index: f.selection_index, ..o })
}

/// What a permission-context fetch does: the context is replaced
/// wholesale and the channel screen's selection restarts, since
/// readability may have changed.
pub open spec fn update_context_ok(o: App, f: App, new: Option<PermissionContext>) -> bool {
    &&& f.context == new
    &&& f.selection_index == (if o.state is SelectingChannel {
        0
    } else {
        o.selection_index as int
    })
    &&& f == (App { context: new, selection_index: f.selection_index, ..o })
}

/// What stepping the selection does: it moves one place through the
/// active filtered list, wrapping at either end; screens without a
/// selectable list are unmoved, and nothing else changes.
pub open spec fn move_sel_ok(o: App, f: App, next: bool) -> bool {
    &&& f == (App { selection_index: f.selection_index, ..o })
    &&& ({
        let l = sel_len(o);
        let o_sel = o.selection_index as int;
        match o.state {
            AppState::Home
            | AppState::SelectingGuild
            | AppState::SelectingDM
            | AppState::SelectingChannel(_)
            | AppState::EmojiSelection(_) => if l > 0 {
                f.selection_index == if next {
                    if o_sel + 1 >= l {
                        0
                    } else {
                        o_sel + 1
                    }
                } else {
                    if o_sel == 0 {
                        l - 1
                    } else {
                        o_sel - 1
                    }
                }
            } else {
                f.selection_index == o_sel
            },
            _ => f.selection_index == o_sel,
        }
    })
}

/// What literal character input does: the character lands in the buffer
/// at the cursor; on a screen that filters a list by the buffer, the
/// selection restarts.
pub open spec fn insert_lit_ok(o: App, f: App, c: char) -> bool {
    &&& f.input@ == o.input@.take(o.cursor_position as int) + seq![c] + o.input@.skip(
        o.cursor_position as int,
    )
    &&& f.cursor_position == o.cursor_position + 1
    &&& f.selection_index == (if o.in_filter_screen() {
        0
    } else {
        o.selection_index as int
    })
    &&& f == (App {
        input: f.input,
        cursor_position: f.cursor_position,
        selection_index: f.selection_index,
        ..o
    })
}

/// What literal backspace does: the character before the cursor leaves
/// the buffer (nothing, at the start of the buffer); on a screen that
/// filters a list by the buffer, the selection restarts.
pub open spec fn backspace_lit_ok(o: App, f: App) -> bool {
    &&& (o.cursor_position > 0 ==> f.input@ == o.input@.take(o.cursor_position - 1)
        + o.input@.skip(o.cursor_position as int) && f.cursor_position == o.cursor_position - 1)
    &&& (o.cursor_position == 0 ==> f.input == o.input && f.cursor_position == 0)
    &&& f.selection_index == (if o.in_filter_screen() && o.cursor_position > 0 {
        0
    } else {
        o.selection_index as int
    })
    &&& f == (App {
        input: f.input,
        cursor_position: f.cursor_position,
        selection_index: f.selection_index,
        ..o
    })
}

impl App {
    /// A fresh session: loading the home screen, everything empty, modal
    /// editing per the configuration.
    pub fn new(vim_mode: bool, discreet_notifs: bool, emoji_map: Vec<(String, String)>) -> (r: App)
        ensures
            r.wf(),
            r.state is Loading,
            r.guilds@.len() == 0,
            r.channels@.len() == 0,
            r.messages@.len() == 0,
            r.custom_emojis@.len() == 0,
            r.dms@.len() == 0,
            input_cleared(r),
            r.selection_index == 0,
            r.mode is Normal,
            r.vim_mode == vim_mode,
            r.emoji_map == emoji_map,
            r.discreet_notifs == discreet_notifs,
            r.context is None,
            r.current_user is None,
            forall|c: u64| r.last_seen.tracked_mark(c) is None,
            r.tick_count == 0,
    {
        App {
            state: AppState::Loading(Window::Home),
            guilds: Vec::new(),
            channels: Vec::new(),
            messages: Vec::new(),
            custom_emojis: Vec::new(),
            dms: Vec::new(),
            input: Vec::new(),
            cursor_position: 0,
            selection_index: 0,
            status_message: String::new(),
            emoji_map,
            emoji_filter: Vec::new(),
            emoji_filter_start: None,
            mode: InputMode::Normal,
            vim_mode,
            vim_state: if vim_mode {
                Some(VimState::default())
            } else {
                None
            },
            context: None,
            current_user: None,
            last_seen: SeenTracker::new(),
            discreet_notifs,
            tick_count: 0,
        }
    }
}

impl App {
    /// A timer tick drives the loading spinner and changes nothing else.
    pub fn apply_tick(&mut self)
        requires
            old(self).wf(),
        ensures
            final(self).wf(),
            tick_ok(*old(self), *final(self)),

    {
        self.tick_count = self.tick_count.wrapping_add(1);
    }

    /// Land on the home screen: list reset, input cleared.
    pub fn transition_home(&mut self)
        requires
            old(self).wf(),
        ensures
            final(self).wf(),
            nav_reset_ok(*old(self), *final(self), AppState::Home),

    {
        self.state = AppState::Home;
        self.input = Vec::new();
        self.cursor_position = 0;
        self.selection_index = 0;
        self.emoji_filter = Vec::new();
        self.emoji_filter_start = None;
        self.status_message = String::from_str(
            "Browse either DMs or Servers. Use arrows to navigate, Enter to select & Esc to quit",
        );
    }

    /// Land on the guild list: list reset, input cleared.
    pub fn transition_guilds(&mut self)
        requires
            old(self).wf(),
        ensures
            final(self).wf(),
            nav_reset_ok(*old(self), *final(self), AppState::SelectingGuild),

    {
        self.state = AppState::SelectingGuild;
        self.input = Vec::new();
        self.cursor_position = 0;
        self.selection_index = 0;
        self.emoji_filter = Vec::new();
        self.emoji_filter_start = None;
        self.status_message = String::from_str(
            "Select a server. Use arrows to navigate, Enter to select & Esc to quit",
        );
    }

    /// Land on the conversation list: list reset, input cleared.
    pub fn transition_dm(&mut self)
        requires
            old(self).wf(),
        ensures
            final(self).wf(),
            nav_reset_ok(*old(self), *final(self), AppState::SelectingDM),

    {
        self.state = AppState::SelectingDM;
        self.input = Vec::new();
        self.cursor_position = 0;
        self.selection_index = 0;
        self.emoji_filter = Vec::new();
        self.emoji_filter_start = None;
        self.status_message = String::from_str(
            "Select a DM. Use arrows to navigate, Enter to select & Esc to quit",
        );
    }

    /// Land on a guild's channel list: list reset, input cleared.
    pub fn transition_channels(&mut self, guild_id: String)
        requires
            old(self).wf(),
        ensures
            final(self).wf(),
            nav_reset_ok(*old(self), *final(self), AppState::SelectingChannel(guild_id)),

    {
        self.state = AppState::SelectingChannel(guild_id);
        self.input = Vec::new();
        self.cursor_position = 0;
        self.selection_index = 0;
        self.emoji_filter = Vec::new();
        self.emoji_filter_start = None;
        self.status_message = String::from_str(
            "Select a channel. Use arrows to navigate, Enter to select & Esc to quit",
        );
    }

    /// Land in a conversation: scrollback reset, input cleared.
    pub fn transition_chat(&mut self, conversation_id: String)
        requires
            old(self).wf(),
        ensures
            final(self).wf(),
            nav_reset_ok(*old(self), *final(self), AppState::Chatting(conversation_id)),

    {
        self.state = AppState::Chatting(conversation_id);
        self.input = Vec::new();
        self.cursor_position = 0;
        self.selection_index = 0;
        self.emoji_filter = Vec::new();
        self.emoji_filter_start = None;
        self.status_message = String::from_str(
            "Chatting in channel. Press Enter to send message, Esc to return to channels.",
        );
    }

    /// Show the loading screen; the buffer and selection stay for the
    /// screen the loading returns to.
    pub fn transition_loading(&mut self, target: Window)
        requires
            old(self).wf(),
            !(old(self).state is EmojiSelection),
        ensures
            final(self).wf(),
            loading_ok(*old(self), *final(self), target),

    {
        self.state = AppState::Loading(target);
        self.status_message = String::from_str("Loading...");
    }

    /// A loading screen that has finished hands control to its target.
    pub fn end_loading(&mut self) -> (r: Vec<Effect>)
        requires
            old(self).wf(),
        ensures
            final(self).wf(),
            end_loading_ok(*old(self), *final(self), r@),

    {
        let mut effects: Vec<Effect> = Vec::new();
        match &self.state {
            AppState::Loading(w) => {
                match w {
                    Window::Home => effects.push(Effect::Enqueue(AppAction::TransitionToHome)),
                    Window::Guild => effects.push(Effect::Enqueue(AppAction::TransitionToGuilds)),
                    Window::DM => effects.push(Effect::Enqueue(AppAction::TransitionToDM)),
                    Window::Channel(g) => effects.push(
                        Effect::Enqueue(AppAction::TransitionToChannels(g.clone())),
                    ),
                    Window::Chat(c) => effects.push(
                        Effect::Enqueue(AppAction::TransitionToChat(c.clone())),
                    ),
                }
            },
            _ => {},
        }
        effects
    }

    /// A guild fetch replaces the guild list wholesale; the guild screen's
    /// selection restarts at the top.
    pub fn update_guilds(&mut self, new: Vec<Guild>)
        requires
            old(self).wf(),
        ensures
            final(self).wf(),
            update_guilds_ok(*old(self), *final(self), new),

    {
        self.guilds = new;
        if let AppState::SelectingGuild = &self.state {
            self.selection_index = 0;
        }
        self.status_message = String::from_str(
            "Select a server. Use arrows to navigate, Enter to select & Esc to quit.",
        );
    }

    /// A conversation fetch replaces the list wholesale; the conversation
    /// screen's selection restarts at the top.
    pub fn update_dms(&mut self, new: Vec<DM>)
        requires
            old(self).wf(),
        ensures
            final(self).wf(),
            update_dms_ok(*old(self), *final(self), new),

    {
        let empty = new.len() == 0;
        self.dms = new;
        if let AppState::SelectingDM = &self.state {
            self.selection_index = 0;
        }
        self.status_message = if empty {
            String::from_str("No DMs found. (Esc to return to Home)")
        } else {
            String::from_str("DMs loaded. Select one to chat. (Esc to return to Home)")
        };
    }

    /// A channel fetch replaces the channel list wholesale; the channel
    /// screen's selection restarts at the top.
    pub fn update_channels(&mut self, new: Vec<Channel>)
        requires
            old(self).wf(),
        ensures
            final(self).wf(),
            update_channels_ok(*old(self), *final(self), new),

    {
        let empty = new.len() == 0;
        self.channels = new;
        if let AppState::SelectingChannel(_) = &self.state {
            self.selection_index = 0;
        }
        self.status_message = if empty {
            String::from_str("No text channels found. (Esc to return to Servers)")
        } else {
            String::from_str("Channels loaded. Select one to chat. (Esc to return to Servers)")
        };
    }

    /// An emoji fetch replaces the custom emoji wholesale; the emoji
    /// screen's selection restarts at the top.
    pub fn update_emojis(&mut self, new: Vec<Emoji>)
        requires
            old(self).wf(),
        ensures
            final(self).wf(),
            update_emojis_ok(*old(self), *final(self), new),

    {
        self.custom_emojis = new;
        if let AppState::EmojiSelection(_) = &self.state {
            self.selection_index = 0;
        }
    }

    /// A message fetch replaces the scrollback wholesale; a scrollback
    /// position beyond the new history is clamped onto it.
    pub fn update_messages(&mut self, new: Vec<Message>)
        requires
            old(self).wf(),
        ensures
            final(self).wf(),
            update_messages_ok(*old(self), *final(self), new),

    {
        let len = new.len();
        self.messages = new;
        if let AppState::Chatting(_) = &self.state {
            if self.selection_index > len {
                self.selection_index = len;
            }
        }
    }

    /// A permission-context fetch replaces the context wholesale; the
    /// channel screen's selection restarts at the top, since readability
    /// may have changed.
    pub fn update_context(&mut self, new: Option<PermissionContext>)
        requires
            old(self).wf(),
        ensures
            final(self).wf(),
            update_context_ok(*old(self), *final(self), new),

    {
        self.context = new;
        if let AppState::SelectingChannel(_) = &self.state {
            self.selection_index = 0;
        }
    }
}

impl App {
    /// Step the selection through the active filtered list, wrapping at
    /// either end. Screens without a selectable list are unmoved.
    pub fn move_selection(&mut self, next: bool)
        requires
            old(self).wf(),
        ensures
            final(self).wf(),
            move_sel_ok(*old(self), *final(self), next),

    {
        let l_opt: Option<usize> = match &self.state {
            AppState::Home => Some(3),
            AppState::SelectingGuild => {
                let flt = crate::lists::lowered_chars(&self.input);
                let v = crate::lists::filtered_guilds(&self.guilds, flt.as_str());
                Some(v.len())
            },
            AppState::SelectingDM => {
                let flt = crate::lists::lowered_chars(&self.input);
                let v = crate::lists::filtered_dms(&self.dms, flt.as_str());
                Some(v.len())
            },
            AppState::SelectingChannel(_) => {
                let flt = crate::lists::lowered_chars(&self.input);
                let rows = crate::lists::build_chan_rows(&self.channels, flt.as_str(), &self.context);
                Some(rows.len())
            },
            AppState::EmojiSelection(_) => {
                let cands = crate::lists::build_emoji_cands(
                    &self.emoji_map,
                    &self.custom_emojis,
                    &self.emoji_filter,
                );
                Some(cands.len())
            },
            _ => None,
        };
        if let Some(l) = l_opt {
            if l > 0 {
                let sel = self.selection_index;
                self.selection_index = if next {
                    if sel + 1 >= l {
                        0
                    } else {
                        sel + 1
                    }
                } else {
                    if sel == 0 {
                        l - 1
                    } else {
                        sel - 1
                    }
                };
            }
        }
    }

    /// Literal character input: the character lands in the buffer at the
    /// cursor. On a screen that filters a list by the buffer, the
    /// selection restarts at the top.
    pub fn insert_char_literal(&mut self, c: char)
        requires
            old(self).wf(),
            !(old(self).state is EmojiSelection),
        ensures
            final(self).wf(),
            insert_lit_ok(*old(self), *final(self), c),

    {
        let ghost o = *old(self);
        let cur = self.cursor_position;
        let one: Vec<char> = vec![c];
        let next = splice(&self.input, cur, cur, &one);
        self.input = next;
        let grown = self.input.len();
        proof {
            assert(cur < grown);
            assert(self.input@ == o.input@.take(o.cursor_position as int) + seq![c]
                + o.input@.skip(o.cursor_position as int));
        }
        self.cursor_position = cur + 1;
        match &self.state {
            AppState::SelectingGuild | AppState::SelectingDM | AppState::SelectingChannel(_) => {
                self.selection_index = 0;
            },
            _ => {},
        }
    }

    /// Literal backspace: the character before the cursor leaves the
    /// buffer; at the start of the buffer nothing changes. On a screen
    /// that filters a list by the buffer, the selection restarts at the
    /// top.
    pub fn backspace_literal(&mut self)
        requires
            old(self).wf(),
            !(old(self).state is EmojiSelection),
        ensures
            final(self).wf(),
            backspace_lit_ok(*old(self), *final(self)),

    {
        let cur = self.cursor_position;
        if cur == 0 {
            return ;
        }
        let empty: Vec<char> = Vec::new();
        let next = splice(&self.input, cur - 1, cur, &empty);
        self.input = next;
        self.cursor_position = cur - 1;
        match &self.state {
            AppState::SelectingGuild | AppState::SelectingDM | AppState::SelectingChannel(_) => {
                self.selection_index = 0;
            },
            _ => {},
        }
    }
}

impl App {
    /// Cancel from the current screen: quit from home or a loading
    /// screen; a list screen falls back one level; a chat looks the
    /// conversation up to decide where to fall back; the emoji screen
    /// closes, dropping the filter span. With modal editing, Esc in
    /// Insert mode only returns to Normal mode, stepping the cursor one
    /// codepoint left but never past a preceding newline.
    pub fn handle_escape(&mut self) -> (r: StepResult)
        requires
            old(self).wf(),
        ensures
            final(self).wf(),
            escape_ok(*old(self), *final(self), r.outcome, r.effects@),
    {
        let mut effects: Vec<Effect> = Vec::new();
        match &self.state {
            AppState::Home | AppState::Loading(_) => {
                return StepResult { outcome: Some(KeywordAction::Break), effects };
            },
            AppState::SelectingDM | AppState::SelectingGuild => {
                effects.push(Effect::Enqueue(AppAction::TransitionToHome));
            },
            AppState::SelectingChannel(_) => {
                effects.push(Effect::Enqueue(AppAction::TransitionToGuilds));
            },
            AppState::Chatting(id) => {
                if self.vim_mode && matches!(self.mode, InputMode::Insert) {
                    let cur = self.cursor_position;
                    let back = if cur > 0 && self.input[cur - 1] != '\n' {
                        cur - 1
                    } else {
                        cur
                    };
                    self.cursor_position = crate::vim::clamp_pos(&self.input, back);
                    self.mode = InputMode::Normal;
                } else {
                    effects.push(Effect::FetchChannelInfo(id.clone()));
                }
            },
            AppState::EmojiSelection(_) => {
                crate::emoji::emoji_cancel(self);
            },
        }
        StepResult { outcome: None, effects }
    }

    /// The looked-up conversation decides where cancelling a chat falls
    /// back to: a direct or group conversation to the conversation list,
    /// a guild channel to its guild's channel list, anything else to the
    /// guild list; a failed lookup falls back to home with the error as
    /// the status.
    pub fn channel_info_fetched(&mut self, res: Result<Channel, String>) -> (r: StepResult)
        requires
            old(self).wf(),
        ensures
            final(self).wf(),
            chan_info_ok(*old(self), *final(self), res, r.outcome, r.effects@),
    {
        let mut effects: Vec<Effect> = Vec::new();
        match res {
            Result::Ok(ch) => {
                if ch.channel_type == 1 || ch.channel_type == 3 {
                    effects.push(Effect::Enqueue(AppAction::TransitionToDM));
                } else {
                    match ch.guild_id {
                        Option::Some(g) => {
                            effects.push(Effect::Enqueue(AppAction::TransitionToChannels(g)));
                        },
                        Option::None => {
                            effects.push(Effect::Enqueue(AppAction::TransitionToGuilds));
                        },
                    }
                }
            },
            Result::Err(e) => {
                self.status_message = e;
                effects.push(Effect::Enqueue(AppAction::TransitionToHome));
            },
        }
        StepResult { outcome: None, effects }
    }
}

impl App {
    /// The screen-by-screen work of a confirm, with `submit_ok`'s match
    /// as its direct postcondition.
    fn submit_step(&mut self) -> (r: StepResult)
        requires
            old(self).wf(),
        ensures
            final(self).wf(),
            match old(self).state {
                AppState::Loading(_) => *final(self) == *old(self) && r.outcome is None
                    && r.effects@.len() == 0,
                AppState::Home => *final(self) == *old(self) && (if old(self).selection_index == 0 {
                    r.outcome is None && r.effects@ == seq![
                        Effect::Enqueue(AppAction::TransitionToGuilds),
                    ]
                } else if old(self).selection_index == 1 {
                    r.outcome is None && r.effects@ == seq![
                        Effect::Enqueue(AppAction::TransitionToDM),
                    ]
                } else {
                    r.outcome == Some(KeywordAction::Break) && r.effects@.len() == 0
                }),
                AppState::SelectingGuild => {
                    let idxs = guild_idxs(old(self).guilds@, lower_of(old(self).input@));
                    if idxs.len() == 0 {
                        *final(self) == *old(self) && r.outcome == Some(KeywordAction::Continue)
                            && r.effects@.len() == 0
                    } else {
                        let g = old(self).guilds@[idxs[old(self).selection_index as int] as int];
                        *final(self) == (App {
                            status_message: final(self).status_message,
                            ..*old(self)
                        }) && r.outcome is None && r.effects@ == seq![
                            Effect::Enqueue(
                                AppAction::TransitionToLoading(Window::Channel(g.id)),
                            ),
                            Effect::FetchChannels(g.id),
                        ]
                    }
                },
                AppState::SelectingDM => {
                    let idxs = dm_idxs(old(self).dms@, lower_of(old(self).input@));
                    if idxs.len() == 0 {
                        *final(self) == *old(self) && r.outcome == Some(KeywordAction::Continue)
                            && r.effects@.len() == 0
                    } else {
                        let d = old(self).dms@[idxs[old(self).selection_index as int] as int];
                        *final(self) == (App {
                            status_message: final(self).status_message,
                            ..*old(self)
                        }) && r.outcome is None && r.effects@ == seq![
                            Effect::FetchMessages(d.id),
                            Effect::Enqueue(AppAction::TransitionToChat(d.id)),
                        ]
                    }
                },
                AppState::SelectingChannel(_) => {
                    let rows = chan_rows(
                        old(self).channels@,
                        lower_of(old(self).input@),
                        old(self).context,
                    );
                    if rows.len() == 0 || old(self).channels@[rows[old(self).selection_index as int].idx as int].channel_type == 4 {
                        *final(self) == *old(self) && r.outcome == Some(KeywordAction::Continue)
                            && r.effects@.len() == 0
                    } else {
                        let ch = old(self).channels@[rows[old(self).selection_index as int].idx as int];
                        *final(self) == (App {
                            status_message: final(self).status_message,
                            ..*old(self)
                        }) && r.outcome is None && r.effects@ == seq![
                            Effect::Enqueue(AppAction::TransitionToLoading(Window::Chat(ch.id))),
                            Effect::FetchMessages(ch.id),
                            Effect::Enqueue(AppAction::EndLoading),
                        ]
                    }
                },
                AppState::EmojiSelection(_) => crate::emoji::emoji_confirm_ok(*old(self), *final(self)) && r.outcome is None
                    && r.effects@.len() == 0,
                AppState::Chatting(id) => if old(self).input@.len() == 0 {
                    *final(self) == *old(self) && r.outcome is None && r.effects@.len() == 0
                } else {
                    &&& final(self).input@.len() == 0
                    &&& final(self).cursor_position == 0
                    &&& same_data(*old(self), *final(self))
                    &&& final(self).state == old(self).state
                    &&& final(self).selection_index == old(self).selection_index
                    &&& r.outcome is None
                    &&& r.effects@.len() == 1
                    &&& match r.effects@[0] {
                        Effect::SendMessage(cid, content) => cid == id && content@ == old(self).input@,
                        _ => false,
                    }
                },
            },
    {
        let mut effects: Vec<Effect> = Vec::new();
        match &self.state {
            AppState::Loading(_) => StepResult { outcome: None, effects },
            AppState::Home => {
                if self.selection_index == 0 {
                    effects.push(Effect::Enqueue(AppAction::TransitionToGuilds));
                    StepResult { outcome: None, effects }
                } else if self.selection_index == 1 {
                    effects.push(Effect::Enqueue(AppAction::TransitionToDM));
                    StepResult { outcome: None, effects }
                } else {
                    StepResult { outcome: Some(KeywordAction::Break), effects }
                }
            },
            AppState::SelectingGuild => {
                let flt = crate::lists::lowered_chars(&self.input);
                let idxs = crate::lists::filtered_guilds(&self.guilds, flt.as_str());
                if idxs.len() == 0 {
                    return StepResult { outcome: Some(KeywordAction::Continue), effects };
                }
                let gi = idxs[self.selection_index];
                let gid = self.guilds[gi].id.clone();
                let gname = self.guilds[gi].name.clone();
                self.status_message = String::from_str("Loading channels for ").concat(
                    gname.as_str(),
                ).concat("...");
                effects.push(
                    Effect::Enqueue(AppAction::TransitionToLoading(Window::Channel(gid.clone()))),
                );
                effects.push(Effect::FetchChannels(gid));
                StepResult { outcome: None, effects }
            },
            AppState::SelectingDM => {
                let flt = crate::lists::lowered_chars(&self.input);
                let idxs = crate::lists::filtered_dms(&self.dms, flt.as_str());
                if idxs.len() == 0 {
                    return StepResult { outcome: Some(KeywordAction::Continue), effects };
                }
                let di = idxs[self.selection_index];
                let did = self.dms[di].id.clone();
                let dname = self.dms[di].get_name();
                self.status_message = String::from_str("Loading messages for ").concat(
                    dname.as_str(),
                ).concat("...");
                effects.push(Effect::FetchMessages(did.clone()));
                effects.push(Effect::Enqueue(AppAction::TransitionToChat(did)));
                StepResult { outcome: None, effects }
            },
            AppState::SelectingChannel(_) => {
                let flt = crate::lists::lowered_chars(&self.input);
                let rows = crate::lists::build_chan_rows(&self.channels, flt.as_str(), &self.context);
                if rows.len() == 0 {
                    return StepResult { outcome: Some(KeywordAction::Continue), effects };
                }
                let row = rows[self.selection_index];
                if self.channels[row.idx].channel_type == 4 {
                    return StepResult { outcome: Some(KeywordAction::Continue), effects };
                }
                let cid = self.channels[row.idx].id.clone();
                let cname = self.channels[row.idx].name.clone();
                self.status_message = String::from_str("Loading messages for ").concat(
                    cname.as_str(),
                ).concat("...");
                effects.push(
                    Effect::Enqueue(AppAction::TransitionToLoading(Window::Chat(cid.clone()))),
                );
                effects.push(Effect::FetchMessages(cid));
                effects.push(Effect::Enqueue(AppAction::EndLoading));
                StepResult { outcome: None, effects }
            },
            AppState::EmojiSelection(_) => {
                crate::emoji::emoji_confirm(self);
                StepResult { outcome: None, effects }
            },
            AppState::Chatting(id) => {
                if self.input.len() == 0 {
                    return StepResult { outcome: None, effects };
                }
                let cid = id.clone();
                let content = crate::text::string_of_chars(&self.input);
                self.input = Vec::new();
                self.cursor_position = 0;
                effects.push(Effect::SendMessage(cid, content));
                StepResult { outcome: None, effects }
            },
        }
    }
    /// Confirm on the current screen: exactly the step `submit_ok`
    /// describes.
    pub fn input_submit(&mut self) -> (r: StepResult)
        requires
            old(self).wf(),
        ensures
            final(self).wf(),
            submit_ok(*old(self), *final(self), r.outcome, r.effects@),
    {
        self.submit_step()
    }


    /// Fold a background batch for one conversation into the unread
    /// tracker: notifications are raised only for a conversation that is
    /// not the open chat, and the conversation's mark advances to the
    /// largest id in the batch; no mark ever regresses.
    pub fn apply_background_messages(&mut self, conv_id: String, msgs: Vec<Message>) -> (r:
        StepResult)
        requires
            old(self).wf(),
        ensures
            final(self).wf(),
            background_ok(*old(self), *final(self), conv_id, msgs, r.outcome, r.effects@),
    {
        let open_chat: Option<String> = match &self.state {
            AppState::Chatting(oc) => Some(oc.clone()),
            _ => None,
        };
        let notes = crate::sync::apply_dm_update(
            &mut self.last_seen,
            &conv_id,
            &msgs,
            &self.current_user,
            &open_chat,
            self.discreet_notifs,
        );
        let mut effects: Vec<Effect> = Vec::new();
        let n: usize = notes.len();
        let mut i: usize = 0;
        while i < n
            invariant
                n == notes@.len(),
                0 <= i <= n,
                effects@.len() == i,
                forall|k: int|
                    0 <= k < i ==> match #[trigger] effects@[k] {
                        Effect::Notify(m) => m == notes@[k],
                        _ => false,
                    },
            decreases n - i,
        {
            effects.push(
                Effect::Notify(
                    Notification {
                        summary: notes[i].summary.clone(),
                        body: notes[i].body.clone(),
                    },
                ),
            );
            i = i + 1;
        }
        StepResult { outcome: None, effects }
    }
}

/// What cancelling from the current screen does: quit from home or a
/// loading screen; a list screen falls back one level; a chat asks for
/// the conversation's info to decide where to fall back (or, with modal
/// editing, Esc in Insert mode only returns to Normal mode); the emoji
/// screen closes, dropping the filter span.
pub open spec fn escape_ok(o: App, f: App, outcome: Option<KeywordAction>, effects: Seq<Effect>) -> bool {
    &&& match o.state {
        AppState::Home | AppState::Loading(_) => outcome == Some(KeywordAction::Break)
            && f == o && effects.len() == 0,
        AppState::SelectingDM | AppState::SelectingGuild => f == o
            && outcome is None && effects == seq![
            Effect::Enqueue(AppAction::TransitionToHome),
        ],
        AppState::SelectingChannel(_) => f == o && outcome is None
            && effects == seq![Effect::Enqueue(AppAction::TransitionToGuilds)],
        AppState::Chatting(id) => if o.vim_mode && o.mode is Insert {
            let s = o.input@;
            let cur = o.cursor_position as int;
            let back = if cur > 0 && s[cur - 1] != '\n' {
                cur - 1
            } else {
                cur
            };
            outcome is None && effects.len() == 0 && f.mode is Normal
                && f.cursor_position == crate::vim::spec_clamp(s, back)
                && f.input == o.input && same_data(
                o,
                f,
            ) && f.state == o.state && f.selection_index
                == o.selection_index
        } else {
            f == o && outcome is None && effects == seq![
                Effect::FetchChannelInfo(id),
            ]
        },
        AppState::EmojiSelection(_) => crate::emoji::emoji_cancel_ok(o, f) && outcome is None
            && effects.len() == 0,
    }
}

/// What the looked-up conversation decides: a direct or group
/// conversation falls back to the conversation list, a guild channel to
/// its guild's channel list, anything else to the guild list; a failed
/// lookup falls back to home with the error as the status.
pub open spec fn chan_info_ok(o: App, f: App, res: Result<Channel, String>, outcome: Option<KeywordAction>, effects: Seq<Effect>) -> bool {
    &&& outcome is None
    &&& f == (App { status_message: f.status_message, ..o })
    &&& match res {
        Result::Ok(ch) => effects == seq![
            Effect::Enqueue(
                if ch.channel_type == 1 || ch.channel_type == 3 {
                    AppAction::TransitionToDM
                } else {
                    match ch.guild_id {
                        Option::Some(g) => AppAction::TransitionToChannels(g),
                        Option::None => AppAction::TransitionToGuilds,
                    }
                },
            ),
        ],
        Result::Err(e) => effects == seq![Effect::Enqueue(AppAction::TransitionToHome)]
            && f.status_message@ == e@,
    }
}

/// What confirming on the current screen does: home opens the guild or
/// conversation list, or quits; a list screen opens the selected entry
/// (or confirms nothing over an empty list or a category row); the
/// emoji screen commits the selected candidate; a chat sends the buffer
/// as a message and clears it.
pub open spec fn submit_ok(o: App, f: App, outcome: Option<KeywordAction>, effects: Seq<Effect>) -> bool {
    &&& match o.state {
        AppState::Loading(_) => f == o && outcome is None
            && effects.len() == 0,
        AppState::Home => f == o && (if o.selection_index == 0 {
            outcome is None && effects == seq![
                Effect::Enqueue(AppAction::TransitionToGuilds),
            ]
        } else if o.selection_index == 1 {
            outcome is None && effects == seq![
                Effect::Enqueue(AppAction::TransitionToDM),
            ]
        } else {
            outcome == Some(KeywordAction::Break) && effects.len() == 0
        }),
        AppState::SelectingGuild => {
            let idxs = guild_idxs(o.guilds@, lower_of(o.input@));
            if idxs.len() == 0 {
                f == o && outcome == Some(KeywordAction::Continue)
                    && effects.len() == 0
            } else {
                let g = o.guilds@[idxs[o.selection_index as int] as int];
                f == (App {
                    status_message: f.status_message,
                    ..o
                }) && outcome is None && effects == seq![
                    Effect::Enqueue(
                        AppAction::TransitionToLoading(Window::Channel(g.id)),
                    ),
                    Effect::FetchChannels(g.id),
                ]
            }
        },
        AppState::SelectingDM => {
            let idxs = dm_idxs(o.dms@, lower_of(o.input@));
            if idxs.len() == 0 {
                f == o && outcome == Some(KeywordAction::Continue)
                    && effects.len() == 0
            } else {
                let d = o.dms@[idxs[o.selection_index as int] as int];
                f == (App {
                    status_message: f.status_message,
                    ..o
                }) && outcome is None && effects == seq![
                    Effect::FetchMessages(d.id),
                    Effect::Enqueue(AppAction::TransitionToChat(d.id)),
                ]
            }
        },
        AppState::SelectingChannel(_) => {
            let rows = chan_rows(
                o.channels@,
                lower_of(o.input@),
                o.context,
            );
            if rows.len() == 0 || o.channels@[rows[o.selection_index as int].idx as int].channel_type == 4 {
                f == o && outcome == Some(KeywordAction::Continue)
                    && effects.len() == 0
            } else {
                let ch = o.channels@[rows[o.selection_index as int].idx as int];
                f == (App {
                    status_message: f.status_message,
                    ..o
                }) && outcome is None && effects == seq![
                    Effect::Enqueue(AppAction::TransitionToLoading(Window::Chat(ch.id))),
                    Effect::FetchMessages(ch.id),
                    Effect::Enqueue(AppAction::EndLoading),
                ]
            }
        },
        AppState::EmojiSelection(_) => crate::emoji::emoji_confirm_ok(o, f) && outcome is None
            && effects.len() == 0,
        AppState::Chatting(id) => if o.input@.len() == 0 {
            f == o && outcome is None && effects.len() == 0
        } else {
            &&& f.input@.len() == 0
            &&& f.cursor_position == 0
            &&& same_data(o, f)
            &&& f.state == o.state
            &&& f.selection_index == o.selection_index
            &&& outcome is None
            &&& effects.len() == 1
            &&& match effects[0] {
                Effect::SendMessage(cid, content) => cid == id && content@ == o.input@,
                _ => false,
            }
        },
    }
}

/// What folding a background batch does: notifications are raised only
/// for a conversation that is not the open chat, and the conversation's
/// mark advances to the largest id in the batch; no mark ever
/// regresses.
pub open spec fn background_ok(
    o: App,
    f: App,
    conv_id: String,
    msgs: Vec<Message>,
    outcome: Option<KeywordAction>,
    effects: Seq<Effect>,
) -> bool {
    &&& outcome is None
    &&& f == (App { last_seen: f.last_seen, ..o })
    &&& ({
        let key = crate::text::parsed_id(conv_id@) as u64;
        let is_open = match o.state {
            AppState::Chatting(oc) => oc@ == conv_id@,
            _ => false,
        };
        let seen = o.last_seen.mark_or_zero(key);
        let noted = crate::sync::notifying_msgs(msgs@, seen, o.current_user);
        &&& (is_open ==> effects.len() == 0)
        &&& (!is_open ==> effects.len() == noted.len() && forall|k: int|
            0 <= k < effects.len() ==> match #[trigger] effects[k] {
                Effect::Notify(n) => n.summary@ == noted[k].author.username@ && n.body@
                    == crate::sync::spec_body(noted[k], o.discreet_notifs),
                _ => false,
            })
        &&& (msgs@.len() > 0 ==> f.last_seen.tracked_mark(key) == Option::Some(
            match o.last_seen.tracked_mark(key) {
                Option::Some(v) => if crate::sync::batch_max(msgs@) > v {
                    crate::sync::batch_max(msgs@)
                } else {
                    v
                },
                Option::None => crate::sync::batch_max(msgs@),
            },
        ))
        &&& (msgs@.len() == 0 ==> f.last_seen == o.last_seen)
    })
    &&& forall|c2: u64|
        match o.last_seen.tracked_mark(c2) {
            Option::Some(v) => match #[trigger] f.last_seen.tracked_mark(c2) {
                Option::Some(w) => w >= v,
                Option::None => false,
            },
            Option::None => true,
        }
}

/// A keyboard event, already stripped to what the dispatch loop cares
/// about.
#[derive(Debug, Clone, Copy, PartialEq, Eq)]
pub enum KeyInput {
    Esc,
    Enter,
    Backspace,
    Up,
    Down,
    CtrlC,
    Char(char),
}

/// The action a key event turns into: `:` asks for emoji completion,
/// any other character is input.
pub fn action_for_key(k: KeyInput) -> (r: AppAction)
    ensures
        r == match k {
            KeyInput::Esc => AppAction::InputEscape,
            KeyInput::Enter => AppAction::InputSubmit,
            KeyInput::Backspace => AppAction::InputBackspace,
            KeyInput::Up => AppAction::SelectPrevious,
            KeyInput::Down => AppAction::SelectNext,
            KeyInput::CtrlC => AppAction::SigInt,
            KeyInput::Char(c) => if c == ':' {
                AppAction::SelectEmoji
            } else {
                AppAction::InputChar(c)
            },
        },
{
    match k {
        KeyInput::Esc => AppAction::InputEscape,
        KeyInput::Enter => AppAction::InputSubmit,
        KeyInput::Backspace => AppAction::InputBackspace,
        KeyInput::Up => AppAction::SelectPrevious,
        KeyInput::Down => AppAction::SelectNext,
        KeyInput::CtrlC => AppAction::SigInt,
        KeyInput::Char(c) => if c == ':' {
            AppAction::SelectEmoji
        } else {
            AppAction::InputChar(c)
        },
    }
}

impl App {
    /// Apply one queued action to the session under the lock: route it to
    /// its handler and hand back the loop verdict and the effects to
    /// perform outside the lock. An interrupt always stops the loop; a
    /// tick only advances the spinner. The unread tracker changes only
    /// under a background batch, and no mark of it ever regresses; the
    /// settings and the emoji table never change.
    pub fn handle_keys_events(&mut self, action: AppAction, now_ms: u64) -> (r: StepResult)
        requires
            old(self).wf(),
        ensures
            final(self).wf(),
            !(action is ApiUpdateBackgroundMessages) ==> final(self).last_seen == old(
                self).last_seen,
            forall|c2: u64|
                match old(self).last_seen.tracked_mark(c2) {
                    Option::Some(v) => match #[trigger] final(self).last_seen.tracked_mark(c2) {
                        Option::Some(w) => w >= v,
                        Option::None => false,
                    },
                    Option::None => true,
                },
            match action {
                AppAction::SigInt => r.outcome == Some(KeywordAction::Break) && *final(self)
                    == *old(self) && r.effects@.len() == 0,
                AppAction::Tick => tick_ok(*old(self), *final(self)) && r.outcome == Some(
                    KeywordAction::Continue,
                ) && r.effects@.len() == 0,
                AppAction::InputChar(c) => r.outcome is None && (if old(
                    self).state is EmojiSelection {
                    crate::emoji::emoji_insert_ok(*old(self), *final(self), c)
                        && r.effects@.len() == 0
                } else if old(self).vim_mode && old(self).mode is Normal {
                    crate::vim::vim_frame(*old(self), *final(self)) && crate::vim::vim_step_ok(
                        *old(self),
                        *final(self),
                        c,
                        now_ms,
                        r.effects@,
                    )
                } else {
                    insert_lit_ok(*old(self), *final(self), c) && r.effects@.len() == 0
                }),
                AppAction::InputBackspace => r.outcome is None && r.effects@.len() == 0 && (if old(
                    self).state is EmojiSelection {
                    crate::emoji::emoji_backspace_ok(*old(self), *final(self))
                } else {
                    backspace_lit_ok(*old(self), *final(self))
                }),
                AppAction::InputEscape => escape_ok(*old(self), *final(self), r.outcome, r.effects@),
                AppAction::InputSubmit => submit_ok(*old(self), *final(self), r.outcome, r.effects@),
                AppAction::SelectNext => move_sel_ok(*old(self), *final(self), true)
                    && r.outcome is None && r.effects@.len() == 0,
                AppAction::SelectPrevious => move_sel_ok(*old(self), *final(self), false)
                    && r.outcome is None && r.effects@.len() == 0,
                AppAction::ApiUpdateMessages(v) => update_messages_ok(*old(self), *final(self), v)
                    && r.outcome is None && r.effects@.len() == 0,
                AppAction::ApiUpdateChannel(v) => update_channels_ok(*old(self), *final(self), v)
                    && r.outcome is None && r.effects@.len() == 0,
                AppAction::ApiUpdateEmojis(v) => update_emojis_ok(*old(self), *final(self), v)
                    && r.outcome is None && r.effects@.len() == 0,
                AppAction::ApiUpdateGuilds(v) => update_guilds_ok(*old(self), *final(self), v)
                    && r.outcome is None && r.effects@.len() == 0,
                AppAction::ApiUpdateDMs(v) => update_dms_ok(*old(self), *final(self), v)
                    && r.outcome is None && r.effects@.len() == 0,
                AppAction::ApiUpdateContext(v) => update_context_ok(*old(self), *final(self), v)
                    && r.outcome is None && r.effects@.len() == 0,
                AppAction::ApiUpdateBackgroundMessages(cid, msgs) => background_ok(
                    *old(self),
                    *final(self),
                    cid,
                    msgs,
                    r.outcome,
                    r.effects@,
                ),
                AppAction::ChannelInfoFetched(res) => chan_info_ok(
                    *old(self),
                    *final(self),
                    res,
                    r.outcome,
                    r.effects@,
                ),
                AppAction::TransitionToChat(cid) => nav_reset_ok(
                    *old(self),
                    *final(self),
                    AppState::Chatting(cid),
                ) && r.outcome is None && r.effects@.len() == 0,
                AppAction::TransitionToChannels(g) => nav_reset_ok(
                    *old(self),
                    *final(self),
                    AppState::SelectingChannel(g),
                ) && r.outcome is None && r.effects@.len() == 0,
                AppAction::TransitionToGuilds => nav_reset_ok(
                    *old(self),
                    *final(self),
                    AppState::SelectingGuild,
                ) && r.outcome is None && r.effects@.len() == 0,
                AppAction::TransitionToDM => nav_reset_ok(
                    *old(self),
                    *final(self),
                    AppState::SelectingDM,
                ) && r.outcome is None && r.effects@.len() == 0,
                AppAction::TransitionToHome => nav_reset_ok(
                    *old(self),
                    *final(self),
                    AppState::Home,
                ) && r.outcome is None && r.effects@.len() == 0,
                AppAction::TransitionToLoading(w) => r.outcome is None && r.effects@.len() == 0
                    && (if old(self).state is EmojiSelection {
                    *final(self) == *old(self)
                } else {
                    loading_ok(*old(self), *final(self), w)
                }),
                AppAction::EndLoading => end_loading_ok(*old(self), *final(self), r.effects@)
                    && r.outcome is None,
                AppAction::SelectEmoji => crate::emoji::start_emoji_ok(*old(self), *final(self))
                    && r.outcome is None && r.effects@.len() == 0,
            },
    {
        match action {
            AppAction::SigInt => StepResult { outcome: Some(KeywordAction::Break), effects: Vec::new() },
            AppAction::Tick => {
                self.apply_tick();
                StepResult { outcome: Some(KeywordAction::Continue), effects: Vec::new() }
            },
            AppAction::InputChar(c) => {
                let is_emoji = matches!(self.state, AppState::EmojiSelection(_));
                if is_emoji {
                    crate::emoji::emoji_insert_char(self, c);
                    StepResult { outcome: None, effects: Vec::new() }
                } else if self.vim_mode && matches!(self.mode, InputMode::Normal) {
                    let effects = crate::vim::handle_vim_keys(self, c, now_ms);
                    StepResult { outcome: None, effects }
                } else {
                    self.insert_char_literal(c);
                    StepResult { outcome: None, effects: Vec::new() }
                }
            },
            AppAction::InputBackspace => {
                let is_emoji = matches!(self.state, AppState::EmojiSelection(_));
                if is_emoji {
                    crate::emoji::emoji_backspace(self);
                } else {
                    self.backspace_literal();
                }
                StepResult { outcome: None, effects: Vec::new() }
            },
            AppAction::InputEscape => self.handle_escape(),
            AppAction::InputSubmit => self.input_submit(),
            AppAction::SelectNext => {
                self.move_selection(true);
                StepResult { outcome: None, effects: Vec::new() }
            },
            AppAction::SelectPrevious => {
                self.move_selection(false);
                StepResult { outcome: None, effects: Vec::new() }
            },
            AppAction::ApiUpdateMessages(v) => {
                self.update_messages(v);
                StepResult { outcome: None, effects: Vec::new() }
            },
            AppAction::ApiUpdateChannel(v) => {
                self.update_channels(v);
                StepResult { outcome: None, effects: Vec::new() }
            },
            AppAction::ApiUpdateEmojis(v) => {
                self.update_emojis(v);
                StepResult { outcome: None, effects: Vec::new() }
            },
            AppAction::ApiUpdateGuilds(v) => {
                self.update_guilds(v);
                StepResult { outcome: None, effects: Vec::new() }
            },
            AppAction::ApiUpdateDMs(v) => {
                self.update_dms(v);
                StepResult { outcome: None, effects: Vec::new() }
            },
            AppAction::ApiUpdateContext(v) => {
                self.update_context(v);
                StepResult { outcome: None, effects: Vec::new() }
            },
            AppAction::ApiUpdateBackgroundMessages(conv, msgs) => self.apply_background_messages(
                conv,
                msgs,
            ),
            AppAction::ChannelInfoFetched(res) => self.channel_info_fetched(res),
            AppAction::TransitionToChat(c) => {
                self.transition_chat(c);
                StepResult { outcome: None, effects: Vec::new() }
            },
            AppAction::TransitionToChannels(g) => {
                self.transition_channels(g);
                StepResult { outcome: None, effects: Vec::new() }
            },
            AppAction::TransitionToGuilds => {
                self.transition_guilds();
                StepResult { outcome: None, effects: Vec::new() }
            },
            AppAction::TransitionToDM => {
                self.transition_dm();
                StepResult { outcome: None, effects: Vec::new() }
            },
            AppAction::TransitionToHome => {
                self.transition_home();
                StepResult { outcome: None, effects: Vec::new() }
            },
            AppAction::TransitionToLoading(w) => {
                if !matches!(self.state, AppState::EmojiSelection(_)) {
                    self.transition_loading(w);
                }
                StepResult { outcome: None, effects: Vec::new() }
            },
            AppAction::EndLoading => {
                let effects = self.end_loading();
                StepResult { outcome: None, effects }
            },
            AppAction::SelectEmoji => {
                crate::emoji::start_emoji(self);
                StepResult { outcome: None, effects: Vec::new() }
            },
        }
    }
}

} // verus!
