//! The wire-facing data model: the entities the state machine reads, held as
//! plain values. Collections are replaced wholesale on each successful fetch.

use vstd::prelude::*;

verus! {

/// A chat platform account.
#[derive(Debug, Clone)]
pub struct User {
    pub id: String,
    pub username: String,
}

/// A server the current user belongs to.
#[derive(Debug, Clone)]
pub struct Guild {
    pub id: String,
    pub name: String,
}

/// A permission overwrite attached to a channel: a layer of allow/deny bits
/// for one role or one member.
#[derive(Debug, Clone)]
pub struct Overwrite {
    pub id: String,
    /// 0 for a role overwrite, 1 for a member overwrite.
    pub kind: u8,
    pub allow: u64,
    pub deny: u64,
}

/// A guild role with its baseline permission bits.
#[derive(Debug, Clone)]
pub struct Role {
    pub id: String,
    pub permissions: u64,
}

/// The viewer's standing in the currently browsed guild: their roles, all of
/// the guild's roles, and the everyone-role id (always among the viewer's
/// role ids).
#[derive(Debug, Clone)]
pub struct PermissionContext {
    pub user_id: String,
    pub user_role_ids: Vec<String>,
    pub all_guild_roles: Vec<Role>,
    pub everyone_role_id: String,
}

/// A guild channel. Categories (`channel_type == 4`) own their children
/// through the `parent_id` relation on the flat channel list.
#[derive(Debug, Clone)]
pub struct Channel {
    pub id: String,
    pub name: String,
    pub channel_type: u8,
    pub guild_id: Option<String>,
    pub parent_id: Option<String>,
    pub permission_overwrites: Vec<Overwrite>,
}

/// A direct conversation.
#[derive(Debug, Clone)]
pub struct DM {
    pub id: String,
    pub channel_type: u8,
    pub last_message_id: Option<String>,
    pub recipients: Vec<User>,
    pub name: Option<String>,
}

impl DM {
    /// The name a conversation is listed under: its explicit name if it has
    /// one, else the first recipient's username, else nothing.
    pub open spec fn spec_name(&self) -> Seq<char> {
        match self.name {
            Option::Some(n) => n@,
            Option::None => if self.recipients@.len() > 0 {
                self.recipients@[0].username@
            } else {
                Seq::<char>::empty()
            },
        }
    }

    /// The conversation's display name.
    pub fn get_name(&self) -> (r: String)
        ensures
            r@ == self.spec_name(),
    {
        match &self.name {
            Option::Some(n) => n.clone(),
            Option::None => {
                if self.recipients.len() > 0 {
                    self.recipients[0].username.clone()
                } else {
                    String::new()
                }
            },
        }
    }
}

/// A guild's custom emoji.
#[derive(Debug, Clone)]
pub struct Emoji {
    pub id: String,
    pub name: String,
    pub animated: Option<bool>,
}

/// A chat message, most recent last in the message list.
#[derive(Debug, Clone)]
pub struct Message {
    pub id: String,
    pub author: User,
    pub content: Option<String>,
    pub timestamp: String,
}

/// Startup configuration: whether modal editing is enabled, whether
/// notifications hide message bodies, and the emoji name-to-glyph table.
#[derive(Debug, Clone)]
pub struct Config {
    pub version: u8,
    pub vim_mode: bool,
    pub discreet_notifs: bool,
    pub emoji_map: Vec<(String, String)>,
}

impl Default for Config {
    /// Modal editing on, discreet notifications off, no emoji table.
    fn default() -> (r: Self)
        ensures
            r.version == 1,
            r.vim_mode,
            !r.discreet_notifs,
            r.emoji_map@.len() == 0,
    {
        Config { version: 1, vim_mode: true, discreet_notifs: false, emoji_map: Vec::new() }
    }
}

/// Severity of a log line.
#[derive(Debug, Clone, Copy, PartialEq, Eq, Structural)]
pub enum LogType {
    Error,
    Warning,
    Info,
    Debug,
}

impl LogType {
    /// The label a log line carries for this severity.
    pub fn label(&self) -> (r: &'static str)
        ensures
            *self is Error ==> r@ == "ERROR"@,
            *self is Warning ==> r@ == "WARN"@,
            *self is Info ==> r@ == "INFO"@,
            *self is Debug ==> r@ == "DEBUG"@,
    {
        match self {
            LogType::Error => "ERROR",
            LogType::Warning => "WARN",
            LogType::Info => "INFO",
            LogType::Debug => "DEBUG",
        }
    }
}

} // verus!
