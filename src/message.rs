//! The inbound message as the handlers see it: plain values that the
//! platform client gathered for one event.
use vstd::prelude::*;

verus! {

/// One inbound message.
pub struct InboundMessage {
    /// The author's user id.
    pub author: u64,
    /// The author's tag (`name#1234` or the bare user name).
    pub author_tag: String,
    /// The guild the message was posted in; `None` outside a guild.
    pub guild: Option<u64>,
    /// The channel the message was posted in.
    pub channel: u64,
    /// The name of that channel, where the guild's channel list gave one.
    pub channel_name: Option<String>,
    /// The raw text.
    pub content: String,
    /// The text with mention syntax resolved to display names.
    pub content_safe: String,
    /// The users mentioned in the message.
    pub mentions: Vec<u64>,
    /// Whether the message mentions the bot; `None` when the platform could
    /// not tell.
    pub mentions_bot: Option<bool>,
}

/// A role of a guild, as the guild's role list gives it.
pub struct GuildRole {
    pub id: u64,
    pub name: String,
}

/// Why a handler could not decide whether it wants a message.
#[derive(Clone, Copy, Debug, PartialEq, Eq, Structural)]
pub enum HandlerError {
    /// The platform could not say whether the bot was mentioned.
    MentionCheckFailed,
}

} // verus!
