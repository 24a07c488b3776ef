//! The acknowledgement handler: when the bot is mentioned it answers, so
//! that people know it is still there.
use crate::message::{HandlerError, InboundMessage};
use crate::word_watcher::{channel_denied, is_channel_denied};
use vstd::prelude::*;

verus! {

/// The acknowledgement.
pub const ACK_REPLY: &'static str = "I don't know about that";

/// Answers every message that mentions the bot, outside the denied
/// channels.
pub struct AckMessageHandler {
    /// Names of channels in which the bot never answers.
    deny_channels: Vec<String>,
}

impl AckMessageHandler {
    pub closed spec fn denied_channels(&self) -> Seq<Seq<char>> {
        self.deny_channels.deep_view()
    }

    pub fn new(deny_channels: Vec<String>) -> (r: AckMessageHandler)
        ensures
            r.denied_channels() == deny_channels.deep_view(),
    {
        AckMessageHandler { deny_channels }
    }

    pub fn is_exclusive(&self) -> (r: bool)
        ensures
            !r,
    {
        false
    }

    /// What the handler decides for `msg`: no in a denied channel, else
    /// whether the bot is mentioned, which fails when the platform could
    /// not tell.
    pub open spec fn decision(&self, msg: &InboundMessage) -> Result<bool, HandlerError> {
        if channel_denied(self.denied_channels(), msg) {
            Ok(false)
        } else {
            match msg.mentions_bot {
                Some(b) => Ok(b),
                None => Err(HandlerError::MentionCheckFailed),
            }
        }
    }

    pub fn should_handle(&self, msg: &InboundMessage) -> (r: Result<bool, HandlerError>)
        ensures
            r == self.decision(msg),
    {
        if is_channel_denied(&self.deny_channels, msg) {
            return Ok(false);
        }
        match msg.mentions_bot {
            Some(b) => Ok(b),
            None => Err(HandlerError::MentionCheckFailed),
        }
    }

    /// The reply to a message the handler took.
    pub fn on_message(&self) -> (r: String)
        ensures
            r@ == ACK_REPLY@,
    {
        String::from_str(ACK_REPLY)
    }
}

} // verus!
