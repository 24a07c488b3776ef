//! Triggers: what an autoresponder looks for in a message.
use crate::filter::contains_id;
use crate::message::InboundMessage;
use crate::pattern::{regex_finds, Pattern};
use vstd::prelude::*;

verus! {

/// One of `patterns` matches somewhere in `text`.
pub open spec fn some_pattern_finds(patterns: Seq<Pattern>, text: Seq<char>) -> bool {
    exists|i: int| 0 <= i < patterns.len() && regex_finds(#[trigger] patterns[i]@, text)
}

/// One of `ids` is among `mentions`.
pub open spec fn mentions_any(ids: Seq<u64>, mentions: Seq<u64>) -> bool {
    exists|i: int| 0 <= i < ids.len() && mentions.contains(#[trigger] ids[i])
}

/// What makes an autoresponder consider a message.
pub enum AutoresponderTrigger {
    /// One of the patterns matches the message text, with mentions shown
    /// as display names.
    MessageMatches { message_matches: Vec<Pattern> },
    /// One of these users wrote the message.
    UserMessage { user_message: Vec<u64> },
    /// The message mentions one of these users.
    UserMentioned { user_mentioned: Vec<u64> },
}

impl AutoresponderTrigger {
    /// Whether the trigger fires on `msg`.
    pub open spec fn fires(&self, msg: &InboundMessage) -> bool {
        match self {
            AutoresponderTrigger::MessageMatches { message_matches } => some_pattern_finds(
                message_matches@,
                msg.content_safe@,
            ),
            AutoresponderTrigger::UserMessage { user_message } => user_message@.contains(msg.author),
            AutoresponderTrigger::UserMentioned { user_mentioned } => mentions_any(
                user_mentioned@,
                msg.mentions@,
            ),
        }
    }

    /// Evaluates the trigger; it never fails.
    #[verifier::loop_isolation(false)]
    pub fn should_run(&self, msg: &InboundMessage) -> (r: bool)
        ensures
            r == self.fires(msg),
    {
        match self {
            AutoresponderTrigger::MessageMatches { message_matches } => {
                let mut i: usize = 0;
                while i < message_matches.len()
                    invariant
                        i <= message_matches@.len(),
                        forall|k: int|
                            0 <= k < i ==> !regex_finds(
                                #[trigger] message_matches@[k]@,
                                msg.content_safe@,
                            ),
                    decreases message_matches@.len() - i,
                {
                    if message_matches[i].is_match(msg.content_safe.as_str()) {
                        assert(regex_finds(message_matches@[i as int]@, msg.content_safe@));
                        return true;
                    }
                    i = i + 1;
                }
                false
            },
            AutoresponderTrigger::UserMessage { user_message } => contains_id(
                user_message,
                msg.author,
            ),
            AutoresponderTrigger::UserMentioned { user_mentioned } => {
                let mut i: usize = 0;
                while i < user_mentioned.len()
                    invariant
                        i <= user_mentioned@.len(),
                        forall|k: int|
                            0 <= k < i ==> !msg.mentions@.contains(#[trigger] user_mentioned@[k]),
                    decreases user_mentioned@.len() - i,
                {
                    if contains_id(&msg.mentions, user_mentioned[i]) {
                        assert(msg.mentions@.contains(user_mentioned@[i as int]));
                        return true;
                    }
                    i = i + 1;
                }
                false
            },
        }
    }
}

} // verus!
