//! The verbal morality handler: watches for bad words, counts each
//! speaker's infractions and posts a warning addressed to them.
use crate::message::InboundMessage;
use crate::text::{decimal, decimal_string, push_decimal, replace_all, replace_text};
use crate::word_watcher::{lower_all, lowered, watch_fires, watch_hits};
use vstd::prelude::*;

verus! {

/// The placeholder in a warning that stands for the speaker's name.
pub const USER_PLACEHOLDER: &'static str = "{{user}}";

/// Watches messages for bad words and warns whoever says one.
pub struct VerbalMoralityHandler {
    /// Words which get a warning, in lower case.
    bad_words: Vec<String>,
    /// Tags of users who may say the words, in lower case.
    allow_users_by_tag: Vec<String>,
    /// Names of channels in which the words are allowed.
    deny_channels: Vec<String>,
    /// The warning; `{{user}}` in it stands for the speaker's name.
    warning_message: String,
}

/// The key of a speaker's infraction record: the guild id (zero outside a
/// guild), a dot, and the user id.
pub open spec fn infraction_key_of(guild: Option<u64>, user: u64) -> Seq<char> {
    let g: u64 = match guild {
        Some(g) => g,
        None => 0,
    };
    decimal(g as nat) + seq!['.'] + decimal(user as nat)
}

impl VerbalMoralityHandler {
    pub closed spec fn words(&self) -> Seq<Seq<char>> {
        self.bad_words.deep_view()
    }

    pub closed spec fn allowed_users(&self) -> Seq<Seq<char>> {
        self.allow_users_by_tag.deep_view()
    }

    pub closed spec fn denied_channels(&self) -> Seq<Seq<char>> {
        self.deny_channels.deep_view()
    }

    pub closed spec fn warning(&self) -> Seq<char> {
        self.warning_message@
    }

    /// A handler for `words`; words and user tags are kept in lower case.
    pub fn new(
        words: Vec<String>,
        allow_users: Vec<String>,
        deny_channels: Vec<String>,
        warning_message: String,
    ) -> (r: VerbalMoralityHandler)
        ensures
            r.words() == lowered(words.deep_view()),
            r.allowed_users() == lowered(allow_users.deep_view()),
            r.denied_channels() == deny_channels.deep_view(),
            r.warning() == warning_message@,
    {
        let bad_words = lower_all(&words);
        let allow_users_by_tag = lower_all(&allow_users);
        VerbalMoralityHandler { bad_words, allow_users_by_tag, deny_channels, warning_message }
    }

    pub fn is_exclusive(&self) -> (r: bool)
        ensures
            !r,
    {
        false
    }

    /// Whether the handler takes `msg`.
    pub open spec fn wants(&self, msg: &InboundMessage) -> bool {
        watch_fires(self.words(), self.allowed_users(), self.denied_channels(), msg)
    }

    pub fn should_handle(&self, msg: &InboundMessage) -> (r: bool)
        ensures
            r == self.wants(msg),
    {
        watch_hits(&self.bad_words, &self.allow_users_by_tag, &self.deny_channels, msg)
    }

    /// The key under which the author's infractions are counted.
    pub fn infraction_key(msg: &InboundMessage) -> (r: String)
        ensures
            r@ == infraction_key_of(msg.guild, msg.author),
    {
        let guild: u64 = match msg.guild {
            Some(g) => g,
            None => 0,
        };
        let mut key = decimal_string(guild);
        key.append(".");
        push_decimal(&mut key, msg.author);
        proof {
            reveal_strlit(".");
            assert(key@ =~= infraction_key_of(msg.guild, msg.author));
        }
        key
    }

    /// The warning for a speaker: their nickname where they have one, else
    /// their user name, put in place of every `{{user}}`.
    pub fn warning_for(&self, nick: Option<String>, name: String) -> (r: String)
        ensures
            r@ == replace_all(
                self.warning(),
                USER_PLACEHOLDER@,
                match nick {
                    Some(n) => n@,
                    None => name@,
                },
            ),
    {
        let user = match nick {
            Some(n) => n,
            None => name,
        };
        proof {
            reveal_strlit("{{user}}");
        }
        replace_text(self.warning_message.as_str(), USER_PLACEHOLDER, user.as_str())
    }
}

} // verus!
