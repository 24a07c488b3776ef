//! Word watching: handlers that look for watched words in a message and
//! nudge the speaker.
use crate::message::InboundMessage;
use crate::text::{list_has, listed, lower_of, occurs_in, text_contains, to_lower};
use vstd::prelude::*;

verus! {

/// Every item of `items` in lower case.
pub open spec fn lowered(items: Seq<Seq<char>>) -> Seq<Seq<char>> {
    items.map_values(|w: Seq<char>| lower_of(w))
}

/// Every string in lower case.
pub fn lower_all(items: &Vec<String>) -> (r: Vec<String>)
    ensures
        r.deep_view() == lowered(items.deep_view()),
{
    let mut out: Vec<String> = Vec::new();
    let mut i: usize = 0;
    while i < items.len()
        invariant
            i <= items@.len(),
            out@.len() == i,
            forall|k: int| 0 <= k < i ==> (#[trigger] out@[k])@ == lower_of(items@[k]@),
        decreases items@.len() - i,
    {
        out.push(to_lower(items[i].as_str()));
        i = i + 1;
    }
    proof {
        assert(out.deep_view() =~= lowered(items.deep_view()));
    }
    out
}

/// The message was posted in a channel whose name is on `deny_channels`.
pub open spec fn channel_denied(deny_channels: Seq<Seq<char>>, msg: &InboundMessage) -> bool {
    msg.channel_name matches Some(name) && listed(deny_channels, name@)
}

/// Whether the message's channel name is on `deny_channels`.
pub fn is_channel_denied(deny_channels: &Vec<String>, msg: &InboundMessage) -> (r: bool)
    ensures
        r == channel_denied(deny_channels.deep_view(), msg),
{
    match &msg.channel_name {
        Some(name) => list_has(deny_channels, name.as_str()),
        None => false,
    }
}

/// A watched word occurs in `text`.
pub open spec fn some_word_occurs(words: Seq<Seq<char>>, text: Seq<char>) -> bool {
    exists|i: int| 0 <= i < words.len() && occurs_in(#[trigger] words[i], text)
}

/// The watch fires: the channel is not denied, the author (by lower-case
/// tag) is not allowed the words, and the lower-case text holds one of the
/// words.
pub open spec fn watch_fires(
    words: Seq<Seq<char>>,
    allow_users: Seq<Seq<char>>,
    deny_channels: Seq<Seq<char>>,
    msg: &InboundMessage,
) -> bool {
    &&& !channel_denied(deny_channels, msg)
    &&& !listed(allow_users, lower_of(msg.author_tag@))
    &&& some_word_occurs(words, lower_of(msg.content@))
}

/// Evaluates a watch over `msg`.
#[verifier::loop_isolation(false)]
pub fn watch_hits(
    words: &Vec<String>,
    allow_users: &Vec<String>,
    deny_channels: &Vec<String>,
    msg: &InboundMessage,
) -> (r: bool)
    ensures
        r == watch_fires(words.deep_view(), allow_users.deep_view(), deny_channels.deep_view(), msg),
{
    if is_channel_denied(deny_channels, msg) {
        return false;
    }
    let tag = to_lower(msg.author_tag.as_str());
    if list_has(allow_users, tag.as_str()) {
        return false;
    }
    let haystack = to_lower(msg.content.as_str());
    let mut i: usize = 0;
    while i < words.len()
        invariant
            i <= words@.len(),
            haystack@ == lower_of(msg.content@),
            forall|k: int| 0 <= k < i ==> !occurs_in(#[trigger] words.deep_view()[k], haystack@),
        decreases words@.len() - i,
    {
        if text_contains(haystack.as_str(), words[i].as_str()) {
            assert(occurs_in(words.deep_view()[i as int], haystack@));
            return true;
        }
        i = i + 1;
    }
    false
}

/// The text before the suggested channel's name in a nudge.
pub const NUDGE_PREFIX: &'static str = "Hey, that sounds like it may be best taken to #";

/// The text after the suggested channel's name in a nudge.
pub const NUDGE_SUFFIX: &'static str = ".";

/// Watches messages for specific words and directs whoever says one to a
/// suggested channel.
pub struct WordWatcher {
    /// Words which get a nudge, in lower case.
    watched_words: Vec<String>,
    /// Tags of users who may say the words without a nudge, in lower case.
    allow_users_by_tag: Vec<String>,
    /// Names of channels in which the words are allowed.
    deny_channels: Vec<String>,
    /// The channel the nudge points to.
    suggest_channel: String,
}

impl WordWatcher {
    pub closed spec fn words(&self) -> Seq<Seq<char>> {
        self.watched_words.deep_view()
    }

    pub closed spec fn allowed_users(&self) -> Seq<Seq<char>> {
        self.allow_users_by_tag.deep_view()
    }

    pub closed spec fn denied_channels(&self) -> Seq<Seq<char>> {
        self.deny_channels.deep_view()
    }

    pub closed spec fn suggestion(&self) -> Seq<char> {
        self.suggest_channel@
    }

    /// A watcher for `words`; words and user tags are kept in lower case.
    pub fn new(
        words: Vec<String>,
        allow_users: Vec<String>,
        deny_channels: Vec<String>,
        suggest_channel: String,
    ) -> (r: WordWatcher)
        ensures
            r.words() == lowered(words.deep_view()),
            r.allowed_users() == lowered(allow_users.deep_view()),
            r.denied_channels() == deny_channels.deep_view(),
            r.suggestion() == suggest_channel@,
    {
        let watched_words = lower_all(&words);
        let allow_users_by_tag = lower_all(&allow_users);
        WordWatcher { watched_words, allow_users_by_tag, deny_channels, suggest_channel }
    }

    pub fn is_exclusive(&self) -> (r: bool)
        ensures
            !r,
    {
        false
    }

    /// Whether the watcher takes `msg`.
    pub open spec fn wants(&self, msg: &InboundMessage) -> bool {
        watch_fires(self.words(), self.allowed_users(), self.denied_channels(), msg)
    }

    pub fn should_handle(&self, msg: &InboundMessage) -> (r: bool)
        ensures
            r == self.wants(msg),
    {
        watch_hits(&self.watched_words, &self.allow_users_by_tag, &self.deny_channels, msg)
    }

    /// The nudge toward the suggested channel.
    pub fn on_message(&self) -> (r: String)
        ensures
            r@ == NUDGE_PREFIX@ + self.suggestion() + NUDGE_SUFFIX@,
    {
        let mut out = String::from_str(NUDGE_PREFIX);
        out.append(self.suggest_channel.as_str());
        out.append(NUDGE_SUFFIX);
        out
    }
}

} // verus!
