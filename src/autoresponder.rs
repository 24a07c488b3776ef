//! Autoresponders: a trigger, a filter and an action, configured per guild.
use crate::filter::AutoresponderFilter;
use crate::message::InboundMessage;
use crate::text::listed;
use crate::trigger::AutoresponderTrigger;
use rand::seq::SliceRandom;
use vstd::prelude::*;

verus! {

/// Relies on rand's `SliceRandom::choose` with the thread-local generator:
/// it hands back one of the items, or none when there are none.
#[verifier::external_body]
pub(crate) fn choose_one(items: &Vec<String>) -> (r: Option<String>)
    ensures
        r is None <==> items@.len() == 0,
        r matches Some(s) ==> listed(items.deep_view(), s@),
{
    items.choose(&mut rand::thread_rng()).cloned()
}

/// A copy of a list of strings.
pub fn copy_strings(items: &Vec<String>) -> (r: Vec<String>)
    ensures
        r.deep_view() == items.deep_view(),
{
    let mut out: Vec<String> = Vec::new();
    let mut i: usize = 0;
    while i < items.len()
        invariant
            i <= items@.len(),
            out@.len() == i,
            forall|k: int| 0 <= k < i ==> (#[trigger] out@[k])@ == items@[k]@,
        decreases items@.len() - i,
    {
        out.push(items[i].clone());
        i = i + 1;
    }
    proof {
        assert(out.deep_view() =~= items.deep_view());
    }
    out
}

/// What an autoresponder does once it fires.
pub struct AutoresponderAction {
    /// Names of the guild emojis to react with.
    pub twemojis: Vec<String>,
    /// Replies, one of which is sent, picked at random.
    pub reply_messages: Vec<String>,
    /// Counters to increment for the message's author.
    pub counter: Vec<String>,
}

/// The effects of one run of an autoresponder action.
pub struct ActionPlan {
    /// The user whose counters go up.
    pub author: u64,
    /// The counters to increment, in order.
    pub counters: Vec<String>,
    /// The emoji names to react with, in order.
    pub twemojis: Vec<String>,
    /// The reply to send, if any.
    pub reply: Option<String>,
}

impl AutoresponderAction {
    /// The plan for `msg` with `reply` as the reply picked.
    pub fn plan_with_reply(&self, msg: &InboundMessage, reply: Option<String>) -> (r: ActionPlan)
        ensures
            r.author == msg.author,
            r.counters.deep_view() == self.counter.deep_view(),
            r.twemojis.deep_view() == self.twemojis.deep_view(),
            r.reply == reply,
    {
        ActionPlan {
            author: msg.author,
            counters: copy_strings(&self.counter),
            twemojis: copy_strings(&self.twemojis),
            reply,
        }
    }

    /// The plan for `msg`: every counter and emoji, and one of the replies
    /// when any is configured.
    pub fn run(&self, msg: &InboundMessage) -> (r: ActionPlan)
        ensures
            r.author == msg.author,
            r.counters.deep_view() == self.counter.deep_view(),
            r.twemojis.deep_view() == self.twemojis.deep_view(),
            r.reply is None <==> self.reply_messages@.len() == 0,
            r.reply matches Some(s) ==> listed(self.reply_messages.deep_view(), s@),
    {
        let reply = choose_one(&self.reply_messages);
        self.plan_with_reply(msg, reply)
    }
}

/// An autoresponder: when its trigger fires and its filter passes, its
/// action runs.
pub struct Autoresponder {
    pub trigger: AutoresponderTrigger,
    pub filter: AutoresponderFilter,
    pub action: AutoresponderAction,
}

impl Autoresponder {
    /// Whether the autoresponder takes `msg`, arriving at `now`.
    pub open spec fn wants(&self, msg: &InboundMessage, now: u64) -> bool {
        self.trigger.fires(msg) && self.filter.passes(msg.channel, now)
    }

    /// The autoresponder after `msg` was offered to it at `now`: the filter
    /// is consulted only when the trigger fires.
    pub open spec fn after(&self, msg: &InboundMessage, now: u64) -> Autoresponder {
        if self.trigger.fires(msg) {
            Autoresponder {
                trigger: self.trigger,
                filter: self.filter.after(msg.channel, now),
                action: self.action,
            }
        } else {
            *self
        }
    }

    /// Evaluates the trigger, then the filter.
    pub fn should_handle(&mut self, msg: &InboundMessage, now: u64) -> (r: bool)
        ensures
            r == old(self).wants(msg, now),
            *final(self) == old(self).after(msg, now),
    {
        if !self.trigger.should_run(msg) {
            return false;
        }
        self.filter.should_run(msg.channel, now)
    }

    /// Offers `msg` to the autoresponder; the plan of its action when it
    /// takes the message.
    pub fn handle(&mut self, msg: &InboundMessage, now: u64) -> (r: Option<ActionPlan>)
        ensures
            r is Some <==> old(self).wants(msg, now),
            *final(self) == old(self).after(msg, now),
            r matches Some(p) ==> {
                &&& p.author == msg.author
                &&& p.counters.deep_view() == old(self).action.counter.deep_view()
                &&& p.twemojis.deep_view() == old(self).action.twemojis.deep_view()
                &&& p.reply is None <==> old(self).action.reply_messages@.len() == 0
                &&& p.reply matches Some(s) ==> listed(
                    old(self).action.reply_messages.deep_view(),
                    s@,
                )
            },
    {
        if self.should_handle(msg, now) {
            Some(self.action.run(msg))
        } else {
            None
        }
    }
}

} // verus!
