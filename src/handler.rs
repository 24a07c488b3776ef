//! The handler kinds as one type, each with its predicate and its
//! exclusivity.
use crate::ack_message_handler::AckMessageHandler;
use crate::autoresponder::Autoresponder;
use crate::message::{HandlerError, InboundMessage};
use crate::role_wizard::RoleWizard;
use crate::verbal_morality::VerbalMoralityHandler;
use crate::word_watcher::{channel_denied, WordWatcher};
use vstd::prelude::*;

verus! {

/// One configured handler.
pub enum Handler {
    Ack(AckMessageHandler),
    RoleWizard(RoleWizard),
    WordWatcher(WordWatcher),
    VerbalMorality(VerbalMoralityHandler),
    Autoresponder(Autoresponder),
}

/// What a handler decided about one message.
#[derive(Clone, Copy, Debug, PartialEq, Eq, Structural)]
pub enum Verdict {
    /// The handler does not want the message.
    Skip,
    /// The handler could not decide; it counts as not wanting the message.
    Failed(HandlerError),
    /// The handler wants the message: its action runs.
    Run,
}

/// The verdict for a decision that may have failed.
pub open spec fn verdict_of(decision: Result<bool, HandlerError>) -> Verdict {
    match decision {
        Ok(true) => Verdict::Run,
        Ok(false) => Verdict::Skip,
        Err(e) => Verdict::Failed(e),
    }
}

/// The verdict for a decision that cannot fail.
pub open spec fn verdict_if(wants: bool) -> Verdict {
    if wants {
        Verdict::Run
    } else {
        Verdict::Skip
    }
}

impl Handler {
    /// Role commands are exclusive; every other kind lets the message go on.
    pub open spec fn exclusive(&self) -> bool {
        self is RoleWizard
    }

    pub fn is_exclusive(&self) -> (r: bool)
        ensures
            r == self.exclusive(),
    {
        match self {
            Handler::Ack(h) => h.is_exclusive(),
            Handler::RoleWizard(h) => h.is_exclusive(),
            Handler::WordWatcher(h) => h.is_exclusive(),
            Handler::VerbalMorality(h) => h.is_exclusive(),
            Handler::Autoresponder(_) => false,
        }
    }

    /// The handler's verdict on `msg`, arriving at `now`.
    pub open spec fn verdict(&self, msg: &InboundMessage, now: u64) -> Verdict {
        match self {
            Handler::Ack(h) => verdict_of(h.decision(msg)),
            Handler::RoleWizard(_) => match msg.mentions_bot {
                None => Verdict::Failed(HandlerError::MentionCheckFailed),
                Some(b) => verdict_if(b && RoleWizard::is_command(msg.content@)),
            },
            Handler::WordWatcher(h) => verdict_if(h.wants(msg)),
            Handler::VerbalMorality(h) => verdict_if(h.wants(msg)),
            Handler::Autoresponder(h) => verdict_if(h.wants(msg, now)),
        }
    }

    /// The handler after deciding on `msg`: only an autoresponder's
    /// cooldown changes.
    pub open spec fn after(&self, msg: &InboundMessage, now: u64) -> Handler {
        match self {
            Handler::Autoresponder(h) => Handler::Autoresponder(h.after(msg, now)),
            _ => *self,
        }
    }

    /// Decides on `msg`, arriving at `now`.
    pub fn should_handle(&mut self, msg: &InboundMessage, now: u64) -> (r: Verdict)
        ensures
            r == old(self).verdict(msg, now),
            *final(self) == old(self).after(msg, now),
    {
        match self {
            Handler::Ack(h) => match h.should_handle(msg) {
                Ok(true) => Verdict::Run,
                Ok(false) => Verdict::Skip,
                Err(e) => Verdict::Failed(e),
            },
            Handler::RoleWizard(h) => match h.should_handle(msg) {
                Ok(true) => Verdict::Run,
                Ok(false) => Verdict::Skip,
                Err(e) => Verdict::Failed(e),
            },
            Handler::WordWatcher(h) => if h.should_handle(msg) {
                Verdict::Run
            } else {
                Verdict::Skip
            },
            Handler::VerbalMorality(h) => if h.should_handle(msg) {
                Verdict::Run
            } else {
                Verdict::Skip
            },
            Handler::Autoresponder(h) => if h.should_handle(msg, now) {
                Verdict::Run
            } else {
                Verdict::Skip
            },
        }
    }

    /// The handler's deny list names the channel of `msg`: by name for the
    /// word watchers and the acknowledgement, by id for an autoresponder's
    /// ignore list.
    pub open spec fn denies_channel_of(&self, msg: &InboundMessage) -> bool {
        match self {
            Handler::Ack(h) => channel_denied(h.denied_channels(), msg),
            Handler::RoleWizard(_) => false,
            Handler::WordWatcher(h) => channel_denied(h.denied_channels(), msg),
            Handler::VerbalMorality(h) => channel_denied(h.denied_channels(), msg),
            Handler::Autoresponder(h) => h.filter.channels.ignore_channels matches Some(l)
                && l@.contains(msg.channel),
        }
    }

    /// The handler has an allow-only list that leaves out the channel of
    /// `msg`.
    pub open spec fn excludes_channel_of(&self, msg: &InboundMessage) -> bool {
        self matches Handler::Autoresponder(h) && h.filter.channels.only_in_channels matches Some(l)
            && !l@.contains(msg.channel)
    }
}

/// A handler whose deny list names the message's channel does not take the
/// message, whatever the message says, and keeps its state.
pub proof fn lemma_denied_channel_never_matches(h: Handler, msg: &InboundMessage, now: u64)
    requires
        h.denies_channel_of(msg),
    ensures
        !(h.verdict(msg, now) is Run),
        h.after(msg, now) == h,
{
}

/// A handler whose allow-only list leaves out the message's channel does
/// not take the message, and keeps its state.
pub proof fn lemma_excluded_channel_never_matches(h: Handler, msg: &InboundMessage, now: u64)
    requires
        h.excludes_channel_of(msg),
    ensures
        !(h.verdict(msg, now) is Run),
        h.after(msg, now) == h,
{
}

} // verus!
