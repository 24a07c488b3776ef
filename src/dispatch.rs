//! The dispatcher: runs an ordered chain of handlers over one message.
//! Each handler decides in turn; a failed decision counts as a no and does
//! not stop the chain; a handler that takes the message and is exclusive
//! ends the chain for that message.
use crate::handler::{
    lemma_denied_channel_never_matches, lemma_excluded_channel_never_matches, Handler, Verdict,
};
use crate::message::InboundMessage;
use vstd::prelude::*;

verus! {

/// The handler takes the message and lets no later handler see it.
pub open spec fn stops(h: Handler, msg: &InboundMessage, now: u64) -> bool {
    h.exclusive() && h.verdict(msg, now) is Run
}

/// How many handlers of the chain decide on the message when evaluation
/// starts at `i`: up to and including the first that stops, else all.
pub open spec fn reach_from(hs: Seq<Handler>, msg: &InboundMessage, now: u64, i: int) -> int
    decreases hs.len() - i,
{
    if i < 0 || i >= hs.len() {
        hs.len() as int
    } else if stops(hs[i], msg, now) {
        i + 1
    } else {
        reach_from(hs, msg, now, i + 1)
    }
}

/// How many handlers of the chain decide on the message.
pub open spec fn reach(hs: Seq<Handler>, msg: &InboundMessage, now: u64) -> int {
    reach_from(hs, msg, now, 0)
}

/// The handler at `i` decides on the message and takes it: its action runs.
pub open spec fn runs(hs: Seq<Handler>, msg: &InboundMessage, now: u64, i: int) -> bool {
    0 <= i < reach(hs, msg, now) && hs[i].verdict(msg, now) is Run
}

/// The ordered handlers of one guild.
pub struct HandlerChain {
    handlers: Vec<Handler>,
}

impl View for HandlerChain {
    type V = Seq<Handler>;

    closed spec fn view(&self) -> Seq<Handler> {
        self.handlers@
    }
}

impl HandlerChain {
    /// A chain that runs `handlers` in the given order.
    pub fn new(handlers: Vec<Handler>) -> (r: HandlerChain)
        ensures
            r@ == handlers@,
    {
        HandlerChain { handlers }
    }

    pub fn len(&self) -> (r: usize)
        ensures
            r == self@.len(),
    {
        self.handlers.len()
    }

    /// The handler at `i`.
    pub fn get(&self, i: usize) -> (r: &Handler)
        requires
            i < self@.len(),
        ensures
            *r == self@[i as int],
    {
        &self.handlers[i]
    }

    /// Offers `msg`, arriving at `now`, to the handlers in order. The
    /// verdicts come back in chain order, one for each handler that
    /// decided; the handlers whose verdict is `Run` are the ones whose
    /// actions the caller carries out.
    pub fn dispatch(&mut self, msg: &InboundMessage, now: u64) -> (r: Vec<Verdict>)
        ensures
            r@.len() == reach(old(self)@, msg, now),
            final(self)@.len() == old(self)@.len(),
            forall|i: int| 0 <= i < r@.len() ==> #[trigger] r@[i] == old(self)@[i].verdict(msg, now),
            forall|i: int|
                0 <= i < r@.len() ==> #[trigger] final(self)@[i] == old(self)@[i].after(msg, now),
            forall|i: int| r@.len() <= i < old(self)@.len() ==> #[trigger] final(self)@[i] == old(self)@[i],
    {
        let ghost hs = self.handlers@;
        let n = self.handlers.len();
        let mut verdicts: Vec<Verdict> = Vec::new();
        let mut i: usize = 0;
        while i < n
            invariant
                hs == old(self)@,
                n == hs.len(),
                self.handlers@.len() == n,
                i <= n,
                verdicts@.len() == i,
                reach_from(hs, msg, now, 0) == reach_from(hs, msg, now, i as int),
                forall|k: int| 0 <= k < i ==> #[trigger] verdicts@[k] == hs[k].verdict(msg, now),
                forall|k: int| 0 <= k < i ==> #[trigger] self.handlers@[k] == hs[k].after(msg, now),
                forall|k: int| i <= k < n ==> #[trigger] self.handlers@[k] == hs[k],
            decreases n - i,
        {
            let exclusive = self.handlers[i].is_exclusive();
            let verdict = self.handlers[i].should_handle(msg, now);
            verdicts.push(verdict);
            if exclusive && matches!(verdict, Verdict::Run) {
                return verdicts;
            }
            i = i + 1;
        }
        verdicts
    }
}

/// Wherever it stands in a chain, a handler whose deny list names the
/// message's channel does not run for that message.
pub proof fn lemma_denied_channel_never_runs(hs: Seq<Handler>, msg: &InboundMessage, now: u64, i: int)
    requires
        0 <= i < hs.len(),
        hs[i].denies_channel_of(msg),
    ensures
        !runs(hs, msg, now, i),
{
    lemma_denied_channel_never_matches(hs[i], msg, now);
}

/// Wherever it stands in a chain, a handler whose allow-only list leaves
/// out the message's channel does not run for that message.
pub proof fn lemma_excluded_channel_never_runs(hs: Seq<Handler>, msg: &InboundMessage, now: u64, i: int)
    requires
        0 <= i < hs.len(),
        hs[i].excludes_channel_of(msg),
    ensures
        !runs(hs, msg, now, i),
{
    lemma_excluded_channel_never_matches(hs[i], msg, now);
}

/// Once a handler that takes the message is exclusive, no later handler
/// runs for that message.
pub proof fn lemma_exclusive_match_ends_chain(hs: Seq<Handler>, msg: &InboundMessage, now: u64, i: int)
    requires
        0 <= i < hs.len(),
        hs[i].exclusive(),
        hs[i].verdict(msg, now) is Run,
    ensures
        reach(hs, msg, now) <= i + 1,
        forall|j: int| i < j < hs.len() ==> !runs(hs, msg, now, j),
{
    lemma_reach_stops_by(hs, msg, now, 0, i);
}

proof fn lemma_reach_stops_by(hs: Seq<Handler>, msg: &InboundMessage, now: u64, k: int, i: int)
    requires
        0 <= k <= i < hs.len(),
        stops(hs[i], msg, now),
    ensures
        reach_from(hs, msg, now, k) <= i + 1,
    decreases i - k,
{
    if k < i && !stops(hs[k], msg, now) {
        lemma_reach_stops_by(hs, msg, now, k + 1, i);
    }
}

/// Handlers before the first one that stops all decide: a failed decision
/// or a match of a handler that is not exclusive does not end the chain.
pub proof fn lemma_reach_passes_non_stopping(hs: Seq<Handler>, msg: &InboundMessage, now: u64, i: int)
    requires
        0 <= i < hs.len(),
        forall|j: int| 0 <= j < i ==> !stops(#[trigger] hs[j], msg, now),
    ensures
        reach(hs, msg, now) > i,
{
    lemma_reach_from_passes(hs, msg, now, 0, i);
}

proof fn lemma_reach_from_at_least(hs: Seq<Handler>, msg: &InboundMessage, now: u64, k: int)
    requires
        0 <= k <= hs.len(),
    ensures
        k <= reach_from(hs, msg, now, k) <= hs.len(),
    decreases hs.len() - k,
{
    if k < hs.len() && !stops(hs[k], msg, now) {
        lemma_reach_from_at_least(hs, msg, now, k + 1);
    }
}

proof fn lemma_reach_from_passes(hs: Seq<Handler>, msg: &InboundMessage, now: u64, k: int, i: int)
    requires
        0 <= k <= i < hs.len(),
        forall|j: int| k <= j < i ==> !stops(#[trigger] hs[j], msg, now),
    ensures
        reach_from(hs, msg, now, k) > i,
    decreases i - k,
{
    if k < i {
        lemma_reach_from_passes(hs, msg, now, k + 1, i);
    } else {
        lemma_reach_from_at_least(hs, msg, now, k + 1);
    }
}

/// In a chain of a handler that takes the message and is not exclusive,
/// then one that takes it and is exclusive, then any third, the first two
/// run and the third does not.
pub proof fn lemma_exclusive_after_shared(
    h1: Handler,
    h2: Handler,
    h3: Handler,
    msg: &InboundMessage,
    now: u64,
)
    requires
        !h1.exclusive(),
        h1.verdict(msg, now) is Run,
        h2.exclusive(),
        h2.verdict(msg, now) is Run,
    ensures
        runs(seq![h1, h2, h3], msg, now, 0),
        runs(seq![h1, h2, h3], msg, now, 1),
        !runs(seq![h1, h2, h3], msg, now, 2),
{
    let hs = seq![h1, h2, h3];
    assert(reach_from(hs, msg, now, 1) == 2);
    assert(reach_from(hs, msg, now, 0) == 2);
}

/// In a chain of a handler that takes the message and is exclusive, then
/// any second, the second never runs.
pub proof fn lemma_exclusive_first(h1: Handler, h2: Handler, msg: &InboundMessage, now: u64)
    requires
        h1.exclusive(),
        h1.verdict(msg, now) is Run,
    ensures
        runs(seq![h1, h2], msg, now, 0),
        !runs(seq![h1, h2], msg, now, 1),
{
    let hs = seq![h1, h2];
    assert(reach_from(hs, msg, now, 0) == 1);
}

} // verus!
