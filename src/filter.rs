//! Channel filters and cooldowns: the gates a message passes before a
//! handler acts on it.
use vstd::prelude::*;

verus! {

/// Whether `id` is in `ids`.
pub fn contains_id(ids: &Vec<u64>, id: u64) -> (r: bool)
    ensures
        r == ids@.contains(id),
{
    let mut i: usize = 0;
    while i < ids.len()
        invariant
            i <= ids@.len(),
            forall|k: int| 0 <= k < i ==> ids@[k] != id,
        decreases ids@.len() - i,
    {
        if ids[i] == id {
            assert(ids@[i as int] == id);
            return true;
        }
        i = i + 1;
    }
    false
}

/// Allows a behaviour only in, or never in, specific channels.
pub struct ChannelFilter {
    /// Channels in which the behaviour never happens.
    pub ignore_channels: Option<Vec<u64>>,
    /// When present, the only channels in which the behaviour happens.
    pub only_in_channels: Option<Vec<u64>>,
}

impl ChannelFilter {
    /// The ignore list wins: a channel on it is denied even when the
    /// only-in list names it too. An absent list restricts nothing.
    pub open spec fn allows(&self, channel: u64) -> bool {
        &&& !(self.ignore_channels matches Some(l) && l@.contains(channel))
        &&& !(self.only_in_channels matches Some(l) && !l@.contains(channel))
    }

    /// Whether a message in `channel` may go on to the handler.
    pub fn permits(&self, channel: u64) -> (r: bool)
        ensures
            r == self.allows(channel),
    {
        if let Some(ignored) = &self.ignore_channels {
            if contains_id(ignored, channel) {
                return false;
            }
        }
        if let Some(only) = &self.only_in_channels {
            if !contains_id(only, channel) {
                return false;
            }
        }
        true
    }
}

/// Milliseconds from `last` to `now`; zero when `now` lies before `last`.
pub open spec fn elapsed_ms(last: u64, now: u64) -> int {
    if now >= last {
        now - last
    } else {
        0
    }
}

/// The time that must pass between two successful triggers of a handler.
/// Instants are milliseconds since the Unix epoch.
pub struct Cooldown {
    /// The cooldown in whole seconds; zero means none.
    pub seconds: u64,
    /// When the handler last triggered; `None` before its first trigger.
    pub last_triggered: Option<u64>,
}

impl Cooldown {
    /// A cooldown that has never triggered.
    pub fn new(seconds: u64) -> (r: Cooldown)
        ensures
            r.seconds == seconds,
            r.last_triggered is None,
    {
        Cooldown { seconds, last_triggered: None }
    }

    /// Whether a trigger at `now` is outside the cooldown.
    pub open spec fn ready(&self, now: u64) -> bool {
        match self.last_triggered {
            None => true,
            Some(t) => elapsed_ms(t, now) >= self.seconds * 1000,
        }
    }

    /// Checks the cooldown at `now` and, when it has passed, records `now`
    /// as the last trigger; the check and the update are one step.
    pub fn try_trigger(&mut self, now: u64) -> (r: bool)
        ensures
            r == old(self).ready(now),
            final(self).seconds == old(self).seconds,
            final(self).last_triggered == (if r {
                Some(now)
            } else {
                old(self).last_triggered
            }),
    {
        let ok = match self.last_triggered {
            None => true,
            Some(t) => {
                let elapsed: u64 = if now >= t {
                    now - t
                } else {
                    0
                };
                let s = self.seconds;
                assert(elapsed / 1000 >= s <==> elapsed >= s * 1000) by (nonlinear_arith);
                elapsed / 1000 >= s
            },
        };
        if ok {
            self.last_triggered = Some(now);
        }
        ok
    }
}

/// The cooldown of an autoresponder whose configuration names none.
pub fn default_cooldown() -> (r: u64)
    ensures
        r == 0,
{
    0
}

/// After a trigger at `t`, a cooldown of `seconds` refuses every instant
/// from `t` until `seconds` have passed, and admits every instant after.
pub proof fn lemma_cooldown_window(seconds: u64, t: u64, later: u64)
    requires
        t <= later,
    ensures
        (Cooldown { seconds, last_triggered: Some(t) }).ready(later) <==> later - t >= seconds * 1000,
{
}

/// With no cooldown, every instant is ready.
pub proof fn lemma_no_cooldown_always_ready(last: Option<u64>, now: u64)
    ensures
        (Cooldown { seconds: 0, last_triggered: last }).ready(now),
{
}

/// The channel and cooldown gates of an autoresponder.
pub struct AutoresponderFilter {
    pub channels: ChannelFilter,
    pub cooldown: Cooldown,
}

impl AutoresponderFilter {
    /// A filter from configured lists, where an empty list restricts nothing.
    pub fn new(only_in_channels: Vec<u64>, ignore_channels: Vec<u64>, cooldown_seconds: u64) -> (r:
        AutoresponderFilter)
        ensures
            only_in_channels@.len() == 0 ==> r.channels.only_in_channels is None,
            only_in_channels@.len() > 0 ==> r.channels.only_in_channels == Some(only_in_channels),
            ignore_channels@.len() == 0 ==> r.channels.ignore_channels is None,
            ignore_channels@.len() > 0 ==> r.channels.ignore_channels == Some(ignore_channels),
            r.cooldown.seconds == cooldown_seconds,
            r.cooldown.last_triggered is None,
    {
        let only = if only_in_channels.len() == 0 {
            None
        } else {
            Some(only_in_channels)
        };
        let ignore = if ignore_channels.len() == 0 {
            None
        } else {
            Some(ignore_channels)
        };
        AutoresponderFilter {
            channels: ChannelFilter { ignore_channels: ignore, only_in_channels: only },
            cooldown: Cooldown::new(cooldown_seconds),
        }
    }

    /// Whether a message in `channel` at `now` passes both gates.
    pub open spec fn passes(&self, channel: u64, now: u64) -> bool {
        self.channels.allows(channel) && self.cooldown.ready(now)
    }

    /// The filter after a message in `channel` at `now` was checked: a
    /// message that passes both gates becomes the last trigger.
    pub open spec fn after(&self, channel: u64, now: u64) -> AutoresponderFilter {
        if self.passes(channel, now) {
            AutoresponderFilter {
                channels: self.channels,
                cooldown: Cooldown { seconds: self.cooldown.seconds, last_triggered: Some(now) },
            }
        } else {
            *self
        }
    }

    /// Checks the channel, then the cooldown; only a message that passes
    /// both records its instant as the last trigger.
    pub fn should_run(&mut self, channel: u64, now: u64) -> (r: bool)
        ensures
            r == old(self).passes(channel, now),
            *final(self) == old(self).after(channel, now),
            final(self).channels == old(self).channels,
            final(self).cooldown.seconds == old(self).cooldown.seconds,
            final(self).cooldown.last_triggered == (if r {
                Some(now)
            } else {
                old(self).cooldown.last_triggered
            }),
    {
        if !self.channels.permits(channel) {
            return false;
        }
        self.cooldown.try_trigger(now)
    }
}

} // verus!
