//! Configuration values, already read from their file format: guild ids,
//! handler declarations and the per-guild behaviours they describe.
use crate::ack_message_handler::AckMessageHandler;
use crate::autoresponder::{Autoresponder, AutoresponderAction};
use crate::dispatch::HandlerChain;
use crate::filter::{default_cooldown, AutoresponderFilter, ChannelFilter, Cooldown};
use crate::handler::Handler;
use crate::pattern::Pattern;
use crate::role_wizard::RoleWizard;
use crate::text::{chars_of, text_eq};
use crate::trigger::AutoresponderTrigger;
use vstd::prelude::*;

verus! {

/// Why a configuration was refused.
pub enum ConfigError {
    /// A guild key is not a decimal integer that fits a guild id.
    NonIntegerGuildId { string: String },
    /// A handler declaration lacks a field its kind needs.
    MissingField { field: String },
}

/// A decimal digit.
pub open spec fn is_digit(c: char) -> bool {
    '0' <= c && c <= '9'
}

/// The value of a run of decimal digits.
pub open spec fn digits_value(s: Seq<char>) -> nat
    decreases s.len(),
{
    if s.len() == 0 {
        0
    } else {
        digits_value(s.drop_last()) * 10 + ((s.last() as u32 - '0' as u32) as nat)
    }
}

/// The digits of a numeral, after an optional leading `+`.
pub open spec fn unsigned_part(s: Seq<char>) -> Seq<char> {
    if s.len() > 0 && s[0] == '+' {
        s.drop_first()
    } else {
        s
    }
}

/// `u64::from_str` accepts `s`: an optional `+`, then one or more decimal
/// digits whose value fits 64 bits.
pub open spec fn is_u64_numeral(s: Seq<char>) -> bool {
    let d = unsigned_part(s);
    &&& d.len() > 0
    &&& forall|i: int| 0 <= i < d.len() ==> is_digit(#[trigger] d[i])
    &&& digits_value(d) <= u64::MAX
}

proof fn lemma_digits_value_grows(d: Seq<char>, k: int)
    requires
        0 <= k <= d.len(),
        forall|i: int| 0 <= i < d.len() ==> is_digit(#[trigger] d[i]),
    ensures
        digits_value(d.subrange(0, k)) <= digits_value(d),
    decreases d.len() - k,
{
    if k < d.len() {
        lemma_digits_value_grows(d, k + 1);
        assert(d.subrange(0, k + 1).drop_last() =~= d.subrange(0, k));
    } else {
        assert(d.subrange(0, k) =~= d);
    }
}

/// Reads a guild id the way `u64::from_str` reads a number.
pub fn parse_guild_id(s: &str) -> (r: Result<u64, ConfigError>)
    ensures
        r is Ok <==> is_u64_numeral(s@),
        r matches Ok(n) ==> n as nat == digits_value(unsigned_part(s@)),
        r matches Err(e) ==> e matches ConfigError::NonIntegerGuildId { string } && string@ == s@,
{
    let c = chars_of(s);
    let ghost d = unsigned_part(s@);
    let start: usize = if c.len() > 0 && c[0] == '+' {
        1
    } else {
        0
    };
    proof {
        assert(d =~= s@.subrange(start as int, s@.len() as int));
    }
    if start >= c.len() {
        return Err(ConfigError::NonIntegerGuildId { string: String::from_str(s) });
    }
    let mut acc: u64 = 0;
    let mut i: usize = start;
    while i < c.len()
        invariant
            c@ == s@,
            d == s@.subrange(start as int, s@.len() as int),
            d == unsigned_part(s@),
            start <= i <= c@.len(),
            forall|k: int| 0 <= k < i - start ==> is_digit(#[trigger] d[k]),
            acc as nat == digits_value(d.subrange(0, i - start)),
        decreases c@.len() - i,
    {
        let ch = c[i];
        if !('0' <= ch && ch <= '9') {
            assert(!is_digit(d[i - start]));
            return Err(ConfigError::NonIntegerGuildId { string: String::from_str(s) });
        }
        let digit: u64 = (ch as u32 - '0' as u32) as u64;
        proof {
            assert(d.subrange(0, i - start + 1).drop_last() =~= d.subrange(0, i - start));
            assert(d.subrange(0, i - start + 1).last() == ch);
        }
        if acc > (u64::MAX - digit) / 10 {
            proof {
                assert(acc * 10 + digit > u64::MAX) by (nonlinear_arith)
                    requires
                        acc > (u64::MAX - digit) / 10,
                        digit <= 9,
                ;
                if forall|k: int| 0 <= k < d.len() ==> is_digit(#[trigger] d[k]) {
                    lemma_digits_value_grows(d, i - start + 1);
                }
            }
            return Err(ConfigError::NonIntegerGuildId { string: String::from_str(s) });
        }
        proof {
            assert(acc * 10 + digit <= u64::MAX) by (nonlinear_arith)
                requires
                    acc <= (u64::MAX - digit) / 10,
                    digit <= 9,
            ;
        }
        acc = acc * 10 + digit;
        i = i + 1;
    }
    proof {
        assert(d.subrange(0, d.len() as int) =~= d);
    }
    Ok(acc)
}

/// A slash responder echoes a preset response when invoked.
pub struct SlashResponderConfig {
    /// The name of the slash command.
    pub command: String,
    /// A little help text.
    pub description: String,
    /// The response to echo back.
    pub response: String,
}

/// The trigger of a configured auto-emoji or auto-responder.
pub enum AutoTrigger {
    /// Someone mentions this user.
    Mention(u64),
    /// This user says anything.
    Message(u64),
    /// The message text matches this pattern.
    Match(Pattern),
}

impl AutoTrigger {
    /// The autoresponder trigger that fires on the same messages.
    pub fn into_trigger(self) -> (r: AutoresponderTrigger)
        ensures
            self matches AutoTrigger::Mention(u) ==> r matches AutoresponderTrigger::UserMentioned {
                user_mentioned,
            } && user_mentioned@ == seq![u],
            self matches AutoTrigger::Message(u) ==> r matches AutoresponderTrigger::UserMessage {
                user_message,
            } && user_message@ == seq![u],
            self matches AutoTrigger::Match(p) ==> r matches AutoresponderTrigger::MessageMatches {
                message_matches,
            } && message_matches@ == seq![p],
    {
        match self {
            AutoTrigger::Mention(u) => AutoresponderTrigger::UserMentioned { user_mentioned: vec![u] },
            AutoTrigger::Message(u) => AutoresponderTrigger::UserMessage { user_message: vec![u] },
            AutoTrigger::Match(p) => AutoresponderTrigger::MessageMatches { message_matches: vec![p] },
        }
    }
}

/// Reacts to messages with emojis.
pub struct AutoEmojiConfig {
    pub on: AutoTrigger,
    pub channel_filter: ChannelFilter,
    /// Names of the emojis to react with.
    pub twemojis: Vec<String>,
}

/// Replies to messages with one fixed message.
pub struct AutoResponderConfig {
    pub on: AutoTrigger,
    pub channel_filter: ChannelFilter,
    /// The reply.
    pub message: String,
}

impl AutoEmojiConfig {
    /// The autoresponder that reacts with the emojis, with no cooldown.
    pub fn into_autoresponder(self) -> (r: Autoresponder)
        ensures
            r.filter.channels == self.channel_filter,
            r.filter.cooldown.seconds == 0,
            r.filter.cooldown.last_triggered is None,
            r.action.twemojis == self.twemojis,
            r.action.reply_messages@.len() == 0,
            r.action.counter@.len() == 0,
    {
        Autoresponder {
            trigger: self.on.into_trigger(),
            filter: AutoresponderFilter { channels: self.channel_filter, cooldown: Cooldown::new(default_cooldown()) },
            action: AutoresponderAction {
                twemojis: self.twemojis,
                reply_messages: Vec::new(),
                counter: Vec::new(),
            },
        }
    }
}

impl AutoResponderConfig {
    /// The autoresponder that replies with the message, with no cooldown.
    pub fn into_autoresponder(self) -> (r: Autoresponder)
        ensures
            r.filter.channels == self.channel_filter,
            r.filter.cooldown.seconds == 0,
            r.filter.cooldown.last_triggered is None,
            r.action.twemojis@.len() == 0,
            r.action.reply_messages@ == seq![self.message],
            r.action.counter@.len() == 0,
    {
        Autoresponder {
            trigger: self.on.into_trigger(),
            filter: AutoresponderFilter { channels: self.channel_filter, cooldown: Cooldown::new(default_cooldown()) },
            action: AutoresponderAction {
                twemojis: Vec::new(),
                reply_messages: vec![self.message],
                counter: Vec::new(),
            },
        }
    }
}

} // verus!

verus! {

/// The kind tag of an acknowledgement handler declaration.
pub const ACK_MESSAGE_KIND: &'static str = "AckMessage";

/// The kind tag of a role wizard declaration.
pub const ROLE_WIZARD_KIND: &'static str = "RoleWizard";

pub const DENY_CHANNELS_FIELD: &'static str = "deny_channels";

pub const ROLE_GRANTS_FIELD: &'static str = "allowed_role_grants";

pub const ROLE_REVOKE_FIELD: &'static str = "allowed_role_revoke";

/// One handler declaration: its kind tag and the fields a kind may use.
pub struct HandlerDecl {
    pub kind: String,
    pub deny_channels: Option<Vec<String>>,
    pub allowed_role_grants: Option<Vec<String>>,
    pub allowed_role_revoke: Option<Vec<String>>,
}

/// The declaration has a kind this configuration knows.
pub open spec fn decl_known(d: HandlerDecl) -> bool {
    d.kind@ == ACK_MESSAGE_KIND@ || d.kind@ == ROLE_WIZARD_KIND@
}

/// The first field that the declaration's kind needs and the declaration
/// lacks.
pub open spec fn decl_missing(d: HandlerDecl) -> Option<Seq<char>> {
    if d.kind@ == ACK_MESSAGE_KIND@ {
        if d.deny_channels is None {
            Some(DENY_CHANNELS_FIELD@)
        } else {
            None
        }
    } else if d.kind@ == ROLE_WIZARD_KIND@ {
        if d.allowed_role_grants is None {
            Some(ROLE_GRANTS_FIELD@)
        } else if d.allowed_role_revoke is None {
            Some(ROLE_REVOKE_FIELD@)
        } else {
            None
        }
    } else {
        None
    }
}

/// `h` is the handler that the declaration describes.
pub open spec fn builds(d: HandlerDecl, h: Handler) -> bool {
    if d.kind@ == ACK_MESSAGE_KIND@ {
        h matches Handler::Ack(a) && a.denied_channels() == d.deny_channels->Some_0.deep_view()
    } else {
        h matches Handler::RoleWizard(w) && w.grants() == d.allowed_role_grants->Some_0.deep_view()
            && w.revokes() == d.allowed_role_revoke->Some_0.deep_view()
    }
}

/// The declarations of known kinds, in order.
pub open spec fn known_decls(ds: Seq<HandlerDecl>) -> Seq<HandlerDecl>
    decreases ds.len(),
{
    if ds.len() == 0 {
        Seq::empty()
    } else if decl_known(ds.last()) {
        known_decls(ds.drop_last()).push(ds.last())
    } else {
        known_decls(ds.drop_last())
    }
}

fn missing_field(name: &str) -> (r: ConfigError)
    ensures
        r matches ConfigError::MissingField { field } && field@ == name@,
{
    ConfigError::MissingField { field: String::from_str(name) }
}

/// The handler a declaration describes; `None` for a kind this
/// configuration does not know.
pub fn handler_from_decl(decl: HandlerDecl) -> (r: Result<Option<Handler>, ConfigError>)
    ensures
        decl_missing(decl) matches Some(f) ==> r matches Err(e) && e matches ConfigError::MissingField {
            field,
        } && field@ == f,
        decl_missing(decl) is None ==> r is Ok,
        r matches Ok(None) ==> !decl_known(decl),
        r matches Ok(Some(h)) ==> decl_known(decl) && builds(decl, h),
{
    if text_eq(decl.kind.as_str(), ACK_MESSAGE_KIND) {
        match decl.deny_channels {
            Some(deny) => Ok(Some(Handler::Ack(AckMessageHandler::new(deny)))),
            None => Err(missing_field(DENY_CHANNELS_FIELD)),
        }
    } else if text_eq(decl.kind.as_str(), ROLE_WIZARD_KIND) {
        match (decl.allowed_role_grants, decl.allowed_role_revoke) {
            (Some(grants), Some(revoke)) => Ok(Some(Handler::RoleWizard(RoleWizard::new(grants, revoke)))),
            (None, _) => Err(missing_field(ROLE_GRANTS_FIELD)),
            (Some(_), None) => Err(missing_field(ROLE_REVOKE_FIELD)),
        }
    } else {
        Ok(None)
    }
}

/// The handler chain that the declarations describe, in their order,
/// leaving out declarations of unknown kinds; refused at the first
/// declaration that lacks a field its kind needs.
pub fn build_handlers(decls: Vec<HandlerDecl>) -> (r: Result<HandlerChain, ConfigError>)
    ensures
        r is Ok <==> forall|i: int| 0 <= i < decls@.len() ==> decl_missing(#[trigger] decls@[i]) is None,
        r matches Ok(chain) ==> {
            &&& chain@.len() == known_decls(decls@).len()
            &&& forall|i: int|
                0 <= i < chain@.len() ==> builds(#[trigger] known_decls(decls@)[i], chain@[i])
        },
        r matches Err(e) ==> exists|i: int|
            0 <= i < decls@.len() && (#[trigger] decl_missing(decls@[i]) matches Some(f) && (
            e matches ConfigError::MissingField { field } && field@ == f)),
{
    let ghost all = decls@;
    let mut rest = decls;
    let mut handlers: Vec<Handler> = Vec::new();
    let mut k: usize = 0;
    let n = rest.len();
    while rest.len() > 0
        invariant
            all == decls@,
            n == all.len(),
            k + rest@.len() == n,
            rest@ == all.subrange(k as int, n as int),
            forall|j: int| 0 <= j < k ==> decl_missing(#[trigger] all[j]) is None,
            handlers@.len() == known_decls(all.subrange(0, k as int)).len(),
            forall|i: int|
                0 <= i < handlers@.len() ==> builds(
                    #[trigger] known_decls(all.subrange(0, k as int))[i],
                    handlers@[i],
                ),
        decreases rest@.len(),
    {
        let decl = rest.remove(0);
        let ghost d = decl;
        assert(d == all[k as int]);
        assert(all.subrange(0, k + 1).drop_last() =~= all.subrange(0, k as int));
        match handler_from_decl(decl) {
            Err(e) => {
                assert(decl_missing(all[k as int]) is Some);
                return Err(e);
            },
            Ok(None) => {},
            Ok(Some(h)) => {
                handlers.push(h);
            },
        }
        k = k + 1;
        assert(rest@ =~= all.subrange(k as int, n as int));
    }
    assert(all.subrange(0, n as int) =~= all);
    Ok(HandlerChain::new(handlers))
}

} // verus!
