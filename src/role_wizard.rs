//! The role wizard: grants and revokes public roles on request, for the
//! roles that its allow-lists name.
use crate::message::{GuildRole, HandlerError, InboundMessage};
use crate::pattern::{regex_capture_groups, regex_captures, regex_finds};
use crate::text::{eq_ignore_ascii_case, listed, list_has, lower_of, text_eq, text_eq_ignore_ascii_case, to_lower};
use vstd::prelude::*;

verus! {

/// A role command: an optional mention of the bot, the keyword `role`, the
/// operation, and the role name as the rest of the line.
pub const ROLE_COMMAND_PATTERN: &'static str = "(?:<@!?\\d+> )?role (grant|revoke) (.*)";

/// The operation word that grants a role.
pub const GRANT_WORD: &'static str = "grant";

/// The operation word that revokes a role.
pub const REVOKE_WORD: &'static str = "revoke";

pub const USAGE_REPLY: &'static str = "The format for this command is role <grant|revoke> <role name>";

pub const NO_SUCH_ROLE_REPLY: &'static str = "No such role by that name, bud.";

pub const CANNOT_MANAGE_REPLY: &'static str = "I'm sorry, I cannot manage that role";

pub const DONE_REPLY: &'static str = "you got it.";

pub const FAILED_REPLY: &'static str = "there was a problem modifying your roles.";

/// What the wizard does with one role command.
#[derive(Clone, Copy, Debug, PartialEq, Eq, Structural)]
pub enum RolePlan {
    /// The message is no role command: explain the format.
    Usage,
    /// The guild has no role by that name.
    NoSuchRole,
    /// The role is not on the allow-list for the operation.
    CannotManage,
    /// Give the author this role.
    Grant { role: u64 },
    /// Take this role from the author.
    Revoke { role: u64 },
}

/// The role at `i` is the first whose name equals `name`, ignoring ASCII case.
pub open spec fn first_role_named(roles: Seq<GuildRole>, name: Seq<char>, i: int) -> bool {
    &&& 0 <= i < roles.len()
    &&& eq_ignore_ascii_case(roles[i].name@, name)
    &&& forall|j: int| 0 <= j < i ==> !eq_ignore_ascii_case(#[trigger] roles[j].name@, name)
}

/// Some role's name equals `name`, ignoring ASCII case.
pub open spec fn has_role_named(roles: Seq<GuildRole>, name: Seq<char>) -> bool {
    exists|i: int| 0 <= i < roles.len() && eq_ignore_ascii_case(#[trigger] roles[i].name@, name)
}

/// The plan for a command whose operation word is `op` and whose role name
/// is `name`.
pub open spec fn plan_for_command(
    grants: Seq<Seq<char>>,
    revokes: Seq<Seq<char>>,
    op: Seq<char>,
    name: Seq<char>,
    roles: Seq<GuildRole>,
) -> RolePlan {
    if op != GRANT_WORD@ && op != REVOKE_WORD@ {
        RolePlan::Usage
    } else if !has_role_named(roles, name) {
        RolePlan::NoSuchRole
    } else {
        let role = roles[choose|i: int| first_role_named(roles, name, i)];
        if op == GRANT_WORD@ {
            if listed(grants, role.name@) {
                RolePlan::Grant { role: role.id }
            } else {
                RolePlan::CannotManage
            }
        } else {
            if listed(revokes, role.name@) {
                RolePlan::Revoke { role: role.id }
            } else {
                RolePlan::CannotManage
            }
        }
    }
}

/// The plan for the capture groups of a role command; groups 1 and 2 hold
/// the operation and the role name.
pub open spec fn plan_for_captures(
    grants: Seq<Seq<char>>,
    revokes: Seq<Seq<char>>,
    captures: Option<Seq<Option<Seq<char>>>>,
    roles: Seq<GuildRole>,
) -> RolePlan {
    match captures {
        None => RolePlan::Usage,
        Some(groups) => {
            if groups.len() < 3 || groups[1] is None || groups[2] is None {
                RolePlan::Usage
            } else {
                plan_for_command(grants, revokes, groups[1]->Some_0, groups[2]->Some_0, roles)
            }
        },
    }
}

/// The index of the first role named `name`, ignoring ASCII case.
fn find_role(roles: &Vec<GuildRole>, name: &str) -> (r: Option<usize>)
    ensures
        r is None <==> !has_role_named(roles@, name@),
        r matches Some(i) ==> first_role_named(roles@, name@, i as int),
{
    let mut i: usize = 0;
    while i < roles.len()
        invariant
            i <= roles@.len(),
            forall|j: int| 0 <= j < i ==> !eq_ignore_ascii_case(#[trigger] roles@[j].name@, name@),
        decreases roles@.len() - i,
    {
        if text_eq_ignore_ascii_case(roles[i].name.as_str(), name) {
            return Some(i);
        }
        i = i + 1;
    }
    None
}

/// The wizard's configuration.
pub struct RoleWizard {
    /// Roles that the wizard may grant on behalf of users.
    allowed_role_grants: Vec<String>,
    /// Roles that the wizard may revoke on behalf of users.
    allowed_role_revoke: Vec<String>,
}

impl RoleWizard {
    /// The roles the wizard may grant.
    pub closed spec fn grants(&self) -> Seq<Seq<char>> {
        self.allowed_role_grants.deep_view()
    }

    /// The roles the wizard may revoke.
    pub closed spec fn revokes(&self) -> Seq<Seq<char>> {
        self.allowed_role_revoke.deep_view()
    }

    pub fn new(allowed_role_grants: Vec<String>, allowed_role_revoke: Vec<String>) -> (r: RoleWizard)
        ensures
            r.grants() == allowed_role_grants.deep_view(),
            r.revokes() == allowed_role_revoke.deep_view(),
    {
        RoleWizard { allowed_role_grants, allowed_role_revoke }
    }

    /// A role command must not also reach later handlers.
    pub fn is_exclusive(&self) -> (r: bool)
        ensures
            r,
    {
        true
    }

    /// Whether the text, in lower case, holds a role command.
    pub open spec fn is_command(content: Seq<char>) -> bool {
        regex_finds(ROLE_COMMAND_PATTERN@, lower_of(content))
    }

    /// The wizard takes messages that mention the bot and hold a role
    /// command; it fails when the mention check failed.
    pub fn should_handle(&self, msg: &InboundMessage) -> (r: Result<bool, HandlerError>)
        ensures
            r == (match msg.mentions_bot {
                None => Err(HandlerError::MentionCheckFailed),
                Some(b) => Ok(b && Self::is_command(msg.content@)),
            }),
    {
        match msg.mentions_bot {
            None => Err(HandlerError::MentionCheckFailed),
            Some(false) => Ok(false),
            Some(true) => {
                let lowered = to_lower(msg.content.as_str());
                Ok(crate::pattern::Pattern::search(ROLE_COMMAND_PATTERN, lowered.as_str()))
            },
        }
    }

    /// The plan for the capture groups that the role command pattern gave.
    pub fn plan_from_captures(
        &self,
        captures: Option<Vec<Option<String>>>,
        roles: &Vec<GuildRole>,
    ) -> (r: RolePlan)
        ensures
            r == plan_for_captures(self.grants(), self.revokes(), captures.deep_view(), roles@),
    {
        let groups = match captures {
            None => {
                return RolePlan::Usage;
            },
            Some(groups) => groups,
        };
        if groups.len() < 3 {
            return RolePlan::Usage;
        }
        let op = match &groups[1] {
            None => {
                return RolePlan::Usage;
            },
            Some(op) => op,
        };
        let name = match &groups[2] {
            None => {
                return RolePlan::Usage;
            },
            Some(name) => name,
        };
        assert(groups.deep_view()[1] == groups@[1].deep_view());
        assert(groups.deep_view()[2] == groups@[2].deep_view());
        let is_grant = text_eq(op.as_str(), GRANT_WORD);
        if !is_grant && !text_eq(op.as_str(), REVOKE_WORD) {
            return RolePlan::Usage;
        }
        let found = find_role(roles, name.as_str());
        let i = match found {
            None => {
                return RolePlan::NoSuchRole;
            },
            Some(i) => i,
        };
        proof {
            let c = choose|k: int| first_role_named(roles@, name@, k);
            assert(first_role_named(roles@, name@, c));
            if c < i {
                assert(!eq_ignore_ascii_case(roles@[c].name@, name@));
            }
            if i < c {
                assert(!eq_ignore_ascii_case(roles@[i as int].name@, name@));
            }
            assert(c == i);
        }
        let role = &roles[i];
        if is_grant {
            if list_has(&self.allowed_role_grants, role.name.as_str()) {
                RolePlan::Grant { role: role.id }
            } else {
                RolePlan::CannotManage
            }
        } else {
            if list_has(&self.allowed_role_revoke, role.name.as_str()) {
                RolePlan::Revoke { role: role.id }
            } else {
                RolePlan::CannotManage
            }
        }
    }

    /// The plan for a message's text against the guild's roles: the text
    /// is lower-cased and matched against the role command pattern.
    pub fn plan(&self, content: &str, roles: &Vec<GuildRole>) -> (r: RolePlan)
        ensures
            r == plan_for_captures(
                self.grants(),
                self.revokes(),
                regex_captures(ROLE_COMMAND_PATTERN@, lower_of(content@)),
                roles@,
            ),
    {
        let lowered = to_lower(content);
        let captures = regex_capture_groups(ROLE_COMMAND_PATTERN, lowered.as_str());
        self.plan_from_captures(captures, roles)
    }
}

impl RolePlan {
    /// The reply sent at once: every plan but a role change ends with a
    /// reply and nothing else.
    pub fn reply(&self) -> (r: Option<String>)
        ensures
            r matches Some(s) ==> s@ == (match self {
                RolePlan::Usage => USAGE_REPLY@,
                RolePlan::NoSuchRole => NO_SUCH_ROLE_REPLY@,
                _ => CANNOT_MANAGE_REPLY@,
            }),
            r is None <==> (self is Grant || self is Revoke),
    {
        match self {
            RolePlan::Usage => Some(String::from_str(USAGE_REPLY)),
            RolePlan::NoSuchRole => Some(String::from_str(NO_SUCH_ROLE_REPLY)),
            RolePlan::CannotManage => Some(String::from_str(CANNOT_MANAGE_REPLY)),
            _ => None,
        }
    }
}

/// The reply after a role change, by whether the platform carried it out.
pub fn role_change_reply(succeeded: bool) -> (r: String)
    ensures
        r@ == (if succeeded {
            DONE_REPLY@
        } else {
            FAILED_REPLY@
        }),
{
    if succeeded {
        String::from_str(DONE_REPLY)
    } else {
        String::from_str(FAILED_REPLY)
    }
}

} // verus!
