//! Slash commands: a canned reply picked at random, and counter
//! leaderboards.
use crate::autoresponder::choose_one;
use crate::text::{decimal, decimal_string, listed, text_eq};
use vstd::prelude::*;

verus! {

/// A slash command of one guild.
pub struct Command {
    /// The command's name.
    pub alias: String,
    /// A little help text.
    pub description: String,
    /// Replies, one of which is sent, picked at random.
    pub reply_messages: Vec<String>,
    /// The counter whose leaderboard the command shows.
    pub counter_leaderboard: Option<String>,
}

/// What one invocation of a command does.
pub struct CommandPlan {
    /// The reply to send, if any.
    pub reply: Option<String>,
    /// The counter whose leaderboard to show, if any.
    pub leaderboard: Option<String>,
}

impl Command {
    /// The plan with `reply` as the reply picked.
    pub fn handle_with_reply(&self, reply: Option<String>) -> (r: CommandPlan)
        ensures
            r.reply == reply,
            r.leaderboard.deep_view() == self.counter_leaderboard.deep_view(),
    {
        let leaderboard = match &self.counter_leaderboard {
            Some(name) => Some(name.clone()),
            None => None,
        };
        CommandPlan { reply, leaderboard }
    }

    /// The plan for one invocation: one of the replies, picked at random,
    /// when any is configured, and the leaderboard when one is configured.
    pub fn handle(&self) -> (r: CommandPlan)
        ensures
            r.reply is None <==> self.reply_messages@.len() == 0,
            r.reply matches Some(s) ==> listed(self.reply_messages.deep_view(), s@),
            r.leaderboard.deep_view() == self.counter_leaderboard.deep_view(),
    {
        let reply = choose_one(&self.reply_messages);
        self.handle_with_reply(reply)
    }
}

/// The index of the first command whose alias is `name`.
pub fn find_command(commands: &Vec<Command>, name: &str) -> (r: Option<usize>)
    ensures
        r is None <==> forall|j: int| 0 <= j < commands@.len() ==> (#[trigger] commands@[j]).alias@ != name@,
        r matches Some(i) ==> {
            &&& i < commands@.len()
            &&& commands@[i as int].alias@ == name@
            &&& forall|j: int| 0 <= j < i ==> (#[trigger] commands@[j]).alias@ != name@
        },
{
    let mut i: usize = 0;
    while i < commands.len()
        invariant
            i <= commands@.len(),
            forall|j: int| 0 <= j < i ==> (#[trigger] commands@[j]).alias@ != name@,
        decreases commands@.len() - i,
    {
        if text_eq(commands[i].alias.as_str(), name) {
            return Some(i);
        }
        i = i + 1;
    }
    None
}

/// The names the platform gave for a user.
pub struct UserNames {
    /// The user's nickname in the guild, if any.
    pub nick: Option<String>,
    /// The user's name.
    pub name: String,
}

/// One leaderboard entry: the user's names, where the platform could give
/// them, and the count.
pub struct LeaderRow {
    pub names: Option<UserNames>,
    pub count: u64,
}

/// The name shown for a user: the nickname where there is one.
pub open spec fn shown_name(names: UserNames) -> Seq<char> {
    match names.nick {
        Some(n) => n@,
        None => names.name@,
    }
}

/// The fields of a leaderboard: name and count for each row, in order,
/// leaving out the users whose names could not be had.
pub open spec fn board_fields(rows: Seq<LeaderRow>) -> Seq<(Seq<char>, Seq<char>)>
    decreases rows.len(),
{
    if rows.len() == 0 {
        Seq::empty()
    } else {
        let rest = board_fields(rows.drop_last());
        match rows.last().names {
            Some(names) => rest.push((shown_name(names), decimal(rows.last().count as nat))),
            None => rest,
        }
    }
}

/// The name shown for a user.
pub fn display_name(names: &UserNames) -> (r: String)
    ensures
        r@ == shown_name(*names),
{
    match &names.nick {
        Some(n) => n.clone(),
        None => names.name.clone(),
    }
}

/// The fields of the leaderboard for `rows`.
pub fn leaderboard_fields(rows: &Vec<LeaderRow>) -> (r: Vec<(String, String)>)
    ensures
        r.deep_view() == board_fields(rows@),
{
    let mut out: Vec<(String, String)> = Vec::new();
    let mut i: usize = 0;
    while i < rows.len()
        invariant
            i <= rows@.len(),
            out.deep_view() == board_fields(rows@.subrange(0, i as int)),
        decreases rows@.len() - i,
    {
        proof {
            assert(rows@.subrange(0, i + 1).drop_last() =~= rows@.subrange(0, i as int));
        }
        match &rows[i].names {
            Some(names) => {
                let field = (display_name(names), decimal_string(rows[i].count));
                let ghost before = out.deep_view();
                out.push(field);
                proof {
                    assert(out.deep_view() =~= before.push((field.0@, field.1@)));
                }
            },
            None => {},
        }
        i = i + 1;
    }
    proof {
        assert(rows@.subrange(0, i as int) =~= rows@);
    }
    out
}

} // verus!
