use mysteriousbot::ack_message_handler::AckMessageHandler;
use mysteriousbot::autoresponder::AutoresponderAction;
use mysteriousbot::command::{leaderboard_fields, Command, LeaderRow, UserNames};
use mysteriousbot::emoji::{find_emoji, GuildEmoji};
use mysteriousbot::message::{GuildRole, HandlerError, InboundMessage};
use mysteriousbot::role_wizard::{role_change_reply, RolePlan, RoleWizard};
use mysteriousbot::verbal_morality::VerbalMoralityHandler;
use mysteriousbot::word_watcher::WordWatcher;

fn message(content: &str) -> InboundMessage {
    InboundMessage {
        author: 7,
        author_tag: "Someone#0001".to_string(),
        guild: Some(12),
        channel: 3,
        channel_name: Some("general".to_string()),
        content: content.to_string(),
        content_safe: content.to_string(),
        mentions: vec![],
        mentions_bot: Some(true),
    }
}

fn strings(items: &[&str]) -> Vec<String> {
    items.iter().map(|s| s.to_string()).collect()
}

fn roles() -> Vec<GuildRole> {
    vec![
        GuildRole { id: 10, name: "Moderator".to_string() },
        GuildRole { id: 42, name: "Helper".to_string() },
    ]
}

#[test]
fn role_grant_in_allow_list() {
    let wizard = RoleWizard::new(strings(&["Helper"]), vec![]);
    let plan = wizard.plan("role grant Helper", &roles());
    assert_eq!(plan, RolePlan::Grant { role: 42 });
    assert_eq!(plan.reply(), None);
    assert_eq!(role_change_reply(true), "you got it.");
}

#[test]
fn role_grant_outside_allow_list() {
    let wizard = RoleWizard::new(strings(&["Moderator"]), strings(&["Helper"]));
    let plan = wizard.plan("role grant Helper", &roles());
    assert_eq!(plan, RolePlan::CannotManage);
    assert_eq!(plan.reply(), Some("I'm sorry, I cannot manage that role".to_string()));
}

#[test]
fn role_revoke_with_mention_prefix() {
    let wizard = RoleWizard::new(vec![], strings(&["Helper"]));
    let plan = wizard.plan("<@!1234> role revoke HELPER", &roles());
    assert_eq!(plan, RolePlan::Revoke { role: 42 });
}

#[test]
fn role_unknown_name() {
    let wizard = RoleWizard::new(strings(&["Helper"]), vec![]);
    let plan = wizard.plan("role grant Wizard", &roles());
    assert_eq!(plan, RolePlan::NoSuchRole);
    assert_eq!(plan.reply(), Some("No such role by that name, bud.".to_string()));
}

#[test]
fn role_usage_when_no_command() {
    let wizard = RoleWizard::new(strings(&["Helper"]), vec![]);
    let plan = wizard.plan("please give me helper", &roles());
    assert_eq!(plan, RolePlan::Usage);
    assert_eq!(
        plan.reply(),
        Some("The format for this command is role <grant|revoke> <role name>".to_string())
    );
    assert_eq!(role_change_reply(false), "there was a problem modifying your roles.");
}

#[test]
fn role_plan_from_given_captures() {
    let wizard = RoleWizard::new(strings(&["Helper"]), vec![]);
    let caps = Some(vec![
        Some("role grant helper".to_string()),
        Some("grant".to_string()),
        Some("helper".to_string()),
    ]);
    assert_eq!(wizard.plan_from_captures(caps, &roles()), RolePlan::Grant { role: 42 });
    let odd = Some(vec![Some("x".to_string()), Some("promote".to_string()), Some("helper".to_string())]);
    assert_eq!(wizard.plan_from_captures(odd, &roles()), RolePlan::Usage);
    assert_eq!(wizard.plan_from_captures(None, &roles()), RolePlan::Usage);
}

#[test]
fn role_wizard_should_handle() {
    let wizard = RoleWizard::new(vec![], vec![]);
    assert_eq!(wizard.should_handle(&message("Role Grant x")), Ok(true));
    assert_eq!(wizard.should_handle(&message("hello")), Ok(false));
    let mut msg = message("role grant x");
    msg.mentions_bot = None;
    assert_eq!(wizard.should_handle(&msg), Err(HandlerError::MentionCheckFailed));
    assert!(wizard.is_exclusive());
}

#[test]
fn ack_handler_decisions() {
    let ack = AckMessageHandler::new(strings(&["quiet"]));
    assert_eq!(ack.should_handle(&message("hi")), Ok(true));
    let mut quiet = message("hi");
    quiet.channel_name = Some("quiet".to_string());
    assert_eq!(ack.should_handle(&quiet), Ok(false));
    let mut unknown = message("hi");
    unknown.mentions_bot = None;
    assert_eq!(ack.should_handle(&unknown), Err(HandlerError::MentionCheckFailed));
    assert_eq!(ack.on_message(), "I don't know about that");
    assert!(!ack.is_exclusive());
}

#[test]
fn word_watcher_nudges() {
    let watcher = WordWatcher::new(
        strings(&["Politics"]),
        strings(&["Boss#0001"]),
        strings(&["debate"]),
        "off-topic".to_string(),
    );
    assert!(watcher.should_handle(&message("Let's talk POLITICS now")));
    assert!(!watcher.should_handle(&message("Let's talk weather")));
    let mut boss = message("politics");
    boss.author_tag = "boss#0001".to_string();
    assert!(!watcher.should_handle(&boss));
    let mut debate = message("politics");
    debate.channel_name = Some("debate".to_string());
    assert!(!watcher.should_handle(&debate));
    assert_eq!(watcher.on_message(), "Hey, that sounds like it may be best taken to #off-topic.");
}

#[test]
fn verbal_morality_warning_and_key() {
    let handler = VerbalMoralityHandler::new(
        strings(&["darn"]),
        vec![],
        vec![],
        "Language, {{user}}! {{user}}, please.".to_string(),
    );
    assert!(handler.should_handle(&message("oh DARN it")));
    assert_eq!(
        handler.warning_for(Some("Nick".to_string()), "name".to_string()),
        "Language, Nick! Nick, please."
    );
    assert_eq!(handler.warning_for(None, "name".to_string()), "Language, name! name, please.");
    assert_eq!(VerbalMoralityHandler::infraction_key(&message("x")), "12.7");
    let mut dm = message("x");
    dm.guild = None;
    assert_eq!(VerbalMoralityHandler::infraction_key(&dm), "0.7");
}

#[test]
fn autoresponder_action_plan() {
    let action = AutoresponderAction {
        twemojis: strings(&["PingBad", "PES_Ping"]),
        reply_messages: strings(&["foo", "bar"]),
        counter: strings(&["pings"]),
    };
    let plan = action.run(&message("x"));
    assert_eq!(plan.author, 7);
    assert_eq!(plan.counters, strings(&["pings"]));
    assert_eq!(plan.twemojis, strings(&["PingBad", "PES_Ping"]));
    let reply = plan.reply.unwrap();
    assert!(reply == "foo" || reply == "bar");
    let silent = AutoresponderAction { twemojis: vec![], reply_messages: vec![], counter: vec![] };
    assert_eq!(silent.run(&message("x")).reply, None);
    let fixed = action.plan_with_reply(&message("x"), Some("bar".to_string()));
    assert_eq!(fixed.reply, Some("bar".to_string()));
}

#[test]
fn command_plan() {
    let command = Command {
        alias: "a_command".to_string(),
        description: "does stuff".to_string(),
        reply_messages: strings(&["hello, world!"]),
        counter_leaderboard: Some("pings".to_string()),
    };
    let plan = command.handle();
    assert_eq!(plan.reply, Some("hello, world!".to_string()));
    assert_eq!(plan.leaderboard, Some("pings".to_string()));
    let quiet = Command {
        alias: "a_command".to_string(),
        description: "does stuff".to_string(),
        reply_messages: vec![],
        counter_leaderboard: None,
    };
    let plan = quiet.handle();
    assert_eq!(plan.reply, None);
    assert_eq!(plan.leaderboard, None);
}

#[test]
fn leaderboard_fields_use_nick_and_skip_unknown() {
    let rows = vec![
        LeaderRow {
            names: Some(UserNames { nick: Some("Nick".to_string()), name: "user1".to_string() }),
            count: 120,
        },
        LeaderRow { names: None, count: 50 },
        LeaderRow { names: Some(UserNames { nick: None, name: "user3".to_string() }), count: 0 },
    ];
    assert_eq!(
        leaderboard_fields(&rows),
        vec![
            ("Nick".to_string(), "120".to_string()),
            ("user3".to_string(), "0".to_string())
        ]
    );
}

#[test]
fn emoji_lookup_by_exact_name() {
    let emojis = vec![
        GuildEmoji { id: 1, name: "pingsock".to_string(), animated: false },
        GuildEmoji { id: 2, name: "swedishfish".to_string(), animated: true },
        GuildEmoji { id: 3, name: "swedishfish".to_string(), animated: false },
    ];
    assert_eq!(find_emoji(&emojis, "swedishfish"), Some(1));
    assert_eq!(find_emoji(&emojis, "SwedishFish"), None);
}
