use mysteriousbot::config::{
    build_handlers, parse_guild_id, AutoEmojiConfig, AutoResponderConfig, AutoTrigger, ConfigError,
    HandlerDecl,
};
use mysteriousbot::counter::{board_for_subject, decremented, incremented, CountError};
use mysteriousbot::filter::ChannelFilter;
use mysteriousbot::handler::Handler;
use mysteriousbot::pattern::Pattern;
use mysteriousbot::text::{
    decimal_string, replace_text, text_contains, text_eq_ignore_ascii_case,
};
use mysteriousbot::trigger::AutoresponderTrigger;

#[test]
fn sequential_increments_count_up() {
    let mut stored: Option<u64> = None;
    let mut last = 0;
    for _ in 0..25 {
        last = incremented(stored).unwrap();
        stored = Some(last);
    }
    assert_eq!(last, 25);
}

#[test]
fn increment_decrement_round_trip() {
    assert_eq!(incremented(None), Ok(1));
    assert_eq!(decremented(Some(1)), Ok(0));
    assert_eq!(incremented(Some(0)), Ok(1));
    assert_eq!(decremented(None), Err(CountError::Underflow));
    assert_eq!(incremented(Some(u64::MAX)), Err(CountError::Overflow));
}

#[test]
fn board_keeps_subject_on_top_list() {
    let top = vec![(1, 30), (2, 20), (3, 10)];
    assert_eq!(board_for_subject(top.clone(), 2, 20), top);
    assert_eq!(board_for_subject(top, 9, 4), vec![(1, 30), (2, 20), (9, 4)]);
    assert_eq!(board_for_subject(vec![], 9, 0), vec![(9, 0)]);
}

#[test]
fn guild_ids_parse_like_u64() {
    assert!(matches!(parse_guild_id("499363186957352970"), Ok(499363186957352970)));
    assert!(matches!(parse_guild_id("+5"), Ok(5)));
    assert!(matches!(parse_guild_id("18446744073709551615"), Ok(u64::MAX)));
    for bad in ["", "+", "12a", "-1", " 1", "18446744073709551616"] {
        match parse_guild_id(bad) {
            Err(ConfigError::NonIntegerGuildId { string }) => assert_eq!(string, bad),
            _ => panic!("{} should be refused", bad),
        }
    }
}

#[test]
fn decimal_and_replace() {
    assert_eq!(decimal_string(0), "0");
    assert_eq!(decimal_string(1234567890), "1234567890");
    assert_eq!(decimal_string(u64::MAX), u64::MAX.to_string());
    assert_eq!(replace_text("a{{user}}b{{user}}", "{{user}}", "X"), "aXbX");
    assert_eq!(replace_text("aaa", "aa", "b"), "ba");
    assert_eq!(replace_text("none", "{{user}}", "X"), "none");
}

#[test]
fn text_search_helpers() {
    assert!(text_contains("this has badword in it", "badword"));
    assert!(!text_contains("bad word", "badword"));
    assert!(text_contains("anything", ""));
    assert!(text_eq_ignore_ascii_case("HeLPer", "helper"));
    assert!(!text_eq_ignore_ascii_case("helpers", "helper"));
}

fn decl(kind: &str) -> HandlerDecl {
    HandlerDecl {
        kind: kind.to_string(),
        deny_channels: None,
        allowed_role_grants: None,
        allowed_role_revoke: None,
    }
}

#[test]
fn handler_declarations_build_a_chain() {
    let mut ack = decl("AckMessage");
    ack.deny_channels = Some(vec!["quiet".to_string()]);
    let mut wizard = decl("RoleWizard");
    wizard.allowed_role_grants = Some(vec!["Helper".to_string()]);
    wizard.allowed_role_revoke = Some(vec![]);
    let chain = build_handlers(vec![ack, decl("Mystery"), wizard]).ok().unwrap();
    assert_eq!(chain.len(), 2);
    assert!(matches!(chain.get(0), Handler::Ack(_)));
    assert!(matches!(chain.get(1), Handler::RoleWizard(_)));
}

#[test]
fn handler_declaration_missing_field() {
    let mut wizard = decl("RoleWizard");
    wizard.allowed_role_grants = Some(vec![]);
    match build_handlers(vec![wizard]) {
        Err(ConfigError::MissingField { field }) => assert_eq!(field, "allowed_role_revoke"),
        _ => panic!("the declaration lacks a field"),
    }
    match build_handlers(vec![decl("AckMessage")]) {
        Err(ConfigError::MissingField { field }) => assert_eq!(field, "deny_channels"),
        _ => panic!("the declaration lacks a field"),
    }
}

#[test]
fn auto_configs_become_autoresponders() {
    let filter = ChannelFilter { ignore_channels: None, only_in_channels: Some(vec![1]) };
    let emoji = AutoEmojiConfig {
        on: AutoTrigger::Mention(261559920485335040),
        channel_filter: filter,
        twemojis: vec!["pingsock".to_string()],
    };
    let responder = emoji.into_autoresponder();
    assert!(matches!(
        &responder.trigger,
        AutoresponderTrigger::UserMentioned { user_mentioned } if user_mentioned == &vec![261559920485335040]
    ));
    assert_eq!(responder.action.twemojis, vec!["pingsock".to_string()]);
    assert_eq!(responder.filter.cooldown.seconds, 0);
    let reply = AutoResponderConfig {
        on: AutoTrigger::Match(Pattern::new("foo".to_string()).ok().unwrap()),
        channel_filter: ChannelFilter { ignore_channels: None, only_in_channels: None },
        message: "Grr".to_string(),
    };
    let responder = reply.into_autoresponder();
    assert_eq!(responder.action.reply_messages, vec!["Grr".to_string()]);
    assert!(responder.action.twemojis.is_empty());
}
