use mysteriousbot::autoresponder::{Autoresponder, AutoresponderAction};
use mysteriousbot::dispatch::HandlerChain;
use mysteriousbot::filter::{AutoresponderFilter, ChannelFilter, Cooldown};
use mysteriousbot::handler::{Handler, Verdict};
use mysteriousbot::message::{HandlerError, InboundMessage};
use mysteriousbot::pattern::Pattern;
use mysteriousbot::role_wizard::RoleWizard;
use mysteriousbot::trigger::AutoresponderTrigger;
use mysteriousbot::word_watcher::WordWatcher;

fn message(channel: u64, content: &str) -> InboundMessage {
    InboundMessage {
        author: 7,
        author_tag: "Someone#0001".to_string(),
        guild: Some(1),
        channel,
        channel_name: Some(format!("channel-{}", channel)),
        content: content.to_string(),
        content_safe: content.to_string(),
        mentions: vec![],
        mentions_bot: Some(true),
    }
}

fn strings(items: &[&str]) -> Vec<String> {
    items.iter().map(|s| s.to_string()).collect()
}

fn pattern_responder(pattern: &str, filter: AutoresponderFilter) -> Autoresponder {
    Autoresponder {
        trigger: AutoresponderTrigger::MessageMatches {
            message_matches: vec![Pattern::new(pattern.to_string()).ok().unwrap()],
        },
        filter,
        action: AutoresponderAction {
            twemojis: vec![],
            reply_messages: strings(&["grr"]),
            counter: vec![],
        },
    }
}

fn open_filter() -> AutoresponderFilter {
    AutoresponderFilter::new(vec![], vec![], 0)
}

fn watcher(words: &[&str], deny: &[&str]) -> Handler {
    Handler::WordWatcher(WordWatcher::new(
        strings(words),
        vec![],
        strings(deny),
        "off-topic".to_string(),
    ))
}

fn wizard() -> Handler {
    Handler::RoleWizard(RoleWizard::new(strings(&["Helper"]), strings(&["Helper"])))
}

#[test]
fn regex_trigger_matches_containing_text() {
    let mut chain = HandlerChain::new(vec![Handler::Autoresponder(pattern_responder(
        "badword",
        open_filter(),
    ))]);
    let verdicts = chain.dispatch(&message(5, "this has badword in it"), 1_000);
    assert_eq!(verdicts, vec![Verdict::Run]);
    let verdicts = chain.dispatch(&message(5, "this is clean"), 2_000);
    assert_eq!(verdicts, vec![Verdict::Skip]);
}

#[test]
fn pattern_search_is_unanchored() {
    let p = Pattern::new("badword".to_string()).ok().unwrap();
    assert!(p.is_match("this has badword in it"));
    assert!(!p.is_match("this is clean"));
    assert!(Pattern::new("(unclosed".to_string()).is_err());
}

#[test]
fn ignored_channel_never_matches() {
    let filter = AutoresponderFilter::new(vec![], vec![5, 6], 0);
    let mut chain = HandlerChain::new(vec![
        Handler::Autoresponder(pattern_responder("badword", filter)),
        watcher(&["badword"], &["channel-5"]),
    ]);
    let verdicts = chain.dispatch(&message(5, "badword badword"), 1_000);
    assert_eq!(verdicts, vec![Verdict::Skip, Verdict::Skip]);
    let verdicts = chain.dispatch(&message(9, "badword"), 1_000);
    assert_eq!(verdicts, vec![Verdict::Run, Verdict::Run]);
}

#[test]
fn ignore_list_wins_over_allow_list() {
    let filter = ChannelFilter { ignore_channels: Some(vec![5]), only_in_channels: Some(vec![5]) };
    assert!(!filter.permits(5));
    let open = ChannelFilter { ignore_channels: None, only_in_channels: None };
    assert!(open.permits(5));
}

#[test]
fn allow_only_list_excludes_other_channels() {
    let filter = AutoresponderFilter::new(vec![1, 2], vec![], 0);
    let mut chain =
        HandlerChain::new(vec![Handler::Autoresponder(pattern_responder("badword", filter))]);
    assert_eq!(chain.dispatch(&message(3, "badword"), 1_000), vec![Verdict::Skip]);
    assert_eq!(chain.dispatch(&message(2, "badword"), 1_000), vec![Verdict::Run]);
}

#[test]
fn exclusive_match_stops_later_handlers() {
    let mut chain = HandlerChain::new(vec![
        watcher(&["role"], &[]),
        wizard(),
        Handler::Autoresponder(pattern_responder("role", open_filter())),
    ]);
    let verdicts = chain.dispatch(&message(4, "<@!99> role grant Helper"), 1_000);
    assert_eq!(verdicts, vec![Verdict::Run, Verdict::Run]);
}

#[test]
fn exclusive_first_handler_hides_the_rest() {
    let mut chain = HandlerChain::new(vec![wizard(), watcher(&["role"], &[])]);
    let verdicts = chain.dispatch(&message(4, "role revoke Helper"), 1_000);
    assert_eq!(verdicts, vec![Verdict::Run]);
}

#[test]
fn failed_decision_does_not_stop_chain() {
    let mut msg = message(4, "role grant Helper");
    msg.mentions_bot = None;
    let mut chain = HandlerChain::new(vec![wizard(), watcher(&["grant"], &[])]);
    let verdicts = chain.dispatch(&msg, 1_000);
    assert_eq!(
        verdicts,
        vec![Verdict::Failed(HandlerError::MentionCheckFailed), Verdict::Run]
    );
}

#[test]
fn unmentioned_wizard_skips() {
    let mut msg = message(4, "role grant Helper");
    msg.mentions_bot = Some(false);
    let mut chain = HandlerChain::new(vec![wizard(), watcher(&["grant"], &[])]);
    assert_eq!(chain.dispatch(&msg, 1_000), vec![Verdict::Skip, Verdict::Run]);
}

#[test]
fn cooldown_admits_one_trigger_per_window() {
    let filter = AutoresponderFilter::new(vec![], vec![], 10);
    let mut chain =
        HandlerChain::new(vec![Handler::Autoresponder(pattern_responder("badword", filter))]);
    assert_eq!(chain.dispatch(&message(1, "badword"), 0), vec![Verdict::Run]);
    assert_eq!(chain.dispatch(&message(1, "badword"), 5_000), vec![Verdict::Skip]);
    assert_eq!(chain.dispatch(&message(1, "badword"), 11_000), vec![Verdict::Run]);
}

#[test]
fn cooldown_counts_from_last_success() {
    let mut cooldown = Cooldown::new(10);
    assert!(cooldown.try_trigger(0));
    assert!(!cooldown.try_trigger(5_000));
    assert!(!cooldown.try_trigger(9_999));
    assert!(cooldown.try_trigger(10_000));
    assert_eq!(cooldown.last_triggered, Some(10_000));
    assert!(!cooldown.try_trigger(3_000));
}

#[test]
fn untriggered_message_leaves_cooldown_alone() {
    let filter = AutoresponderFilter::new(vec![], vec![], 10);
    let mut responder = pattern_responder("badword", filter);
    assert!(!responder.should_handle(&message(1, "clean"), 0));
    assert_eq!(responder.filter.cooldown.last_triggered, None);
    assert!(responder.should_handle(&message(1, "badword"), 0));
    assert_eq!(responder.filter.cooldown.last_triggered, Some(0));
}

#[test]
fn user_triggers() {
    let mut msg = message(1, "hello");
    msg.mentions = vec![42];
    let by_author = AutoresponderTrigger::UserMessage { user_message: vec![3, 7] };
    let by_mention = AutoresponderTrigger::UserMentioned { user_mentioned: vec![41, 42] };
    let other_mention = AutoresponderTrigger::UserMentioned { user_mentioned: vec![7] };
    assert!(by_author.should_run(&msg));
    assert!(by_mention.should_run(&msg));
    assert!(!other_mention.should_run(&msg));
}

#[test]
fn content_safe_text_is_what_patterns_see() {
    let mut msg = message(1, "<@123> hi");
    msg.content_safe = "@Bob hi".to_string();
    let trigger = AutoresponderTrigger::MessageMatches {
        message_matches: vec![Pattern::new("^@Bob".to_string()).ok().unwrap()],
    };
    assert!(trigger.should_run(&msg));
}
