use muni_bot::config::{is_ventriloquist, Config, DiscordConfig};
use muni_bot::handlers::content_warning::{ContentWarningHandler, CwOutcome};
use muni_bot::handlers::dice::{DiceHandler, RollResult};
use muni_bot::handlers::eight_ball::EightBallProvider;
use muni_bot::handlers::greeting::GreetingHandler;
use muni_bot::handlers::lift::{LiftHandler, LIFT_COOLDOWN_MS};
use muni_bot::handlers::magical::MagicalHandler;
use muni_bot::handlers::nuzzle::NuzzleProvider;
use muni_bot::discord::simple::tone_indicators_guide;
use muni_bot::handlers::topic_change::{topic_change_action, TopicChangeAction};
use muni_bot::text::{contains_str, eq_str, parse_decimal_u32, starts_with_str};

#[test]
fn dice_fixed_quips() {
    match DiceHandler::roll_for_message(0) {
        RollResult::SingleMessage(m) => assert_eq!(m, "what."),
        _ => panic!("expected a single message"),
    }
    match DiceHandler::roll_for_message(1) {
        RollResult::SingleMessage(m) => assert_eq!(m, "you roll a one-sided die. it's a 1."),
        _ => panic!("expected a single message"),
    }
    match DiceHandler::roll_for_message(2) {
        RollResult::SingleMessage(m) => {
            assert!(m == "coin flip. it's heads!" || m == "coin flip. it's tails!")
        }
        _ => panic!("expected a single message"),
    }
    for _ in 0..50 {
        match DiceHandler::roll_for_message(6) {
            RollResult::Full(_, n, s) => {
                assert!(1 <= n && n <= 6);
                assert!(s == "." || s == "!");
            }
            _ => panic!("expected a full message"),
        }
    }
}

#[test]
fn magic_amount_is_the_cubic_curve() {
    assert_eq!(MagicalHandler::get_magic_amount(0), 100);
    assert_eq!(MagicalHandler::get_magic_amount(1), 99);
    assert_eq!(MagicalHandler::get_magic_amount(50), 87);
    assert_eq!(MagicalHandler::get_magic_amount(100), 0);
    // the amount only depends on the hash modulo 101
    assert_eq!(MagicalHandler::get_magic_amount(201), 0);
}

#[test]
fn magic_message_is_phrased_exactly() {
    assert_eq!(
        MagicalHandler::get_message(50, "muni"),
        "muni is 87% magical today!"
    );
    assert_eq!(
        MagicalHandler::get_message(100, "somebody"),
        "somebody is 0% magical today. you can have some of my magic~ :3 <3"
    );
    assert_eq!(
        MagicalHandler::get_message(69, "viewer"),
        "viewer is 67% magical today."
    );
    assert_eq!(
        MagicalHandler::get_message(0, "star"),
        "star is 100% magical today!! wow :3"
    );
}

#[test]
fn greeting_uwu_is_reserved() {
    let h = GreetingHandler::new();
    assert_eq!(
        h.get_greeting_message("Linokii", "uwu hello"),
        Some("linokii uwu<3".to_string())
    );
    assert_eq!(h.get_greeting_message("somebody", "uwu hello"), None);
    assert_eq!(h.get_greeting_message("somebody", "   uwu"), None);
}

#[test]
fn greeting_answers_hellos_to_the_bot() {
    let h = GreetingHandler::new();
    for _ in 0..20 {
        let r = h.get_greeting_message("chatter", "hi muni_bot!");
        let m = r.expect("a hello addressed to the bot should be answered");
        assert!(m.contains("chatter"));
    }
    assert_eq!(h.get_greeting_message("chatter", "tell me about rust"), None);
}

#[test]
fn content_warning_command_flow() {
    let mut h = ContentWarningHandler::new();
    // a viewer asking gets a report
    let r = h.handle_chat_message("viewer", "viewer", "muni", "!cw");
    assert_eq!(r, CwOutcome::UserReport);
    // the streamer with no argument gets the state
    let r = h.handle_chat_message("muni", "muni", "muni", "!cw   ");
    assert_eq!(r, CwOutcome::StreamerReport);
    assert_eq!(h.active_warning(), None);
    // the streamer issues a warning
    let r = h.handle_chat_message("muni", "muni", "muni", "!cw spiders");
    assert_eq!(r, CwOutcome::WarningIssued);
    assert_eq!(h.active_warning(), Some("spiders".to_string()));
    // a newcomer is greeted once
    let r = h.handle_chat_message("viewer", "Viewer", "muni", "hello!");
    assert_eq!(r, CwOutcome::GreetedNewcomer);
    let r = h.handle_chat_message("viewer", "Viewer", "muni", "hello again!");
    assert_eq!(r, CwOutcome::NotHandled);
    // the streamer clears it with the tw alias
    let r = h.handle_chat_message("muni", "muni", "muni", "!tw clear");
    assert_eq!(r, CwOutcome::WarningCleared);
    assert_eq!(h.active_warning(), None);
    // with no warning, nobody is greeted
    let r = h.handle_chat_message("other", "Other", "muni", "hi");
    assert_eq!(r, CwOutcome::NotHandled);
}

#[test]
fn lift_command_is_rate_limited() {
    let now: i64 = 1_000_000_000;
    let mut h = LiftHandler::new(now);
    assert!(!h.should_respond("hello", now));
    assert!(h.should_respond("!liftmuni", now + 1));
    // within the cooldown the trigger is ignored
    assert!(!h.should_respond("!liftmuni", now + 1 + LIFT_COOLDOWN_MS));
    // and fires again once it has fully elapsed
    assert!(h.should_respond("!liftmuni please", now + 2 + 2 * LIFT_COOLDOWN_MS));
}

#[test]
fn eight_ball_shapes() {
    for _ in 0..20 {
        let shake = EightBallProvider::get_shake_message();
        assert!(shake.starts_with("shakes eight ball "));
        assert!(shake.ends_with("..."));
        let response = EightBallProvider::get_response();
        assert!(!response.is_empty());
    }
}

#[test]
fn nuzzle_is_always_italic() {
    for _ in 0..20 {
        let r = NuzzleProvider::get_response();
        assert!(r.ends_with('_'));
        assert!(r.contains("nuzz"));
    }
}

#[test]
fn ventriloquist_allow_list() {
    let config = DiscordConfig { invite_link: None, ventriloquists: vec![1, 5, 9] };
    assert!(is_ventriloquist(&config, 5));
    assert!(!is_ventriloquist(&config, 2));
    let default = Config::default();
    assert!(!is_ventriloquist(&default.discord, 1));
    assert_eq!(default.db.url, "127.0.0.1:7654");
    assert_eq!(default.db.user, "muni_bot");
}

#[test]
fn text_search_helpers() {
    assert!(contains_str("cheap viewers on here", "viewers on"));
    assert!(!contains_str("viewers", "viewers on"));
    assert!(contains_str("abc", ""));
    assert!(starts_with_str("!liftmuni now", "!liftmuni"));
    assert!(!starts_with_str(" !liftmuni", "!liftmuni"));
    assert!(eq_str("same", "same"));
    assert!(!eq_str("same", "sam"));
}

#[test]
fn tone_guide_lists_every_indicator() {
    let guide = tone_indicators_guide();
    assert!(guide.starts_with("## a guide on tone indicators\n"));
    assert!(guide.contains("**/gen**: genuine\n"));
    assert!(guide.contains("**/srs**: serious\n"));
    assert!(guide.contains("## other indicators\n"));
    assert!(guide.contains("**/th**: threat\n"));
}

#[test]
fn topic_change_buttons() {
    assert_eq!(topic_change_action("approve_topic_change"), TopicChangeAction::SendRequest);
    assert_eq!(topic_change_action("deny_topic_change"), TopicChangeAction::AcknowledgeDenial);
    assert_eq!(topic_change_action("something_else"), TopicChangeAction::Ignore);
}

#[test]
fn decimal_parsing() {
    assert_eq!(parse_decimal_u32("0"), Some(0));
    assert_eq!(parse_decimal_u32("37"), Some(37));
    assert_eq!(parse_decimal_u32("4294967295"), Some(u32::MAX));
    assert_eq!(parse_decimal_u32("4294967296"), None);
    assert_eq!(parse_decimal_u32(""), None);
    assert_eq!(parse_decimal_u32("12a"), None);
    assert_eq!(parse_decimal_u32("-3"), None);
}
