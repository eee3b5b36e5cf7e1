use muni_bot::handlers::autoban::{AutoBanHandler, BanReason};

#[test]
fn test_matches_scam_message() {
    let msg = "𝕔𝕙𝕖𝕒𝕡 𝕧𝕚𝕖𝕨𝕖𝕣𝕤 𝕠𝕟 scam.url";
    assert!(muni_bot::handlers::autoban::matches_scam_message(msg).unwrap());

    let msg = "b︢e︢st v︢ie︢we︣rs o︣n scam.url";
    assert!(muni_bot::handlers::autoban::matches_scam_message(msg).unwrap());
}

#[test]
fn ordinary_chat_is_not_a_scam() {
    assert!(!muni_bot::handlers::autoban::matches_scam_message("good stream today!").unwrap());
    assert!(!muni_bot::handlers::autoban::matches_scam_message("the best viewers are here").unwrap());
}

#[test]
fn ban_decision_checks_login_first() {
    let r = AutoBanHandler::ban_decision("definitelyISAPRED", "hi everyone");
    assert_eq!(r, Ok(Some(BanReason::SuspectedHarassment)));
    let r = AutoBanHandler::ban_decision("friendly_chatter", "𝕔𝕙𝕖𝕒𝕡 𝕧𝕚𝕖𝕨𝕖𝕣𝕤 𝕠𝕟 scam.url");
    assert_eq!(r, Ok(Some(BanReason::LikelyViewerScamBot)));
    let r = AutoBanHandler::ban_decision("friendly_chatter", "hi everyone");
    assert_eq!(r, Ok(None));
}
