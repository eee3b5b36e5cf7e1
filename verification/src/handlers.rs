pub mod autoban;
pub mod content_warning;
pub mod dice;
pub mod economy;
pub mod eight_ball;
pub mod greeting;
pub mod lift;
pub mod logging;
pub mod magical;
pub mod nuzzle;
pub mod quotes;
pub mod topic_change;
