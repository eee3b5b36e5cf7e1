//! The recognized configuration options, loaded once at process start and
//! read-only afterwards. The shell parses the configuration file; these
//! types carry the values the logic reads.

use vstd::prelude::*;

verus! {

/// Everything the process can be configured with.
#[derive(Clone, Debug)]
pub struct Config {
    pub db: DbConfig,
    pub discord: DiscordConfig,
    pub twitch: TwitchConfig,
}

/// Where the document database lives and who connects to it.
#[derive(Clone, Debug)]
pub struct DbConfig {
    pub url: String,
    pub user: String,
}

/// The Discord-side options: an invite link to offer, and the users
/// allowed to speak through the bot.
#[derive(Clone, Debug)]
pub struct DiscordConfig {
    pub invite_link: Option<String>,
    pub ventriloquists: Vec<u64>,
}

/// The Twitch-side options: the raid-message templates.
#[derive(Clone, Debug)]
pub struct TwitchConfig {
    pub raid_msg_all: Option<String>,
    pub raid_msg_subs: Option<String>,
}

impl Default for Config {
    /// The configuration written out for a fresh install: a local
    /// database and no optional features.
    fn default() -> (r: Config)
        ensures
            r.db.url@ == "127.0.0.1:7654"@,
            r.db.user@ == "muni_bot"@,
            r.discord.invite_link is None,
            r.discord.ventriloquists@.len() == 0,
            r.twitch.raid_msg_all is None,
            r.twitch.raid_msg_subs is None,
    {
        Config {
            db: DbConfig { url: "127.0.0.1:7654".to_owned(), user: "muni_bot".to_owned() },
            discord: DiscordConfig { invite_link: None, ventriloquists: Vec::new() },
            twitch: TwitchConfig { raid_msg_all: None, raid_msg_subs: None },
        }
    }
}

/// Whether a user may speak through the bot: they must be on the
/// configured allow-list.
pub fn is_ventriloquist(config: &DiscordConfig, user_id: u64) -> (r: bool)
    ensures
        r == config.ventriloquists@.contains(user_id),
{
    let n = config.ventriloquists.len();
    let mut i: usize = 0;
    while i < n
        invariant
            n == config.ventriloquists@.len(),
            0 <= i <= n,
            forall|k: int| 0 <= k < i ==> config.ventriloquists@[k] != user_id,
        decreases n - i,
    {
        if config.ventriloquists[i] == user_id {
            assert(config.ventriloquists@.contains(user_id));
            return true;
        }
        i = i + 1;
    }
    assert(!config.ventriloquists@.contains(user_id));
    false
}

} // verus!
