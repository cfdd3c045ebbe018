//! The bot's configuration: its token and the tag lists that steer searches.

use vstd::prelude::*;

verus! {

/// The configuration of the bot.
pub struct Config {
    pub token: Option<String>,
    pub booru_config: BooruConfig,
}

/// The tag lists of the booru command.
pub struct BooruConfig {
    /// List of tags to reject
    pub blacklist: Vec<String>,
    /// List of tags to always exclude; tags in this list will also get rejected
    pub force_block: Vec<String>,
    /// List of tags for NSFW channels, in SFW channels these will be excluded from results and
    /// when entered by the user will get rejected.
    pub nsfw_tags: Vec<String>,
}

impl Default for BooruConfig {
    /// A configuration with three empty tag lists.
    fn default() -> (c: Self)
        ensures
            c.blacklist@.len() == 0,
            c.force_block@.len() == 0,
            c.nsfw_tags@.len() == 0,
    {
        BooruConfig { blacklist: Vec::new(), force_block: Vec::new(), nsfw_tags: Vec::new() }
    }
}

impl Default for Config {
    /// A configuration without a token and with empty tag lists.
    fn default() -> (c: Self)
        ensures
            c.token is None,
            c.booru_config.blacklist@.len() == 0,
            c.booru_config.force_block@.len() == 0,
            c.booru_config.nsfw_tags@.len() == 0,
    {
        Config { token: None, booru_config: BooruConfig::default() }
    }
}

/// The places where the configuration file is looked for, in order.
pub open spec fn locations() -> Seq<Seq<char>> {
    seq![
        "./config.toml"@,
        "$HOME/.config/boorubot.toml"@,
        "$HOME/.config/boorubot/config.toml"@,
    ]
}

/// The paths of the configuration file, tried in this order; the first that exists is read.
pub fn config_locations() -> (paths: Vec<String>)
    ensures
        crate::text::texts(paths@) == locations(),
{
    let mut paths: Vec<String> = Vec::new();
    paths.push(String::from_str("./config.toml"));
    paths.push(String::from_str("$HOME/.config/boorubot.toml"));
    paths.push(String::from_str("$HOME/.config/boorubot/config.toml"));
    assert(crate::text::texts(paths@) =~= locations());
    paths
}

/// Which configuration file to read, given for each path of [`config_locations`] whether
/// a file exists there: the first that exists, or `None` when none does.
pub fn first_found(found: &Vec<bool>) -> (index: Option<usize>)
    ensures
        match index {
            Some(i) => i < found@.len() && found@[i as int] && forall|k: int|
                0 <= k < i ==> !#[trigger] found@[k],
            None => forall|k: int| 0 <= k < found@.len() ==> !#[trigger] found@[k],
        },
{
    for i in 0..found.len()
        invariant
            forall|k: int| 0 <= k < i ==> !#[trigger] found@[k],
    {
        if found[i] {
            return Some(i);
        }
    }
    None
}

impl Config {
    /// The token to log in with: the one from the environment when there is one,
    /// else the one from the configuration file.
    pub fn token_for(&self, env_token: Option<String>) -> (token: Option<String>)
        ensures
            match env_token {
                Some(t) => token == Some(t),
                None => token == self.token,
            },
    {
        match env_token {
            Some(t) => Some(t),
            None => match &self.token {
                Some(t) => Some(t.clone()),
                None => None,
            },
        }
    }
}

} // verus!
