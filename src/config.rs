//! The persisted configuration: its defaults, where it lives, and how a
//! loaded (or unreadable) file settles into the configuration in use.
use vstd::prelude::*;

verus! {

/// The settings read from the configuration file.
#[derive(Debug)]
pub struct Config {
    pub credentials_file: String,
    pub token_file: String,
    pub default_subject: String,
    pub default_body: String,
    pub rate_limit: u32,
    pub log_sent_emails: bool,
}

/// The values a configuration holds.
pub struct ConfigView {
    pub credentials_file: Seq<char>,
    pub token_file: Seq<char>,
    pub default_subject: Seq<char>,
    pub default_body: Seq<char>,
    pub rate_limit: u32,
    pub log_sent_emails: bool,
}

impl View for Config {
    type V = ConfigView;

    open spec fn view(&self) -> ConfigView {
        ConfigView {
            credentials_file: self.credentials_file@,
            token_file: self.token_file@,
            default_subject: self.default_subject@,
            default_body: self.default_body@,
            rate_limit: self.rate_limit,
            log_sent_emails: self.log_sent_emails,
        }
    }
}

/// The sends allowed per window in a fresh configuration.
pub const DEFAULT_RATE_LIMIT: u32 = 100;

/// The values of a fresh configuration.
pub open spec fn default_view() -> ConfigView {
    ConfigView {
        credentials_file: "credentials.json"@,
        token_file: "token.json"@,
        default_subject: Seq::empty(),
        default_body: Seq::empty(),
        rate_limit: DEFAULT_RATE_LIMIT,
        log_sent_emails: true,
    }
}

impl Default for Config {
    fn default() -> (r: Config)
        ensures
            r@ == default_view(),
    {
        Config {
            credentials_file: "credentials.json".to_string(),
            token_file: "token.json".to_string(),
            default_subject: String::new(),
            default_body: String::new(),
            rate_limit: DEFAULT_RATE_LIMIT,
            log_sent_emails: true,
        }
    }
}

/// Where the configuration in use came from.
#[derive(Debug, Clone, Copy, PartialEq, Eq, Structural)]
pub enum ConfigSource {
    /// The file was read and parsed.
    Loaded,
    /// The file was missing or unparsable; defaults stand in and are to be
    /// written back.
    HealedFromDefault,
}

/// The configuration obtained from a parse result: the parsed values, or
/// the defaults when there were none.
pub open spec fn settled_view(parsed: Option<ConfigView>) -> ConfigView {
    match parsed {
        Some(c) => c,
        None => default_view(),
    }
}

/// Where the configuration obtained from a parse result came from.
pub open spec fn settled_source(parsed: Option<ConfigView>) -> ConfigSource {
    match parsed {
        Some(_) => ConfigSource::Loaded,
        None => ConfigSource::HealedFromDefault,
    }
}

/// The values of an optional configuration.
pub open spec fn opt_view(c: Option<Config>) -> Option<ConfigView> {
    match c {
        Some(x) => Some(x@),
        None => None,
    }
}

/// Loading a file that does not parse gives the defaults, and loading the
/// defaults that were written back gives the same values again, now as
/// loaded rather than healed.
pub proof fn lemma_self_heal_idempotent()
    ensures
        settled_view(None) == default_view(),
        settled_source(None) == ConfigSource::HealedFromDefault,
        settled_view(Some(settled_view(None))) == settled_view(None),
        settled_source(Some(settled_view(None))) == ConfigSource::Loaded,
{
}

/// Why no configuration path could be found.
#[derive(Debug, Clone, Copy, PartialEq, Eq, Structural)]
pub enum ConfigError {
    /// No path was given and the home directory is unknown.
    HomeDirUnknown,
}

/// `name` placed inside the directory `base`.
pub open spec fn path_join(base: Seq<char>, name: Seq<char>) -> Seq<char> {
    if base.len() == 0 {
        name
    } else if base.last() == '/' {
        base + name
    } else {
        base + seq!['/'] + name
    }
}

/// The path of `name` inside the directory `base`.
pub fn join_path(base: &str, name: &str) -> (r: String)
    ensures
        r@ == path_join(base@, name@),
{
    let n = base.unicode_len();
    let mut r = base.to_string();
    if n == 0 {
        return name.to_string();
    }
    if base.get_char(n - 1) != '/' {
        r.append("/");
        proof {
            reveal_strlit("/");
        }
    }
    r.append(name);
    r
}

/// The directory, under the home directory, that holds this tool's files.
pub open spec fn app_dir_of(home: Seq<char>) -> Seq<char> {
    path_join(home, ".gmail-hotkey-sender"@)
}

/// The configuration file's default path under the home directory.
pub open spec fn default_config_path_of(home: Seq<char>) -> Seq<char> {
    path_join(app_dir_of(home), "config.json"@)
}

/// The directory of this tool's files under `home`.
pub fn app_dir(home: &str) -> (r: String)
    ensures
        r@ == app_dir_of(home@),
{
    join_path(home, ".gmail-hotkey-sender")
}

/// The configuration file's default path under `home`.
pub fn default_config_path(home: &str) -> (r: String)
    ensures
        r@ == default_config_path_of(home@),
{
    let dir = app_dir(home);
    join_path(dir.as_str(), "config.json")
}

/// The configuration loaded for one invocation, and the file it belongs to.
#[derive(Debug)]
pub struct GmailSender {
    pub config_path: String,
    pub config: Config,
    pub source: ConfigSource,
}

impl GmailSender {
    /// The configuration path to use: the one given, else the default one
    /// under the home directory; an error when neither is known.
    pub fn config_path_for(explicit: Option<&str>, home: Option<&str>) -> (r: Result<
        String,
        ConfigError,
    >)
        ensures
            explicit is Some ==> r is Ok && r->Ok_0@ == explicit->0@,
            explicit is None && home is Some ==> r is Ok && r->Ok_0@ == default_config_path_of(
                home->0@,
            ),
            explicit is None && home is None ==> r == Err::<String, ConfigError>(
                ConfigError::HomeDirUnknown,
            ),
    {
        match explicit {
            Some(p) => Ok(p.to_string()),
            None => match home {
                Some(h) => Ok(default_config_path(h)),
                None => Err(ConfigError::HomeDirUnknown),
            },
        }
    }

    /// Settles the configuration for `config_path` from what parsing its
    /// file gave: the parsed configuration, or the defaults when the file
    /// could not be read or parsed.
    pub fn new(config_path: String, parsed: Option<Config>) -> (r: GmailSender)
        ensures
            r.config_path@ == config_path@,
            r.config@ == settled_view(opt_view(parsed)),
            r.source == settled_source(opt_view(parsed)),
    {
        match parsed {
            Some(c) => GmailSender { config_path, config: c, source: ConfigSource::Loaded },
            None => GmailSender {
                config_path,
                config: Config::default(),
                source: ConfigSource::HealedFromDefault,
            },
        }
    }

    /// Whether the defaults stand in and must be written back to the file.
    pub fn needs_save(&self) -> (r: bool)
        ensures
            r == (self.source == ConfigSource::HealedFromDefault),
    {
        match self.source {
            ConfigSource::HealedFromDefault => true,
            ConfigSource::Loaded => false,
        }
    }
}

} // verus!
