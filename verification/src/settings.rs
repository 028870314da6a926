//! The settings that the gateway is started with.

use crate::text::option_view;
use vstd::prelude::*;

verus! {

/// Not looked into here: a loaded configuration.
#[verifier::external_type_specification]
#[verifier::external_body]
pub struct ExConfig(config::Config);

/// The values of a configuration that can be read as text, by their keys.
pub uninterp spec fn strings(config: config::Config) -> Map<Seq<char>, Seq<char>>;

/// Not proved here: `Config::get_str` looks a key up in a loaded configuration
/// and fails if there is no value that can be read as text. A key with a `[`
/// is left out: it asks for an item of a list, and a negative index past the
/// front of that list panics.
#[verifier::external_body]
fn get_str(config: &config::Config, key: &str) -> (res: Option<String>)
    requires
        forall|i: int| 0 <= i < key@.len() ==> key@[i] != '[',
    ensures
        match res {
            Some(value) => strings(*config).contains_key(key@) && strings(*config)[key@] == value@,
            None => !strings(*config).contains_key(key@),
        },
{
    config.get_str(key).ok()
}

/// The settings that the gateway knows. Each can be missing.
#[derive(Debug)]
pub struct Settings {
    /// Where the accounts are kept.
    pub database: Option<String>,
    /// The name under which the gateway itself talks to IRC clients.
    pub irc_botnick: Option<String>,
    /// The name that the server gives itself.
    pub irc_host: Option<String>,
    /// The address that the server listens on.
    pub irc_listen: Option<String>,
    /// The identity of the gateway at Slack.
    pub slack_client_id: Option<String>,
    /// The secret that goes with that identity.
    pub slack_secret: Option<String>,
}

pub struct SettingsView {
    pub database: Option<Seq<char>>,
    pub irc_botnick: Option<Seq<char>>,
    pub irc_host: Option<Seq<char>>,
    pub irc_listen: Option<Seq<char>>,
    pub slack_client_id: Option<Seq<char>>,
    pub slack_secret: Option<Seq<char>>,
}

impl View for Settings {
    type V = SettingsView;

    open spec fn view(&self) -> SettingsView {
        SettingsView {
            database: option_view(self.database),
            irc_botnick: option_view(self.irc_botnick),
            irc_host: option_view(self.irc_host),
            irc_listen: option_view(self.irc_listen),
            slack_client_id: option_view(self.slack_client_id),
            slack_secret: option_view(self.slack_secret),
        }
    }
}

/// The value of a key, if there is one.
pub open spec fn lookup(values: Map<Seq<char>, Seq<char>>, key: Seq<char>) -> Option<Seq<char>> {
    if values.contains_key(key) {
        Some(values[key])
    } else {
        None
    }
}

/// The settings among the values of a configuration.
pub open spec fn settings_of(values: Map<Seq<char>, Seq<char>>) -> SettingsView {
    SettingsView {
        database: lookup(values, "database"@),
        irc_botnick: lookup(values, "irc.botnick"@),
        irc_host: lookup(values, "irc.host"@),
        irc_listen: lookup(values, "irc.listen"@),
        slack_client_id: lookup(values, "slack.client_id"@),
        slack_secret: lookup(values, "slack.secret"@),
    }
}

/// Where the accounts are kept.
pub open spec fn database_of(settings: SettingsView) -> Seq<char> {
    match settings.database {
        Some(path) => path,
        None => ":memory:"@,
    }
}

fn copy(s: &Option<String>) -> (res: Option<String>)
    ensures
        option_view(res) == option_view(*s),
{
    match s {
        Some(s) => Some(s.clone()),
        None => None,
    }
}

impl Clone for Settings {
    fn clone(&self) -> (res: Self)
        ensures
            res@ == self@,
    {
        Settings {
            database: copy(&self.database),
            irc_botnick: copy(&self.irc_botnick),
            irc_host: copy(&self.irc_host),
            irc_listen: copy(&self.irc_listen),
            slack_client_id: copy(&self.slack_client_id),
            slack_secret: copy(&self.slack_secret),
        }
    }
}

impl Settings {
    /// Reads the settings from a configuration.
    pub fn read(config: &config::Config) -> (res: Settings)
        ensures
            res@ == settings_of(strings(*config)),
    {
        proof {
            reveal_strlit("database");
            reveal_strlit("irc.botnick");
            reveal_strlit("irc.host");
            reveal_strlit("irc.listen");
            reveal_strlit("slack.client_id");
            reveal_strlit("slack.secret");
        }
        Settings {
            database: get_str(config, "database"),
            irc_botnick: get_str(config, "irc.botnick"),
            irc_host: get_str(config, "irc.host"),
            irc_listen: get_str(config, "irc.listen"),
            slack_client_id: get_str(config, "slack.client_id"),
            slack_secret: get_str(config, "slack.secret"),
        }
    }

    /// Where to keep the accounts: in memory unless the settings say where.
    pub fn database_path(&self) -> (res: String)
        ensures
            res@ == database_of(self@),
    {
        match &self.database {
            Some(path) => path.clone(),
            None => ":memory:".to_string(),
        }
    }
}

} // verus!
