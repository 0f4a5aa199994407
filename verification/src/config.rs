//! The settings of the bot, read from the secrets of its deployment.

use crate::text::{parse_i64, parsed_i64, pieces, split_at_each, trim, trimmed};
use shuttle_secrets::SecretStore;
use vstd::prelude::*;

verus! {

/// `SecretStore` of shuttle, the store of a deployment's secrets. It is taken
/// as it is: what a value of it holds is read only through [`secrets_of`].
#[verifier::external_type_specification]
#[verifier::external_body]
pub struct ExSecretStore(SecretStore);

/// The secrets that a store holds: each key with its value.
pub uninterp spec fn secrets_of(store: SecretStore) -> Map<Seq<char>, Seq<char>>;

/// `SecretStore::get` of shuttle: a copy of the value kept under `key`, and
/// `None` where the store keeps nothing under it. The store is a map from
/// keys to values and `get` looks `key` up in it; that is all that the
/// contract says, over the name [`secrets_of`] for the map.
#[verifier::external_body]
fn secret(store: &SecretStore, key: &str) -> (value: Option<String>)
    ensures
        match value {
            Some(text) => secrets_of(*store).contains_key(key@) && text@ == secrets_of(*store)[key@],
            None => !secrets_of(*store).contains_key(key@),
        },
{
    store.get(key)
}

/// The key of the number of days after which a silent channel is archived.
pub const THRESHOLD_DAYS: &'static str = "THRESHOLD_DAYS";

/// The key of the name of the category that holds the channels in use.
pub const ACTIVE_CATEGORY: &'static str = "ACTIVE_CATEGORY";

/// The key of the name of the category that archived channels move to.
pub const ARCHIVE_CATEGORY: &'static str = "ARCHIVE_CATEGORY";

/// The key of the list of role names, separated by commas.
pub const CERTIFIED_MEMBER_ROLES: &'static str = "CERTIFIED_MEMBER_ROLES";

/// The settings of the bot.
#[derive(Debug)]
pub struct Config {
    pub threshold_days: i64,
    pub active_category: String,
    pub archive_category: String,
    pub certified_member_roles: Vec<String>,
}

/// What a [`Config`] says.
pub ghost struct ConfigView {
    pub threshold_days: i64,
    pub active_category: Seq<char>,
    pub archive_category: Seq<char>,
    pub certified_member_roles: Seq<Seq<char>>,
}

impl View for Config {
    type V = ConfigView;

    open spec fn view(&self) -> ConfigView {
        ConfigView {
            threshold_days: self.threshold_days,
            active_category: self.active_category@,
            archive_category: self.archive_category@,
            certified_member_roles: self.certified_member_roles.deep_view(),
        }
    }
}

/// Why the settings could not be read.
#[derive(Clone, Copy, Debug, PartialEq, Eq, Structural)]
pub enum ConfigError {
    /// No secret is kept under `THRESHOLD_DAYS`.
    MissingThresholdDays,
    /// The secret under `THRESHOLD_DAYS` writes no number of days.
    InvalidThresholdDays,
    /// No secret is kept under `ACTIVE_CATEGORY`.
    MissingActiveCategory,
    /// No secret is kept under `ARCHIVE_CATEGORY`.
    MissingArchiveCategory,
    /// No secret is kept under `CERTIFIED_MEMBER_ROLES`.
    MissingCertifiedMemberRoles,
}

/// The role names that `list` holds: its pieces between commas, each without
/// the white space around it.
pub open spec fn role_names(list: Seq<char>) -> Seq<Seq<char>> {
    pieces(list, ',').map_values(|piece: Seq<char>| trimmed(piece))
}

/// The settings that `secrets` hold, or the first thing that is wrong with
/// them, asked in this order: the threshold is there, it writes a number, the
/// two categories are there, the role list is there.
pub open spec fn config_of(secrets: Map<Seq<char>, Seq<char>>) -> Result<ConfigView, ConfigError> {
    if !secrets.contains_key(THRESHOLD_DAYS@) {
        Err(ConfigError::MissingThresholdDays)
    } else if parsed_i64(secrets[THRESHOLD_DAYS@]) is None {
        Err(ConfigError::InvalidThresholdDays)
    } else if !secrets.contains_key(ACTIVE_CATEGORY@) {
        Err(ConfigError::MissingActiveCategory)
    } else if !secrets.contains_key(ARCHIVE_CATEGORY@) {
        Err(ConfigError::MissingArchiveCategory)
    } else if !secrets.contains_key(CERTIFIED_MEMBER_ROLES@) {
        Err(ConfigError::MissingCertifiedMemberRoles)
    } else {
        Ok(
            ConfigView {
                threshold_days: parsed_i64(secrets[THRESHOLD_DAYS@])->0,
                active_category: secrets[ACTIVE_CATEGORY@],
                archive_category: secrets[ARCHIVE_CATEGORY@],
                certified_member_roles: role_names(secrets[CERTIFIED_MEMBER_ROLES@]),
            },
        )
    }
}

/// Reads a list of role names, as [`role_names`] says.
pub fn parse_role_names(list: &str) -> (names: Vec<String>)
    ensures
        names.deep_view() == role_names(list@),
{
    let parts = split_at_each(list, ',');
    let mut names: Vec<String> = Vec::new();
    let mut i: usize = 0;
    while i < parts.len()
        invariant
            i <= parts.len(),
            names.deep_view() == role_names(list@).take(i as int),
            parts.deep_view() == pieces(list@, ','),
        decreases parts.len() - i,
    {
        let name = trim(parts[i].as_str()).to_owned();
        names.push(name);
        assert(role_names(list@).take(i + 1) =~= role_names(list@).take(i as int).push(name@));
        i = i + 1;
    }
    names
}

impl Config {
    /// Reads the settings from `secret_store`, as [`config_of`] says.
    pub fn from_secret_store(secret_store: &SecretStore) -> (config: Result<Config, ConfigError>)
        ensures
            match config {
                Ok(config) => config_of(secrets_of(*secret_store)) == Ok::<ConfigView, ConfigError>(
                    config@,
                ),
                Err(error) => config_of(secrets_of(*secret_store)) == Err::<
                    ConfigView,
                    ConfigError,
                >(error),
            },
    {
        let threshold_days = match secret(secret_store, THRESHOLD_DAYS) {
            Some(text) => match parse_i64(text.as_str()) {
                Some(days) => days,
                None => { return Err(ConfigError::InvalidThresholdDays); },
            },
            None => { return Err(ConfigError::MissingThresholdDays); },
        };
        let active_category = match secret(secret_store, ACTIVE_CATEGORY) {
            Some(name) => name,
            None => { return Err(ConfigError::MissingActiveCategory); },
        };
        let archive_category = match secret(secret_store, ARCHIVE_CATEGORY) {
            Some(name) => name,
            None => { return Err(ConfigError::MissingArchiveCategory); },
        };
        let certified_member_roles = match secret(secret_store, CERTIFIED_MEMBER_ROLES) {
            Some(list) => parse_role_names(list.as_str()),
            None => { return Err(ConfigError::MissingCertifiedMemberRoles); },
        };
        Ok(Config { threshold_days, active_category, archive_category, certified_member_roles })
    }
}

/// What every command handler is given.
#[derive(Debug)]
pub struct AppContext {
    pub config: Config,
}

} // verus!
