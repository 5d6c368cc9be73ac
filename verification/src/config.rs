//! The persisted settings and the rules by which they give way to what the
//! user says at the call.

use vstd::prelude::*;
use crate::error::{ErrorView, LinearError};
use crate::text::opt_text;

verus! {

/// The name under which the configuration directory is looked up.
pub const APPLICATION: &'static str = "linear";

/// The name of the configuration file.
pub const CONFIG_FILE: &'static str = "config.toml";

/// The environment variable that holds the credential.
pub const API_KEY_VARIABLE: &'static str = "LINEAR_API_KEY";

/// The persisted settings.
pub struct Config {
    pub api_key: Option<String>,
    pub default_team: Option<String>,
}

impl Default for Config {
    fn default() -> (c: Config)
        ensures
            c.api_key is None,
            c.default_team is None,
    {
        Config { api_key: None, default_team: None }
    }
}

impl Config {
    /// The team to work on: the explicit one where there is one, else the default.
    pub open spec fn team_choice(&self, explicit: Option<Seq<char>>) -> Option<Seq<char>> {
        match explicit {
            Some(e) => Some(e),
            None => opt_text(self.default_team),
        }
    }

    /// The credential to use: the environment's where it gives one, else the
    /// persisted one.
    pub open spec fn key_choice(&self, env: Option<Seq<char>>) -> Option<Seq<char>> {
        match env {
            Some(e) => Some(e),
            None => opt_text(self.api_key),
        }
    }

    /// Get API key with the environment's value taking precedence over the
    /// persisted one; with neither there is no credential.
    pub fn api_key(&self, env: Option<String>) -> (r: Result<String, LinearError>)
        ensures
            match self.key_choice(opt_text(env)) {
                Some(k) => r matches Ok(got) && got@ == k,
                None => r matches Err(e) && e@ == ErrorView::MissingApiKey,
            },
    {
        match env {
            Some(key) => Ok(key),
            None => match &self.api_key {
                Some(key) => Ok(key.clone()),
                None => Err(LinearError::MissingApiKey),
            },
        }
    }

    /// Get team, preferring explicit argument over default
    pub fn resolve_team(&self, explicit: Option<&str>) -> (r: Option<String>)
        ensures
            opt_text(r) == self.team_choice(
                match explicit {
                    Some(e) => Some(e@),
                    None => None,
                },
            ),
    {
        match explicit {
            Some(e) => Some(String::from_str(e)),
            None => match &self.default_team {
                Some(t) => Some(t.clone()),
                None => None,
            },
        }
    }

    /// The team to work on, which a command that needs one cannot do without.
    pub fn require_team(&self, explicit: Option<&str>) -> (r: Result<String, LinearError>)
        ensures
            match self.team_choice(
                match explicit {
                    Some(e) => Some(e@),
                    None => None,
                },
            ) {
                Some(t) => r matches Ok(got) && got@ == t,
                None => r matches Err(e) && e@ == ErrorView::NoTeam,
            },
    {
        match self.resolve_team(explicit) {
            Some(t) => Ok(t),
            None => Err(LinearError::NoTeam),
        }
    }
}

} // verus!
