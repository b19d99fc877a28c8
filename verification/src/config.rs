//! The two secrets of a client, and what it means for one to be missing.

use crate::headers::value_text_ok;
use vstd::prelude::*;

verus! {

/// The name under which the bearer token is configured.
pub const API_KEY_VARIABLE: &'static str = "OPEN_AI_KEY";

/// The name under which the organization is configured.
pub const API_ORG_VARIABLE: &'static str = "OPEN_AI_ORG";

/// A secret that the configuration does not hold. This is a fault of the
/// setup, not of a call: no [`crate::error::CallError`] stands for it, and a
/// program that meets it should stop.
#[derive(Debug, Clone, Copy, PartialEq, Eq, Structural)]
pub enum ConfigFault {
    /// The bearer token is missing.
    MissingApiKey,
    /// The organization is missing.
    MissingOrganization,
}

impl ConfigFault {
    /// The name of the missing secret.
    pub open spec fn variable_spec(self) -> Seq<char> {
        match self {
            ConfigFault::MissingApiKey => API_KEY_VARIABLE@,
            ConfigFault::MissingOrganization => API_ORG_VARIABLE@,
        }
    }

    /// The name of the missing secret.
    pub fn variable(&self) -> (name: &'static str)
        ensures
            name@ == self.variable_spec(),
    {
        match self {
            ConfigFault::MissingApiKey => API_KEY_VARIABLE,
            ConfigFault::MissingOrganization => API_ORG_VARIABLE,
        }
    }

    /// The sentence to stop with: the name of the missing secret, then
    /// " not found in .env".
    pub fn describe(&self) -> (text: String)
        ensures
            text@ == self.variable_spec() + " not found in .env"@,
    {
        self.variable().to_owned().concat(" not found in .env")
    }
}

/// The secrets of a client.
#[derive(Clone, PartialEq, Eq)]
pub struct Config {
    /// The bearer token.
    pub api_key: String,
    /// The organization.
    pub api_org: String,
}

/// The mathematical value of a [`Config`].
pub struct ConfigView {
    pub api_key: Seq<char>,
    pub api_org: Seq<char>,
}

impl ConfigView {
    /// Whether both secrets can travel as header values: neither holds an
    /// ASCII control character other than the tab.
    pub open spec fn encodable(self) -> bool {
        value_text_ok(self.api_key) && value_text_ok(self.api_org)
    }
}

impl View for Config {
    type V = ConfigView;

    open spec fn view(&self) -> ConfigView {
        ConfigView { api_key: self.api_key@, api_org: self.api_org@ }
    }
}

impl Config {
    /// The configuration made of what was found under the two names. The
    /// key is looked at first: where both are missing, the fault names the
    /// key.
    pub fn resolve(api_key: Option<String>, api_org: Option<String>) -> (r: Result<
        Config,
        ConfigFault,
    >)
        ensures
            api_key is None ==> r == Err::<Config, ConfigFault>(ConfigFault::MissingApiKey),
            api_key is Some && api_org is None ==> r == Err::<Config, ConfigFault>(
                ConfigFault::MissingOrganization,
            ),
            api_key is Some && api_org is Some ==> r == Ok::<Config, ConfigFault>(
                (Config { api_key: api_key->0, api_org: api_org->0 }),
            ),
    {
        let api_key = match api_key {
            Some(secret) => secret,
            None => {
                return Err(ConfigFault::MissingApiKey);
            },
        };
        let api_org = match api_org {
            Some(secret) => secret,
            None => {
                return Err(ConfigFault::MissingOrganization);
            },
        };
        Ok(Config { api_key, api_org })
    }
}

} // verus!
