//! The setting the service runs in, and what it means for configuration.

use std::str::FromStr;
use vstd::prelude::*;

verus! {

/// Where the service runs.
#[derive(Debug, Clone, Copy, PartialEq, Eq)]
pub enum AppEnv {
    Dev,
    Prod,
}

/// In which order the configuration file and the process environment are
/// consulted; where both are, the later one wins.
#[derive(Debug, Clone, Copy, PartialEq, Eq)]
pub enum EnvSequence {
    EnvOnly,
    EnvThenInput,
    InputOnly,
    InputThenEnv,
}

impl AppEnv {
    /// The setting that a word names: `dev` or `prod`, and no other.
    pub open spec fn named(word: Seq<char>) -> Option<AppEnv> {
        if word == "dev"@ {
            Some(AppEnv::Dev)
        } else if word == "prod"@ {
            Some(AppEnv::Prod)
        } else {
            None
        }
    }

    /// The order of configuration sources in this setting: development reads
    /// the file and lets the environment override it, production reads the
    /// environment alone.
    pub open spec fn order(self) -> EnvSequence {
        match self {
            AppEnv::Dev => EnvSequence::InputThenEnv,
            AppEnv::Prod => EnvSequence::EnvOnly,
        }
    }

    /// The setting's name, as it is displayed.
    pub fn to_string(&self) -> (name: String)
        ensures
            name@ == (match self {
                AppEnv::Dev => "Dev"@,
                AppEnv::Prod => "Prod"@,
            }),
    {
        match self {
            AppEnv::Dev => "Dev".to_owned(),
            AppEnv::Prod => "Prod".to_owned(),
        }
    }

    /// Reads a setting from the word that names it. Any other word is
    /// refused, with a message that quotes it.
    pub fn parse(s: &str) -> (parsed: Result<AppEnv, String>)
        ensures
            match parsed {
                Ok(env) => Self::named(s@) == Some(env),
                Err(message) => Self::named(s@) is None && message@
                    == "APP_ENV can only be `dev` or `prod`: "@ + s@ + " was provided"@,
            },
    {
        let word = s.to_owned();
        if word == "dev".to_owned() {
            Ok(AppEnv::Dev)
        } else if word == "prod".to_owned() {
            Ok(AppEnv::Prod)
        } else {
            Err("APP_ENV can only be `dev` or `prod`: ".to_owned().concat(s).concat(" was provided"))
        }
    }

    /// The setting to run in, given the value of `APP_ENV` if it is set: the
    /// one it names, and development where it is unset or names none.
    pub open spec fn chosen(value: Option<&str>) -> AppEnv {
        match value {
            Some(word) => match Self::named(word@) {
                Some(named) => named,
                None => AppEnv::Dev,
            },
            None => AppEnv::Dev,
        }
    }
}

/// The order in which to consult the configuration sources, given the value
/// of `APP_ENV` if it is set. The caller reads the sources in that order.
pub fn load_env(app_env: Option<&str>) -> (sequence: EnvSequence)
    ensures
        sequence == AppEnv::chosen(app_env).order(),
{
    let app_env = match app_env {
        Some(word) => match AppEnv::parse(word) {
            Ok(env) => env,
            Err(_) => AppEnv::Dev,
        },
        None => AppEnv::Dev,
    };
    EnvSequence::from(app_env)
}

impl FromStr for AppEnv {
    type Err = String;

    fn from_str(s: &str) -> (parsed: Result<Self, String>)
        ensures
            match parsed {
                Ok(env) => AppEnv::named(s@) == Some(env),
                Err(message) => AppEnv::named(s@) is None && message@
                    == "APP_ENV can only be `dev` or `prod`: "@ + s@ + " was provided"@,
            },
    {
        AppEnv::parse(s)
    }
}

impl From<AppEnv> for EnvSequence {
    fn from(v: AppEnv) -> (sequence: Self) {
        match v {
            AppEnv::Dev => EnvSequence::InputThenEnv,
            AppEnv::Prod => EnvSequence::EnvOnly,
        }
    }
}

impl vstd::std_specs::convert::FromSpecImpl<AppEnv> for EnvSequence {
    open spec fn obeys_from_spec() -> bool {
        true
    }

    open spec fn from_spec(v: AppEnv) -> EnvSequence {
        v.order()
    }
}

} // verus!
