//! The settings that the process reads once when it starts.

use vstd::prelude::*;
use crate::text::str_eq;

verus! {

/// The deployment environment.
#[derive(Clone, Copy, Debug, PartialEq, Eq, Structural)]
pub enum Env {
    Dev,
    Prod,
}

impl Env {
    /// The environment that the setting selects: the value `prod` and a
    /// missing setting mean production, any other value development.
    pub open spec fn of_setting(value: Option<Seq<char>>) -> Env {
        match value {
            Some(v) => if v == "prod"@ {
                Env::Prod
            } else {
                Env::Dev
            },
            None => Env::Prod,
        }
    }

    /// The environment that the setting selects.
    pub fn from_setting(value: Option<&str>) -> (r: Env)
        ensures
            r == Env::of_setting(
                match value {
                    Some(v) => Some(v@),
                    None => None,
                },
            ),
    {
        match value {
            Some(v) => if str_eq(v, "prod") {
                Env::Prod
            } else {
                Env::Dev
            },
            None => Env::Prod,
        }
    }
}

/// A setting without which the process does not start.
#[derive(Clone, Copy, Debug, PartialEq, Eq, Structural)]
pub enum ConfigError {
    /// The deployment domain is not set.
    DomainNotSet,
    /// The signing secret is not set.
    JwtSecretNotSet,
    /// The location of the database is not set.
    DatabaseUrlNotSet,
}

impl ConfigError {
    /// The message of the error.
    pub open spec fn message(self) -> Seq<char> {
        match self {
            ConfigError::DomainNotSet => "DOMAIN not set in .env file"@,
            ConfigError::JwtSecretNotSet => "JWT_SECRET not set in .env file"@,
            ConfigError::DatabaseUrlNotSet => "DATABASE_URL not set in .env file"@,
        }
    }

    /// The message of the error.
    pub fn as_str(&self) -> (r: &'static str)
        ensures
            r@ == self.message(),
    {
        match self {
            ConfigError::DomainNotSet => "DOMAIN not set in .env file",
            ConfigError::JwtSecretNotSet => "JWT_SECRET not set in .env file",
            ConfigError::DatabaseUrlNotSet => "DATABASE_URL not set in .env file",
        }
    }
}

/// Where the migrations are looked for unless a setting says otherwise.
pub const DEFAULT_MIGRATIONS_DIR: &'static str = "./migrations";

/// The port that the server listens on unless a setting says otherwise.
pub const DEFAULT_PORT: &'static str = "8080";

/// The settings of a running process. They are made once, when the process
/// starts, and never change.
#[derive(Clone, Debug)]
pub struct Settings {
    pub domain: String,
    pub jwt_secret: String,
    pub database_url: String,
    pub migrations_dir: String,
    pub env: Env,
    pub port: String,
}

/// The first required setting that is missing, if any: the domain, then
/// the signing secret, then the location of the database.
pub open spec fn first_missing(
    domain: Option<String>,
    jwt_secret: Option<String>,
    database_url: Option<String>,
) -> Option<ConfigError> {
    if domain is None {
        Some(ConfigError::DomainNotSet)
    } else if jwt_secret is None {
        Some(ConfigError::JwtSecretNotSet)
    } else if database_url is None {
        Some(ConfigError::DatabaseUrlNotSet)
    } else {
        None
    }
}

impl Settings {
    /// Makes the settings from the values found in the environment, each
    /// absent where the environment does not hold it.
    ///
    /// A missing required setting is an error, so that a process without a
    /// signing secret never starts. The migrations directory and the port
    /// fall back to their defaults.
    pub fn load(
        domain: Option<String>,
        jwt_secret: Option<String>,
        database_url: Option<String>,
        migrations_dir: Option<String>,
        env: Option<&str>,
        port: Option<String>,
    ) -> (r: Result<Settings, ConfigError>)
        ensures
            match first_missing(domain, jwt_secret, database_url) {
                Some(e) => r == Err::<Settings, ConfigError>(e),
                None => r matches Ok(s) && s.domain == domain->0 && s.jwt_secret == jwt_secret->0
                    && s.database_url == database_url->0 && s.migrations_dir@ == (
                match migrations_dir {
                    Some(dir) => dir@,
                    None => DEFAULT_MIGRATIONS_DIR@,
                }) && s.env == Env::of_setting(
                    match env {
                        Some(v) => Some(v@),
                        None => None,
                    },
                ) && s.port@ == (match port {
                    Some(p) => p@,
                    None => DEFAULT_PORT@,
                }),
            },
    {
        let domain = match domain {
            Some(d) => d,
            None => return Err(ConfigError::DomainNotSet),
        };
        let jwt_secret = match jwt_secret {
            Some(s) => s,
            None => return Err(ConfigError::JwtSecretNotSet),
        };
        let database_url = match database_url {
            Some(u) => u,
            None => return Err(ConfigError::DatabaseUrlNotSet),
        };
        let migrations_dir = match migrations_dir {
            Some(dir) => dir,
            None => DEFAULT_MIGRATIONS_DIR.to_owned(),
        };
        let port = match port {
            Some(p) => p,
            None => DEFAULT_PORT.to_owned(),
        };
        Ok(
            Settings {
                domain,
                jwt_secret,
                database_url,
                migrations_dir,
                env: Env::from_setting(env),
                port,
            },
        )
    }
}

/// Whether the settings file is read when the process starts: always but
/// where the environment already says `prod`.
pub fn should_load_env_file(env: Option<&str>) -> (r: bool)
    ensures
        r == !(env matches Some(v) && v@ == "prod"@),
{
    match env {
        Some(v) => !str_eq(v, "prod"),
        None => true,
    }
}

/// Without a signing secret there are no settings, whatever else is set;
/// and with the domain set, the missing secret is what is reported.
pub proof fn lemma_no_settings_without_secret(domain: Option<String>, database_url: Option<String>)
    ensures
        first_missing(domain, None, database_url) is Some,
        domain is Some ==> first_missing(domain, None, database_url) == Some(
            ConfigError::JwtSecretNotSet,
        ),
{
}

} // verus!
