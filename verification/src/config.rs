//! Resolution of the database connection configuration from named
//! environment values.
//!
//! Every required value must be present; the first absent one is reported
//! as a fatal configuration error naming its variable. Values may come
//! from a local key/value file acting as defaults, with the live
//! environment taking precedence.

use vstd::prelude::*;
use vstd::string::StringExecFns;

verus! {

/// The required connection settings, each supplied by one environment
/// variable.
#[derive(Clone, Copy, Debug, PartialEq, Eq, Structural)]
pub enum ConfigVar {
    Host,
    User,
    Passwd,
    Dbname,
}

impl ConfigVar {
    /// The name of the environment variable that supplies this setting.
    pub open spec fn spec_env_name(&self) -> Seq<char> {
        match self {
            ConfigVar::Host => "TECHNOPOLIS_POSTGRES_HOST"@,
            ConfigVar::User => "TECHNOPOLIS_POSTGRES_USER"@,
            ConfigVar::Passwd => "TECHNOPOLIS_POSTGRES_PASSWD"@,
            ConfigVar::Dbname => "TECHNOPOLIS_POSTGRES_DBNAME"@,
        }
    }

    /// The name of the environment variable that supplies this setting.
    pub fn env_name(&self) -> (r: &'static str)
        ensures
            r@ == self.spec_env_name(),
    {
        match self {
            ConfigVar::Host => "TECHNOPOLIS_POSTGRES_HOST",
            ConfigVar::User => "TECHNOPOLIS_POSTGRES_USER",
            ConfigVar::Passwd => "TECHNOPOLIS_POSTGRES_PASSWD",
            ConfigVar::Dbname => "TECHNOPOLIS_POSTGRES_DBNAME",
        }
    }
}

/// A fatal configuration failure.
#[derive(Debug, PartialEq)]
pub enum ConfigError {
    /// A required environment variable is absent.
    MissingVariable(ConfigVar),
}

impl ConfigError {
    /// The variable whose absence caused the failure.
    pub open spec fn spec_var(&self) -> ConfigVar {
        match self {
            ConfigError::MissingVariable(v) => *v,
        }
    }

    /// The variable whose absence caused the failure.
    pub fn var(&self) -> (r: ConfigVar)
        ensures
            r == self.spec_var(),
    {
        match self {
            ConfigError::MissingVariable(v) => *v,
        }
    }

    /// The failure line, naming the missing environment variable.
    pub fn message(&self) -> (r: String)
        ensures
            r@ == "Environment \""@ + self.spec_var().spec_env_name() + "\" is not set!"@,
    {
        let mut s = String::from_str("Environment \"");
        s.append(self.var().env_name());
        s.append("\" is not set!");
        proof {
            assert(s@ =~= "Environment \""@ + self.spec_var().spec_env_name()
                + "\" is not set!"@);
        }
        s
    }
}

/// A fully resolved connection descriptor. All four fields are present
/// by construction; it is never built from partial data.
#[derive(Debug, PartialEq)]
pub struct ConnectionConfig {
    pub host: String,
    pub user: String,
    pub password: String,
    pub database_name: String,
}

/// Pick the effective value of one variable: a value from the live
/// environment always wins over a value loaded from the local file,
/// which acts only as a default.
pub fn resolve_var(file_value: Option<String>, live_value: Option<String>) -> (r: Option<String>)
    ensures
        live_value is Some ==> r == live_value,
        live_value is None ==> r == file_value,
{
    match live_value {
        Option::Some(v) => Option::Some(v),
        Option::None => file_value,
    }
}

/// Build the connection descriptor from the four looked-up values, or
/// report the first absent variable, checked in the order host, user,
/// password, database name. Succeeds exactly when all four are present.
pub fn resolve_config(
    host: Option<String>,
    user: Option<String>,
    password: Option<String>,
    database_name: Option<String>,
) -> (r: Result<ConnectionConfig, ConfigError>)
    ensures
        r is Ok <==> (host is Some && user is Some && password is Some && database_name is Some),
        r matches Result::Ok(c) ==> c.host == host->0 && c.user == user->0 && c.password
            == password->0 && c.database_name == database_name->0,
        host is None ==> r == Result::<ConnectionConfig, ConfigError>::Err(
            ConfigError::MissingVariable(ConfigVar::Host),
        ),
        host is Some && user is None ==> r == Result::<ConnectionConfig, ConfigError>::Err(
            ConfigError::MissingVariable(ConfigVar::User),
        ),
        host is Some && user is Some && password is None ==> r == Result::<
            ConnectionConfig,
            ConfigError,
        >::Err(ConfigError::MissingVariable(ConfigVar::Passwd)),
        host is Some && user is Some && password is Some && database_name is None ==> r == Result::<
            ConnectionConfig,
            ConfigError,
        >::Err(ConfigError::MissingVariable(ConfigVar::Dbname)),
{
    let host = match host {
        Option::Some(h) => h,
        Option::None => {
            return Result::Err(ConfigError::MissingVariable(ConfigVar::Host));
        },
    };
    let user = match user {
        Option::Some(u) => u,
        Option::None => {
            return Result::Err(ConfigError::MissingVariable(ConfigVar::User));
        },
    };
    let password = match password {
        Option::Some(p) => p,
        Option::None => {
            return Result::Err(ConfigError::MissingVariable(ConfigVar::Passwd));
        },
    };
    let database_name = match database_name {
        Option::Some(d) => d,
        Option::None => {
            return Result::Err(ConfigError::MissingVariable(ConfigVar::Dbname));
        },
    };
    Result::Ok(ConnectionConfig { host, user, password, database_name })
}

/// Render the descriptor as the key/value parameter string understood by
/// the connection layer.
pub fn connection_params(config: &ConnectionConfig) -> (r: String)
    ensures
        r@ == "host="@ + config.host@ + " user="@ + config.user@ + " password="@
            + config.password@ + " dbname="@ + config.database_name@,
{
    let mut s = String::from_str("host=");
    s.append(config.host.as_str());
    s.append(" user=");
    s.append(config.user.as_str());
    s.append(" password=");
    s.append(config.password.as_str());
    s.append(" dbname=");
    s.append(config.database_name.as_str());
    proof {
        assert(s@ =~= "host="@ + config.host@ + " user="@ + config.user@ + " password="@
            + config.password@ + " dbname="@ + config.database_name@);
    }
    s
}

} // verus!
