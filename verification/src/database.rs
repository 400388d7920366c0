//! Where the services find their database.

use vstd::prelude::*;
use crate::number::{parse_u16, parsed, IntError};
use crate::text::{strip_prefix, unprefixed, unprefixed_rejoins};

verus! {

/// The most connections that a pool holds.
pub const MAX_CONNECTIONS: u32 = 50;

/// The fewest connections that a pool holds.
pub const MIN_CONNECTIONS: u32 = 6;

/// Milliseconds after which an idle connection is closed.
pub const IDLE_TIMEOUT: u64 = 30000;

/// What the environment says about the database.
#[derive(Debug)]
pub struct DatabaseEnv {
    pub database_url: Option<String>,
    pub host: Option<String>,
    pub port: Option<String>,
    pub user: Option<String>,
    pub password: Option<String>,
    pub database: Option<String>,
}

/// The parts of a connection.
#[derive(Debug)]
pub struct ConnectOptions {
    pub host: String,
    pub port: u16,
    pub username: String,
    pub password: String,
    pub database: String,
}

/// How to connect: by an address as a whole, or by its parts.
#[derive(Debug)]
pub enum PoolTarget {
    Url(String),
    Options(ConnectOptions),
}

/// A variable that is needed where the address as a whole is not set.
#[derive(Clone, Copy, Debug, PartialEq, Eq, Structural)]
pub enum DatabaseVariable {
    Host,
    Port,
    User,
    Password,
    Database,
}

/// Why there is nothing to connect to.
#[derive(Clone, Copy, Debug, PartialEq, Eq, Structural)]
pub enum PoolError {
    /// A variable is not set.
    Missing(DatabaseVariable),
    /// The port is no port number.
    InvalidPort(IntError),
}

impl DatabaseVariable {
    /// The name of the variable.
    pub open spec fn key(self) -> Seq<char> {
        match self {
            DatabaseVariable::Host => "DB_HOST"@,
            DatabaseVariable::Port => "DB_PORT"@,
            DatabaseVariable::User => "DB_USER"@,
            DatabaseVariable::Password => "DB_PASSWORD"@,
            DatabaseVariable::Database => "DB_DATABASE"@,
        }
    }

    /// The name of the variable.
    pub fn name(&self) -> (r: &'static str)
        ensures
            r@ == self.key(),
    {
        match self {
            DatabaseVariable::Host => "DB_HOST",
            DatabaseVariable::Port => "DB_PORT",
            DatabaseVariable::User => "DB_USER",
            DatabaseVariable::Password => "DB_PASSWORD",
            DatabaseVariable::Database => "DB_DATABASE",
        }
    }
}

impl PoolError {
    /// The error in words.
    pub fn message(&self) -> (r: String)
        ensures
            r@ == match *self {
                PoolError::Missing(variable) => "Missing environment variable: "@ + variable.key(),
                PoolError::InvalidPort(_) => "DB_PORT must be a valid u16 integer"@,
            },
    {
        match self {
            PoolError::Missing(variable) => {
                let mut text: String = "Missing environment variable: ".to_owned();
                text.append(variable.name());
                text
            },
            PoolError::InvalidPort(_) => "DB_PORT must be a valid u16 integer".to_owned(),
        }
    }
}

impl DatabaseEnv {
    /// The first of the needed variables that is not set.
    pub open spec fn first_missing(self) -> Option<DatabaseVariable> {
        if self.host is None {
            Some(DatabaseVariable::Host)
        } else if self.port is None {
            Some(DatabaseVariable::Port)
        } else if self.user is None {
            Some(DatabaseVariable::User)
        } else if self.password is None {
            Some(DatabaseVariable::Password)
        } else if self.database is None {
            Some(DatabaseVariable::Database)
        } else {
            None
        }
    }
}

/// A host name without the prefix `db.`, if it has that.
pub open spec fn fixed_host(host: Seq<char>) -> Seq<char> {
    match unprefixed(host, "db."@) {
        Some(rest) => rest,
        None => host,
    }
}

/// Whether that is how to connect, or why there is nothing to connect to.
pub open spec fn is_target_of(env: DatabaseEnv, r: Result<PoolTarget, PoolError>) -> bool {
    match env.database_url {
        Some(url) => r == Ok::<PoolTarget, PoolError>(PoolTarget::Url(url)),
        None => match env.first_missing() {
            Some(variable) => r == Err::<PoolTarget, PoolError>(PoolError::Missing(variable)),
            None => match parsed(env.port->0@, 0, u16::MAX as int) {
                Err(e) => r == Err::<PoolTarget, PoolError>(PoolError::InvalidPort(e)),
                Ok(port) => {
                    &&& r matches Ok(PoolTarget::Options(options))
                    &&& options.host@ == fixed_host(env.host->0@)
                    &&& options.port == port
                    &&& options.username == env.user->0
                    &&& options.password == env.password->0
                    &&& options.database == env.database->0
                },
            },
        },
    }
}

/// How to connect to the database: by the address, where it is set, and else by the parts,
/// with the prefix `db.` taken off the host.
pub fn pool_target(env: DatabaseEnv) -> (r: Result<PoolTarget, PoolError>)
    ensures
        is_target_of(env, r),
{
    if let Some(url) = env.database_url {
        return Ok(PoolTarget::Url(url));
    }
    let raw_host: String = match env.host {
        Some(host) => host,
        None => {
            return Err(PoolError::Missing(DatabaseVariable::Host));
        },
    };
    let port_text: String = match env.port {
        Some(port) => port,
        None => {
            return Err(PoolError::Missing(DatabaseVariable::Port));
        },
    };
    let username: String = match env.user {
        Some(user) => user,
        None => {
            return Err(PoolError::Missing(DatabaseVariable::User));
        },
    };
    let password: String = match env.password {
        Some(password) => password,
        None => {
            return Err(PoolError::Missing(DatabaseVariable::Password));
        },
    };
    let database: String = match env.database {
        Some(database) => database,
        None => {
            return Err(PoolError::Missing(DatabaseVariable::Database));
        },
    };
    let host: String = match strip_prefix(raw_host.as_str(), "db.") {
        Some(fixed) => fixed.to_owned(),
        None => raw_host,
    };
    match parse_u16(port_text.as_str()) {
        Ok(port) => Ok(
            PoolTarget::Options(ConnectOptions { host, port, username, password, database }),
        ),
        Err(e) => Err(PoolError::InvalidPort(e)),
    }
}

/// A host with the prefix is used without it, and one without the prefix as it is.
pub proof fn host_loses_one_prefix(host: Seq<char>)
    ensures
        fixed_host("db."@ + host) == host,
        (forall|rest: Seq<char>| host != "db."@ + rest) ==> fixed_host(host) == host,
{
    unprefixed_rejoins(host, "db."@);
}

/// The variable that is reported as missing is not set, and every variable that is asked for before
/// it is: host, port, user, password, database. Where all are set, none is reported.
pub proof fn missing_variable_is_the_first(env: DatabaseEnv)
    ensures
        env.first_missing() is None <==> env.host is Some && env.port is Some && env.user is Some
            && env.password is Some && env.database is Some,
        env.host is None <==> env.first_missing() == Some(DatabaseVariable::Host),
        env.first_missing() == Some(DatabaseVariable::Port) <==> env.host is Some && env.port
            is None,
        env.first_missing() == Some(DatabaseVariable::User) <==> env.host is Some && env.port
            is Some && env.user is None,
        env.first_missing() == Some(DatabaseVariable::Password) <==> env.host is Some && env.port
            is Some && env.user is Some && env.password is None,
        env.first_missing() == Some(DatabaseVariable::Database) <==> env.host is Some && env.port
            is Some && env.user is Some && env.password is Some && env.database is None,
{
}

/// The address as a whole wins over its parts; the parts are used each in its place, with the host
/// without its prefix and the port as the number that it writes; a port that writes none is refused.
pub proof fn parts_stand_in_their_places(
    env: DatabaseEnv,
    r: Result<PoolTarget, PoolError>,
    port: int,
)
    requires
        is_target_of(env, r),
    ensures
        env.database_url matches Some(url) ==> r == Ok::<PoolTarget, PoolError>(
            PoolTarget::Url(url),
        ),
        env.database_url is None && env.host is Some && env.port is Some && env.user is Some
            && env.password is Some && env.database is Some && parsed(env.port->0@, 0, 65535)
            == Ok::<int, IntError>(port) ==> {
            &&& r matches Ok(PoolTarget::Options(options))
            &&& options.host@ == fixed_host(env.host->0@)
            &&& options.port == port
            &&& options.username == env.user->0
            &&& options.password == env.password->0
            &&& options.database == env.database->0
        },
        env.database_url is None && env.host is Some && env.port is Some && env.user is Some
            && env.password is Some && env.database is Some ==> (parsed(
            env.port->0@,
            0,
            65535,
        ) matches Err(e) ==> r == Err::<PoolTarget, PoolError>(PoolError::InvalidPort(e))),
        env.database_url is None && env.host is None ==> r == Err::<PoolTarget, PoolError>(
            PoolError::Missing(DatabaseVariable::Host),
        ),
{
}

} // verus!
