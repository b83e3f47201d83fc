//! The settings of the service: the port, the connection pool, and the
//! address of the database.

use vstd::prelude::*;
use vstd::string::StringExecFns;

verus! {

/// The port that the service listens on where none is given.
pub const DEFAULT_PORT: u16 = 80;

/// The most connections that the pool opens.
pub const MAX_CONNECTIONS: u32 = 5;

/// After so many seconds without use a connection is closed.
pub const IDLE_TIMEOUT_SECONDS: u64 = 60;

/// A request that has waited so many seconds for a connection fails.
pub const ACQUIRE_TIMEOUT_SECONDS: u64 = 5;

/// The address that takes connections over IPv6 and IPv4 alike.
pub const DUAL_STACK_ADDRESS: &'static str = "::0";

/// The address that takes connections over IPv4 alone.
pub const IPV4_ADDRESS: &'static str = "0.0.0.0";

/// The address to listen on: every interface, over both protocols where the
/// machine can bind them together, else over IPv4.
pub fn listen_address(dual_stack: bool) -> (address: &'static str)
    ensures
        address@ == if dual_stack { DUAL_STACK_ADDRESS@ } else { IPV4_ADDRESS@ },
{
    if dual_stack {
        DUAL_STACK_ADDRESS
    } else {
        IPV4_ADDRESS
    }
}

/// A setting that the service cannot start without.
#[derive(Clone, Copy, Debug, PartialEq, Eq, Structural)]
pub enum Setting {
    DatabaseUser,
    DatabasePassword,
    DatabaseHost,
}

/// A required setting has no value.
#[derive(Clone, Copy, Debug, PartialEq, Eq, Structural)]
pub enum ConfigError {
    Missing(Setting),
}

/// The address of the database `demo` on `host`, for `user` with `password`.
pub open spec fn database_url(user: Seq<char>, password: Seq<char>, host: Seq<char>) -> Seq<char> {
    "postgres://"@ + user + ":"@ + password + "@"@ + host + "/demo"@
}

/// What `connection_string` returns: the address where every setting has a
/// value, else the first setting that has none.
pub open spec fn connection_string_of(
    user: Option<Seq<char>>,
    password: Option<Seq<char>>,
    host: Option<Seq<char>>,
) -> Result<Seq<char>, ConfigError> {
    match (user, password, host) {
        (None, _, _) => Err(ConfigError::Missing(Setting::DatabaseUser)),
        (Some(_), None, _) => Err(ConfigError::Missing(Setting::DatabasePassword)),
        (Some(_), Some(_), None) => Err(ConfigError::Missing(Setting::DatabaseHost)),
        (Some(u), Some(p), Some(h)) => Ok(database_url(u, p, h)),
    }
}

/// Puts the address of the database together from its settings. A setting
/// without a value is an error, the user's before the password's before the
/// host's.
pub fn connection_string(user: Option<&str>, password: Option<&str>, host: Option<&str>) -> (url:
    Result<String, ConfigError>)
    ensures
        match connection_string_of(
            match user {
                Some(u) => Some(u@),
                None => None,
            },
            match password {
                Some(p) => Some(p@),
                None => None,
            },
            match host {
                Some(h) => Some(h@),
                None => None,
            },
        ) {
            Ok(text) => url matches Ok(u) && u@ == text,
            Err(error) => url == Err::<String, ConfigError>(error),
        },
{
    let user = match user {
        Some(u) => u,
        None => { return Err(ConfigError::Missing(Setting::DatabaseUser)); },
    };
    let password = match password {
        Some(p) => p,
        None => { return Err(ConfigError::Missing(Setting::DatabasePassword)); },
    };
    let host = match host {
        Some(h) => h,
        None => { return Err(ConfigError::Missing(Setting::DatabaseHost)); },
    };
    let mut url = String::from_str("postgres://");
    url.append(user);
    url.append(":");
    url.append(password);
    url.append("@");
    url.append(host);
    url.append("/demo");
    Ok(url)
}

} // verus!
