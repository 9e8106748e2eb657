//! Application configuration, resolved from the values of the environment variables.
use vstd::prelude::*;
use vstd::string::*;
use crate::text::{append_decimal, parse_u16, spec_decimal, spec_parse_u16, str_eq};

verus! {

/// Deployment environment.
#[derive(Debug, Clone, Copy, PartialEq, Eq, Structural)]
pub enum Environment {
    Development,
    Staging,
    Production,
}

/// The environment variables the configuration is read from, as found (`None` when unset).
#[derive(Debug, Clone)]
pub struct EnvValues {
    pub database_url: Option<String>,
    pub environment: Option<String>,
    pub port: Option<String>,
    pub server_port: Option<String>,
    pub server_host: Option<String>,
    pub log_level: Option<String>,
}

/// Application configuration. The host is kept as text; it is parsed as an IP address
/// where the server binds.
#[derive(Debug, Clone)]
pub struct Config {
    pub database_url: String,
    pub server_host: String,
    pub server_port: u16,
    pub environment: Environment,
    pub log_level: String,
}

/// Environment named by `ENVIRONMENT`: `production`, `staging`, anything else development.
pub open spec fn spec_environment(name: Option<String>) -> Environment {
    match name {
        Some(n) => if n@ == "production"@ {
            Environment::Production
        } else if n@ == "staging"@ {
            Environment::Staging
        } else {
            Environment::Development
        },
        None => Environment::Development,
    }
}

/// The port text used: `PORT`, else `SERVER_PORT`, else `3000`.
pub open spec fn spec_port_text(v: EnvValues) -> Seq<char> {
    match v.port {
        Some(p) => p@,
        None => match v.server_port {
            Some(p) => p@,
            None => "3000"@,
        },
    }
}

/// The host text used: `SERVER_HOST`, else `0.0.0.0` in production and `127.0.0.1` otherwise.
pub open spec fn spec_host_text(v: EnvValues) -> Seq<char> {
    match v.server_host {
        Some(h) => h@,
        None => if spec_environment(v.environment) == Environment::Production {
            "0.0.0.0"@
        } else {
            "127.0.0.1"@
        },
    }
}

/// Decides the environment from the value of `ENVIRONMENT`.
pub fn environment_from(name: &Option<String>) -> (e: Environment)
    ensures
        e == spec_environment(*name),
{
    match name {
        Some(n) => if str_eq(n.as_str(), "production") {
            Environment::Production
        } else if str_eq(n.as_str(), "staging") {
            Environment::Staging
        } else {
            Environment::Development
        },
        None => Environment::Development,
    }
}

impl Config {
    /// Resolve the configuration. `DATABASE_URL` is required; the port must parse as a `u16`.
    /// The host text is not parsed here: a `SERVER_HOST` that is not an IP address is
    /// accepted by this function and refused where the address is built, outside the
    /// library, since parsing an IP address needs `std::net`.
    pub fn from_values(v: &EnvValues) -> (r: Result<Config, String>)
        ensures
            v.database_url is None ==> (r matches Err(m) && m@ == "DATABASE_URL must be set"@),
            v.database_url is Some && spec_parse_u16(spec_port_text(*v)) is None ==> (r matches Err(m)
                && m@ == "SERVER_PORT / PORT must be a valid u16"@),
            r is Ok <==> (v.database_url is Some && spec_parse_u16(spec_port_text(*v)) is Some),
            r matches Ok(c) ==> {
                &&& c.database_url@ == v.database_url->0@
                &&& c.environment == spec_environment(v.environment)
                &&& Some(c.server_port) == spec_parse_u16(spec_port_text(*v))
                &&& c.server_host@ == spec_host_text(*v)
                &&& c.log_level@ == match v.log_level {
                    Some(l) => l@,
                    None => "info"@,
                }
            },
    {
        let database_url = match &v.database_url {
            Some(u) => u.clone(),
            None => return Err(String::from_str("DATABASE_URL must be set")),
        };
        let environment = environment_from(&v.environment);
        let port_text = match &v.port {
            Some(p) => p.clone(),
            None => match &v.server_port {
                Some(p) => p.clone(),
                None => String::from_str("3000"),
            },
        };
        let server_port = match parse_u16(port_text.as_str()) {
            Some(p) => p,
            None => return Err(String::from_str("SERVER_PORT / PORT must be a valid u16")),
        };
        let server_host = match &v.server_host {
            Some(h) => h.clone(),
            None => if environment == Environment::Production {
                String::from_str("0.0.0.0")
            } else {
                String::from_str("127.0.0.1")
            },
        };
        let log_level = match &v.log_level {
            Some(l) => l.clone(),
            None => String::from_str("info"),
        };
        Ok(Config { database_url, server_host, server_port, environment, log_level })
    }

    /// Server address as `host:port`.
    pub fn server_address(&self) -> (r: String)
        ensures
            r@ == self.server_host@ + ":"@ + spec_decimal(self.server_port as nat),
    {
        let mut r = self.server_host.clone();
        r.append(":");
        append_decimal(&mut r, self.server_port as u64);
        r
    }

    /// Check if running in production.
    pub fn is_production(&self) -> (r: bool)
        ensures
            r == (self.environment == Environment::Production),
    {
        self.environment == Environment::Production
    }

    /// Check if running in development.
    pub fn is_development(&self) -> (r: bool)
        ensures
            r == (self.environment == Environment::Development),
    {
        self.environment == Environment::Development
    }
}

}
