//! The settings of the service, and what follows from them.

use vstd::prelude::*;
use vstd::string::StringExecFns;

use crate::text::decimal_chars;
use crate::text::u64_to_decimal;

verus! {

/// The settings of the service.
#[derive(Debug)]
pub struct Config {
    pub api_version: String,
    pub host: String,
    pub port: u16,
    pub origins: Vec<String>,
    pub telemetry_collector_endpoint: Option<String>,
    pub download_dir: String,
    pub tvdb_api_key: String,
    pub prowlarr_api_key: String,
    pub prowlarr_api_url: String,
}

/// The host the service listens on when none is set.
pub const DEFAULT_HOST: &'static str = "0.0.0.0";

/// The port the service listens on when none is set.
pub const DEFAULT_PORT: u16 = 3000;

/// The address `<host>:<port>`.
pub open spec fn address_of(host: Seq<char>, port: u16) -> Seq<char> {
    host + ":"@ + decimal_chars(port as nat)
}

impl Config {
    /// The address the server binds to.
    pub fn bind_address(&self) -> (address: String)
        ensures
            address@ == address_of(self.host@, self.port),
    {
        let mut address = self.host.clone();
        address.append(":");
        address.append(u64_to_decimal(self.port as u64).as_str());
        address
    }
}

/// The settings of the session cookie.
#[derive(Debug)]
pub struct CookieConfig {
    pub session_secret: String,
    pub session_ttl: i64,
    pub same_site: String,
    pub secure: bool,
    pub http_only: bool,
}

/// To which requests a browser attaches the session cookie.
#[derive(Clone, Copy, Debug, PartialEq, Eq, Structural)]
pub enum SameSitePolicy {
    /// Only to requests that come from the site itself.
    Strict,
    /// Also to top-level navigations that come from other sites.
    Lax,
    /// To every request.
    Unrestricted,
}

/// The policy that a setting names: `lax` and `none` name themselves, and
/// every other text is the strict policy.
pub open spec fn same_site_named(name: Seq<char>) -> SameSitePolicy {
    if name == "lax"@ {
        SameSitePolicy::Lax
    } else if name == "none"@ {
        SameSitePolicy::Unrestricted
    } else {
        SameSitePolicy::Strict
    }
}

impl CookieConfig {
    /// The same-site policy of the session cookie.
    pub fn same_site_policy(&self) -> (policy: SameSitePolicy)
        ensures
            policy == same_site_named(self.same_site@),
    {
        if self.same_site == "lax".to_owned() {
            SameSitePolicy::Lax
        } else if self.same_site == "none".to_owned() {
            SameSitePolicy::Unrestricted
        } else {
            SameSitePolicy::Strict
        }
    }
}

/// How much the service logs.
#[derive(Clone, Copy, Debug, PartialEq, Eq, Structural)]
pub enum LogLevel {
    Debug,
    Info,
    Warn,
    Error,
}

/// The level that a setting names; `Info` for no setting or an unknown one.
pub open spec fn log_level_named(name: Option<Seq<char>>) -> LogLevel {
    match name {
        Some(n) => if n == "debug"@ {
            LogLevel::Debug
        } else if n == "warn"@ {
            LogLevel::Warn
        } else if n == "error"@ {
            LogLevel::Error
        } else {
            LogLevel::Info
        },
        None => LogLevel::Info,
    }
}

/// Reads the level of logging from its setting.
pub fn log_level(setting: &Option<String>) -> (level: LogLevel)
    ensures
        level == log_level_named(
            match setting {
                Some(n) => Some(n@),
                None => None,
            },
        ),
{
    match setting {
        Some(name) => {
            if *name == "debug".to_owned() {
                LogLevel::Debug
            } else if *name == "warn".to_owned() {
                LogLevel::Warn
            } else if *name == "error".to_owned() {
                LogLevel::Error
            } else {
                LogLevel::Info
            }
        },
        None => LogLevel::Info,
    }
}

} // verus!
