//! Configuration data: feature flags and environment settings. Loading these
//! from the runtime environment is an external concern; the library only
//! defines the shapes and their documented defaults.
use vstd::prelude::*;
use vstd::string::*;

verus! {

pub struct FeatureFlags {
    pub enable_new_matching_algorithm: bool,
    pub enable_real_time_chat: bool,
}

impl Default for FeatureFlags {
    /// Every feature is off by default.
    fn default() -> (flags: Self)
        ensures
            !flags.enable_new_matching_algorithm,
            !flags.enable_real_time_chat,
    {
        FeatureFlags { enable_new_matching_algorithm: false, enable_real_time_chat: false }
    }
}

pub struct EnvironmentConfig {
    pub log_level: String,
    pub environment: String,
    /// Minutes of inactivity after which an interaction is considered stale.
    pub session_timeout_minutes: u32,
}

impl Default for EnvironmentConfig {
    fn default() -> (config: Self)
        ensures
            config.log_level@ == "INFO"@,
            config.environment@ == "dev"@,
            config.session_timeout_minutes == 30,
    {
        EnvironmentConfig {
            log_level: String::from_str("INFO"),
            environment: String::from_str("dev"),
            session_timeout_minutes: 30,
        }
    }
}

pub struct ConfigService {}

impl ConfigService {
    pub fn new() -> (service: Self) {
        ConfigService {  }
    }
}

/// Builds the environment configuration from whatever raw variables the
/// runtime offers: a missing variable falls back to its default, and a
/// session-timeout value that is not a whole `u32` falls back to the
/// default threshold. Reading the variables is the caller's concern.
pub fn env_config_from_raw(
    environment: Option<String>,
    log_level: Option<String>,
    session_timeout_raw: Option<&str>,
) -> (config: EnvironmentConfig)
    ensures
        environment matches Some(e) ==> config.environment == e,
        environment is None ==> config.environment@ == "dev"@,
        log_level matches Some(l) ==> config.log_level == l,
        log_level is None ==> config.log_level@ == "INFO"@,
        config.session_timeout_minutes as int == (match session_timeout_raw {
            Some(raw) => (match crate::text::parse_u32_spec(raw@) {
                Some(v) => v,
                None => 30,
            }),
            None => 30,
        }),
{
    let environment = match environment {
        Some(e) => e,
        None => String::from_str("dev"),
    };
    let log_level = match log_level {
        Some(l) => l,
        None => String::from_str("INFO"),
    };
    let session_timeout_minutes: u32 = match session_timeout_raw {
        Some(raw) => {
            match crate::text::parse_u32(raw) {
                Some(v) => v,
                None => 30,
            }
        },
        None => 30,
    };
    EnvironmentConfig { log_level, environment, session_timeout_minutes }
}

} // verus!
