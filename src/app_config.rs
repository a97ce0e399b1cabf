use vstd::prelude::*;

verus! {

/// One parsed configuration document from the config center.
pub struct AppSpecificConfig {
    pub greeting: Option<String>,
    pub log_level: Option<String>,
    pub database: Option<DatabaseConfig>,
    pub redis: Option<RedisConfig>,
    pub feature_flags: Option<FeatureFlags>,
    pub service: Option<ServiceConfig>,
}

pub struct DatabaseConfig {
    pub url: Option<String>,
    pub pool_size: Option<u32>,
}

pub struct RedisConfig {
    pub url: Option<String>,
}

pub struct FeatureFlags {
    pub new_dashboard_enabled: Option<bool>,
    pub experimental_feature_x: Option<bool>,
}

pub struct ServiceConfig {
    pub timeout_ms: Option<u64>,
    pub retry_attempts: Option<u32>,
}

impl AppSpecificConfig {
    /// A document with no section set.
    pub fn empty() -> (r: AppSpecificConfig)
        ensures
            r.greeting is None,
            r.log_level is None,
            r.database is None,
            r.redis is None,
            r.feature_flags is None,
            r.service is None,
    {
        AppSpecificConfig {
            greeting: None,
            log_level: None,
            database: None,
            redis: None,
            feature_flags: None,
            service: None,
        }
    }
}

} // verus!
