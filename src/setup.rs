use vstd::prelude::*;

use crate::app_config::AppSpecificConfig;

verus! {

/// A section or setting that the connection pools need is missing from the
/// configuration snapshot.
#[derive(PartialEq, Eq, Structural)]
pub enum SetupError {
    MissingDatabaseSection,
    MissingDatabaseUrl,
    MissingRedisSection,
    MissingRedisUrl,
}

/// How to build the database pool.
pub struct DbPoolSettings {
    pub url: String,
    pub max_connections: u32,
    pub min_connections: u32,
    pub connect_timeout_secs: u64,
    pub idle_timeout_secs: u64,
}

/// How to build the redis pool.
pub struct RedisPoolSettings {
    pub url: String,
    pub max_size: u32,
    pub connection_timeout_secs: u64,
}

/// Database pool settings from a snapshot: its `database.url`, at most
/// `database.pool_size` connections (5 when unset), at least one, and eight
/// second connect and idle timeouts.
pub fn db_pool_settings(cfg: &AppSpecificConfig) -> (r: Result<DbPoolSettings, SetupError>)
    ensures
        match cfg.database {
            None => r matches Err(e) && e == SetupError::MissingDatabaseSection,
            Some(db) => match db.url {
                None => r matches Err(e) && e == SetupError::MissingDatabaseUrl,
                Some(u) => r matches Ok(s) && s.url == u && s.max_connections == (match db.pool_size {
                    Some(n) => n,
                    None => 5,
                }) && s.min_connections == 1 && s.connect_timeout_secs == 8 && s.idle_timeout_secs
                    == 8,
            },
        },
{
    match &cfg.database {
        None => Err(SetupError::MissingDatabaseSection),
        Some(db) => match &db.url {
            None => Err(SetupError::MissingDatabaseUrl),
            Some(u) => {
                let max_connections: u32 = match db.pool_size {
                    Some(n) => n,
                    None => 5,
                };
                Ok(
                    DbPoolSettings {
                        url: u.clone(),
                        max_connections,
                        min_connections: 1,
                        connect_timeout_secs: 8,
                        idle_timeout_secs: 8,
                    },
                )
            },
        },
    }
}

/// Redis pool settings from a snapshot: its `redis.url`, at most ten
/// connections, and a five second connection timeout.
pub fn redis_pool_settings(cfg: &AppSpecificConfig) -> (r: Result<RedisPoolSettings, SetupError>)
    ensures
        match cfg.redis {
            None => r matches Err(e) && e == SetupError::MissingRedisSection,
            Some(rc) => match rc.url {
                None => r matches Err(e) && e == SetupError::MissingRedisUrl,
                Some(u) => r matches Ok(s) && s.url == u && s.max_size == 10
                    && s.connection_timeout_secs == 5,
            },
        },
{
    match &cfg.redis {
        None => Err(SetupError::MissingRedisSection),
        Some(rc) => match &rc.url {
            None => Err(SetupError::MissingRedisUrl),
            Some(u) => Ok(RedisPoolSettings { url: u.clone(), max_size: 10, connection_timeout_secs: 5 }),
        },
    }
}

} // verus!
