use axum_template::app_config::{
    AppSpecificConfig, DatabaseConfig, FeatureFlags, RedisConfig, ServiceConfig,
};
use axum_template::handlers::hello_from_nacos_config;
use axum_template::setup::{db_pool_settings, redis_pool_settings, SetupError};
use axum_template::store::{ConfigStore, PushOutcome};

fn with_greeting(g: &str) -> AppSpecificConfig {
    let mut c = AppSpecificConfig::empty();
    c.greeting = Some(g.to_string());
    c
}

#[test]
fn replace_is_seen_by_every_later_read() {
    let mut store = ConfigStore::new(with_greeting("old"));
    let before = store.current();
    assert_eq!(before.greeting.as_deref(), Some("old"));
    store.replace(with_greeting("new"));
    for _ in 0..3 {
        assert_eq!(store.current().greeting.as_deref(), Some("new"));
    }
    // a reader that took the snapshot earlier keeps it whole
    assert_eq!(before.greeting.as_deref(), Some("old"));
}

#[test]
fn malformed_push_keeps_prior_snapshot() {
    let mut store = ConfigStore::new(with_greeting("stable"));
    let outcome = store.apply_push(Err("did not find expected key".to_string()));
    match outcome {
        PushOutcome::Rejected(e) => assert_eq!(e.detail, "did not find expected key"),
        PushOutcome::Applied => panic!("a malformed push must not apply"),
    }
    assert_eq!(store.current().greeting.as_deref(), Some("stable"));
}

#[test]
fn parsed_push_replaces_snapshot() {
    let mut store = ConfigStore::new(with_greeting("first"));
    let mut next = with_greeting("second");
    next.log_level = Some("debug".to_string());
    assert!(matches!(store.apply_push(Ok(next)), PushOutcome::Applied));
    let now = store.current();
    assert_eq!(now.greeting.as_deref(), Some("second"));
    assert_eq!(now.log_level.as_deref(), Some("debug"));
}

#[test]
fn hello_uses_snapshot_and_defaults() {
    let mut cfg = with_greeting("hi");
    cfg.log_level = Some("info".to_string());
    cfg.feature_flags =
        Some(FeatureFlags { new_dashboard_enabled: Some(true), experimental_feature_x: None });
    let r = hello_from_nacos_config(&cfg);
    assert_eq!(r.code, 0);
    assert_eq!(r.msg, "success");
    let h = r.data.unwrap();
    assert_eq!(h.message, "hi");
    assert_eq!(h.log_level.as_deref(), Some("info"));
    assert_eq!(h.dashboard_enabled, Some(true));

    let h = hello_from_nacos_config(&AppSpecificConfig::empty()).data.unwrap();
    assert_eq!(h.message, "Default Greeting from Code");
    assert!(h.log_level.is_none());
    assert!(h.dashboard_enabled.is_none());
}

#[test]
fn db_settings_from_snapshot() {
    let mut cfg = AppSpecificConfig::empty();
    assert!(matches!(db_pool_settings(&cfg), Err(SetupError::MissingDatabaseSection)));
    cfg.database = Some(DatabaseConfig { url: None, pool_size: Some(3) });
    assert!(matches!(db_pool_settings(&cfg), Err(SetupError::MissingDatabaseUrl)));
    cfg.database =
        Some(DatabaseConfig { url: Some("mysql://db/app".to_string()), pool_size: None });
    let s = db_pool_settings(&cfg).ok().unwrap();
    assert_eq!(s.url, "mysql://db/app");
    assert_eq!(s.max_connections, 5);
    assert_eq!(s.min_connections, 1);
    assert_eq!(s.connect_timeout_secs, 8);
    assert_eq!(s.idle_timeout_secs, 8);
    cfg.database =
        Some(DatabaseConfig { url: Some("mysql://db/app".to_string()), pool_size: Some(20) });
    assert_eq!(db_pool_settings(&cfg).ok().unwrap().max_connections, 20);
}

#[test]
fn redis_settings_from_snapshot() {
    let mut cfg = AppSpecificConfig::empty();
    cfg.service = Some(ServiceConfig { timeout_ms: Some(500), retry_attempts: Some(2) });
    assert!(matches!(redis_pool_settings(&cfg), Err(SetupError::MissingRedisSection)));
    cfg.redis = Some(RedisConfig { url: None });
    assert!(matches!(redis_pool_settings(&cfg), Err(SetupError::MissingRedisUrl)));
    cfg.redis = Some(RedisConfig { url: Some("redis://cache:6379".to_string()) });
    let s = redis_pool_settings(&cfg).ok().unwrap();
    assert_eq!(s.url, "redis://cache:6379");
    assert_eq!(s.max_size, 10);
    assert_eq!(s.connection_timeout_secs, 5);
}
