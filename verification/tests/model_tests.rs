use std::collections::HashMap;

use burncloud_database::models::DeploymentConfig;
use burncloud_database::models::DeploymentStatus;
use burncloud_database::models::LogLevel;
use burncloud_database::models::ModelStatus;
use burncloud_database::models::ModelType;
use burncloud_database::models::Permission;
use burncloud_database::models::RateLimitConfig;
use burncloud_database::types::DatabaseType;
use burncloud_database::types::OrderDirection;
use burncloud_database::types::QueryOptions;

#[test]
fn query_options_default_is_neutral() {
    let options = QueryOptions::default();
    assert!(options.limit.is_none());
    assert!(options.offset.is_none());
    assert!(options.order_by.is_none());
    assert!(options.order_direction.is_none());
}

#[test]
fn model_enums_compare_by_variant() {
    assert_eq!(ModelType::ChatCompletion, ModelType::ChatCompletion);
    assert_ne!(ModelType::Embedding, ModelType::Multimodal);
    assert_eq!(ModelStatus::Running, ModelStatus::Running);
    assert_ne!(DeploymentStatus::Starting, DeploymentStatus::Stopping);
    assert_eq!(OrderDirection::Asc, OrderDirection::Asc);
    assert_ne!(DatabaseType::SQLite, DatabaseType::Postgres);
    assert_ne!(Permission::ModelRead, Permission::AdminAll);
}

#[test]
fn config_structs_hold_their_fields() {
    let mut args = HashMap::new();
    args.insert("threads".to_string(), "4".to_string());
    let config = DeploymentConfig {
        auto_start: true,
        restart_on_failure: false,
        max_restart_count: 3,
        health_check_interval: 30,
        timeout_seconds: 120,
        log_level: LogLevel::Info,
        custom_args: args,
    };
    assert!(config.auto_start);
    assert_eq!(config.max_restart_count, 3);
    assert_eq!(config.log_level, LogLevel::Info);
    assert_eq!(config.custom_args.get("threads").map(String::as_str), Some("4"));

    let limits = RateLimitConfig {
        enabled: true,
        requests_per_minute: 60,
        requests_per_hour: 1000,
        burst_limit: 10,
        whitelist_ips: vec!["127.0.0.1".to_string()],
    };
    assert_eq!(limits.requests_per_hour, 1000);
    assert_eq!(limits.whitelist_ips.len(), 1);
}
