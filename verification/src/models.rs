//! Plain data-transfer types for the model-management collaborator: records,
//! deployment configuration, logging and security settings. These are
//! structural declarations only; the core consumes no data from them.

use std::collections::HashMap;
use vstd::prelude::*;

verus! {

/// The kind of work a model performs.
#[derive(Debug, Clone, PartialEq, Eq, Structural)]
pub enum ModelType {
    TextGeneration,
    ChatCompletion,
    Embedding,
    CodeGeneration,
    ImageGeneration,
    Multimodal,
}

/// Where a model stands in its install-and-run lifecycle.
#[derive(Debug, Clone, PartialEq, Eq, Structural)]
pub enum ModelStatus {
    Available,
    Downloading,
    Downloaded,
    Installing,
    Installed,
    Running,
    Stopped,
    Error,
}

/// Where a deployment stands in its start-and-stop lifecycle.
#[derive(Debug, Clone, PartialEq, Eq, Structural)]
pub enum DeploymentStatus {
    Stopped,
    Starting,
    Running,
    Stopping,
    Error,
}

/// How a deployment is supervised.
#[derive(Debug, Clone)]
pub struct DeploymentConfig {
    pub auto_start: bool,
    pub restart_on_failure: bool,
    pub max_restart_count: u32,
    pub health_check_interval: u64,
    pub timeout_seconds: u64,
    pub log_level: LogLevel,
    pub custom_args: HashMap<String, String>,
}

/// The severity of a log line.
#[derive(Debug, Clone, PartialEq, Eq, Structural)]
pub enum LogLevel {
    Debug,
    Info,
    Warn,
    Error,
}

/// The colour scheme a user chose.
#[derive(Debug, Clone, PartialEq, Eq, Structural)]
pub enum Theme {
    Light,
    Dark,
    System,
}

/// The text size a user chose.
#[derive(Debug, Clone, PartialEq, Eq, Structural)]
pub enum FontSize {
    Small,
    Medium,
    Large,
    ExtraLarge,
}

/// The events a user can be notified of.
#[derive(Debug, Clone, PartialEq, Eq, Structural)]
pub enum NotificationType {
    ModelStarted,
    ModelStopped,
    ModelError,
    HighResourceUsage,
    LowDiskSpace,
    SecurityAlert,
}

/// What an API key is allowed to do.
#[derive(Debug, Clone, PartialEq, Eq, Structural)]
pub enum Permission {
    ModelRead,
    ModelWrite,
    ModelDeploy,
    SystemMonitor,
    LogsRead,
    SettingsRead,
    SettingsWrite,
    AdminAll,
}

/// Who may reach the service from where.
#[derive(Debug, Clone)]
pub struct AccessControlConfig {
    pub allow_localhost_only: bool,
    pub allowed_ips: Vec<String>,
    pub blocked_ips: Vec<String>,
    pub require_api_key: bool,
    pub session_timeout: u32,
}

/// How request rates are capped.
#[derive(Debug, Clone)]
pub struct RateLimitConfig {
    pub enabled: bool,
    pub requests_per_minute: u32,
    pub requests_per_hour: u32,
    pub burst_limit: u32,
    pub whitelist_ips: Vec<String>,
}

/// Whether a firewall rule admits, refuses or records traffic.
#[derive(Debug, Clone, PartialEq, Eq, Structural)]
pub enum FirewallRuleType {
    Allow,
    Deny,
    Log,
}

/// The network protocol a firewall rule speaks of.
#[derive(Debug, Clone, PartialEq, Eq, Structural)]
pub enum Protocol {
    Tcp,
    Udp,
    Http,
    Https,
}

/// What a firewall does with a matching packet.
#[derive(Debug, Clone, PartialEq, Eq, Structural)]
pub enum FirewallAction {
    Accept,
    Drop,
    Reject,
    Log,
}

} // verus!
