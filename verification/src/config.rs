//! Configuration of the agent and its defaults.

use vstd::prelude::*;

verus! {

/// Main configuration struct.
#[derive(Debug, Clone)]
pub struct Config {
    /// Data directory for SQLite and media
    pub data_dir: String,
    /// HTTP server configuration
    pub server: ServerConfig,
    /// Sync configuration
    pub sync: SyncConfig,
    /// Retention configuration (used by cleanup worker)
    pub retention: RetentionConfig,
}

/// HTTP server configuration.
#[derive(Debug, Clone)]
pub struct ServerConfig {
    /// Listen address
    pub listen: String,
    /// Enable CORS
    pub cors_enabled: bool,
    /// Path to static UI files
    pub ui_path: Option<String>,
}

/// Sync configuration.
#[derive(Debug, Clone)]
pub struct SyncConfig {
    /// Enable sync to hub
    pub enabled: bool,
    /// Hub URL
    pub hub_url: String,
    /// API key for hub authentication
    pub api_key: String,
    /// Batch size for sync
    pub batch_size: usize,
    /// Sync interval in seconds
    pub interval_seconds: u64,
    /// Maximum retry attempts
    pub retry_max_attempts: u32,
    /// Base delay for retry backoff (ms)
    pub retry_base_delay_ms: u64,
}

/// Retention configuration (for cleanup worker).
#[derive(Debug, Clone, Copy, PartialEq, Eq)]
pub struct RetentionConfig {
    /// Days to retain events locally
    pub events_days: u32,
    /// Days to retain media locally
    pub media_days: u32,
    /// Run cleanup at this hour (0-23)
    pub cleanup_hour: u32,
}

pub fn default_data_dir() -> (dir: String)
    ensures
        dir@ == "./data"@,
{
    "./data".to_owned()
}

pub fn default_listen() -> (listen: String)
    ensures
        listen@ == "0.0.0.0:8080"@,
{
    "0.0.0.0:8080".to_owned()
}

pub fn default_true() -> (on: bool)
    ensures
        on,
{
    true
}

pub fn default_batch_size() -> (size: usize)
    ensures
        size == 100,
{
    100
}

pub fn default_sync_interval() -> (seconds: u64)
    ensures
        seconds == 30,
{
    30
}

pub fn default_max_retries() -> (attempts: u32)
    ensures
        attempts == 10,
{
    10
}

pub fn default_retry_delay() -> (millis: u64)
    ensures
        millis == 1000,
{
    1000
}

pub fn default_retention_days() -> (days: u32)
    ensures
        days == 30,
{
    30
}

pub fn default_media_days() -> (days: u32)
    ensures
        days == 7,
{
    7
}

pub fn default_cleanup_hour() -> (hour: u32)
    ensures
        hour == 3,
{
    3
}

impl Default for ServerConfig {
    fn default() -> (c: ServerConfig)
        ensures
            c.listen@ == "0.0.0.0:8080"@,
            c.cors_enabled,
            c.ui_path is None,
    {
        ServerConfig { listen: default_listen(), cors_enabled: true, ui_path: None }
    }
}

impl Default for SyncConfig {
    fn default() -> (c: SyncConfig)
        ensures
            !c.enabled,
            c.hub_url@.len() == 0,
            c.api_key@.len() == 0,
            c.batch_size == 100,
            c.interval_seconds == 30,
            c.retry_max_attempts == 10,
            c.retry_base_delay_ms == 1000,
    {
        SyncConfig {
            enabled: false,
            hub_url: String::new(),
            api_key: String::new(),
            batch_size: default_batch_size(),
            interval_seconds: default_sync_interval(),
            retry_max_attempts: default_max_retries(),
            retry_base_delay_ms: default_retry_delay(),
        }
    }
}

impl Default for RetentionConfig {
    fn default() -> (c: RetentionConfig)
        ensures
            c == (RetentionConfig { events_days: 30, media_days: 7, cleanup_hour: 3 }),
    {
        RetentionConfig {
            events_days: default_retention_days(),
            media_days: default_media_days(),
            cleanup_hour: default_cleanup_hour(),
        }
    }
}

impl Default for Config {
    fn default() -> (c: Config)
        ensures
            c.data_dir@ == "./data"@,
            c.server.listen@ == "0.0.0.0:8080"@,
            c.server.cors_enabled,
            c.server.ui_path is None,
            !c.sync.enabled,
            c.sync.batch_size == 100,
            c.sync.interval_seconds == 30,
            c.sync.retry_max_attempts == 10,
            c.sync.retry_base_delay_ms == 1000,
            c.retention == (RetentionConfig { events_days: 30, media_days: 7, cleanup_hour: 3 }),
    {
        Config {
            data_dir: default_data_dir(),
            server: ServerConfig::default(),
            sync: SyncConfig::default(),
            retention: RetentionConfig::default(),
        }
    }
}

impl Config {
    /// Applies what the command line sets over what was loaded: the data
    /// directory and the listen address, each where it is given.
    pub fn with_overrides(self, data_dir: Option<String>, listen: Option<String>) -> (c: Config)
        ensures
            c.data_dir == (match data_dir {
                Some(dir) => dir,
                None => self.data_dir,
            }),
            c.server.listen == (match listen {
                Some(address) => address,
                None => self.server.listen,
            }),
            c.server.cors_enabled == self.server.cors_enabled,
            c.server.ui_path == self.server.ui_path,
            c.sync == self.sync,
            c.retention == self.retention,
    {
        let mut c = self;
        match data_dir {
            Some(dir) => {
                c.data_dir = dir;
            },
            None => {},
        }
        match listen {
            Some(address) => {
                c.server.listen = address;
            },
            None => {},
        }
        c
    }
}

} // verus!
