//! Configuration surface, read once at startup by the embedding
//! application and handed in as plain values.

use vstd::prelude::*;

verus! {

pub struct Config {
    /// Connection URL of the shared cache tier's backend.
    pub redis_url: String,
    /// Connection URL of the metadata database.
    pub database_url: String,
    /// API keys for external services.
    pub api_keys: ApiKeys,
    /// Cache settings.
    pub cache: CacheConfig,
    /// Performance settings.
    pub performance: PerformanceConfig,
}

pub struct ApiKeys {
    pub google_api_key: Option<String>,
    pub openweather_api_key: Option<String>,
    pub news_api_key: Option<String>,
    pub bing_api_key: Option<String>,
}

pub struct CacheConfig {
    /// Local-tier size in megabytes.
    pub l1_size_mb: usize,
    /// Local-tier entry lifetime in seconds.
    pub l1_ttl_secs: u64,
    /// Shared-tier entry lifetime in seconds.
    pub l2_ttl_secs: u64,
}

pub struct PerformanceConfig {
    /// Maximum parallel requests.
    pub max_parallel_requests: usize,
    /// Global timeout in milliseconds.
    pub global_timeout_ms: u64,
    /// Worker threads.
    pub worker_threads: usize,
}

} // verus!
