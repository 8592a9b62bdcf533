//! The settings read from the configuration file, as plain values.

use vstd::prelude::*;

verus! {

/// Everything the configuration file may set.
#[derive(Clone, Debug, Default)]
pub struct Config {
    pub notifier: Option<NotifierConfig>,
    pub proxy: Option<ProxyConfig>,
    pub engine: Option<EngineConfig>,
}

/// Settings of the container engine.
#[derive(Clone, Debug, Default)]
pub struct EngineConfig {
    pub enable_rust_cache: Option<bool>,
    pub base_path: Option<String>,
}

/// Settings of the completion notifier.
#[derive(Clone, Debug, Default)]
pub struct NotifierConfig {
    /// Which backend: `serverchan` or `telegram`, in any letter case.
    pub kind: String,
    /// The backend's key or bot token.
    pub secret: String,
    /// Runs shorter than this many seconds are not reported (telegram only).
    pub elapsed_threshold: u64,
    /// The chat the telegram bot writes to.
    pub chat_id: i64,
}

/// Proxies to export before anything goes out to the network.
#[derive(Clone, Debug, Default)]
pub struct ProxyConfig {
    pub http: Option<String>,
    pub https: Option<String>,
    pub sock5: Option<String>,
}

} // verus!
