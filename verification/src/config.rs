//! Settings of the orchestrator.

use vstd::prelude::*;

verus! {

/// How the tracker is polled
#[derive(Debug, Clone, Copy)]
pub struct PollingConfig {
    /// Poll interval in milliseconds
    pub interval_ms: u64,
}

/// How agents are run
#[derive(Debug, Clone, Copy)]
pub struct AgentConfig {
    /// Maximum concurrent agents
    pub max_concurrent_agents: usize,
    /// Maximum retry queue size
    pub max_retry_queue_size: usize,
}

/// Application settings
#[derive(Debug, Clone, Copy)]
pub struct AppConfig {
    pub polling: PollingConfig,
    pub agent: AgentConfig,
}

impl Default for AppConfig {
    /// Polls every 30 seconds, runs up to 10 agents and keeps up to 1000 retries.
    fn default() -> (config: Self)
        ensures
            config.polling.interval_ms == 30_000,
            config.agent.max_concurrent_agents == 10,
            config.agent.max_retry_queue_size == 1_000,
    {
        AppConfig {
            polling: PollingConfig { interval_ms: 30_000 },
            agent: AgentConfig { max_concurrent_agents: 10, max_retry_queue_size: 1_000 },
        }
    }
}

} // verus!
