//! Issues, retries and token counts.

use std::path::PathBuf;
use tokio::task::JoinHandle;
use vstd::prelude::*;

verus! {

/// An issue of the tracker
#[derive(Debug)]
pub struct Issue {
    /// Id by which the tracker knows the issue
    pub id: String,
    /// Identifier that people use
    pub identifier: String,
    /// Title
    pub title: String,
}

impl Issue {
    /// Creates an issue.
    pub fn new(id: &str, identifier: &str, title: &str) -> (issue: Issue)
        ensures
            issue.id@ == id@,
            issue.identifier@ == identifier@,
            issue.title@ == title@,
    {
        Issue { id: id.to_owned(), identifier: identifier.to_owned(), title: title.to_owned() }
    }
}

/// A retry that waits for its time
#[derive(Debug)]
pub struct RetryEntry {
    /// Attempt number (1-indexed)
    pub attempt: u32,
    /// When the retry is due, as a reading of the orchestrator's monotonic clock
    pub due_at: i128,
    /// Handle of the timer task
    pub timer_handle: JoinHandle<()>,
    /// Issue identifier (for logging)
    pub identifier: Option<String>,
    /// Error that caused the retry
    pub error: Option<String>,
    /// Workspace path for the issue
    pub workspace_path: Option<PathBuf>,
}

/// Token and runtime totals
#[derive(Debug, Clone, Copy)]
pub struct TokenTotals {
    /// Input tokens
    pub input_tokens: u64,
    /// Output tokens
    pub output_tokens: u64,
    /// Total tokens
    pub total_tokens: u64,
    /// Seconds that agents have run
    pub seconds_running: u64,
}

impl TokenTotals {
    /// Totals of zero.
    pub fn new() -> (totals: TokenTotals)
        ensures
            totals == (TokenTotals {
                input_tokens: 0,
                output_tokens: 0,
                total_tokens: 0,
                seconds_running: 0,
            }),
    {
        TokenTotals { input_tokens: 0, output_tokens: 0, total_tokens: 0, seconds_running: 0 }
    }

    /// Adds seconds of runtime.
    pub fn add_seconds(&mut self, seconds: u64)
        requires
            old(self).seconds_running + seconds <= u64::MAX,
        ensures
            *final(self) == (TokenTotals {
                seconds_running: (old(self).seconds_running + seconds) as u64,
                ..*old(self)
            }),
    {
        self.seconds_running = self.seconds_running + seconds;
    }
}

} // verus!
