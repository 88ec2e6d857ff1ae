//! The orchestrator's runtime state and its retry rules.

pub mod laws;
pub mod retry;
pub mod state;
