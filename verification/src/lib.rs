//! Symphony: the verified core of an orchestrator that runs coding agents on
//! tracker issues.

pub mod config;
pub mod domain;
pub mod http_server;
pub mod issue_map;
pub mod monotonic;
pub mod observability;
pub mod orchestrator;
pub mod outside;
pub mod timestamp;
