//! Durable job queue and lifecycle state machine of a single-host work
//! orchestrator: projects, environments, tasks and the jobs that drive them.

pub mod cli;
pub mod client;
pub mod clock;
pub mod config;
pub mod daemon;
pub mod db;
pub mod environment;
pub mod id;
pub mod order;
pub mod paths;
pub mod text;
pub mod tui;
