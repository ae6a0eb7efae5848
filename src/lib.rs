//! A watchdog that probes a target over HTTP and runs a remediation command
//! once consecutive failures exceed a configured budget.

pub mod args;
pub mod config;
pub mod health_service;
pub mod transport;

pub use args::Args;
pub use config::{Body, Command, Config, Grace, HealthError, Request};
pub use health_service::{Service, State, Transition};
