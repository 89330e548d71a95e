//! Verified core of the VPS monitoring backend: the decision logic behind
//! batch commands, service monitors, traffic accounting, renewals,
//! authentication, notifications and configuration handling.

pub mod text;
pub mod batch;
pub mod monitor;
pub mod time;
pub mod traffic;
pub mod renewal;
pub mod encryption;
pub mod errors;
pub mod auth;
pub mod notify;
pub mod agent_config;
pub mod metrics;
pub mod oauth;
pub mod api;
pub mod ws;
