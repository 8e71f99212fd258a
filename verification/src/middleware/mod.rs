//! What the request middleware decides: who may pass and what is logged.
pub mod auth;
pub mod ban;
pub mod cron;
pub mod logging;
pub mod cors;
