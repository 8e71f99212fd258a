//! Orchestration that sits between the handlers and the stores: what to send, what to keep,
//! what an answer means.
pub mod article;
pub mod site;
pub mod auth;
pub mod mail;
pub mod friend;
pub mod ban;
pub mod blob;
pub mod search;
