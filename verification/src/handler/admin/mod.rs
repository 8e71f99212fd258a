//! The admin side, one module per resource.
pub mod article;
pub mod auth;
pub mod friend;
pub mod mail;
pub mod search;
pub mod site;
pub mod social;
