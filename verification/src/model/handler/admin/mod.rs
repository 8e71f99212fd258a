pub mod article;
pub mod auth;
pub mod blob;
pub mod friend;
pub mod mail;
pub mod site;
pub mod social;
