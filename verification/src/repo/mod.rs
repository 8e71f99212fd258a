//! The shapes of stored rows and the SQL text that reads them.
//!
//! The queries themselves run outside the library; what is here is what they select and what
//! comes back, so that the mapping from rows to responses can be checked.
pub mod article;
pub mod friend;
pub mod mail;
pub mod site;
pub mod social;
