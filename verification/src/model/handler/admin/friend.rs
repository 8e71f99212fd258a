use vstd::prelude::*;
use crate::model::LinkStatus;

verus! {

/// A friend link as the admin side sees it. There is no e-mail field at all, so no read can
/// ever return the address.
#[derive(Debug, Clone)]
pub struct FriendLinkAdmin {
    pub id: String,
    pub url: String,
    pub name: String,
    pub intro: String,
    pub icon: Option<String>,
    pub feedback_status: LinkStatus,
    /// yyyy-MM-dd HH:mm:ss
    pub create_at: String,
}

/// A friend link added by the admin (same shape as a visitor's application).
#[derive(Debug, Clone)]
pub struct FriendLinkInput {
    pub url: String,
    pub name: String,
    pub intro: String,
    pub icon: Option<String>,
    pub email: Option<String>,
}

/// The admin's text for a refusal.
#[derive(Debug, Clone)]
pub struct RefuseInput {
    pub message: String,
}

/// Outcome of accepting or refusing. A mail that could not be sent is no error: the decision
/// is done either way, and `notified` says whether the mail went out.
#[derive(Debug, Clone)]
pub struct DecideRes {
    pub id: String,
    pub notified: bool,
}

} // verus!
