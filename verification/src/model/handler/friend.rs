use vstd::prelude::*;

verus! {

/// A public friend link. It has no e-mail field on purpose: no read path returns the address.
#[derive(Debug, Clone)]
pub struct FriendLink {
    pub url: String,
    pub name: String,
    pub intro: String,
    pub icon: Option<String>,
}

/// A visitor's friend-link application.
#[derive(Debug, Clone)]
pub struct FriendApplyInput {
    pub url: String,
    pub name: String,
    pub intro: String,
    pub icon: Option<String>,
    /// Notification address: written once, never returned by any read.
    pub email: Option<String>,
}

} // verus!
