use vstd::prelude::*;

verus! {

/// One friend link. There is deliberately no `email` here: the address is never returned by
/// any read, so the field does not exist.
#[derive(Debug, Clone)]
pub struct FriendLinkRow {
    pub id: String,
    pub site_name: String,
    pub site_url: String,
    pub site_intro: String,
    pub site_icon: Option<String>,
    pub feedback_status: String,
    pub created_at: i64,
}

/// The only shape that carries `email`: read by the accept and refuse paths alone, and the
/// address never leaves them.
#[derive(Debug, Clone)]
pub struct FriendLinkMailRow {
    pub site_name: String,
    pub site_url: String,
    pub feedback_status: String,
    pub email: Option<String>,
}

pub struct NewFriendLink<'a> {
    pub url: &'a str,
    pub name: &'a str,
    pub intro: &'a str,
    pub icon: Option<&'a str>,
    pub email: Option<&'a str>,
}

/// The column list of every friend-link read; `email` is not among them.
pub const SELECT_FRIEND: &'static str = "SELECT id, site_name, site_url, site_intro, site_icon, feedback_status, \
                             created_at FROM friend_link";

} // verus!
