use vstd::prelude::*;

verus! {

/// `type` is an SQL keyword; the column is read as `social_type`.
#[derive(Debug, Clone)]
pub struct SocialRow {
    pub id: String,
    pub social_type: String,
    pub icon: Option<String>,
    pub value: String,
    pub created_at: i64,
}

pub const SELECT_SOCIAL: &'static str = "SELECT id, \"type\" AS social_type, icon, value, created_at FROM social";

} // verus!
