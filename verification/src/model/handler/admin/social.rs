use vstd::prelude::*;
use crate::model::handler::site::SocialType;

verus! {

#[derive(Debug, Clone)]
pub struct SocialInput {
    pub social_type: SocialType,
    pub icon: Option<String>,
    pub value: String,
}

#[derive(Debug, Clone)]
pub struct SocialAdmin {
    pub id: String,
    pub social_type: SocialType,
    pub icon: Option<String>,
    pub value: String,
    /// yyyy-MM-dd HH:mm:ss
    pub create_at: String,
}

} // verus!
